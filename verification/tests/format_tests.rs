use termdash::process::{
    format_cpu_hundredths, format_memory_kb, format_record, process_rows, u64_to_dec,
    ProcessRecord,
};

#[test]
fn decimal_rendering_exact() {
    assert_eq!(u64_to_dec(0), "0");
    assert_eq!(u64_to_dec(7), "7");
    assert_eq!(u64_to_dec(10), "10");
    assert_eq!(u64_to_dec(42), "42");
    assert_eq!(u64_to_dec(1234567890), "1234567890");
    assert_eq!(u64_to_dec(u64::MAX), "18446744073709551615");
}

#[test]
fn memory_label_exact() {
    assert_eq!(format_memory_kb(1024), "1024 KB");
    assert_eq!(format_memory_kb(0), "0 KB");
}

#[test]
fn cpu_label_exact() {
    assert_eq!(format_cpu_hundredths(307), "3.07%");
    assert_eq!(format_cpu_hundredths(0), "0.00%");
    assert_eq!(format_cpu_hundredths(5), "0.05%");
    assert_eq!(format_cpu_hundredths(50), "0.50%");
    assert_eq!(format_cpu_hundredths(12345), "123.45%");
    assert_eq!(format_cpu_hundredths(10000), "100.00%");
}

#[test]
fn record_formats_into_row() {
    let rec = ProcessRecord {
        pid: 4242,
        name: String::from("init"),
        cpu_hundredths: 150,
        memory_kb: 2048,
    };
    let row = format_record(&rec);
    assert_eq!(row.pid, "4242");
    assert_eq!(row.name, "init");
    assert_eq!(row.cpu, "1.50%");
    assert_eq!(row.memory, "2048 KB");
}

#[test]
fn empty_snapshot_formats_to_empty_table() {
    let rows = process_rows(&Vec::new());
    assert!(rows.is_empty());
}

#[test]
fn snapshot_formats_row_for_record_in_order() {
    let records = vec![
        ProcessRecord { pid: 1, name: String::from("a"), cpu_hundredths: 0, memory_kb: 1 },
        ProcessRecord { pid: 2, name: String::from("b"), cpu_hundredths: 99, memory_kb: 2 },
        ProcessRecord { pid: 3, name: String::from("c"), cpu_hundredths: 100, memory_kb: 3 },
    ];
    let rows = process_rows(&records);
    assert_eq!(rows.len(), 3);
    assert_eq!(rows[0].pid, "1");
    assert_eq!(rows[1].cpu, "0.99%");
    assert_eq!(rows[2].cpu, "1.00%");
    assert_eq!(rows[2].memory, "3 KB");
}
