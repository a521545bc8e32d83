//! Process snapshots and their table rows.
//!
//! Each tick replaces the whole process snapshot; there is no diffing
//! and no identity across ticks. A record carries plain values (pid,
//! name, CPU load in hundredths of a percent, memory in kilobytes) and
//! is formatted here into the strings the table shows.

use vstd::prelude::*;
use vstd::string::StringExecFns;

verus! {

/// The decimal digit characters.
pub open spec fn dec_digit(d: nat) -> char {
    if d == 0 {
        '0'
    } else if d == 1 {
        '1'
    } else if d == 2 {
        '2'
    } else if d == 3 {
        '3'
    } else if d == 4 {
        '4'
    } else if d == 5 {
        '5'
    } else if d == 6 {
        '6'
    } else if d == 7 {
        '7'
    } else if d == 8 {
        '8'
    } else {
        '9'
    }
}

/// The usual decimal notation of `n`, most significant digit first, no
/// leading zeros (a single `0` for zero).
pub open spec fn dec_str(n: nat) -> Seq<char>
    decreases n,
{
    if n < 10 {
        seq![dec_digit(n)]
    } else {
        dec_str(n / 10) + seq![dec_digit(n % 10)]
    }
}

/// The one-character string for a decimal digit.
fn digit_to_str(d: u64) -> (s: &'static str)
    requires
        d < 10,
    ensures
        s@ =~= seq![dec_digit(d as nat)],
{
    proof {
        reveal_strlit("0");
        reveal_strlit("1");
        reveal_strlit("2");
        reveal_strlit("3");
        reveal_strlit("4");
        reveal_strlit("5");
        reveal_strlit("6");
        reveal_strlit("7");
        reveal_strlit("8");
        reveal_strlit("9");
    }
    match d {
        0 => "0",
        1 => "1",
        2 => "2",
        3 => "3",
        4 => "4",
        5 => "5",
        6 => "6",
        7 => "7",
        8 => "8",
        _ => "9",
    }
}

/// Renders `n` in decimal.
pub fn u64_to_dec(n: u64) -> (s: String)
    ensures
        s@ == dec_str(n as nat),
    decreases n,
{
    if n < 10 {
        String::from_str(digit_to_str(n))
    } else {
        let mut s = u64_to_dec(n / 10);
        s.append(digit_to_str(n % 10));
        s
    }
}

/// The label shown for a memory amount: the kilobyte count and a unit.
pub open spec fn memory_label_spec(kb: nat) -> Seq<char> {
    dec_str(kb) + " KB"@
}

/// Formats a memory amount in kilobytes, e.g. `1024 KB`.
pub fn format_memory_kb(kb: u64) -> (s: String)
    ensures
        s@ == memory_label_spec(kb as nat),
{
    let mut s = u64_to_dec(kb);
    s.append(" KB");
    s
}

/// The label shown for a CPU load given in hundredths of a percent:
/// two fixed fraction digits and a percent sign.
pub open spec fn cpu_label_spec(hundredths: nat) -> Seq<char> {
    dec_str(hundredths / 100) + "."@ + seq![
        dec_digit((hundredths / 10) % 10),
        dec_digit(hundredths % 10),
    ] + "%"@
}

/// Formats a CPU load from hundredths of a percent, e.g. `307` into
/// `3.07%`.
pub fn format_cpu_hundredths(hundredths: u64) -> (s: String)
    ensures
        s@ == cpu_label_spec(hundredths as nat),
{
    let mut s = u64_to_dec(hundredths / 100);
    s.append(".");
    s.append(digit_to_str((hundredths / 10) % 10));
    s.append(digit_to_str(hundredths % 10));
    s.append("%");
    proof {
        assert(s@ =~= cpu_label_spec(hundredths as nat));
    }
    s
}

/// One process in a snapshot, as plain values.
pub struct ProcessRecord {
    /// Process id.
    pub pid: u64,
    /// Process name.
    pub name: String,
    /// CPU load of the process, in hundredths of a percent.
    pub cpu_hundredths: u64,
    /// Memory used by the process, in kilobytes.
    pub memory_kb: u64,
}

/// One row of the process table: the four cell strings.
pub struct ProcessRow {
    /// The pid in decimal.
    pub pid: String,
    /// The process name, unchanged.
    pub name: String,
    /// The CPU load label.
    pub cpu: String,
    /// The memory label.
    pub memory: String,
}

/// How a record's row must read.
pub open spec fn row_matches(rec: ProcessRecord, row: ProcessRow) -> bool {
    &&& row.pid@ == dec_str(rec.pid as nat)
    &&& row.name@ == rec.name@
    &&& row.cpu@ == cpu_label_spec(rec.cpu_hundredths as nat)
    &&& row.memory@ == memory_label_spec(rec.memory_kb as nat)
}

/// Formats one record into its table row.
pub fn format_record(rec: &ProcessRecord) -> (row: ProcessRow)
    ensures
        row_matches(*rec, row),
{
    ProcessRow {
        pid: u64_to_dec(rec.pid),
        name: rec.name.clone(),
        cpu: format_cpu_hundredths(rec.cpu_hundredths),
        memory: format_memory_kb(rec.memory_kb),
    }
}

/// Formats a whole snapshot, row for record, in order. An empty
/// snapshot yields an empty table and is no error.
pub fn process_rows(records: &Vec<ProcessRecord>) -> (rows: Vec<ProcessRow>)
    ensures
        rows@.len() == records@.len(),
        forall|i: int| 0 <= i < records@.len() ==> row_matches(records@[i], #[trigger] rows@[i]),
{
    let mut rows: Vec<ProcessRow> = Vec::new();
    let mut idx: usize = 0;
    while idx < records.len()
        invariant
            idx <= records@.len(),
            rows@.len() == idx,
            forall|i: int| 0 <= i < idx ==> row_matches(records@[i], #[trigger] rows@[i]),
        decreases records@.len() - idx,
    {
        rows.push(format_record(&records[idx]));
        idx = idx + 1;
    }
    rows
}

} // verus!
