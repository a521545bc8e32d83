//! The CPU cat: which frame to show, how far to push it, how long to
//! pause.
//!
//! The widget animates a small ASCII cat whose frame, indentation and
//! animation pace follow the load average. Everything here is the
//! decision and the text; drawing the paragraph and sleeping are the
//! driver's work.

use vstd::prelude::*;
use vstd::string::StringExecFns;

verus! {

/// The two frames of the cat, line by line.
pub open spec fn cat_art(open_eyes: bool) -> Seq<Seq<char>> {
    if open_eyes {
        seq![" /\\_/\\  "@, "( o.o ) "@, " > ^ <  "@, "  )_(  "@, " /   \\ "@]
    } else {
        seq![" /\\_/\\  "@, "( -.- ) "@, " < ^ >  "@, "  )_(  "@, " /   \\ "@]
    }
}

/// A run of `n` dashes, the indentation put before every line.
pub open spec fn dashes(n: nat) -> Seq<char> {
    Seq::new(n, |i: int| '-')
}

/// The padded frame: every line prefixed with the padding, lines joined
/// by newlines (no trailing newline).
pub open spec fn padded_frame(lines: Seq<Seq<char>>, pad: Seq<char>) -> Seq<char>
    decreases lines.len(),
{
    if lines.len() == 0 {
        Seq::empty()
    } else if lines.len() == 1 {
        pad + lines[0]
    } else {
        padded_frame(lines.drop_last(), pad) + seq!['\n'] + pad + lines.last()
    }
}

/// Which frame the load selects: the blinking frame on a quiet machine,
/// the open-eyed one under load.
pub fn cat_frame_open_eyes(load: u64) -> (open_eyes: bool)
    ensures
        open_eyes == (load > 10),
{
    load > 10
}

/// How long the animation pauses after a frame: quick under load.
pub fn cat_sleep_millis(load: u64) -> (ms: u64)
    ensures
        ms == (if load < 50 {
            500u64
        } else {
            200u64
        }),
{
    if load < 50 {
        500
    } else {
        200
    }
}

/// Builds the selected frame's lines.
pub fn cat_frame_lines(open_eyes: bool) -> (lines: Vec<String>)
    ensures
        lines.deep_view() == cat_art(open_eyes),
{
    let mut lines: Vec<String> = Vec::new();
    lines.push(String::from_str(" /\\_/\\  "));
    if open_eyes {
        lines.push(String::from_str("( o.o ) "));
        lines.push(String::from_str(" > ^ <  "));
    } else {
        lines.push(String::from_str("( -.- ) "));
        lines.push(String::from_str(" < ^ >  "));
    }
    lines.push(String::from_str("  )_(  "));
    lines.push(String::from_str(" /   \\ "));
    proof {
        assert(lines.deep_view() =~= cat_art(open_eyes));
    }
    lines
}

/// Builds the indentation for the given load: one dash per load point.
pub fn dash_padding(n: u64) -> (s: String)
    ensures
        s@ == dashes(n as nat),
{
    let mut s = String::new();
    let mut i: u64 = 0;
    proof {
        reveal_strlit("-");
        assert(s@ =~= dashes(0));
    }
    while i < n
        invariant
            i <= n,
            s@ == dashes(i as nat),
            "-"@ =~= seq!['-'],
        decreases n - i,
    {
        s.append("-");
        i = i + 1;
        proof {
            assert(s@ =~= dashes(i as nat));
        }
    }
    s
}

/// Joins the frame's lines, each prefixed with the padding, into the
/// text the widget shows.
pub fn pad_frame(lines: &Vec<String>, pad: &str) -> (out: String)
    ensures
        out@ == padded_frame(lines.deep_view(), pad@),
{
    let mut out = String::new();
    let mut idx: usize = 0;
    proof {
        assert(out@ =~= padded_frame(lines.deep_view().take(0), pad@));
    }
    while idx < lines.len()
        invariant
            idx <= lines@.len(),
            lines.deep_view().len() == lines@.len(),
            out@ == padded_frame(lines.deep_view().take(idx as int), pad@),
        decreases lines@.len() - idx,
    {
        if idx > 0 {
            out.append("\n");
        }
        out.append(pad);
        out.append(lines[idx].as_str());
        idx = idx + 1;
        proof {
            let dv = lines.deep_view();
            assert(dv.take(idx as int).drop_last() =~= dv.take(idx as int - 1));
            assert(dv.take(idx as int).last() == dv[idx as int - 1]);
            reveal_strlit("\n");
            assert(out@ =~= padded_frame(dv.take(idx as int), pad@));
        }
    }
    proof {
        assert(lines.deep_view().take(lines@.len() as int) =~= lines.deep_view());
    }
    out
}

/// The whole text for the cat widget at a given load: frame chosen by
/// the load, every line pushed right by one dash per load point.
pub fn cat_view(load: u64) -> (out: String)
    ensures
        out@ == padded_frame(cat_art(load > 10), dashes(load as nat)),
{
    let open_eyes = cat_frame_open_eyes(load);
    let lines = cat_frame_lines(open_eyes);
    let pad = dash_padding(load);
    pad_frame(&lines, pad.as_str())
}

} // verus!
