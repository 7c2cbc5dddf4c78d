//! The report formatter: fixed-width tables over scan results, with an
//! exact rendering contract. Formatting never fails — a value whose
//! measurement failed arrives as `None` and renders as the error
//! marker.

use vstd::prelude::*;
use vstd::string::StrSliceExecFns;
use vstd::string::StringExecFns;

use crate::external::LOCAL_TIME_MAX_MS;
use crate::external::format_local_timestamp;
use crate::numfmt::dec_digits;
use crate::numfmt::human_readable_time;
use crate::numfmt::lemma_spaces_len;
use crate::numfmt::push_spaces;
use crate::numfmt::spaces;
use crate::numfmt::time_text;
use crate::numfmt::u64_to_string;
use crate::scan::ClipEntry;
use crate::scan::SessionEntry;
use crate::scan::lemma_failed_clip_excluded;
use crate::scan::sum_measured;
use crate::scan::total_measured_duration;

verus! {

/// The name column: left-justified, padded to width 42 when the name is
/// shorter; a longer name is emitted unpadded, and the column drift is
/// accepted, reproducible behaviour.
pub open spec fn name_cell(name: Seq<char>) -> Seq<char> {
    if name.len() < 42 {
        name + spaces((42 - name.len()) as nat)
    } else {
        name
    }
}

/// The duration column: left-justified, padded to width 17 when the
/// rendered duration is shorter than 14 characters. The asymmetry
/// between the check (14) and the pad width (17) is historical and kept
/// as it is.
pub open spec fn duration_cell(text: Seq<char>) -> Seq<char> {
    if text.len() < 14 {
        text + spaces((17 - text.len()) as nat)
    } else {
        text
    }
}

/// What stands in a duration column: the human-readable duration, or
/// the error marker when measurement failed.
pub open spec fn measured_text(d: Option<u64>) -> Seq<char> {
    match d {
        Some(ms) => time_text(ms as nat),
        None => "ERROR"@,
    }
}

/// The header row: each column title with its fixed run of literal
/// spaces, then the scanner-specific last column title.
pub open spec fn header_text(last_col: Seq<char>) -> Seq<char> {
    "Name"@ + spaces(38) + "Duration"@ + spaces(9) + last_col + "\n"@
}

/// The difference `t - anchor`, wrapped into the unsigned 64-bit range
/// as the clip scanner's delta-from-anchor cast produces it.
pub open spec fn delta_ms(t: int, anchor: int) -> int {
    if t >= anchor {
        t - anchor
    } else {
        t - anchor + 0x1_0000_0000_0000_0000
    }
}

/// The timestamp column of clip row `i`: the formatted local calendar
/// timestamp for the anchor row, and a `+`-prefixed delta from the
/// anchor for every later row.
pub open spec fn row_time_text(clips: Seq<ClipEntry>, anchor: Seq<char>, i: int) -> Seq<char> {
    if i == 0 {
        anchor
    } else {
        "+"@ + time_text(delta_ms(clips[i].created_ms as int, clips[0].created_ms as int) as nat)
    }
}

/// Clip row `i` of the table.
pub open spec fn clip_row_text(clips: Seq<ClipEntry>, anchor: Seq<char>, i: int) -> Seq<char> {
    name_cell(clips[i].name@) + duration_cell(measured_text(clips[i].duration_ms)) + row_time_text(
        clips,
        anchor,
        i,
    ) + "\n"@
}

/// The first `n` clip rows, in order.
pub open spec fn clip_rows_text(clips: Seq<ClipEntry>, anchor: Seq<char>, n: int) -> Seq<char>
    decreases n,
{
    if n <= 0 {
        Seq::empty()
    } else {
        clip_rows_text(clips, anchor, n - 1) + clip_row_text(clips, anchor, n - 1)
    }
}

/// The clip scanner's summary line: clip count and total measured
/// duration, with the anchor timestamp when at least one clip exists.
pub open spec fn clip_summary_text(clips: Seq<ClipEntry>, anchor: Seq<char>) -> Seq<char> {
    "Total of "@ + dec_digits(clips.len()) + " clips, total duration is "@ + time_text(
        sum_measured(clips) as nat,
    ) + (if clips.len() > 0 {
        ", created at "@ + anchor
    } else {
        Seq::empty()
    }) + "\n\n"@
}

/// The whole clip report: summary, header, one row per clip.
pub open spec fn clip_report_text(clips: Seq<ClipEntry>, anchor: Seq<char>) -> Seq<char> {
    clip_summary_text(clips, anchor) + header_text("Recording Time"@) + clip_rows_text(
        clips,
        anchor,
        clips.len() as int,
    )
}

/// Session row for `rows[i]`, with its already-rendered timestamp cell.
pub open spec fn session_row_text(row: SessionEntry, time_cell: Seq<char>) -> Seq<char> {
    name_cell(row.name@) + duration_cell(measured_text(row.duration_ms)) + time_cell + "\n"@
}

/// The first `n` session rows, in order.
pub open spec fn session_rows_text(rows: Seq<SessionEntry>, times: Seq<Seq<char>>, n: int) -> Seq<
    char,
>
    decreases n,
{
    if n <= 0 {
        Seq::empty()
    } else {
        session_rows_text(rows, times, n - 1) + session_row_text(rows[n - 1], times[n - 1])
    }
}

/// The whole session report: the video count, the header, one row per
/// retained session.
pub open spec fn session_report_text(rows: Seq<SessionEntry>, times: Seq<Seq<char>>) -> Seq<char> {
    "Total of "@ + dec_digits(rows.len()) + " videos"@ + "\n\n"@ + header_text("Creation Date"@)
        + session_rows_text(rows, times, rows.len() as int)
}

/// A name one short of the column width is followed by exactly one
/// space before the next column; a name at or beyond the width gets no
/// padding at all.
pub proof fn lemma_name_padding(name: Seq<char>)
    ensures
        name.len() < 42 ==> name_cell(name) == name + spaces((42 - name.len()) as nat)
            && name_cell(name).len() == 42,
        name.len() == 41 ==> name_cell(name) == name + seq![' '],
        name.len() >= 42 ==> name_cell(name) == name,
{
    if name.len() < 42 {
        lemma_spaces_len((42 - name.len()) as nat);
        if name.len() == 41 {
            assert(spaces(1) =~= seq![' ']);
        }
    }
}

/// A clip whose duration measurement failed still renders a row of its
/// own — with the error marker in the duration cell — and contributes
/// nothing to the total: removing it leaves the total unchanged.
pub proof fn lemma_partial_failure_isolated(clips: Seq<ClipEntry>, anchor: Seq<char>, i: int)
    requires
        0 <= i < clips.len(),
        clips[i].duration_ms is None,
    ensures
        clip_row_text(clips, anchor, i) == name_cell(clips[i].name@) + duration_cell("ERROR"@)
            + row_time_text(clips, anchor, i) + "\n"@,
        sum_measured(clips) == sum_measured(clips.remove(i)),
{
    lemma_failed_clip_excluded(clips, i);
}

fn measured_str(d: Option<u64>) -> (r: String)
    ensures
        r@ == measured_text(d),
{
    match d {
        Some(ms) => human_readable_time(ms),
        None => "ERROR".to_owned(),
    }
}

fn append_name_cell(s: &mut String, name: &str)
    ensures
        final(s)@ == old(s)@ + name_cell(name@),
{
    let n = name.unicode_len();
    s.append(name);
    if n < 42 {
        push_spaces(s, 42 - n);
        proof {
            assert(s@ =~= old(s)@ + name_cell(name@));
        }
    }
}

fn append_duration_cell(s: &mut String, d: Option<u64>)
    ensures
        final(s)@ == old(s)@ + duration_cell(measured_text(d)),
{
    let text = measured_str(d);
    let n = text.as_str().unicode_len();
    s.append(text.as_str());
    if n < 14 {
        push_spaces(s, 17 - n);
        proof {
            assert(s@ =~= old(s)@ + duration_cell(measured_text(d)));
        }
    }
}

fn delta_from_anchor(t: u64, anchor: u64) -> (d: u64)
    ensures
        d as int == delta_ms(t as int, anchor as int),
{
    if t >= anchor {
        t - anchor
    } else {
        (u64::MAX - (anchor - t)) + 1
    }
}

/// Render the clip scanner's report against an already-rendered anchor
/// timestamp cell.
pub fn render_clip_report(clips: &Vec<ClipEntry>, anchor_time: &str) -> (r: String)
    requires
        sum_measured(clips@) <= u64::MAX,
    ensures
        r@ == clip_report_text(clips@, anchor_time@),
{
    let total = total_measured_duration(clips);
    proof {
        crate::scan::lemma_sum_measured_nonneg(clips@);
    }
    let mut s = String::new();
    s.append("Total of ");
    let count = u64_to_string(clips.len() as u64);
    s.append(count.as_str());
    s.append(" clips, total duration is ");
    let total_text = human_readable_time(total);
    s.append(total_text.as_str());
    if clips.len() > 0 {
        s.append(", created at ");
        s.append(anchor_time);
    }
    s.append("\n\n");
    proof {
        assert(s@ =~= clip_summary_text(clips@, anchor_time@));
    }
    s.append("Name");
    push_spaces(&mut s, 38);
    s.append("Duration");
    push_spaces(&mut s, 9);
    s.append("Recording Time");
    s.append("\n");
    let ghost base = clip_summary_text(clips@, anchor_time@) + header_text("Recording Time"@);
    proof {
        assert(s@ =~= base);
        assert(s@ =~= base + clip_rows_text(clips@, anchor_time@, 0));
    }
    let mut i: usize = 0;
    while i < clips.len()
        invariant
            i <= clips@.len(),
            s@ == base + clip_rows_text(clips@, anchor_time@, i as int),
        decreases clips@.len() - i,
    {
        append_name_cell(&mut s, clips[i].name.as_str());
        append_duration_cell(&mut s, clips[i].duration_ms);
        if i == 0 {
            s.append(anchor_time);
        } else {
            s.append("+");
            let d = delta_from_anchor(clips[i].created_ms, clips[0].created_ms);
            let delta_text = human_readable_time(d);
            s.append(delta_text.as_str());
        }
        s.append("\n");
        proof {
            assert(s@ =~= base + clip_rows_text(clips@, anchor_time@, i as int + 1));
        }
        i = i + 1;
    }
    s
}

/// Render the clip scanner's report, formatting the anchor row's
/// timestamp as a local calendar time. The anchor cell comes from the
/// machine's time zone, so the contract fixes the report for some
/// anchor rendering rather than a particular one.
pub fn clip_report(clips: &Vec<ClipEntry>) -> (r: String)
    requires
        sum_measured(clips@) <= u64::MAX,
        clips@.len() > 0 ==> clips@[0].created_ms <= LOCAL_TIME_MAX_MS,
    ensures
        exists|anchor: Seq<char>| r@ == clip_report_text(clips@, anchor),
{
    let anchor = if clips.len() > 0 {
        format_local_timestamp(clips[0].created_ms)
    } else {
        String::new()
    };
    let r = render_clip_report(clips, anchor.as_str());
    proof {
        assert(r@ == clip_report_text(clips@, anchor@));
    }
    r
}

/// Render the session scanner's report against already-rendered
/// timestamp cells, one per session.
pub fn render_session_report(rows: &Vec<SessionEntry>, time_cells: &Vec<String>) -> (r: String)
    requires
        rows@.len() == time_cells@.len(),
    ensures
        r@ == session_report_text(rows@, time_cells@.map_values(|t: String| t@)),
{
    let ghost times = time_cells@.map_values(|t: String| t@);
    let mut s = String::new();
    s.append("Total of ");
    let count = u64_to_string(rows.len() as u64);
    s.append(count.as_str());
    s.append(" videos");
    s.append("\n\n");
    s.append("Name");
    push_spaces(&mut s, 38);
    s.append("Duration");
    push_spaces(&mut s, 9);
    s.append("Creation Date");
    s.append("\n");
    let ghost base = "Total of "@ + dec_digits(rows@.len()) + " videos"@ + "\n\n"@ + header_text(
        "Creation Date"@,
    );
    proof {
        assert(s@ =~= base);
        assert(s@ =~= base + session_rows_text(rows@, times, 0));
    }
    let mut i: usize = 0;
    while i < rows.len()
        invariant
            i <= rows@.len(),
            rows@.len() == time_cells@.len(),
            times == time_cells@.map_values(|t: String| t@),
            s@ == base + session_rows_text(rows@, times, i as int),
        decreases rows@.len() - i,
    {
        append_name_cell(&mut s, rows[i].name.as_str());
        append_duration_cell(&mut s, rows[i].duration_ms);
        s.append(time_cells[i].as_str());
        s.append("\n");
        proof {
            assert(s@ =~= base + session_rows_text(rows@, times, i as int + 1));
        }
        i = i + 1;
    }
    s
}

/// Render the session scanner's report, formatting each retained
/// session's creation timestamp as a local calendar time. Each cell
/// comes from the machine's time zone, so the contract fixes the report
/// for some sequence of timestamp cells, one per row.
pub fn session_report(rows: &Vec<SessionEntry>) -> (r: String)
    requires
        forall|i: int| 0 <= i < rows@.len() ==> rows@[i].created_ms <= LOCAL_TIME_MAX_MS,
    ensures
        exists|times: Seq<Seq<char>>|
            times.len() == rows@.len() && r@ == session_report_text(rows@, times),
{
    let mut cells: Vec<String> = Vec::new();
    let mut i: usize = 0;
    while i < rows.len()
        invariant
            i <= rows@.len(),
            cells@.len() == i,
            forall|k: int| 0 <= k < rows@.len() ==> rows@[k].created_ms <= LOCAL_TIME_MAX_MS,
        decreases rows@.len() - i,
    {
        let cell = format_local_timestamp(rows[i].created_ms);
        cells.push(cell);
        i = i + 1;
    }
    let r = render_session_report(rows, &cells);
    proof {
        let witness = cells@.map_values(|t: String| t@);
        assert(witness.len() == rows@.len() && r@ == session_report_text(rows@, witness));
    }
    r
}

} // verus!
