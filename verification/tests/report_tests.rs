use clipcat::report::clip_report;
use clipcat::report::render_clip_report;
use clipcat::report::render_session_report;
use clipcat::scan::ClipEntry;
use clipcat::scan::SessionEntry;
use clipcat::scan::total_measured_duration;

fn clip(name: &str, created_ms: u64, duration_ms: Option<u64>) -> ClipEntry {
    ClipEntry { name: name.to_owned(), created_ms, duration_ms }
}

fn header(last_col: &str) -> String {
    format!("Name{}Duration{}{}\n", " ".repeat(38), " ".repeat(9), last_col)
}

#[test]
fn clip_report_three_clips_summary() {
    let clips = vec![
        clip("a", 100, Some(1500)),
        clip("b", 200, Some(2000)),
        clip("c", 300, Some(500)),
    ];
    let report = render_clip_report(&clips, "ANCHOR");
    assert!(report.starts_with("Total of 3 clips, total duration is 0m 4s 0ms, created at ANCHOR\n\n"));
}

#[test]
fn clip_report_full_text() {
    let clips = vec![
        clip("a", 100, Some(1500)),
        clip("b", 200, Some(2000)),
        clip("c", 300, Some(500)),
    ];
    let report = render_clip_report(&clips, "ANCHOR");
    let mut expected = String::new();
    expected.push_str("Total of 3 clips, total duration is 0m 4s 0ms, created at ANCHOR\n\n");
    expected.push_str(&header("Recording Time"));
    expected.push_str(&format!("a{}0m 1s 500ms{}ANCHOR\n", " ".repeat(41), " ".repeat(6)));
    expected.push_str(&format!("b{}0m 2s 0ms{}+0m 0s 100ms\n", " ".repeat(41), " ".repeat(8)));
    expected.push_str(&format!("c{}0m 0s 500ms{}+0m 0s 200ms\n", " ".repeat(41), " ".repeat(6)));
    assert_eq!(report, expected);
}

#[test]
fn clip_report_empty() {
    let clips: Vec<ClipEntry> = vec![];
    let report = render_clip_report(&clips, "UNUSED");
    let mut expected = String::new();
    expected.push_str("Total of 0 clips, total duration is 0m 0s 0ms\n\n");
    expected.push_str(&header("Recording Time"));
    assert_eq!(report, expected);
}

#[test]
fn failed_measurement_renders_error_and_is_excluded_from_total() {
    let clips = vec![
        clip("A", 100, Some(1500)),
        clip("B", 200, None),
        clip("C", 300, Some(500)),
    ];
    assert_eq!(total_measured_duration(&clips), 2000);
    let report = render_clip_report(&clips, "ANCHOR");
    let lines: Vec<&str> = report.lines().collect();
    // summary, blank, header, then one row per clip, the failed one included
    assert_eq!(lines.len(), 6);
    assert!(lines[3].starts_with("A"));
    assert!(lines[4].starts_with("B"));
    assert!(lines[5].starts_with("C"));
    assert_eq!(
        lines[4],
        &format!("B{}ERROR{}+0m 0s 100ms", " ".repeat(41), " ".repeat(12))
    );
    assert!(lines[0].contains("total duration is 0m 2s 0ms"));
}

#[test]
fn name_of_length_41_gets_exactly_one_space() {
    let name41 = "n".repeat(41);
    let clips = vec![clip(&name41, 0, Some(0))];
    let report = render_clip_report(&clips, "T");
    let row = report.lines().nth(3).unwrap();
    assert!(row.starts_with(&format!("{} 0m 0s 0ms", name41)));
    assert!(!row.starts_with(&format!("{}  0m 0s 0ms", name41)));
}

#[test]
fn name_of_length_42_gets_no_padding() {
    let name42 = "n".repeat(42);
    let clips = vec![clip(&name42, 0, Some(0))];
    let report = render_clip_report(&clips, "T");
    let row = report.lines().nth(3).unwrap();
    assert!(row.starts_with(&format!("{}0m 0s 0ms", name42)));
}

#[test]
fn duration_of_length_14_gets_no_padding() {
    // 100 minutes: "100m 0s 0ms" is 11 chars; use one that reaches 14:
    // "10000m 59s 999ms" is 16 chars, so take "100m 59s 999ms" (14).
    let clips = vec![clip("x", 0, Some(100 * 60_000 + 59_999))];
    let report = render_clip_report(&clips, "T");
    let row = report.lines().nth(3).unwrap();
    assert_eq!(row, &format!("x{}100m 59s 999msT", " ".repeat(41)));
}

#[test]
fn duration_of_length_13_pads_to_17() {
    // "10m 59s 999ms" is 13 chars: below the 14 check, padded to 17.
    let clips = vec![clip("x", 0, Some(10 * 60_000 + 59_999))];
    let report = render_clip_report(&clips, "T");
    let row = report.lines().nth(3).unwrap();
    assert_eq!(row, &format!("x{}10m 59s 999ms{}T", " ".repeat(41), " ".repeat(4)));
}

#[test]
fn session_report_full_text() {
    let rows = vec![
        SessionEntry { name: "first".to_owned(), created_ms: 100, duration_ms: Some(4000) },
        SessionEntry { name: "second".to_owned(), created_ms: 200, duration_ms: None },
    ];
    let cells = vec!["T1".to_owned(), "T2".to_owned()];
    let report = render_session_report(&rows, &cells);
    let mut expected = String::new();
    expected.push_str("Total of 2 videos\n\n");
    expected.push_str(&header("Creation Date"));
    expected.push_str(&format!("first{}0m 4s 0ms{}T1\n", " ".repeat(37), " ".repeat(8)));
    expected.push_str(&format!("second{}ERROR{}T2\n", " ".repeat(36), " ".repeat(12)));
    assert_eq!(report, expected);
}

#[test]
fn clip_report_formats_a_real_anchor() {
    // The anchor cell comes from the local calendar formatter; only its
    // surroundings are predictable here.
    let clips = vec![clip("only", 1_600_000_000_000, Some(1000))];
    let report = clip_report(&clips);
    assert!(report.starts_with("Total of 1 clips, total duration is 0m 1s 0ms, created at "));
    assert_eq!(report.lines().count(), 4);
}
