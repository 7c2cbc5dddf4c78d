use clipcat::scan::ClipEntry;
use clipcat::scan::SessionCandidate;
use clipcat::scan::select_sessions;
use clipcat::scan::total_measured_duration;

fn cand(name: &str, created_ms: u64, clip_count: Option<usize>) -> SessionCandidate {
    SessionCandidate { name: name.to_owned(), created_ms, clip_count }
}

fn names(sessions: &[SessionCandidate]) -> Vec<&str> {
    sessions.iter().map(|s| s.name.as_str()).collect()
}

#[test]
fn sessions_exclude_failed_and_empty_listings() {
    let cands = vec![
        cand("kept-late", 300, Some(2)),
        cand("empty", 100, Some(0)),
        cand("kept-mid", 200, Some(1)),
        cand("failed", 50, None),
        cand("kept-early", 100, Some(5)),
    ];
    let selected = select_sessions(cands);
    assert_eq!(names(&selected), vec!["kept-early", "kept-mid", "kept-late"]);
}

#[test]
fn sessions_sort_ascending_and_stably() {
    let cands = vec![
        cand("c", 200, Some(1)),
        cand("b", 300, Some(2)),
        cand("f", 200, Some(1)),
        cand("e", 100, Some(5)),
    ];
    let selected = select_sessions(cands);
    // ties on the creation timestamp keep enumeration order: c before f
    assert_eq!(names(&selected), vec!["e", "c", "f", "b"]);
}

#[test]
fn no_valid_session_yields_an_empty_listing() {
    let cands = vec![cand("empty", 1, Some(0)), cand("failed", 2, None)];
    let selected = select_sessions(cands);
    assert!(selected.is_empty());
}

#[test]
fn total_skips_failed_measurements() {
    let clips = vec![
        ClipEntry { name: "a".to_owned(), created_ms: 0, duration_ms: Some(1500) },
        ClipEntry { name: "b".to_owned(), created_ms: 0, duration_ms: None },
        ClipEntry { name: "c".to_owned(), created_ms: 0, duration_ms: Some(500) },
    ];
    assert_eq!(total_measured_duration(&clips), 2000);
    let empty: Vec<ClipEntry> = vec![];
    assert_eq!(total_measured_duration(&empty), 0);
}
