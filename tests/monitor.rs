use site_checker::diff::{render_diff, LineOp, SiteResult, SiteResultDiff};
use site_checker::monitor::{FetchError, SiteAction, SiteMessage, SiteState};
use site_checker::schedule::Scheduler;

fn snap(status: u16, body: &str) -> SiteResult {
    SiteResult { status, bytes: body.as_bytes().to_vec() }
}

fn lines(v: &[&str]) -> Vec<String> {
    v.iter().map(|s| s.to_string()).collect()
}

fn fetch_error() -> Result<SiteResult, FetchError> {
    Err(FetchError { message: "connection refused".to_string() })
}

fn notification(a: SiteAction) -> (String, String) {
    match a {
        SiteAction::Notify(n) => (n.title, n.body),
        _ => panic!("expected a notification"),
    }
}

fn baselined(status: u16, body: &str) -> SiteState {
    let mut s = SiteState::new("NAU".to_string(), "https://www.nau.ch/".to_string());
    assert!(matches!(s.handle_message(SiteMessage::Check), SiteAction::Fetch(_)));
    assert!(matches!(s.handle_message(SiteMessage::Fetched(Ok(snap(status, body)))), SiteAction::Baseline(_)));
    s
}

#[test]
fn identical_snapshots_do_not_differ() {
    let a = snap(200, "<html>\n<body>same</body>\n</html>");
    let b = snap(200, "<html>\n<body>same</body>\n</html>");
    let d = a.diff(&b);
    assert!(!d.is_different());
    assert_eq!(d.status, None);
    assert_eq!(d.diff, None);
}

#[test]
fn empty_snapshots_do_not_differ() {
    assert!(!snap(200, "").diff(&snap(200, "")).is_different());
}

#[test]
fn status_only_change() {
    let d = snap(200, "A").diff(&snap(404, "A"));
    assert_eq!(d.status, Some(404));
    assert_eq!(d.diff, None);
    assert!(d.is_different());
    assert_eq!(d.description(), "New status '404'");
}

#[test]
fn content_only_change() {
    let d = snap(200, "line1\nline2").diff(&snap(200, "line1\nline3"));
    assert_eq!(d.status, None);
    let text = d.diff.clone().expect("content changed");
    assert!(text.contains("Replaced:\nline2\nwith\nline3"));
    assert_eq!(text, "Replaced:\nline2\nwith\nline3\n\n");
    assert_eq!(d.description(), "Site content changed\nReplaced:\nline2\nwith\nline3\n\n");
}

#[test]
fn status_and_content_change() {
    let d = snap(200, "a").diff(&snap(500, "b"));
    assert_eq!(d.status, Some(500));
    assert_eq!(
        d.description(),
        "New status '500' and site content changed\nReplaced:\na\nwith\nb\n\n"
    );
}

#[test]
fn added_and_removed_lines() {
    let d = snap(200, "a\nb\nc").diff(&snap(200, "a\nc\nd\ne"));
    assert_eq!(d.diff.unwrap(), "Removed:\nb\n\nAdded:\nd\ne\n\n");
}

#[test]
fn invalid_bytes_are_decoded_lossily() {
    let old = SiteResult { status: 200, bytes: vec![b'o', b'k'] };
    let new = SiteResult { status: 200, bytes: vec![b'o', 0xff] };
    let d = old.diff(&new);
    assert_eq!(d.diff.unwrap(), "Replaced:\nok\nwith\no\u{FFFD}\n\n");
}

#[test]
fn render_diff_skips_equal_runs() {
    let ops = vec![
        LineOp::Equal(lines(&["kept"])),
        LineOp::Insert(lines(&["x", "y"])),
        LineOp::Remove(lines(&["z"])),
        LineOp::Replace(lines(&["p", "q"]), lines(&["r"])),
    ];
    assert_eq!(
        render_diff(&ops),
        "Added:\nx\ny\n\nRemoved:\nz\n\nReplaced:\np\nq\nwith\nr\n\n"
    );
    assert_eq!(render_diff(&[]), "");
}

#[test]
fn report_from_equal_runs_only_has_no_content() {
    let ops = vec![LineOp::Equal(lines(&["a", "b"]))];
    let d = SiteResultDiff::from_ops(200, 200, &ops);
    assert_eq!(d.status, None);
    assert_eq!(d.diff, None);
    assert!(!d.is_different());
    let d = SiteResultDiff::from_ops(200, 301, &ops);
    assert_eq!(d.status, Some(301));
    assert_eq!(d.description(), "New status '301'");
}

#[test]
fn report_from_ops_renders_changes() {
    let ops = vec![LineOp::Equal(lines(&["a"])), LineOp::Remove(lines(&["b"]))];
    let d = SiteResultDiff::from_ops(0, 65535, &ops);
    assert_eq!(
        d.description(),
        "New status '65535' and site content changed\nRemoved:\nb\n\n"
    );
    let d = SiteResultDiff::from_ops(7, 0, &[]);
    assert_eq!(d.description(), "New status '0'");
}

#[test]
fn first_check_only_stores_a_baseline() {
    let mut s = SiteState::new("NAU".to_string(), "https://www.nau.ch/".to_string());
    match s.handle_message(SiteMessage::Check) {
        SiteAction::Fetch(url) => assert_eq!(url, "https://www.nau.ch/"),
        _ => panic!("expected a fetch"),
    }
    match s.handle_message(SiteMessage::Fetched(Ok(snap(503, "anything")))) {
        SiteAction::Baseline(status) => assert_eq!(status, 503),
        _ => panic!("expected a baseline"),
    }
    assert_eq!(s.result.as_ref().unwrap().status, 503);
    assert!(!s.in_flight);
}

#[test]
fn change_is_notified_with_site_title() {
    let mut s = baselined(200, "a");
    assert!(matches!(s.handle_message(SiteMessage::Check), SiteAction::Fetch(_)));
    let (title, body) = notification(s.handle_message(SiteMessage::Fetched(Ok(snap(500, "b")))));
    assert_eq!(title, "NAU Updated");
    assert_eq!(body, "New status '500' and site content changed\nReplaced:\na\nwith\nb\n\n");
    assert_eq!(s.result.as_ref().unwrap().bytes, b"b".to_vec());
}

#[test]
fn unchanged_fetch_replaces_snapshot_silently() {
    let mut s = baselined(200, "same");
    s.handle_message(SiteMessage::Check);
    assert!(matches!(s.check(Ok(snap(200, "same"))), SiteAction::Unchanged));
    assert_eq!(s.result.as_ref().unwrap().status, 200);
}

#[test]
fn failed_fetch_keeps_snapshot() {
    let mut s = baselined(200, "line1\nline2");
    s.handle_message(SiteMessage::Check);
    match s.handle_message(SiteMessage::Fetched(fetch_error())) {
        SiteAction::Failed(e) => assert_eq!(e.message, "connection refused"),
        _ => panic!("expected a failure"),
    }
    let kept = s.result.as_ref().unwrap();
    assert_eq!(kept.status, 200);
    assert_eq!(kept.bytes, b"line1\nline2".to_vec());
    assert!(!s.in_flight);
    s.handle_message(SiteMessage::Check);
    let (_, body) = notification(s.check(Ok(snap(200, "line1\nline3"))));
    assert_eq!(body, "Site content changed\nReplaced:\nline2\nwith\nline3\n\n");
}

#[test]
fn failed_first_fetch_leaves_no_snapshot() {
    let mut s = SiteState::new("NAU".to_string(), "https://www.nau.ch/".to_string());
    s.handle_message(SiteMessage::Check);
    assert!(matches!(s.check(fetch_error()), SiteAction::Failed(_)));
    assert!(s.result.is_none());
}

#[test]
fn overlapping_tick_is_skipped() {
    let mut s = baselined(200, "a");
    assert!(matches!(s.handle_message(SiteMessage::Check), SiteAction::Fetch(_)));
    assert!(matches!(s.handle_message(SiteMessage::Check), SiteAction::Skip));
    assert!(s.in_flight);
    assert_eq!(s.result.as_ref().unwrap().bytes, b"a".to_vec());
    s.handle_message(SiteMessage::Fetched(Ok(snap(200, "b"))));
    let r = s.result.as_ref().unwrap();
    assert_eq!((r.status, r.bytes.clone()), (200, b"b".to_vec()));
    assert!(matches!(s.handle_message(SiteMessage::Check), SiteAction::Fetch(_)));
}

#[test]
fn failing_site_does_not_hold_back_others() {
    let mut sched = Scheduler::new(vec![
        ("Down".to_string(), "https://down.invalid/".to_string()),
        ("Up".to_string(), "https://up.example/".to_string()),
    ]);
    assert_eq!(sched.sites.len(), 2);
    for round in 0..3 {
        assert!(matches!(sched.handle(0, SiteMessage::Check), SiteAction::Fetch(_)));
        match sched.handle(1, SiteMessage::Check) {
            SiteAction::Fetch(url) => assert_eq!(url, "https://up.example/"),
            _ => panic!("expected a fetch"),
        }
        assert!(matches!(sched.handle(0, SiteMessage::Fetched(fetch_error())), SiteAction::Failed(_)));
        let body = format!("round {}", round);
        let a = sched.handle(1, SiteMessage::Fetched(Ok(snap(200, &body))));
        if round == 0 {
            assert!(matches!(a, SiteAction::Baseline(200)));
        } else {
            let (title, _) = notification(a);
            assert_eq!(title, "Up Updated");
        }
    }
    assert!(sched.sites[0].result.is_none());
    assert_eq!(sched.sites[1].result.as_ref().unwrap().bytes, b"round 2".to_vec());
}
