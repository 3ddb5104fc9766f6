use telegram_poll::{update_head, ApiError, Cycle, CycleFailure, Poller, UpdateHead};

fn head(update_id: i64, has_text: bool) -> UpdateHead {
    UpdateHead { update_id, has_text }
}

fn poller_at(cursor: i64) -> Poller {
    let mut p = Poller::new();
    assert!(p.finish(Ok(cursor)).is_none());
    assert_eq!(p.cursor(), cursor);
    p
}

#[test]
fn text_update_after_skipped_one_moves_cursor_to_twelve() {
    let mut poller = poller_at(10);
    assert_eq!(poller.fetch_offset(), 11);
    let updates: serde_json::Value = serde_json::from_str(
        r#"[{"update_id":11,"message":{"chat":{"id":5}}},
            {"update_id":12,"message":{"text":"hi"}}]"#,
    )
    .unwrap();
    let (mut cycle, raw) = match poller.begin_cycle(Ok(updates)) {
        Ok(pair) => pair,
        Err(f) => panic!("cycle did not start: {:?}", f),
    };
    assert_eq!(raw.len(), 2);
    let mut handled = Vec::new();
    while let Some(i) = cycle.next_update() {
        handled.push(raw[i]["update_id"].as_i64().unwrap());
    }
    assert_eq!(handled, vec![12]);
    assert!(cycle.is_complete());
    assert_eq!(cycle.cursor(), 12);
    assert!(poller.finish(Ok(cycle.cursor())).is_none());
    assert_eq!(poller.cursor(), 12);
    assert_eq!(poller.fetch_offset(), 13);
}

#[test]
fn cursor_is_max_id_even_when_highest_lacks_text() {
    let mut cycle = Cycle::begin(3, vec![head(7, true), head(9, false), head(5, false)]);
    assert_eq!(cycle.next_update(), Some(0));
    assert_eq!(cycle.cursor(), 7);
    assert!(!cycle.is_complete());
    assert_eq!(cycle.next_update(), None);
    assert!(cycle.is_complete());
    assert_eq!(cycle.cursor(), 9);
}

#[test]
fn empty_fetch_keeps_cursor() {
    let mut cycle = Cycle::begin(4, Vec::new());
    assert_eq!(cycle.len(), 0);
    assert_eq!(cycle.next_update(), None);
    assert_eq!(cycle.cursor(), 4);
}

#[test]
fn text_updates_are_handed_out_in_order() {
    let mut cycle = Cycle::begin(0, vec![head(1, true), head(2, false), head(3, true), head(4, true)]);
    let mut order = Vec::new();
    while let Some(i) = cycle.next_update() {
        order.push(i);
    }
    assert_eq!(order, vec![0, 2, 3]);
    assert_eq!(cycle.cursor(), 4);
}

#[test]
fn rejected_fetch_starts_no_cycle_and_keeps_cursor() {
    let mut poller = poller_at(10);
    let fetched = telegram_poll::decode_reply(br#"{"ok":false,"error_code":403}"#);
    assert!(matches!(fetched, Err(ApiError::Rejected(403))));
    let started = poller.begin_cycle(fetched);
    let failure = match started {
        Err(f) => f,
        Ok(_) => panic!("a rejected fetch started a cycle"),
    };
    assert!(matches!(failure, CycleFailure::Fetch(ApiError::Rejected(403))));
    let reported = poller.finish(Err(failure));
    assert!(matches!(reported, Some(CycleFailure::Fetch(ApiError::Rejected(403)))));
    assert_eq!(poller.cursor(), 10);
}

#[test]
fn deadline_keeps_offset() {
    let mut poller = poller_at(41);
    let reported = poller.finish(Err(CycleFailure::Deadline));
    assert!(matches!(reported, Some(CycleFailure::Deadline)));
    assert_eq!(poller.cursor(), 41);
    assert_eq!(poller.fetch_offset(), 42);
}

#[test]
fn handler_and_send_failures_keep_cursor() {
    let mut poller = poller_at(8);
    assert!(matches!(
        poller.finish(Err(CycleFailure::Handler("boom".to_string()))),
        Some(CycleFailure::Handler(_))
    ));
    assert!(matches!(
        poller.finish(Err(CycleFailure::Send(ApiError::Rejected(400)))),
        Some(CycleFailure::Send(ApiError::Rejected(400)))
    ));
    assert_eq!(poller.cursor(), 8);
}

#[test]
fn finish_never_lowers_cursor() {
    let mut poller = poller_at(20);
    assert!(poller.finish(Ok(15)).is_none());
    assert_eq!(poller.cursor(), 20);
}

#[test]
fn new_poller_starts_at_zero() {
    let poller = Poller::new();
    assert_eq!(poller.cursor(), 0);
    assert_eq!(poller.fetch_offset(), 1);
}

#[test]
fn offset_saturates_at_largest_id() {
    let poller = poller_at(i64::MAX);
    assert_eq!(poller.fetch_offset(), i64::MAX);
}

#[test]
fn fetch_result_that_is_no_list_fails_the_fetch() {
    let poller = Poller::new();
    let started = poller.begin_cycle(Ok(serde_json::Value::from(3)));
    assert!(matches!(started, Err(CycleFailure::Fetch(ApiError::Transport(_)))));
}

#[test]
fn update_without_id_reads_as_zero() {
    let u: serde_json::Value = serde_json::from_str(r#"{"message":{"text":"x"}}"#).unwrap();
    let h = update_head(&u);
    assert_eq!(h.update_id, 0);
    assert!(h.has_text);
    let v: serde_json::Value =
        serde_json::from_str(r#"{"update_id":77,"message":{"text":null}}"#).unwrap();
    let h = update_head(&v);
    assert_eq!(h.update_id, 77);
    assert!(!h.has_text);
}

#[test]
fn from_members_reads_plain_values() {
    let h = UpdateHead::from_members(Some(5), Some("hi"));
    assert_eq!((h.update_id, h.has_text), (5, true));
    let h = UpdateHead::from_members(None, None);
    assert_eq!((h.update_id, h.has_text), (0, false));
    let h = UpdateHead::from_members(Some(6), Some(""));
    assert_eq!((h.update_id, h.has_text), (6, false));
}

#[test]
fn empty_or_non_string_text_is_skipped() {
    for raw in [
        r#"{"update_id":3,"message":{"text":""}}"#,
        r#"{"update_id":3,"message":{"text":5}}"#,
        r#"{"update_id":3,"message":{"photo":[]}}"#,
        r#"{"update_id":3}"#,
    ] {
        let v: serde_json::Value = serde_json::from_str(raw).unwrap();
        let h = update_head(&v);
        assert_eq!(h.update_id, 3);
        assert!(!h.has_text, "{raw}");
    }
}

#[test]
fn cycle_heads_follow_fetched_updates() {
    let poller = poller_at(0);
    let updates: serde_json::Value = serde_json::from_str(
        r#"[{"update_id":4,"message":{"text":""}},{"update_id":2,"message":{"text":"a"}}]"#,
    )
    .unwrap();
    let (mut cycle, raw) = poller.begin_cycle(Ok(updates)).unwrap();
    assert_eq!(raw.len(), 2);
    assert_eq!(cycle.next_update(), Some(1));
    assert_eq!(cycle.cursor(), 4);
}
