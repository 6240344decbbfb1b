use purgebot::gather::{
    gather_finish, gather_new, gather_step, ids_of, next_fetch, GatherReport,
};
use purgebot::ids::{MessageMeta, MessageRef};

fn msg(id: u64, timestamp: i64, pinned: bool) -> MessageMeta {
    MessageMeta { id: MessageRef(id), timestamp, pinned }
}

/// A page of `n` messages, ids and timestamps descending from `start`.
fn page_desc(start_id: u64, start_ts: i64, n: u64) -> Vec<MessageMeta> {
    (0..n).map(|k| msg(start_id - k, start_ts - k as i64, false)).collect()
}

#[test]
fn window_filter_is_exact() {
    // Window [100, 200): keeps exactly the non-pinned messages with
    // 100 <= ts < 200.
    let mut st = gather_new(100, 200);
    let page = vec![
        msg(10, 250, false), // above window
        msg(9, 200, false),  // upper bound is exclusive
        msg(8, 199, false),  // kept
        msg(7, 150, true),   // pinned
        msg(6, 150, false),  // kept
        msg(5, 100, false),  // lower bound is inclusive
        msg(4, 99, false),   // below window: stops the gather
    ];
    gather_step(&mut st, page);
    assert!(st.done);
    let batch = gather_finish(st);
    let ids: Vec<u64> = ids_of(&batch).iter().map(|m| m.0).collect();
    assert_eq!(ids, vec![5, 6, 8]);
}

#[test]
fn short_page_stops_the_gather() {
    let mut st = gather_new(0, 1_000_000);
    let page = page_desc(1000, 500, 99);
    gather_step(&mut st, page);
    assert!(st.done);
    assert!(next_fetch(&st).is_none());
}

#[test]
fn full_page_continues_and_anchors_before_oldest() {
    let mut st = gather_new(0, 1_000_000);
    let page = page_desc(1000, 5000, 100);
    let report = gather_step(&mut st, page);
    assert!(!st.done);
    // A second fetch is needed, so the one-time advisory fires.
    assert_eq!(report, GatherReport::LongScan);
    let fetch = next_fetch(&st).expect("gather should continue");
    assert_eq!(fetch.before, Some(MessageRef(901)));
}

#[test]
fn crossing_below_stops_even_a_full_page() {
    let mut st = gather_new(4950, 1_000_000);
    // Page of 100 whose last messages dip below t0.
    let page = page_desc(1000, 5000, 100);
    gather_step(&mut st, page);
    assert!(st.done);
    assert!(next_fetch(&st).is_none());
}

#[test]
fn result_is_ascending_by_timestamp() {
    let mut st = gather_new(0, 10_000);
    gather_step(&mut st, vec![msg(5, 70, false), msg(4, 50, false), msg(3, 60, false)]);
    let batch = gather_finish(st);
    let ts: Vec<i64> = batch.iter().map(|m| m.timestamp).collect();
    assert_eq!(ts, vec![50, 60, 70]);
}

#[test]
fn misordered_window_yields_nothing() {
    // t0 > t1: the window is empty, so nothing qualifies.
    let mut st = gather_new(200, 100);
    gather_step(&mut st, vec![msg(1, 150, false), msg(2, 50, false)]);
    assert!(st.done);
    let batch = gather_finish(st);
    assert!(batch.is_empty());
}

#[test]
fn progress_reported_every_25_pages() {
    let mut st = gather_new(0, i64::MAX);
    let mut ts: i64 = 10_000_000;
    let mut id: u64 = 20_000_000;
    for pageno in 1..=26u32 {
        let page = page_desc(id, ts, 100);
        id -= 100;
        ts -= 100;
        let report = gather_step(&mut st, page);
        match pageno {
            1 => assert_eq!(report, GatherReport::LongScan),
            25 => assert_eq!(report, GatherReport::Progress(2500)),
            _ => assert_eq!(report, GatherReport::Quiet),
        }
    }
}

#[test]
fn two_page_gather_excludes_pinned() {
    // 125 messages inside the window, 5 of them pinned: the gather fetches
    // two pages (100, then a short 25) and keeps 120.
    let t0 = 1_000_000i64;
    let t1 = 2_000_000i64;
    let mut st = gather_new(t0, t1);

    let mut page1: Vec<MessageMeta> = Vec::new();
    for k in 0..100u64 {
        let pinned = k < 5;
        page1.push(msg(200 - k, 1_500_000 - k as i64, pinned));
    }
    gather_step(&mut st, page1);
    assert!(!st.done);
    assert_eq!(next_fetch(&st).unwrap().before, Some(MessageRef(101)));

    let page2 = page_desc(100, 1_400_000, 25);
    gather_step(&mut st, page2);
    assert!(st.done);
    assert_eq!(st.pages, 2);

    let batch = gather_finish(st);
    assert_eq!(batch.len(), 120);
    assert!(batch.iter().all(|m| !m.pinned));
}
