use purgebot::deleter::{
    delete_new, header_int, next_chunk, on_delete_response, parse_u64_bytes, DeleteResponse,
    DeleteStep,
};
use purgebot::ids::{ChannelRef, MessageRef};

fn ids(n: u64) -> Vec<MessageRef> {
    (0..n).map(MessageRef).collect()
}

fn rfc2822(secs: i64) -> String {
    chrono::DateTime::<chrono::Utc>::from_timestamp(secs, 0).unwrap().to_rfc2822()
}

#[test]
fn chunks_are_cut_at_100() {
    let mut st = delete_new(ChannelRef(9), ids(120));
    let c0 = next_chunk(&st).expect("first chunk");
    assert_eq!(c0.len(), 100);
    assert_eq!(c0[0], MessageRef(0));
    assert_eq!(c0[99], MessageRef(99));

    let step = on_delete_response(&mut st, DeleteResponse::Success, 1000);
    assert!(matches!(step, DeleteStep::Advanced { progress: None }));

    let c1 = next_chunk(&st).expect("second chunk");
    assert_eq!(c1.len(), 20);
    assert_eq!(c1[0], MessageRef(100));
    assert_eq!(c1[19], MessageRef(119));
}

#[test]
fn two_chunks_then_done() {
    // 120 messages: two chunks (100, 20), then the final DONE reply.
    let mut st = delete_new(ChannelRef(9), ids(120));
    assert_eq!(next_chunk(&st).unwrap().len(), 100);
    on_delete_response(&mut st, DeleteResponse::Success, 0);
    assert_eq!(next_chunk(&st).unwrap().len(), 20);
    let step = on_delete_response(&mut st, DeleteResponse::Success, 0);
    match step {
        DeleteStep::Finished { progress, reply } => {
            assert!(progress.is_none());
            assert_eq!(reply, "DONE!~ *Phew*");
        },
        _ => panic!("expected Finished"),
    }
    assert!(next_chunk(&st).is_none());
}

#[test]
fn rate_limit_waits_then_retries_once() {
    // Reset 10s in the future: wait 10 + 5 = 15s, retry the same chunk; a
    // second rate limit on that chunk aborts instead of waiting again.
    let now = 1_000_000u64;
    let mut st = delete_new(ChannelRef(9), ids(250));
    assert_eq!(next_chunk(&st).unwrap().len(), 100);

    let limited = DeleteResponse::Failure { remaining: Some(0), reset: Some(now + 10) };
    let step = on_delete_response(&mut st, limited, now);
    match step {
        DeleteStep::Backoff { wait_secs, reply } => {
            assert_eq!(wait_secs, 15);
            let expected = format!(
                "Oops, hit a rate limit! Resets at {}. Waiting for 15 seconds",
                rfc2822((now + 10) as i64)
            );
            assert_eq!(reply, expected);
        },
        _ => panic!("expected Backoff"),
    }
    // Same chunk is retried.
    assert_eq!(next_chunk(&st).unwrap()[0], MessageRef(0));

    let step = on_delete_response(&mut st, limited, now + 15);
    match step {
        DeleteStep::Aborted { reply } => assert_eq!(reply, "Something went wrong"),
        _ => panic!("expected Aborted"),
    }
    assert!(next_chunk(&st).is_none());
}

#[test]
fn second_chunk_rate_limited_then_succeeds() {
    // Rate limited on the second chunk with reset 8s ahead: the bot replies
    // with the resume time, waits 13s, retries, and succeeds.
    let now = 50_000u64;
    let mut st = delete_new(ChannelRef(9), ids(120));
    on_delete_response(&mut st, DeleteResponse::Success, now);

    let limited = DeleteResponse::Failure { remaining: Some(0), reset: Some(now + 8) };
    let step = on_delete_response(&mut st, limited, now);
    match step {
        DeleteStep::Backoff { wait_secs, reply } => {
            assert_eq!(wait_secs, 13);
            assert!(reply.contains(&rfc2822((now + 8) as i64)));
            assert!(reply.ends_with("Waiting for 13 seconds"));
        },
        _ => panic!("expected Backoff"),
    }
    let step = on_delete_response(&mut st, DeleteResponse::Success, now + 13);
    assert!(matches!(step, DeleteStep::Finished { .. }));
}

#[test]
fn missing_reset_waits_the_margin_only() {
    let mut st = delete_new(ChannelRef(9), ids(300));
    let limited = DeleteResponse::Failure { remaining: Some(0), reset: None };
    let step = on_delete_response(&mut st, limited, 777);
    match step {
        DeleteStep::Backoff { wait_secs, reply } => {
            assert_eq!(wait_secs, 5);
            assert!(reply.contains(&rfc2822(777)));
        },
        _ => panic!("expected Backoff"),
    }
}

#[test]
fn other_failures_abort_immediately() {
    let mut st = delete_new(ChannelRef(9), ids(300));
    // Quota remaining but the call failed: not a rate limit.
    let step = on_delete_response(
        &mut st,
        DeleteResponse::Failure { remaining: Some(3), reset: None },
        0,
    );
    assert!(matches!(step, DeleteStep::Aborted { .. }));
    assert!(next_chunk(&st).is_none());
}

#[test]
fn progress_reported_every_tenth_chunk() {
    // After the tenth chunk, the report carries the true cumulative count.
    let mut st = delete_new(ChannelRef(9), ids(1100));
    for j in 0..10u64 {
        let step = on_delete_response(&mut st, DeleteResponse::Success, 0);
        match (j, step) {
            (9, DeleteStep::Advanced { progress: Some(text) }) => {
                assert_eq!(text, "1000 messages deleted...");
            },
            (9, _) => panic!("expected progress on the tenth chunk"),
            (_, DeleteStep::Advanced { progress: None }) => {},
            _ => panic!("unexpected step"),
        }
    }
}

#[test]
fn short_final_chunk_caps_the_count() {
    // 950 ids: the tenth chunk is short, and the report says 950, not 1000.
    let mut st = delete_new(ChannelRef(9), ids(950));
    for j in 0..10u64 {
        let step = on_delete_response(&mut st, DeleteResponse::Success, 0);
        match (j, step) {
            (9, DeleteStep::Finished { progress: Some(text), reply }) => {
                assert_eq!(text, "950 messages deleted...");
                assert_eq!(reply, "DONE!~ *Phew*");
            },
            (9, _) => panic!("expected progress with the final reply"),
            (_, DeleteStep::Advanced { progress: None }) => {},
            _ => panic!("unexpected step"),
        }
    }
}

#[test]
fn backoff_does_not_skew_progress() {
    // A backoff and successful retry report progress only at the regular
    // ten-chunk cadence, not immediately.
    let mut st = delete_new(ChannelRef(9), ids(300));
    let limited = DeleteResponse::Failure { remaining: Some(0), reset: None };
    on_delete_response(&mut st, limited, 0);
    let step = on_delete_response(&mut st, DeleteResponse::Success, 0);
    assert!(matches!(step, DeleteStep::Advanced { progress: None }));
}

#[test]
fn empty_batch_is_complete_at_once() {
    let st = delete_new(ChannelRef(9), ids(0));
    assert!(next_chunk(&st).is_none());
}

#[test]
fn header_int_parses_first_part() {
    let parts: Vec<Vec<u8>> = vec![b"42".to_vec(), b"99".to_vec()];
    assert_eq!(header_int(Some(&parts)), Some(42));
    assert_eq!(header_int(None), None);
    let empty: Vec<Vec<u8>> = vec![];
    assert_eq!(header_int(Some(&empty)), None);
    let junk: Vec<Vec<u8>> = vec![b"12x".to_vec()];
    assert_eq!(header_int(Some(&junk)), None);
}

#[test]
fn parse_u64_matches_std() {
    let cases: &[&[u8]] = &[
        b"0",
        b"7",
        b"+7",
        b"007",
        b"18446744073709551615",
        b"18446744073709551616",
        b"99999999999999999999999",
        b"",
        b"+",
        b"-1",
        b" 1",
        b"1 ",
        b"1.5",
        b"\xff\xfe",
    ];
    for bs in cases {
        let expected = std::str::from_utf8(bs).ok().and_then(|s| s.parse::<u64>().ok());
        assert_eq!(parse_u64_bytes(bs), expected, "input {:?}", bs);
    }
}
