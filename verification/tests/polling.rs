use thegarii::polling::LAST_HEIGHT;
use thegarii::{
    Action, BlockInfo, Env, Error, Event, FirehoseBlock, Phase, Polling, State, Transaction, U256,
};

fn env(batch_blocks: u16, confirms: u64) -> Env {
    Env {
        endpoints: vec!["https://a".to_string(), "https://b".to_string()],
        timeout: 120000,
        retry: 10,
        batch_blocks,
        block_time: 20000,
        confirms,
        ptr_file: "thegarii.ptr".to_string(),
    }
}

fn block(height: u64) -> FirehoseBlock {
    FirehoseBlock {
        height,
        hash: format!("h{}", height),
        parent_hash: format!("h{}", height.wrapping_sub(1)),
        cumulative_diff: U256::from_u64(height),
        transactions: vec![Transaction { id: format!("t{}", height), data: "0x".to_string() }],
    }
}

fn blocks(heights: &[u64]) -> Vec<FirehoseBlock> {
    heights.iter().map(|h| block(*h)).collect()
}

/// Carries out the actions of a service against a chain whose head is
/// `head`, until the service ends or pauses. Gives the lines written and
/// the cursor as stored last.
fn drive(p: Polling, head: u64, stored: &mut u64, lines: &mut Vec<String>) -> (Polling, Action) {
    let (mut p, mut action) = p.start();
    loop {
        let event = match action {
            Action::FetchHead => Event::Head(Ok(head)),
            Action::Poll(heights) => Event::Blocks(Ok(blocks(&heights))),
            Action::Emit { height, line, cursor } => {
                assert_eq!(height + 1, cursor);
                lines.push(line);
                *stored = cursor;
                Event::Written(Ok(()))
            }
            other => return (p, other),
        };
        let next = p.step(event);
        p = next.0;
        action = next.1;
    }
}

#[test]
fn new_fails_without_endpoints() {
    let mut e = env(2, 2);
    e.endpoints = vec![];
    assert_eq!(Polling::new(None, e, true, 0).err(), Some(Error::EmptyEndpoints));
}

#[test]
fn new_service_is_not_started() {
    let p = Polling::new(Some(102), env(2, 2), false, 100).unwrap();
    assert_eq!(p.ptr(), 100);
    assert_eq!(p.latest(), 0);
    assert_eq!(p.phase(), Phase::Idle);
    assert_eq!(p.state(), State::NotStarted);
    assert_eq!(p.fork(), None);
    assert_eq!(p.ptr_file(), "thegarii.ptr");
    assert_eq!(p.client().retry(), 10);
    assert_eq!(p.client().timeout(), std::time::Duration::from_millis(120000));
    assert_eq!(p.client().endpoints().len(), 2);
    assert_eq!(p.live_blocks().len(), 0);
    assert_eq!(p.live_blocks().confirms(), 2);
}

#[test]
fn bounded_run_emits_in_chunks() {
    let p = Polling::new(Some(102), env(2, 2), false, 100).unwrap();
    let (p, a) = p.start();
    assert_eq!(a, Action::Poll(vec![100, 101]));
    assert_eq!(p.state(), State::CatchingUp);
    let (p, a) = p.step(Event::Blocks(Ok(blocks(&[100, 101]))));
    assert_eq!(
        a,
        Action::Emit {
            height: 100,
            line: Polling::dm_log(&block(100)).unwrap(),
            cursor: 101,
        },
    );
    assert_eq!(p.ptr(), 100);
    let (p, a) = p.step(Event::Written(Ok(())));
    assert_eq!(
        a,
        Action::Emit {
            height: 101,
            line: Polling::dm_log(&block(101)).unwrap(),
            cursor: 102,
        },
    );
    assert_eq!(p.ptr(), 101);
    let (p, a) = p.step(Event::Written(Ok(())));
    assert_eq!(a, Action::Poll(vec![102]));
    assert_eq!(p.ptr(), 102);
    let (p, a) = p.step(Event::Blocks(Ok(blocks(&[102]))));
    assert_eq!(
        a,
        Action::Emit {
            height: 102,
            line: Polling::dm_log(&block(102)).unwrap(),
            cursor: 103,
        },
    );
    let (p, a) = p.step(Event::Written(Ok(())));
    assert_eq!(a, Action::Done(Ok(())));
    assert_eq!(p.ptr(), 103);
    assert_eq!(p.state(), State::Succeeded);
}

#[test]
fn bounded_run_writes_three_lines_and_stores_103() {
    let p = Polling::new(Some(102), env(2, 2), false, 100).unwrap();
    let mut stored = 100;
    let mut lines = vec![];
    let (p, a) = drive(p, 0, &mut stored, &mut lines);
    assert_eq!(a, Action::Done(Ok(())));
    assert_eq!(stored, 103);
    assert_eq!(p.ptr(), 103);
    assert_eq!(lines.len(), 3);
    assert!(lines[0].starts_with("DMLOG BLOCK 100 0864"));
    assert!(lines[1].starts_with("DMLOG BLOCK 101 0865"));
    assert!(lines[2].starts_with("DMLOG BLOCK 102 0866"));
    assert_eq!(
        lines[0],
        "DMLOG BLOCK 100 08641204683130301a03683939220a0a047431303012023078",
    );
}

#[test]
fn bounded_run_with_nothing_pending_ends_at_once() {
    let p = Polling::new(Some(99), env(2, 2), false, 100).unwrap();
    let (p, a) = p.start();
    assert_eq!(a, Action::Done(Ok(())));
    assert_eq!(p.ptr(), 100);
    assert_eq!(p.phase(), Phase::Succeeded);
}

#[test]
fn ended_service_gives_its_result_again() {
    let p = Polling::new(Some(99), env(2, 2), false, 100).unwrap();
    let (p, _) = p.start();
    let (p, a) = p.step(Event::Woke);
    assert_eq!(a, Action::Done(Ok(())));
    let (_, a) = p.step(Event::Start);
    assert_eq!(a, Action::Done(Ok(())));
}

#[test]
fn batch_of_zero_is_taken_as_one() {
    let p = Polling::new(Some(5), env(0, 2), false, 3).unwrap();
    let (_, a) = p.start();
    assert_eq!(a, Action::Poll(vec![3]));
}

#[test]
fn large_batch_takes_the_whole_range() {
    let p = Polling::new(Some(5), env(u16::MAX, 2), false, 3).unwrap();
    let (_, a) = p.start();
    assert_eq!(a, Action::Poll(vec![3, 4, 5]));
}

#[test]
fn unbounded_run_tracks_the_head_and_keeps_live_blocks() {
    let p = Polling::new(None, env(10, 2), false, 498).unwrap();
    let (p, a) = p.start();
    assert_eq!(a, Action::FetchHead);
    assert_eq!(p.phase(), Phase::AwaitingHead);
    let (p, a) = p.step(Event::Head(Ok(500)));
    assert_eq!(a, Action::Poll(vec![498, 499, 500]));
    assert_eq!(p.latest(), 500);
    let (mut p, mut a) = p.step(Event::Blocks(Ok(blocks(&[498, 499, 500]))));
    for h in 498..=500 {
        assert!(matches!(a, Action::Emit { height, cursor, .. } if height == h && cursor == h + 1));
        let next = p.step(Event::Written(Ok(())));
        p = next.0;
        a = next.1;
    }
    assert_eq!(a, Action::Sleep(20000));
    assert_eq!(p.state(), State::AtHead);
    assert_eq!(p.ptr(), 501);
    let w = p.live_blocks();
    assert_eq!(w.len(), 2);
    assert!(!w.contains(498));
    assert_eq!(
        w.get(499),
        Some(&BlockInfo { indep_hash: "h499".to_string(), cumulative_diff: U256::from_u64(499) }),
    );
    assert_eq!(
        w.get(500),
        Some(&BlockInfo { indep_hash: "h500".to_string(), cumulative_diff: U256::from_u64(500) }),
    );
    let (p, a) = p.step(Event::Woke);
    assert_eq!(a, Action::FetchHead);
    assert_eq!(p.state(), State::CatchingUp);
    let (p, a) = p.step(Event::Head(Ok(502)));
    assert_eq!(a, Action::Poll(vec![501, 502]));
    assert!(!p.live_blocks().contains(499));
    assert!(!p.live_blocks().contains(500));
}

#[test]
fn lower_head_does_not_move_the_cursor() {
    let p = Polling::new(None, env(10, 2), false, 498).unwrap();
    let (p, _) = p.start();
    let (p, a) = p.step(Event::Head(Ok(300)));
    assert_eq!(a, Action::Sleep(20000));
    assert_eq!(p.ptr(), 498);
    assert_eq!(p.latest(), 300);
    let (p, _) = p.step(Event::Woke);
    let (p, a) = p.step(Event::Head(Ok(498)));
    assert_eq!(a, Action::Poll(vec![498]));
    assert_eq!(p.ptr(), 498);
}

#[test]
fn failed_batch_is_tried_again_as_a_whole() {
    let p = Polling::new(None, env(3, 2), true, 105).unwrap();
    let (p, _) = p.start();
    let (p, a) = p.step(Event::Head(Ok(107)));
    assert_eq!(a, Action::Poll(vec![105, 106, 107]));
    let (p, a) = p.step(Event::Blocks(Err(Error::Transport)));
    assert_eq!(a, Action::Restart(Error::Transport));
    assert_eq!(p.state(), State::ErrorRestart);
    assert_eq!(p.ptr(), 105);
    let (p, a) = p.step(Event::Resumed);
    assert_eq!(a, Action::FetchHead);
    let (p, a) = p.step(Event::Head(Ok(107)));
    assert_eq!(a, Action::Poll(vec![105, 106, 107]));
    assert_eq!(p.ptr(), 105);
}

#[test]
fn failed_batch_ends_a_service_that_is_not_forever() {
    let p = Polling::new(None, env(3, 2), false, 105).unwrap();
    let (p, _) = p.start();
    let (p, _) = p.step(Event::Head(Ok(107)));
    let (p, a) = p.step(Event::Blocks(Err(Error::Transport)));
    assert_eq!(a, Action::Done(Err(Error::Transport)));
    assert_eq!(p.state(), State::Failed(Error::Transport));
    assert_eq!(p.ptr(), 105);
    let (_, a) = p.step(Event::Resumed);
    assert_eq!(a, Action::Done(Err(Error::Transport)));
}

#[test]
fn failed_batch_ends_a_bounded_service_even_if_forever() {
    let p = Polling::new(Some(107), env(3, 2), true, 105).unwrap();
    let (p, a) = p.start();
    assert_eq!(a, Action::Poll(vec![105, 106, 107]));
    let (p, a) = p.step(Event::Blocks(Err(Error::ParseBlockFailed)));
    assert_eq!(a, Action::Done(Err(Error::ParseBlockFailed)));
    assert_eq!(p.ptr(), 105);
}

#[test]
fn failed_head_fetch_restarts_or_ends() {
    let p = Polling::new(None, env(3, 2), true, 105).unwrap();
    let (p, _) = p.start();
    let (p, a) = p.step(Event::Head(Err(Error::Transport)));
    assert_eq!(a, Action::Restart(Error::Transport));
    assert_eq!(p.ptr(), 105);
    let q = Polling::new(None, env(3, 2), false, 105).unwrap();
    let (q, _) = q.start();
    let (_, a) = q.step(Event::Head(Err(Error::ParseInt)));
    assert_eq!(a, Action::Done(Err(Error::ParseInt)));
}

#[test]
fn blocks_at_other_heights_are_refused() {
    let p = Polling::new(Some(107), env(3, 2), false, 105).unwrap();
    let (p, _) = p.start();
    let (p, a) = p.step(Event::Blocks(Ok(blocks(&[105, 107, 106]))));
    assert_eq!(a, Action::Done(Err(Error::UnexpectedBlock)));
    assert_eq!(p.ptr(), 105);
    let q = Polling::new(Some(107), env(3, 2), false, 105).unwrap();
    let (q, _) = q.start();
    let (_, a) = q.step(Event::Blocks(Ok(blocks(&[105, 106]))));
    assert_eq!(a, Action::Done(Err(Error::UnexpectedBlock)));
    let r = Polling::new(Some(107), env(3, 2), false, 105).unwrap();
    let (r, _) = r.start();
    let (_, a) = r.step(Event::Blocks(Ok(blocks(&[104, 105, 106]))));
    assert_eq!(a, Action::Done(Err(Error::UnexpectedBlock)));
}

#[test]
fn failed_write_is_fatal_even_if_forever() {
    let p = Polling::new(None, env(3, 2), true, 105).unwrap();
    let (p, _) = p.start();
    let (p, _) = p.step(Event::Head(Ok(107)));
    let (p, a) = p.step(Event::Blocks(Ok(blocks(&[105, 106, 107]))));
    assert!(matches!(a, Action::Emit { height: 105, cursor: 106, .. }));
    let (p, a) = p.step(Event::Written(Err(Error::Persistence)));
    assert_eq!(a, Action::Done(Err(Error::Persistence)));
    assert_eq!(p.state(), State::Failed(Error::Persistence));
    assert_eq!(p.ptr(), 105);
}

#[test]
fn persistence_error_is_never_survived() {
    let p = Polling::new(None, env(3, 2), true, 105).unwrap();
    let (p, _) = p.start();
    let (_, a) = p.step(Event::Head(Err(Error::Persistence)));
    assert_eq!(a, Action::Done(Err(Error::Persistence)));
}

#[test]
fn block_without_a_record_fails_the_batch() {
    let empty = FirehoseBlock {
        height: 0,
        hash: "".to_string(),
        parent_hash: "".to_string(),
        cumulative_diff: U256::zero(),
        transactions: vec![],
    };
    let p = Polling::new(Some(0), env(3, 2), false, 0).unwrap();
    let (p, a) = p.start();
    assert_eq!(a, Action::Poll(vec![0]));
    let (p, a) = p.step(Event::Blocks(Ok(vec![empty])));
    assert_eq!(a, Action::Done(Err(Error::ParseBlockFailed)));
    assert_eq!(p.ptr(), 0);
}

#[test]
fn event_that_answers_nothing_changes_nothing() {
    let p = Polling::new(None, env(3, 2), true, 105).unwrap();
    let (p, a) = p.step(Event::Woke);
    assert_eq!(a, Action::Invalid);
    assert_eq!(p.phase(), Phase::Idle);
    let (p, _) = p.start();
    let (p, a) = p.step(Event::Start);
    assert_eq!(a, Action::Invalid);
    let (p, a) = p.step(Event::Blocks(Ok(blocks(&[105]))));
    assert_eq!(a, Action::Invalid);
    let (p, a) = p.step(Event::Written(Ok(())));
    assert_eq!(a, Action::Invalid);
    assert_eq!(p.phase(), Phase::AwaitingHead);
    assert_eq!(p.ptr(), 105);
    let (p, _) = p.step(Event::Head(Ok(105)));
    let (p, a) = p.step(Event::Head(Ok(900)));
    assert_eq!(a, Action::Invalid);
    assert_eq!(p.latest(), 105);
    assert_eq!(p.phase(), Phase::AwaitingBlocks);
}

#[test]
fn last_height_is_the_end_of_the_chain() {
    assert_eq!(LAST_HEIGHT, u64::MAX - 1);
    let p = Polling::new(Some(u64::MAX), env(5, 2), false, u64::MAX - 2).unwrap();
    let (p, a) = p.start();
    assert_eq!(a, Action::Poll(vec![u64::MAX - 2, u64::MAX - 1]));
    let (p, _) = p.step(Event::Blocks(Ok(blocks(&[u64::MAX - 2, u64::MAX - 1]))));
    let (p, a) = p.step(Event::Written(Ok(())));
    assert!(matches!(a, Action::Emit { cursor: u64::MAX, .. }));
    let (p, a) = p.step(Event::Written(Ok(())));
    assert_eq!(a, Action::Done(Ok(())));
    assert_eq!(p.ptr(), u64::MAX);
    let q = Polling::new(None, env(5, 2), false, u64::MAX).unwrap();
    let (q, _) = q.start();
    let (_, a) = q.step(Event::Head(Ok(u64::MAX)));
    assert_eq!(a, Action::Sleep(20000));
}

#[test]
fn fork_is_flagged_and_output_is_not_retracted() {
    let p = Polling::new(None, env(5, 10), true, 499).unwrap();
    let mut stored = 499;
    let mut lines = vec![];
    let (p, a) = drive(p, 500, &mut stored, &mut lines);
    assert_eq!(a, Action::Sleep(20000));
    assert_eq!(p.fork(), None);
    assert_eq!(lines.len(), 2);
    let (p, _) = p.step(Event::Woke);
    let (p, a) = p.step(Event::Head(Ok(501)));
    assert_eq!(a, Action::Poll(vec![501]));
    let (p, a) = p.step(Event::Blocks(Err(Error::Transport)));
    assert_eq!(a, Action::Restart(Error::Transport));
    let (p, _) = p.step(Event::Resumed);
    let (p, _) = p.step(Event::Head(Ok(501)));
    let mut other = block(501);
    other.hash = "fork".to_string();
    let (p, a) = p.step(Event::Blocks(Ok(vec![other])));
    assert!(matches!(a, Action::Emit { height: 501, .. }));
    assert_eq!(p.fork(), None);
    assert_eq!(p.ptr(), 501);
    assert_eq!(stored, 501);
}

#[test]
fn stored_cursor_never_decreases_across_restarts() {
    let mut stored = 7;
    let mut seen = vec![stored];
    for (end, head) in [(9u64, 0u64), (9, 0), (12, 3), (5, 100), (20, 0)] {
        let p = Polling::new(Some(end), env(3, 2), false, stored).unwrap();
        let mut lines = vec![];
        let before = stored;
        let (_, a) = drive(p, head, &mut stored, &mut lines);
        assert_eq!(a, Action::Done(Ok(())));
        assert!(stored >= before);
        seen.push(stored);
    }
    assert_eq!(seen, vec![7, 10, 10, 13, 13, 21]);
}

#[test]
fn crash_between_line_and_cursor_repeats_one_height() {
    let mut emitted: Vec<u64> = vec![];
    let mut stored = 100;
    let p = Polling::new(Some(104), env(2, 2), false, stored).unwrap();
    let (mut p, mut a) = p.start();
    loop {
        let event = match a {
            Action::Poll(heights) => Event::Blocks(Ok(blocks(&heights))),
            Action::Emit { height, cursor, .. } => {
                emitted.push(height);
                if height == 102 {
                    break;
                }
                stored = cursor;
                Event::Written(Ok(()))
            }
            other => panic!("unexpected action {:?}", other),
        };
        let next = p.step(event);
        p = next.0;
        a = next.1;
    }
    assert_eq!(emitted, vec![100, 101, 102]);
    assert_eq!(stored, 102);
    let p = Polling::new(Some(104), env(2, 2), false, stored).unwrap();
    let (mut p, mut a) = p.start();
    loop {
        let event = match a {
            Action::Poll(heights) => Event::Blocks(Ok(blocks(&heights))),
            Action::Emit { height, cursor, .. } => {
                emitted.push(height);
                stored = cursor;
                Event::Written(Ok(()))
            }
            Action::Done(r) => {
                assert_eq!(r, Ok(()));
                break;
            }
            other => panic!("unexpected action {:?}", other),
        };
        let next = p.step(event);
        p = next.0;
        a = next.1;
    }
    assert_eq!(emitted, vec![100, 101, 102, 102, 103, 104]);
    assert_eq!(stored, 105);
}

#[test]
fn uninterrupted_run_emits_each_height_once() {
    let p = Polling::new(None, env(4, 3), true, 10).unwrap();
    let mut emitted: Vec<u64> = vec![];
    let heads = [12u64, 12, 9, 20, 19, 21];
    let mut next_head = 0;
    let mut failures = 0;
    let (mut p, mut a) = p.start();
    while next_head < heads.len() || !matches!(a, Action::FetchHead) {
        let event = match a {
            Action::FetchHead => {
                next_head += 1;
                Event::Head(Ok(heads[next_head - 1]))
            }
            Action::Poll(heights) => {
                failures += 1;
                if failures % 3 == 0 {
                    Event::Blocks(Err(Error::Transport))
                } else {
                    Event::Blocks(Ok(blocks(&heights)))
                }
            }
            Action::Emit { height, cursor, .. } => {
                assert_eq!(cursor, height + 1);
                emitted.push(height);
                Event::Written(Ok(()))
            }
            Action::Sleep(_) => Event::Woke,
            Action::Restart(_) => Event::Resumed,
            other => panic!("unexpected action {:?}", other),
        };
        let next = p.step(event);
        p = next.0;
        a = next.1;
    }
    assert_eq!(emitted, (10..=21).collect::<Vec<u64>>());
    assert_eq!(p.ptr(), 22);
}
