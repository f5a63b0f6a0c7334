use market_feed::client_profile::TypeFlags;
use market_feed::constants::{INPUT_BUF_SIZE, OUTPUT_BUF_SIZE};
use market_feed::dispatch::WorkLatch;
use market_feed::error_utils::{interrupted, would_block};
use market_feed::input::{
    accept_step, handle_connection, handle_disconnection, handle_request, new_client_table,
    route_event, AcceptAction, EventTarget, ReadAction, Transport,
};
use market_feed::keep_latest::KeepLatest;
use market_feed::packet::{InputPacket, OutputPacket};
use market_feed::reuse_array::ReuseArr;
use market_feed::settings::Mode;
use market_feed::work::{ClientWork, WorkType};
use std::io::{Error, ErrorKind};

#[test]
fn reserve_hands_out_distinct_indices() {
    let mut r: ReuseArr<u32> = ReuseArr::new();
    let mut seen: Vec<usize> = Vec::new();
    for _ in 0..20 {
        let i = r.reserve();
        assert!(!seen.contains(&i));
        seen.push(i);
    }
    let mut sorted = seen.clone();
    sorted.sort();
    assert_eq!(sorted, (0..20).collect::<Vec<usize>>());
}

#[test]
fn indices_stay_distinct_across_removals() {
    let mut r: ReuseArr<u32> = ReuseArr::new();
    let a = r.insert(10);
    let b = r.insert(20);
    let c = r.reserve();
    assert!(a != b && b != c && a != c);
    assert_eq!(r.remove(b), Some(20));
    let d = r.insert(40);
    let e = r.insert(50);
    let live = [a, c, d, e];
    for x in 0..live.len() {
        for y in (x + 1)..live.len() {
            assert_ne!(live[x], live[y]);
        }
    }
    assert_eq!(r.get(a), Some(&10));
    assert_eq!(r.get(c), None);
    assert_eq!(r.get(d), Some(&40));
    assert_eq!(r.get(e), Some(&50));
}

#[test]
fn removed_index_is_reused_without_old_payload() {
    let mut r: ReuseArr<u32> = ReuseArr::new();
    let mut ids: Vec<usize> = Vec::new();
    for k in 0..8u32 {
        ids.push(r.insert(k));
    }
    let victim = ids[3];
    assert_eq!(r.remove(victim), Some(3));
    let mut found = false;
    for _ in 0..10000 {
        let i = r.reserve();
        if i == victim {
            found = true;
            break;
        }
        assert!(!ids.contains(&i));
        ids.push(i);
    }
    assert!(found);
    assert_eq!(r.get(victim), None);
}

#[test]
fn removed_slot_shows_nothing() {
    let mut r: ReuseArr<u32> = ReuseArr::new();
    let i = r.insert(7);
    assert_eq!(r.remove(i), Some(7));
    assert_eq!(r.get(i), None);
    assert!(r.get_mut(i).is_none());
    assert_eq!(r.remove(i), None);
    assert_eq!(r.get(i), None);
    let j = r.insert(8);
    let k = r.insert(9);
    assert_ne!(j, k);
}

#[test]
fn insert_at_fills_reserved_slot_and_get_mut_edits_it() {
    let mut r: ReuseArr<u32> = ReuseArr::new();
    let i = r.reserve();
    assert_eq!(r.get(i), None);
    assert_eq!(r.insert_at(5, i), i);
    assert_eq!(r.get(i), Some(&5));
    if let Some(v) = r.get_mut(i) {
        *v = 6;
    }
    assert_eq!(r.get(i), Some(&6));
    assert_eq!(r.get(1000), None);
}

#[test]
fn latest_value_wins() {
    let mut s: KeepLatest<u64> = KeepLatest::new();
    s.init();
    s.write(1);
    s.write(2);
    s.write(3);
    let mut out: u64 = 0;
    s.get(&mut out);
    assert_eq!(out, 3);
}

#[test]
fn baseline_persists_between_reads() {
    let mut s: KeepLatest<u64> = KeepLatest::new();
    s.init();
    s.write(41);
    let mut out: u64 = 0;
    s.get(&mut out);
    assert_eq!(out, 41);
    let mut again: u64 = 0;
    s.get(&mut again);
    assert_eq!(again, 41);
}

#[test]
fn read_before_any_write_gives_default() {
    let mut s: KeepLatest<u64> = KeepLatest::new();
    s.init();
    let mut out: u64 = 99;
    s.get(&mut out);
    assert_eq!(out, 0);
}

#[test]
fn write_reports_lost_values() {
    let mut s: KeepLatest<u64> = KeepLatest::new();
    s.init();
    assert!(s.write(1));
    assert!(!s.write(2));
    let mut out: u64 = 0;
    s.get(&mut out);
    assert_eq!(out, 2);
    assert!(s.write(3));
}

#[test]
fn latch_admits_one_drainer_and_runs_each_item_once() {
    let mut g = WorkLatch::new();
    let w1 = ClientWork { work_type: WorkType::TokenWise(5), client: 2 };
    let w2 = ClientWork { work_type: WorkType::MarketMessage, client: 2 };
    let w3 = ClientWork { work_type: WorkType::TokenWiseLatest(9), client: 2 };
    assert!(!g.is_busy());
    assert!(g.submit(w1));
    assert!(g.is_busy());
    assert!(!g.submit(w2));
    let first = g.take_all();
    assert_eq!(first, vec![w1, w2]);
    assert!(!g.submit(w3));
    assert!(g.finish_drain());
    let second = g.take_all();
    assert_eq!(second, vec![w3]);
    assert!(!g.finish_drain());
    assert!(!g.is_busy());
    assert!(g.submit(w1));
}

#[test]
fn read_loop_counts_bytes_and_replies_when_drained() {
    let mut p = InputPacket::new();
    assert_eq!(handle_request(&mut p, &Ok(5)), ReadAction::ReadAgain);
    assert_eq!(p.1, 5);
    assert_eq!(handle_request(&mut p, &Ok(1024)), ReadAction::ReadAgain);
    assert_eq!(p.1, 1029);
    let interrupted_err: Result<usize, Error> = Err(Error::from(ErrorKind::Interrupted));
    assert_eq!(handle_request(&mut p, &interrupted_err), ReadAction::ReadAgain);
    let blocked: Result<usize, Error> = Err(Error::from(ErrorKind::WouldBlock));
    assert_eq!(handle_request(&mut p, &blocked), ReadAction::Reply);
    assert_eq!(p.1, 1029);
}

#[test]
fn read_loop_disconnects_on_close_or_failure() {
    let mut p = InputPacket::new();
    assert_eq!(handle_request(&mut p, &Ok(0)), ReadAction::Disconnect);
    let reset: Result<usize, Error> = Err(Error::from(ErrorKind::ConnectionReset));
    assert_eq!(handle_request(&mut p, &reset), ReadAction::Disconnect);
    assert_eq!(p.1, 0);
}

#[test]
fn read_count_saturates() {
    let mut p = InputPacket::new();
    p.1 = usize::MAX - 2;
    assert_eq!(handle_request(&mut p, &Ok(10)), ReadAction::ReadAgain);
    assert_eq!(p.1, usize::MAX);
}

#[test]
fn accept_loop_drains_a_burst() {
    let outcomes: Vec<Result<u32, Error>> = vec![
        Ok(1),
        Ok(2),
        Err(Error::from(ErrorKind::Interrupted)),
        Ok(3),
        Err(Error::from(ErrorKind::WouldBlock)),
        Ok(4),
    ];
    let mut accepted: Vec<u32> = Vec::new();
    for o in outcomes.iter() {
        match accept_step(o) {
            AcceptAction::Handle => accepted.push(*o.as_ref().unwrap()),
            AcceptAction::Retry => continue,
            AcceptAction::Stop => break,
        }
    }
    assert_eq!(accepted, vec![1, 2, 3]);
    let failed: Result<u32, Error> = Err(Error::from(ErrorKind::PermissionDenied));
    assert_eq!(accept_step(&failed), AcceptAction::Stop);
}

#[test]
fn events_route_by_key() {
    assert_eq!(route_event(0), EventTarget::Listener(Transport::Tcp));
    assert_eq!(route_event(1), EventTarget::Listener(Transport::Ws));
    assert_eq!(route_event(2), EventTarget::Client(2));
    assert_eq!(route_event(77), EventTarget::Client(77));
}

#[test]
fn error_classes() {
    let wb = Error::from(ErrorKind::WouldBlock);
    let it = Error::from(ErrorKind::Interrupted);
    let other = Error::from(ErrorKind::NotFound);
    assert!(would_block(&wb));
    assert!(!would_block(&it));
    assert!(!would_block(&other));
    assert!(interrupted(&it));
    assert!(!interrupted(&wb));
    assert!(!interrupted(&other));
}

#[test]
fn client_table_keeps_listener_keys() {
    let mut t = new_client_table();
    let idx = t.reserve();
    assert_eq!(idx, 2);
    assert!(handle_disconnection(&mut t, 0).is_none());
    assert!(handle_disconnection(&mut t, 1).is_none());
    let next = t.reserve();
    assert!(next >= 2);
    assert_ne!(next, idx);
}

#[test]
fn released_client_index_goes_to_next_connection() {
    let mut t = new_client_table();
    let mut taken: Vec<usize> = Vec::new();
    for _ in 0..64 {
        taken.push(t.reserve());
    }
    let idx = taken[10];
    assert!(handle_disconnection(&mut t, idx).is_none());
    assert!(next_reserved_is(&mut t, &mut taken, idx));
}

#[test]
fn failed_handshake_releases_the_index() {
    let mut t = new_client_table();
    let mut taken: Vec<usize> = Vec::new();
    for _ in 0..64 {
        taken.push(t.reserve());
    }
    let idx = taken[5];
    handle_connection(&mut t, idx, None);
    assert!(t.get(idx).is_none());
    assert!(next_reserved_is(&mut t, &mut taken, idx));
}

#[test]
fn type_flags_combine() {
    let d = TypeFlags::depth();
    let t = TypeFlags::touch_line();
    let m = TypeFlags::mini_touch_line();
    let dt = d.union(t);
    assert_eq!(dt.bits(), 3);
    assert!(dt.contains(d));
    assert!(dt.contains(t));
    assert!(!dt.contains(m));
    assert_eq!(dt.union(m).bits(), TypeFlags::all().bits());
    assert!(TypeFlags::all().contains(dt));
}

#[test]
fn packets_start_empty() {
    let i = InputPacket::new();
    assert_eq!(i.1, 0);
    assert_eq!(i.0.len(), INPUT_BUF_SIZE);
    assert!(i.0.iter().all(|b| *b == 0));
    let o = OutputPacket::new();
    assert_eq!(o.1, 0);
    assert_eq!(o.0.len(), OUTPUT_BUF_SIZE);
}

#[test]
fn default_mode_is_tcp() {
    assert_eq!(Mode::default(), Mode::Tcp);
}

fn next_reserved_is<T>(t: &mut ReuseArr<T>, taken: &mut Vec<usize>, idx: usize) -> bool {
    for _ in 0..10000 {
        let i = t.reserve();
        if i == idx {
            return true;
        }
        assert!(i >= 2 && !taken.contains(&i));
        taken.push(i);
    }
    false
}
