use std::sync::atomic::{AtomicUsize, Ordering};
use std::sync::Arc;
use std::time::Duration;

use lamellar::arch::GlobalArch;
use lamellar::lamellar_request::{accept_reply, AmType, LamellarRequest};
use lamellar::req_id::IdCounter;

fn counter() -> Arc<AtomicUsize> {
    Arc::new(AtomicUsize::new(0))
}

fn pair(
    ids: &mut IdCounter,
    num_pes: usize,
    am_type: AmType,
    arch_pes: usize,
) -> (
    LamellarRequest<u64, GlobalArch>,
    lamellar::lamellar_request::InternalReq,
) {
    LamellarRequest::<u64, GlobalArch>::new(
        ids,
        num_pes,
        am_type,
        GlobalArch { num_pes: arch_pes },
        counter(),
        counter(),
    )
}

#[test]
fn ids_are_pairwise_distinct() {
    let mut ids = IdCounter::new();
    let (r0, _i0) = pair(&mut ids, 1, AmType::RegisteredFunction, 1);
    let (r1, _i1) = pair(&mut ids, 1, AmType::RegisteredFunction, 1);
    let (r2, _i2) = pair(&mut ids, 3, AmType::RemoteClosure, 3);
    assert_ne!(r0.id(), r1.id());
    assert_ne!(r0.id(), r2.id());
    assert_ne!(r1.id(), r2.id());
}

#[test]
fn single_target_valid_payload() {
    let mut ids = IdCounter::new();
    let (req, ireq) = pair(&mut ids, 1, AmType::RegisteredFunction, 1);
    ireq.enqueue_reply(0, Some(bincode::serialize(&7u64).unwrap()));
    assert_eq!(req.get(), Some(7));
}

#[test]
fn single_target_no_payload_is_absent() {
    let mut ids = IdCounter::new();
    let (req, ireq) = pair(&mut ids, 1, AmType::RegisteredFunction, 1);
    ireq.enqueue_reply(0, None);
    assert_eq!(req.get(), None);
}

#[test]
fn malformed_registered_payload_is_absent() {
    let mut ids = IdCounter::new();
    let (req, ireq) = pair(&mut ids, 1, AmType::RegisteredFunction, 1);
    // three bytes cannot decode as a u64 under bincode's fixed-width encoding
    ireq.enqueue_reply(0, Some(vec![1, 2, 3]));
    assert_eq!(req.get(), None);
}

#[test]
fn closure_valid_payload_decodes() {
    let mut ids = IdCounter::new();
    let (req, ireq) = pair(&mut ids, 1, AmType::RemoteClosure, 1);
    ireq.enqueue_reply(0, Some(bincode::serialize(&99u64).unwrap()));
    assert_eq!(req.get(), Some(99));
}

#[test]
fn closure_no_payload_is_absent() {
    let mut ids = IdCounter::new();
    let (req, ireq) = pair(&mut ids, 1, AmType::RemoteClosure, 1);
    ireq.enqueue_reply(0, None);
    assert_eq!(req.get(), None);
}

#[test]
fn fan_out_places_replies_by_team_index() {
    let mut ids = IdCounter::new();
    let (req, ireq) = pair(&mut ids, 4, AmType::RegisteredFunction, 4);
    // each remote PE replies with its own rank, arriving out of order
    for pe in [2usize, 0, 3, 1] {
        ireq.enqueue_reply(pe, Some(bincode::serialize(&(pe as u64)).unwrap()));
    }
    let all = req.get_all();
    assert_eq!(all, vec![Some(0), Some(1), Some(2), Some(3)]);
}

#[test]
fn fan_out_single_target_defers_to_get() {
    let mut ids = IdCounter::new();
    let (req, ireq) = pair(&mut ids, 1, AmType::RegisteredFunction, 1);
    ireq.enqueue_reply(0, Some(bincode::serialize(&5u64).unwrap()));
    assert_eq!(req.get_all(), vec![Some(5)]);
}

#[test]
fn fan_out_mixed_payloads() {
    let mut ids = IdCounter::new();
    let (req, ireq) = pair(&mut ids, 3, AmType::RegisteredFunction, 3);
    ireq.enqueue_reply(1, None);
    ireq.enqueue_reply(2, Some(vec![9])); // malformed: decodes to nothing
    ireq.enqueue_reply(0, Some(bincode::serialize(&11u64).unwrap()));
    assert_eq!(req.get_all(), vec![Some(11), None, None]);
}

#[test]
fn closure_fan_out_places_replies() {
    let mut ids = IdCounter::new();
    let (req, ireq) = pair(&mut ids, 2, AmType::RemoteClosure, 2);
    ireq.enqueue_reply(1, Some(bincode::serialize(&1u64).unwrap()));
    ireq.enqueue_reply(0, Some(bincode::serialize(&0u64).unwrap()));
    assert_eq!(req.get_all(), vec![Some(0), Some(1)]);
}

#[test]
fn unmappable_reply_is_not_counted() {
    // the per-reply step: an origin outside the architecture changes nothing
    let arch = GlobalArch { num_pes: 1 };
    let mut res: Vec<Option<u64>> = vec![None, None];
    let mut remaining: usize = 2;
    accept_reply(
        &arch,
        AmType::RegisteredFunction,
        &mut res,
        &mut remaining,
        7,
        Some(bincode::serialize(&7u64).unwrap()),
    );
    assert_eq!(remaining, 2);
    assert_eq!(res, vec![None, None]);
}

#[test]
fn unmappable_origin_stalls_fan_out() {
    let mut ids = IdCounter::new();
    // two replies owed, but the architecture can map only world PE 0
    let (req, ireq) = pair(&mut ids, 2, AmType::RegisteredFunction, 1);
    ireq.enqueue_reply(7, Some(bincode::serialize(&7u64).unwrap()));
    let (done_tx, done_rx) = crossbeam::channel::bounded(1);
    crossbeam::scope(|s| {
        s.spawn(move |_| {
            let all = req.get_all();
            let _ = done_tx.send(all);
        });
        // bounded-time hang detection: the unmappable reply must not complete
        // the call
        assert!(done_rx.recv_timeout(Duration::from_millis(400)).is_err());
        // two mappable deliveries finish it; the second overwrites the first
        ireq.enqueue_reply(0, Some(bincode::serialize(&1u64).unwrap()));
        ireq.enqueue_reply(0, Some(bincode::serialize(&2u64).unwrap()));
        let all = done_rx.recv_timeout(Duration::from_secs(10)).unwrap();
        assert_eq!(all, vec![Some(2), None]);
    })
    .unwrap();
}

#[test]
fn string_payloads_decode() {
    let mut ids = IdCounter::new();
    let (req, ireq) = LamellarRequest::<String, GlobalArch>::new(
        &mut ids,
        1,
        AmType::RegisteredFunction,
        GlobalArch { num_pes: 1 },
        counter(),
        counter(),
    );
    ireq.enqueue_reply(0, Some(bincode::serialize("sixty-one").unwrap()));
    assert_eq!(req.get(), Some(String::from("sixty-one")));
}

#[test]
fn dropping_the_consumer_clears_the_flag() {
    let mut ids = IdCounter::new();
    let (req, ireq) = pair(&mut ids, 1, AmType::RegisteredFunction, 1);
    assert!(ireq.is_active());
    drop(req);
    assert!(!ireq.is_active());
    // the flag never reverts, and late deliveries are silently dropped
    ireq.enqueue_reply(0, Some(bincode::serialize(&3u64).unwrap()));
    assert!(!ireq.is_active());
}

#[test]
fn replies_remaining_counter_is_decremented() {
    let mut ids = IdCounter::new();
    let (_req, ireq) = pair(&mut ids, 4, AmType::RegisteredFunction, 4);
    assert_eq!(ireq.cnt.load(Ordering::SeqCst), 4);
    ireq.enqueue_reply(0, None);
    assert_eq!(ireq.cnt.load(Ordering::SeqCst), 3);
    assert_eq!(ireq.size, 0);
}
