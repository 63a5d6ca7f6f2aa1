//! Tests of the registries and the recovery state machine: registration,
//! session lifecycle, confirmation counting, finalization and payout.

use keysafe::ledger::KeyLedger;
use keysafe::model::Status;

/// A ledger whose creator is identity 1, with user 7 registered against the
/// custodian nodes 2, 3 and 4.
fn ledger_with_user() -> KeyLedger {
    let mut kl = KeyLedger::new(1, 30000);
    kl.register_user(7, String::from("pkA"), 0, 2, 0, 3, 0, 4);
    kl
}

#[test]
fn register_node_is_idempotent() {
    let mut kl = KeyLedger::new(1, 30000);
    kl.register_node(5, String::from("pk-first"));
    kl.register_node(5, String::from("pk-second"));
    let n = kl.get_node(5).unwrap();
    assert_eq!(n.nid, 5);
    assert_eq!(n.pubk, "pk-first");
}

#[test]
fn register_user_seeds_fresh_session() {
    let mut kl = ledger_with_user();
    let r = kl.get_recovery(7).unwrap();
    assert_eq!(r.status, Status::Idle);
    assert_eq!(r.r_times, 0);
    assert!(!r.node1_confirm && !r.node2_confirm && !r.node3_confirm);
    assert_eq!(r.recovery1_proof, "");
    assert_eq!(r.recovery2_proof, "");
    assert_eq!(r.recovery3_proof, "");
    // Re-registration discards a finalized round and seeds a fresh session.
    let _ = kl.transfer(1, 7, 3);
    kl.start_recovery(7);
    kl.finish_recovery(2, 7, String::from("p1"));
    kl.finish_recovery(3, 7, String::from("p2"));
    assert_eq!(kl.get_recovery(7).unwrap().status, Status::Finalized);
    assert_eq!(kl.get_recovery(7).unwrap().r_times, 1);
    kl.register_user(7, String::from("pkA"), 0, 2, 0, 3, 0, 4);
    let r2 = kl.get_recovery(7).unwrap();
    assert_eq!(r2.status, Status::Idle);
    assert_eq!(r2.r_times, 0);
    assert!(!r2.node1_confirm && !r2.node2_confirm && !r2.node3_confirm);
    assert_eq!(r2.recovery1_proof, "");
}

#[test]
fn start_guard_requires_reserve() {
    let mut kl = ledger_with_user();
    // User 7 holds nothing yet: the start is a silent no-op.
    kl.start_recovery(7);
    assert_eq!(kl.get_recovery(7).unwrap().status, Status::Idle);
    // Two units are still under the reserve of three.
    let _ = kl.transfer(1, 7, 2);
    kl.start_recovery(7);
    assert_eq!(kl.get_recovery(7).unwrap().status, Status::Idle);
    // One more unit reaches the reserve and the round starts.
    let _ = kl.transfer(1, 7, 1);
    kl.start_recovery(7);
    assert_eq!(kl.get_recovery(7).unwrap().status, Status::Active);
}

#[test]
fn start_without_session_is_noop() {
    let mut kl = KeyLedger::new(1, 30000);
    // Identity 1 holds the supply but never registered as a user: no session
    // exists and none is created.
    kl.start_recovery(1);
    assert!(kl.get_recovery(1).is_none());
}

#[test]
fn unauthorized_confirmer_is_inert() {
    let mut kl = ledger_with_user();
    let _ = kl.transfer(1, 7, 3);
    kl.start_recovery(7);
    // Identity 9 fills none of the three custodian slots.
    kl.finish_recovery(9, 7, String::from("bogus"));
    let r = kl.get_recovery(7).unwrap();
    assert_eq!(r.status, Status::Active);
    assert!(!r.node1_confirm && !r.node2_confirm && !r.node3_confirm);
    assert_eq!(r.recovery1_proof, "");
    assert_eq!(r.recovery2_proof, "");
    assert_eq!(r.recovery3_proof, "");
    assert_eq!(r.r_times, 0);
}

#[test]
fn confirmation_needs_active_round() {
    let mut kl = ledger_with_user();
    // The session is idle: a custodian's confirmation is a silent no-op,
    // which forces an explicit start before each round, the first included.
    kl.finish_recovery(2, 7, String::from("early"));
    let r = kl.get_recovery(7).unwrap();
    assert_eq!(r.status, Status::Idle);
    assert!(!r.node1_confirm);
    assert_eq!(r.recovery1_proof, "");
}

#[test]
fn confirmation_for_unknown_user_is_noop() {
    let mut kl = KeyLedger::new(1, 30000);
    kl.finish_recovery(2, 99, String::from("p"));
    assert!(kl.get_user(99).is_none());
    assert!(kl.get_recovery(99).is_none());
}

#[test]
fn threshold_is_order_independent() {
    let mut first = ledger_with_user();
    let _ = first.transfer(1, 7, 3);
    first.start_recovery(7);
    first.finish_recovery(3, 7, String::from("p3"));
    first.finish_recovery(4, 7, String::from("p4"));

    let mut second = ledger_with_user();
    let _ = second.transfer(1, 7, 3);
    second.start_recovery(7);
    second.finish_recovery(4, 7, String::from("p4"));
    second.finish_recovery(3, 7, String::from("p3"));

    for kl in [&first, &second] {
        let r = kl.get_recovery(7).unwrap();
        assert_eq!(r.status, Status::Finalized);
        assert_eq!(r.r_times, 1);
        assert!(!r.node1_confirm);
        assert!(r.node2_confirm && r.node3_confirm);
        assert_eq!(r.recovery2_proof, "p3");
        assert_eq!(r.recovery3_proof, "p4");
        // The payout rewards all three custodians, the non-responding node 2
        // included, with one unit each out of the user's balance.
        assert_eq!(kl.balance_of(7), 0);
        assert_eq!(kl.balance_of(2), 1);
        assert_eq!(kl.balance_of(3), 1);
        assert_eq!(kl.balance_of(4), 1);
    }
}

#[test]
fn confirmation_is_idempotent() {
    let mut kl = ledger_with_user();
    let _ = kl.transfer(1, 7, 3);
    kl.start_recovery(7);
    kl.finish_recovery(2, 7, String::from("first"));
    kl.finish_recovery(2, 7, String::from("second"));
    let r = kl.get_recovery(7).unwrap();
    // One counted confirmation: the round is still short of the threshold.
    assert_eq!(r.status, Status::Active);
    assert!(r.node1_confirm);
    assert!(!r.node2_confirm && !r.node3_confirm);
    // The stored proof is the latest submission.
    assert_eq!(r.recovery1_proof, "second");
    assert_eq!(r.r_times, 0);
    assert_eq!(kl.balance_of(7), 3);
}

#[test]
fn reactivation_resets_round() {
    let mut kl = ledger_with_user();
    let _ = kl.transfer(1, 7, 3);
    kl.start_recovery(7);
    kl.finish_recovery(2, 7, String::from("p1"));
    kl.finish_recovery(3, 7, String::from("p2"));
    assert_eq!(kl.get_recovery(7).unwrap().status, Status::Finalized);
    // A new round needs the reserve again; the reset clears the slots but
    // keeps the count of finalized rounds.
    let _ = kl.transfer(1, 7, 3);
    kl.start_recovery(7);
    let r = kl.get_recovery(7).unwrap();
    assert_eq!(r.status, Status::Active);
    assert_eq!(r.r_times, 1);
    assert!(!r.node1_confirm && !r.node2_confirm && !r.node3_confirm);
    assert_eq!(r.recovery1_proof, "");
    assert_eq!(r.recovery2_proof, "");
    assert_eq!(r.recovery3_proof, "");
}

#[test]
fn full_recovery_scenario() {
    let mut kl = KeyLedger::new(1, 30000);
    kl.register_user(7, String::from("pkA"), 0, 2, 0, 3, 0, 4);
    assert_eq!(kl.get_recovery(7).unwrap().status, Status::Idle);
    kl.start_recovery(7);
    assert_eq!(kl.get_recovery(7).unwrap().status, Status::Idle);
    let _ = kl.transfer(1, 7, 3);
    kl.start_recovery(7);
    assert_eq!(kl.get_recovery(7).unwrap().status, Status::Active);
    kl.finish_recovery(2, 7, String::from("p1"));
    let mid = kl.get_recovery(7).unwrap();
    assert_eq!(mid.status, Status::Active);
    assert!(mid.node1_confirm && !mid.node2_confirm && !mid.node3_confirm);
    assert_eq!(mid.recovery1_proof, "p1");
    kl.finish_recovery(3, 7, String::from("p2"));
    let done = kl.get_recovery(7).unwrap();
    assert_eq!(done.status, Status::Finalized);
    assert_eq!(done.r_times, 1);
    assert_eq!(kl.balance_of(7), 0);
    assert_eq!(kl.balance_of(2), 1);
    assert_eq!(kl.balance_of(3), 1);
    assert_eq!(kl.balance_of(4), 1);
}

#[test]
fn payout_is_all_or_nothing() {
    let mut kl = ledger_with_user();
    let _ = kl.transfer(1, 7, 3);
    kl.start_recovery(7);
    // The user spends part of the reserve after starting: the round still
    // finalizes, but no custodian is paid rather than some of them.
    let _ = kl.transfer(7, 1, 2);
    kl.finish_recovery(2, 7, String::from("p1"));
    kl.finish_recovery(3, 7, String::from("p2"));
    let r = kl.get_recovery(7).unwrap();
    assert_eq!(r.status, Status::Finalized);
    assert_eq!(r.r_times, 1);
    assert_eq!(kl.balance_of(7), 1);
    assert_eq!(kl.balance_of(2), 0);
    assert_eq!(kl.balance_of(3), 0);
    assert_eq!(kl.balance_of(4), 0);
}

#[test]
fn duplicate_custodian_fills_first_slot() {
    let mut kl = KeyLedger::new(1, 30000);
    // Node 2 fills both the first and the second slot: its confirmation
    // lands in the first matching slot only.
    kl.register_user(7, String::from("pkA"), 0, 2, 0, 2, 0, 3);
    let _ = kl.transfer(1, 7, 3);
    kl.start_recovery(7);
    kl.finish_recovery(2, 7, String::from("p"));
    let r = kl.get_recovery(7).unwrap();
    assert!(r.node1_confirm);
    assert!(!r.node2_confirm && !r.node3_confirm);
    assert_eq!(r.recovery1_proof, "p");
    assert_eq!(r.status, Status::Active);
}

#[test]
fn user_registry_stores_assignments() {
    let kl = ledger_with_user();
    let u = kl.get_user(7).unwrap();
    assert_eq!(u.uid, 7);
    assert_eq!(u.pubk, "pkA");
    assert_eq!((u.node1_cond_type, u.node1_id), (0, 2));
    assert_eq!((u.node2_cond_type, u.node2_id), (0, 3));
    assert_eq!((u.node3_cond_type, u.node3_id), (0, 4));
}
