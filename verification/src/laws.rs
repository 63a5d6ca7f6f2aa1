//! Protocol-level laws, proved of the transition functions of
//! [`crate::model`]. Because every executable method of
//! [`crate::ledger::KeyLedger`] is proved to implement its transition, each
//! law here holds of the executable ledger as well.

use vstd::prelude::*;

use crate::model::{
    bal_of, confirm_count, custodian_slot, fresh_session, node_registered, recovery_finished,
    recovery_started, user_registered, with_confirmation, AccountId, LedgerView, RecoveryView,
    Status, CONFIRM_THRESHOLD, NODE_REWARD, PAYOUT_TOTAL, START_RESERVE,
};

verus! {

/// A session never counts fewer than zero or more than three confirmations.
pub proof fn lemma_confirm_count_bounds(r: RecoveryView)
    ensures
        0 <= confirm_count(r) <= 3,
{
}

/// Node registration is idempotent: a second registration for the same
/// identity changes nothing at all, whatever public key it brings, so the
/// stored key stays the one from the first successful registration.
pub proof fn lemma_node_registration_idempotent(
    l: LedgerView,
    caller: AccountId,
    pk1: Seq<char>,
    pk2: Seq<char>,
)
    ensures
        node_registered(node_registered(l, caller, pk1), caller, pk2) == node_registered(
            l,
            caller,
            pk1,
        ),
        !l.nodes.dom().contains(caller) ==> node_registered(l, caller, pk1).nodes[caller].pubk
            == pk1,
{
}

/// Right after a user registers, their session is fresh: idle, no finalized
/// rounds counted, all proofs empty and all confirmation flags false — also
/// when the identity had an earlier session in any state.
pub proof fn lemma_fresh_session_on_registration(
    l: LedgerView,
    caller: AccountId,
    pubk: Seq<char>,
    node1_cond_type: u8,
    node1_id: AccountId,
    node2_cond_type: u8,
    node2_id: AccountId,
    node3_cond_type: u8,
    node3_id: AccountId,
)
    ensures
        user_registered(
            l,
            caller,
            pubk,
            node1_cond_type,
            node1_id,
            node2_cond_type,
            node2_id,
            node3_cond_type,
            node3_id,
        ).recoveries[caller] == fresh_session(caller),
        fresh_session(caller).status == Status::Idle,
        fresh_session(caller).r_times == 0,
        !fresh_session(caller).node1_confirm,
        !fresh_session(caller).node2_confirm,
        !fresh_session(caller).node3_confirm,
{
}

/// The start guard: while the requester's balance is under the reserve,
/// starting a recovery changes nothing — in particular not the status of
/// the requester's session.
pub proof fn lemma_start_guard(l: LedgerView, caller: AccountId)
    requires
        bal_of(l.balances, caller) < START_RESERVE,
    ensures
        recovery_started(l, caller) == l,
{
}

/// An unauthorized confirmer is inert: a confirmation from an identity that
/// fills none of the user's three custodian slots leaves the whole ledger —
/// the session included — unchanged.
pub proof fn lemma_unauthorized_confirmer_inert(
    l: LedgerView,
    x: AccountId,
    u: AccountId,
    p: Seq<char>,
)
    requires
        l.users.dom().contains(u) ==> custodian_slot(l.users[u], x) == 0,
    ensures
        recovery_finished(l, x, u, p) == l,
{
}

/// Re-activation resets the round: starting a recovery on an existing
/// session — for instance after a finalized round — clears all three proofs
/// and confirmation flags and makes the session active, while the identity
/// and the count of finalized rounds stay what they were.
pub proof fn lemma_reactivation_reset(l: LedgerView, u: AccountId)
    requires
        l.recoveries.dom().contains(u),
        bal_of(l.balances, u) >= START_RESERVE,
    ensures
        recovery_started(l, u).recoveries[u].status == Status::Active,
        recovery_started(l, u).recoveries[u].r_times == l.recoveries[u].r_times,
        recovery_started(l, u).recoveries[u].uid == l.recoveries[u].uid,
        !recovery_started(l, u).recoveries[u].node1_confirm,
        !recovery_started(l, u).recoveries[u].node2_confirm,
        !recovery_started(l, u).recoveries[u].node3_confirm,
        recovery_started(l, u).recoveries[u].recovery1_proof == Seq::<char>::empty(),
        recovery_started(l, u).recoveries[u].recovery2_proof == Seq::<char>::empty(),
        recovery_started(l, u).recoveries[u].recovery3_proof == Seq::<char>::empty(),
{
}

/// Starting a round never touches the count of finalized rounds: every
/// session that exists keeps its count, and no session appears or vanishes.
pub proof fn lemma_start_keeps_completions(l: LedgerView, caller: AccountId)
    ensures
        recovery_started(l, caller).recoveries.dom() == l.recoveries.dom(),
        forall|k: AccountId| #![auto]
            l.recoveries.dom().contains(k) ==> recovery_started(l, caller).recoveries[k].r_times
                == l.recoveries[k].r_times,
{
    assert(recovery_started(l, caller).recoveries.dom() =~= l.recoveries.dom());
}

/// A confirmation never lowers the count of finalized rounds: every session
/// keeps its count, except that finalizing the round of `user` raises that
/// one count by exactly one (saturating at the top of its range).
pub proof fn lemma_completions_monotonic(
    l: LedgerView,
    caller: AccountId,
    user: AccountId,
    p: Seq<char>,
)
    ensures
        recovery_finished(l, caller, user, p).recoveries.dom() == l.recoveries.dom(),
        forall|k: AccountId| #![auto]
            l.recoveries.dom().contains(k) ==> recovery_finished(
                l,
                caller,
                user,
                p,
            ).recoveries[k].r_times == l.recoveries[k].r_times || (k == user && recovery_finished(
                l,
                caller,
                user,
                p,
            ).recoveries[k].r_times == crate::model::bumped_completions(l.recoveries[k].r_times)),
{
    assert(recovery_finished(l, caller, user, p).recoveries.dom() =~= l.recoveries.dom());
}

/// A confirmation is idempotent: while the session stays active, a
/// custodian submitting twice — with any two proof strings — leaves the
/// ledger exactly as one submission with the latest proof would, so the
/// custodian is counted once and the stored proof is the latest one.
pub proof fn lemma_confirmation_idempotent(
    l: LedgerView,
    c: AccountId,
    u: AccountId,
    p1: Seq<char>,
    p2: Seq<char>,
)
    requires
        l.users.dom().contains(u),
        l.recoveries.dom().contains(u),
        l.recoveries[u].status == Status::Active,
        custodian_slot(l.users[u], c) != 0,
        confirm_count(with_confirmation(l.recoveries[u], custodian_slot(l.users[u], c), p1))
            < CONFIRM_THRESHOLD,
    ensures
        recovery_finished(recovery_finished(l, c, u, p1), c, u, p2) == recovery_finished(
            l,
            c,
            u,
            p2,
        ),
        confirm_count(recovery_finished(recovery_finished(l, c, u, p1), c, u, p2).recoveries[u])
            == confirm_count(recovery_finished(l, c, u, p1).recoveries[u]),
{
    let s = custodian_slot(l.users[u], c);
    let r0 = l.recoveries[u];
    let r1 = with_confirmation(r0, s, p1);
    let r2 = with_confirmation(r0, s, p2);
    let l1 = recovery_finished(l, c, u, p1);
    assert(l1.recoveries =~= l.recoveries.insert(u, r1));
    assert(l1.users == l.users);
    assert(l1.recoveries[u] == r1);
    assert(with_confirmation(r1, s, p2) == r2);
    assert(confirm_count(r2) == confirm_count(r1));
    let l2 = recovery_finished(l1, c, u, p2);
    assert(l2.recoveries =~= l.recoveries.insert(u, r2));
    assert(recovery_finished(l, c, u, p2).recoveries =~= l.recoveries.insert(u, r2));
    assert(l2 =~= recovery_finished(l, c, u, p2));
}

/// Reaching the threshold is order-independent: with a user whose three
/// custodians are distinct identities other than the user, a session in a
/// freshly started round, and a balance covering the payout, any two
/// distinct custodians confirming — in either order — finalize the round,
/// count exactly one more finalized round, move the payout total out of the
/// user's balance and one reward to each of the three custodians, confirmed
/// or not. Both orders end in the same ledger.
pub proof fn lemma_threshold_order_independence(
    l: LedgerView,
    u: AccountId,
    a: AccountId,
    b: AccountId,
    pa: Seq<char>,
    pb: Seq<char>,
)
    requires
        l.users.dom().contains(u),
        l.recoveries.dom().contains(u),
        l.recoveries[u].status == Status::Active,
        !l.recoveries[u].node1_confirm,
        !l.recoveries[u].node2_confirm,
        !l.recoveries[u].node3_confirm,
        l.recoveries[u].r_times < u32::MAX,
        custodian_slot(l.users[u], a) != 0,
        custodian_slot(l.users[u], b) != 0,
        a != b,
        l.users[u].node1_id != l.users[u].node2_id,
        l.users[u].node1_id != l.users[u].node3_id,
        l.users[u].node2_id != l.users[u].node3_id,
        l.users[u].node1_id != u,
        l.users[u].node2_id != u,
        l.users[u].node3_id != u,
        bal_of(l.balances, u) >= PAYOUT_TOTAL,
        bal_of(l.balances, l.users[u].node1_id) < u128::MAX,
        bal_of(l.balances, l.users[u].node2_id) < u128::MAX,
        bal_of(l.balances, l.users[u].node3_id) < u128::MAX,
    ensures
        recovery_finished(recovery_finished(l, a, u, pa), b, u, pb).recoveries[u].status
            == Status::Finalized,
        recovery_finished(recovery_finished(l, a, u, pa), b, u, pb).recoveries[u].r_times
            == l.recoveries[u].r_times + 1,
        bal_of(recovery_finished(recovery_finished(l, a, u, pa), b, u, pb).balances, u) == bal_of(
            l.balances,
            u,
        ) - PAYOUT_TOTAL,
        bal_of(
            recovery_finished(recovery_finished(l, a, u, pa), b, u, pb).balances,
            l.users[u].node1_id,
        ) == bal_of(l.balances, l.users[u].node1_id) + NODE_REWARD,
        bal_of(
            recovery_finished(recovery_finished(l, a, u, pa), b, u, pb).balances,
            l.users[u].node2_id,
        ) == bal_of(l.balances, l.users[u].node2_id) + NODE_REWARD,
        bal_of(
            recovery_finished(recovery_finished(l, a, u, pa), b, u, pb).balances,
            l.users[u].node3_id,
        ) == bal_of(l.balances, l.users[u].node3_id) + NODE_REWARD,
        recovery_finished(recovery_finished(l, a, u, pa), b, u, pb) == recovery_finished(
            recovery_finished(l, b, u, pb),
            a,
            u,
            pa,
        ),
{
    let uu = l.users[u];
    let r0 = l.recoveries[u];
    let sa = custodian_slot(uu, a);
    let sb = custodian_slot(uu, b);
    assert(sa != sb);
    let ra = with_confirmation(r0, sa, pa);
    let rb = with_confirmation(r0, sb, pb);
    assert(confirm_count(ra) == 1);
    assert(confirm_count(rb) == 1);
    let l_a = recovery_finished(l, a, u, pa);
    assert(l_a.recoveries =~= l.recoveries.insert(u, ra));
    assert(l_a.balances == l.balances);
    assert(l_a.users == l.users);
    let rab = with_confirmation(ra, sb, pb);
    assert(confirm_count(rab) == 2);
    let l_ab = recovery_finished(l_a, b, u, pb);
    assert(l_ab.recoveries =~= l.recoveries.insert(
        u,
        crate::model::finalized(rab),
    ));
    assert(l_ab.balances == crate::model::payout(
        l.balances,
        u,
        uu.node1_id,
        uu.node2_id,
        uu.node3_id,
    ));
    let l_b = recovery_finished(l, b, u, pb);
    assert(l_b.recoveries =~= l.recoveries.insert(u, rb));
    assert(l_b.balances == l.balances);
    assert(l_b.users == l.users);
    let rba = with_confirmation(rb, sa, pa);
    assert(confirm_count(rba) == 2);
    let l_ba = recovery_finished(l_b, a, u, pa);
    assert(l_ba.recoveries =~= l.recoveries.insert(
        u,
        crate::model::finalized(rba),
    ));
    assert(rab == rba);
    assert(l_ab =~= l_ba);
}

} // verus!
