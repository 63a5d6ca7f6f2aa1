//! The mathematical model of the ledger.
//!
//! Every record of the executable ledger has a view type here, and every
//! operation of the ledger has a spec-level transition function that maps the
//! ledger view before the call to the ledger view after it. The contracts of
//! the executable methods state exactly that the method implements its
//! transition; the laws in [`crate::laws`] are proved of the transitions
//! alone and therefore carry over to the executable code.

use vstd::prelude::*;

verus! {

/// An opaque, globally unique handle for an account, user or custodian node.
/// The party that invokes an operation supplies the identities involved.
pub type AccountId = u64;

/// The unsigned monetary unit of the ledger; no fractional precision.
pub type Balance = u128;

/// A requester must hold at least this balance before a recovery round may
/// start: the reserve needed to reward up to three custodians.
pub const START_RESERVE: Balance = 3;

/// Number of confirmed custodians at which a recovery round finalizes.
pub const CONFIRM_THRESHOLD: u32 = 2;

/// Reward paid to each assigned custodian when a round finalizes.
pub const NODE_REWARD: Balance = 1;

/// Total paid out on finalization: one reward for each of the three
/// assigned custodians, whether or not that custodian confirmed.
pub const PAYOUT_TOTAL: Balance = 3;

/// Lifecycle of a recovery session. Within one round the status only moves
/// forward: `Idle` to `Active` to `Finalized`. A new round is entered by an
/// explicit re-activation, which resets the confirmation slots.
#[derive(Clone, Copy, Debug, PartialEq, Eq, Structural)]
pub enum Status {
    Idle,
    Active,
    Finalized,
}

/// The single caller-visible error: a checked transfer (including the
/// internal recovery payout) found the source balance too small.
#[derive(Clone, Copy, Debug, PartialEq, Eq, Structural)]
pub enum Error {
    InsufficientBalance,
}

/// View of a registered custodian node.
#[verifier::ext_equal]
pub struct NodeView {
    pub nid: AccountId,
    pub pubk: Seq<char>,
}

/// View of a registered user: a public key and exactly three custodian
/// assignments, each a condition code plus a node identity.
#[verifier::ext_equal]
pub struct UserView {
    pub uid: AccountId,
    pub pubk: Seq<char>,
    pub node1_cond_type: u8,
    pub node1_id: AccountId,
    pub node2_cond_type: u8,
    pub node2_id: AccountId,
    pub node3_cond_type: u8,
    pub node3_id: AccountId,
}

/// View of a user's recovery session: the round status, the count of
/// finalized rounds so far, and one proof/confirmation slot per custodian.
#[verifier::ext_equal]
pub struct RecoveryView {
    pub status: Status,
    pub uid: AccountId,
    pub r_times: u32,
    pub recovery1_proof: Seq<char>,
    pub node1_confirm: bool,
    pub recovery2_proof: Seq<char>,
    pub node2_confirm: bool,
    pub recovery3_proof: Seq<char>,
    pub node3_confirm: bool,
}

/// View of the whole ledger: the fixed supply and the four keyed stores.
#[verifier::ext_equal]
pub struct LedgerView {
    pub total_supply: Balance,
    pub balances: Map<AccountId, Balance>,
    pub nodes: Map<AccountId, NodeView>,
    pub users: Map<AccountId, UserView>,
    pub recoveries: Map<AccountId, RecoveryView>,
}

/// Balance of an identity: zero for one never credited (absence is no error).
pub open spec fn bal_of(m: Map<AccountId, Balance>, id: AccountId) -> Balance {
    if m.dom().contains(id) {
        m[id]
    } else {
        0
    }
}

/// Addition that stops at the top of the balance range instead of wrapping.
pub open spec fn sat_add(a: Balance, b: Balance) -> Balance {
    if a + b > u128::MAX {
        u128::MAX
    } else {
        (a + b) as Balance
    }
}

/// Subtraction that stops at zero instead of wrapping.
pub open spec fn sat_sub(a: Balance, b: Balance) -> Balance {
    if a >= b {
        (a - b) as Balance
    } else {
        0
    }
}

/// Whether `from` holds at least `amount`, so a checked debit succeeds.
pub open spec fn can_debit(m: Map<AccountId, Balance>, from: AccountId, amount: Balance) -> bool {
    bal_of(m, from) >= amount
}

/// The balance map after debiting `from` and then crediting `to` by
/// `amount`, in that order; both steps saturate at the bounds of the balance
/// range. When `from == to` the credit therefore sees the debited balance.
pub open spec fn moved(
    m: Map<AccountId, Balance>,
    from: AccountId,
    to: AccountId,
    amount: Balance,
) -> Map<AccountId, Balance> {
    let debited = m.insert(from, sat_sub(bal_of(m, from), amount));
    debited.insert(to, sat_add(bal_of(debited, to), amount))
}

/// The balance map after a checked transfer: unchanged when `from` cannot
/// cover `amount`, otherwise exactly the debit/credit of [`moved`].
pub open spec fn moved_checked(
    m: Map<AccountId, Balance>,
    from: AccountId,
    to: AccountId,
    amount: Balance,
) -> Map<AccountId, Balance> {
    if can_debit(m, from, amount) {
        moved(m, from, to, amount)
    } else {
        m
    }
}

/// The session a user holds right after registration: idle, no finalized
/// rounds, every proof empty and every confirmation flag clear.
pub open spec fn fresh_session(uid: AccountId) -> RecoveryView {
    RecoveryView {
        status: Status::Idle,
        uid: uid,
        r_times: 0,
        recovery1_proof: Seq::empty(),
        node1_confirm: false,
        recovery2_proof: Seq::empty(),
        node2_confirm: false,
        recovery3_proof: Seq::empty(),
        node3_confirm: false,
    }
}

/// A session re-entering an active round: the three proof/confirmation slots
/// are reset while the identity and the count of finalized rounds carry over.
pub open spec fn reactivated(r: RecoveryView) -> RecoveryView {
    RecoveryView {
        status: Status::Active,
        recovery1_proof: Seq::empty(),
        node1_confirm: false,
        recovery2_proof: Seq::empty(),
        node2_confirm: false,
        recovery3_proof: Seq::empty(),
        node3_confirm: false,
        ..r
    }
}

/// The slot (1, 2 or 3) that `caller` occupies among the user's custodians,
/// or 0 when `caller` is none of them. When one identity fills several slots
/// the first match wins.
pub open spec fn custodian_slot(u: UserView, caller: AccountId) -> int {
    if u.node1_id == caller {
        1
    } else if u.node2_id == caller {
        2
    } else if u.node3_id == caller {
        3
    } else {
        0
    }
}

/// The session after custodian slot `slot` confirms with proof string `p`:
/// that slot's flag is set and its proof replaced, the other slots keep
/// their state. A slot outside 1..=3 leaves the session unchanged.
pub open spec fn with_confirmation(r: RecoveryView, slot: int, p: Seq<char>) -> RecoveryView {
    if slot == 1 {
        RecoveryView { recovery1_proof: p, node1_confirm: true, ..r }
    } else if slot == 2 {
        RecoveryView { recovery2_proof: p, node2_confirm: true, ..r }
    } else if slot == 3 {
        RecoveryView { recovery3_proof: p, node3_confirm: true, ..r }
    } else {
        r
    }
}

/// Number of confirmation flags set in a session, between 0 and 3.
pub open spec fn confirm_count(r: RecoveryView) -> int {
    (if r.node1_confirm {
        1int
    } else {
        0int
    }) + (if r.node2_confirm {
        1int
    } else {
        0int
    }) + (if r.node3_confirm {
        1int
    } else {
        0int
    })
}

/// One more finalized round, saturating at the top of the counter's range.
pub open spec fn bumped_completions(t: u32) -> u32 {
    if t < u32::MAX {
        (t + 1) as u32
    } else {
        u32::MAX
    }
}

/// A session closing its round: the status becomes `Finalized` and the count
/// of finalized rounds grows by one; the slots keep the proofs just gathered.
pub open spec fn finalized(r: RecoveryView) -> RecoveryView {
    RecoveryView { status: Status::Finalized, r_times: bumped_completions(r.r_times), ..r }
}

/// The balance map after the finalization payout: one reward from `user` to
/// each of the three assigned custodians, in slot order, but only when the
/// user can cover the whole payout — otherwise no balance moves at all, so a
/// partial payout can never happen.
pub open spec fn payout(
    m: Map<AccountId, Balance>,
    user: AccountId,
    n1: AccountId,
    n2: AccountId,
    n3: AccountId,
) -> Map<AccountId, Balance> {
    if can_debit(m, user, PAYOUT_TOTAL) {
        moved(moved(moved(m, user, n1, NODE_REWARD), user, n2, NODE_REWARD), user, n3, NODE_REWARD)
    } else {
        m
    }
}

/// The ledger as the constructor leaves it: the whole supply credited to the
/// creating identity and every registry empty.
pub open spec fn ledger_init(caller: AccountId, supply: Balance) -> LedgerView {
    LedgerView {
        total_supply: supply,
        balances: Map::empty().insert(caller, supply),
        nodes: Map::empty(),
        users: Map::empty(),
        recoveries: Map::empty(),
    }
}

/// Node registration: creates the node record on first call; a node already
/// registered keeps its public key and the call changes nothing.
pub open spec fn node_registered(l: LedgerView, caller: AccountId, pubk: Seq<char>) -> LedgerView {
    if l.nodes.dom().contains(caller) {
        l
    } else {
        LedgerView { nodes: l.nodes.insert(caller, NodeView { nid: caller, pubk: pubk }), ..l }
    }
}

/// User registration: unconditionally replaces the user record with the
/// given key and custodian assignments, and seeds a fresh idle session —
/// also when that discards a session already in flight.
pub open spec fn user_registered(
    l: LedgerView,
    caller: AccountId,
    pubk: Seq<char>,
    node1_cond_type: u8,
    node1_id: AccountId,
    node2_cond_type: u8,
    node2_id: AccountId,
    node3_cond_type: u8,
    node3_id: AccountId,
) -> LedgerView {
    LedgerView {
        users: l.users.insert(
            caller,
            UserView {
                uid: caller,
                pubk: pubk,
                node1_cond_type: node1_cond_type,
                node1_id: node1_id,
                node2_cond_type: node2_cond_type,
                node2_id: node2_id,
                node3_cond_type: node3_cond_type,
                node3_id: node3_id,
            },
        ),
        recoveries: l.recoveries.insert(caller, fresh_session(caller)),
        ..l
    }
}

/// Start of a recovery round: silently does nothing when the caller's
/// balance is under the reserve or the caller has no session; otherwise the
/// session re-enters an active round with cleared slots.
pub open spec fn recovery_started(l: LedgerView, caller: AccountId) -> LedgerView {
    if bal_of(l.balances, caller) < START_RESERVE {
        l
    } else if !l.recoveries.dom().contains(caller) {
        l
    } else {
        LedgerView { recoveries: l.recoveries.insert(caller, reactivated(l.recoveries[caller])), ..l }
    }
}

/// A custodian's confirmation for `user`'s recovery. The call silently does
/// nothing when the user or the session is unknown, the session is not in an
/// active round, or the caller is none of the three assigned custodians.
/// Otherwise the caller's slot records the proof; if that brings the session
/// to the confirmation threshold, the round finalizes and the payout of
/// [`payout`] is applied to the balances.
pub open spec fn recovery_finished(
    l: LedgerView,
    caller: AccountId,
    user: AccountId,
    p: Seq<char>,
) -> LedgerView {
    if !l.users.dom().contains(user) {
        l
    } else if !l.recoveries.dom().contains(user) {
        l
    } else {
        let u = l.users[user];
        let r = l.recoveries[user];
        if r.status != Status::Active {
            l
        } else if custodian_slot(u, caller) == 0 {
            l
        } else {
            let r1 = with_confirmation(r, custodian_slot(u, caller), p);
            if confirm_count(r1) >= CONFIRM_THRESHOLD {
                LedgerView {
                    recoveries: l.recoveries.insert(user, finalized(r1)),
                    balances: payout(l.balances, user, u.node1_id, u.node2_id, u.node3_id),
                    ..l
                }
            } else {
                LedgerView { recoveries: l.recoveries.insert(user, r1), ..l }
            }
        }
    }
}

/// The plain transfer: debits the caller and credits the receiver with no
/// balance check; both steps saturate at the bounds of the balance range.
pub open spec fn transfer_applied(
    l: LedgerView,
    caller: AccountId,
    to: AccountId,
    amount: Balance,
) -> LedgerView {
    LedgerView { balances: moved(l.balances, caller, to, amount), ..l }
}

/// The checked transfer: moves the amount only when the source can cover it.
pub open spec fn checked_transfer_applied(
    l: LedgerView,
    from: AccountId,
    to: AccountId,
    amount: Balance,
) -> LedgerView {
    LedgerView { balances: moved_checked(l.balances, from, to, amount), ..l }
}

/// Mapping the values of a map commutes with inserting one entry.
pub proof fn lemma_map_values_insert<K, V, W>(m: Map<K, V>, k: K, v: V, f: spec_fn(V) -> W)
    ensures
        m.insert(k, v).map_values(f) == m.map_values(f).insert(k, f(v)),
{
    assert(m.insert(k, v).map_values(f) =~= m.map_values(f).insert(k, f(v)));
}

/// Mapping the values of the empty map yields the empty map.
pub proof fn lemma_map_values_empty<K, V, W>(f: spec_fn(V) -> W)
    ensures
        Map::<K, V>::empty().map_values(f) == Map::<K, W>::empty(),
{
    assert(Map::<K, V>::empty().map_values(f) =~= Map::<K, W>::empty());
}

} // verus!
