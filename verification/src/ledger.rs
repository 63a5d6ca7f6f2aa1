//! The executable ledger.
//!
//! [`KeyLedger`] holds the four keyed stores as hash maps and the fixed
//! supply. Its view is a [`LedgerView`], and every method's contract states
//! that the method implements the matching transition function of
//! [`crate::model`].

use std::collections::HashMap;
use vstd::prelude::*;

use crate::model::{
    bal_of, can_debit, checked_transfer_applied, custodian_slot, ledger_init, node_registered,
    recovery_finished, recovery_started, transfer_applied, user_registered, with_confirmation,
    AccountId, Balance, Error, LedgerView, NodeView, RecoveryView, Status, UserView,
    CONFIRM_THRESHOLD, NODE_REWARD, PAYOUT_TOTAL, START_RESERVE,
};

verus! {

broadcast use vstd::std_specs::hash::group_hash_axioms;

/// A registered custodian node: its identity and its public key, immutable
/// once set.
#[derive(Debug)]
pub struct Node {
    pub nid: AccountId,
    pub pubk: String,
}

/// A registered user: its identity, its public key, and exactly three
/// custodian assignments, each a condition code plus a node identity.
#[derive(Debug)]
pub struct User {
    pub uid: AccountId,
    pub pubk: String,
    pub node1_cond_type: u8,
    pub node1_id: AccountId,
    pub node2_cond_type: u8,
    pub node2_id: AccountId,
    pub node3_cond_type: u8,
    pub node3_id: AccountId,
}

/// A user's recovery session: round status, the number of rounds finalized
/// so far, and one proof/confirmation slot per assigned custodian.
#[derive(Debug)]
pub struct Recovery {
    pub status: Status,
    pub uid: AccountId,
    pub r_times: u32,
    pub recovery1_proof: String,
    pub node1_confirm: bool,
    pub recovery2_proof: String,
    pub node2_confirm: bool,
    pub recovery3_proof: String,
    pub node3_confirm: bool,
}

impl View for Node {
    type V = NodeView;

    open spec fn view(&self) -> NodeView {
        NodeView { nid: self.nid, pubk: self.pubk@ }
    }
}

impl View for User {
    type V = UserView;

    open spec fn view(&self) -> UserView {
        UserView {
            uid: self.uid,
            pubk: self.pubk@,
            node1_cond_type: self.node1_cond_type,
            node1_id: self.node1_id,
            node2_cond_type: self.node2_cond_type,
            node2_id: self.node2_id,
            node3_cond_type: self.node3_cond_type,
            node3_id: self.node3_id,
        }
    }
}

impl View for Recovery {
    type V = RecoveryView;

    open spec fn view(&self) -> RecoveryView {
        RecoveryView {
            status: self.status,
            uid: self.uid,
            r_times: self.r_times,
            recovery1_proof: self.recovery1_proof@,
            node1_confirm: self.node1_confirm,
            recovery2_proof: self.recovery2_proof@,
            node2_confirm: self.node2_confirm,
            recovery3_proof: self.recovery3_proof@,
            node3_confirm: self.node3_confirm,
        }
    }
}

/// The ledger: the fixed supply, account balances, and the registries of
/// nodes, users and recovery sessions, each keyed by identity.
pub struct KeyLedger {
    total_supply: Balance,
    balances: HashMap<AccountId, Balance>,
    nodes: HashMap<AccountId, Node>,
    users: HashMap<AccountId, User>,
    recoveries: HashMap<AccountId, Recovery>,
}

impl View for KeyLedger {
    type V = LedgerView;

    closed spec fn view(&self) -> LedgerView {
        LedgerView {
            total_supply: self.total_supply,
            balances: self.balances@,
            nodes: self.nodes@.map_values(|n: Node| n@),
            users: self.users@.map_values(|u: User| u@),
            recoveries: self.recoveries@.map_values(|r: Recovery| r@),
        }
    }
}

impl KeyLedger {
    /// Creates the ledger with the given fixed supply, all of it credited to
    /// the creating identity; every registry starts empty.
    pub fn new(caller: AccountId, total_supply: Balance) -> (l: KeyLedger)
        ensures
            l@ == ledger_init(caller, total_supply),
    {
        let mut balances: HashMap<AccountId, Balance> = HashMap::new();
        balances.insert(caller, total_supply);
        let l = KeyLedger {
            total_supply,
            balances,
            nodes: HashMap::new(),
            users: HashMap::new(),
            recoveries: HashMap::new(),
        };
        proof {
            crate::model::lemma_map_values_empty::<AccountId, Node, NodeView>(|n: Node| n@);
            crate::model::lemma_map_values_empty::<AccountId, User, UserView>(|u: User| u@);
            crate::model::lemma_map_values_empty::<AccountId, Recovery, RecoveryView>(
                |r: Recovery| r@,
            );
            assert(l@ =~= ledger_init(caller, total_supply));
        }
        l
    }

    /// The fixed supply set at initialization.
    pub fn total_supply(&self) -> (r: Balance)
        ensures
            r == self@.total_supply,
    {
        self.total_supply
    }

    /// The balance of an identity; zero for one never credited.
    pub fn balance_of(&self, owner: AccountId) -> (r: Balance)
        ensures
            r == bal_of(self@.balances, owner),
    {
        match self.balances.get(&owner) {
            Some(b) => *b,
            None => 0,
        }
    }

    /// The plain transfer: debits the caller and credits `to` with no
    /// balance check. Both the debit and the credit saturate at the bounds
    /// of the balance range instead of wrapping or failing, so the call
    /// itself always succeeds.
    pub fn transfer(&mut self, caller: AccountId, to: AccountId, value: Balance) -> (r: Result<
        (),
        Error,
    >)
        ensures
            final(self)@ == transfer_applied(old(self)@, caller, to, value),
            r == Ok::<(), Error>(()),
    {
        let from_balance = self.balance_of(caller);
        let debited = if from_balance >= value {
            from_balance - value
        } else {
            0
        };
        self.balances.insert(caller, debited);
        let to_balance = self.balance_of(to);
        let credited = if to_balance <= Balance::MAX - value {
            to_balance + value
        } else {
            Balance::MAX
        };
        self.balances.insert(to, credited);
        proof {
            assert(self@ =~= transfer_applied(old(self)@, caller, to, value));
        }
        Ok(())
    }

    /// The checked transfer, the variant the recovery payout uses: fails
    /// with [`Error::InsufficientBalance`] when `from` holds less than
    /// `value`, leaving every balance unchanged; otherwise debits `from` and
    /// credits `to`. The credit saturates at the top of the balance range.
    pub fn transfer_from_to(&mut self, from: AccountId, to: AccountId, value: Balance) -> (r:
        Result<(), Error>)
        ensures
            final(self)@ == checked_transfer_applied(old(self)@, from, to, value),
            r == (if can_debit(old(self)@.balances, from, value) {
                Ok::<(), Error>(())
            } else {
                Err::<(), Error>(Error::InsufficientBalance)
            }),
    {
        let from_balance = self.balance_of(from);
        if from_balance < value {
            return Err(Error::InsufficientBalance);
        }
        self.balances.insert(from, from_balance - value);
        let to_balance = self.balance_of(to);
        let credited = if to_balance <= Balance::MAX - value {
            to_balance + value
        } else {
            Balance::MAX
        };
        self.balances.insert(to, credited);
        proof {
            assert(self@ =~= checked_transfer_applied(old(self)@, from, to, value));
        }
        Ok(())
    }

    /// Registers the caller as a custodian node with the given public key.
    /// A first registration creates the record; any later call is a silent
    /// no-op, so the public key stored first is immutable.
    pub fn register_node(&mut self, caller: AccountId, pubk: String)
        ensures
            final(self)@ == node_registered(old(self)@, caller, pubk@),
    {
        match self.nodes.get(&caller) {
            Some(_) => {},
            None => {
                let node = Node { nid: caller, pubk };
                proof {
                    crate::model::lemma_map_values_insert::<AccountId, Node, NodeView>(
                        self.nodes@,
                        caller,
                        node,
                        |n: Node| n@,
                    );
                }
                self.nodes.insert(caller, node);
                proof {
                    assert(self@ =~= node_registered(old(self)@, caller, pubk@));
                }
            },
        }
    }

    /// Registers (or re-registers) the caller as a user with the given
    /// public key and three custodian assignments, and seeds a fresh idle
    /// session for the caller. The call always succeeds and overwrites any
    /// existing user record and session, also one with a round in flight.
    pub fn register_user(
        &mut self,
        caller: AccountId,
        pubk: String,
        node1_cond_type: u8,
        node1_id: AccountId,
        node2_cond_type: u8,
        node2_id: AccountId,
        node3_cond_type: u8,
        node3_id: AccountId,
    )
        ensures
            final(self)@ == user_registered(
                old(self)@,
                caller,
                pubk@,
                node1_cond_type,
                node1_id,
                node2_cond_type,
                node2_id,
                node3_cond_type,
                node3_id,
            ),
    {
        let user = User {
            uid: caller,
            pubk,
            node1_cond_type,
            node1_id,
            node2_cond_type,
            node2_id,
            node3_cond_type,
            node3_id,
        };
        proof {
            crate::model::lemma_map_values_insert::<AccountId, User, UserView>(
                self.users@,
                caller,
                user,
                |u: User| u@,
            );
        }
        self.users.insert(caller, user);
        let recovery = Recovery {
            status: Status::Idle,
            uid: caller,
            r_times: 0,
            recovery1_proof: String::new(),
            node1_confirm: false,
            recovery2_proof: String::new(),
            node2_confirm: false,
            recovery3_proof: String::new(),
            node3_confirm: false,
        };
        proof {
            crate::model::lemma_map_values_insert::<AccountId, Recovery, RecoveryView>(
                self.recoveries@,
                caller,
                recovery,
                |r: Recovery| r@,
            );
        }
        self.recoveries.insert(caller, recovery);
        proof {
            assert(self@ =~= user_registered(
                old(self)@,
                caller,
                pubk@,
                node1_cond_type,
                node1_id,
                node2_cond_type,
                node2_id,
                node3_cond_type,
                node3_id,
            ));
        }
    }

    /// Starts a recovery round for the caller. When the caller's balance is
    /// under the reserve of [`crate::model::START_RESERVE`] units, or the
    /// caller has no session, the call is a silent no-op. Otherwise the
    /// session becomes active with all three proof and confirmation slots
    /// cleared, while the identity and the count of finalized rounds carry
    /// over unchanged.
    pub fn start_recovery(&mut self, caller: AccountId)
        ensures
            final(self)@ == recovery_started(old(self)@, caller),
    {
        let balance = self.balance_of(caller);
        if balance < START_RESERVE {
            return;
        }
        let (uid, r_times) = match self.recoveries.get(&caller) {
            Some(r) => (r.uid, r.r_times),
            None => {
                return;
            },
        };
        let restarted = Recovery {
            status: Status::Active,
            uid,
            r_times,
            recovery1_proof: String::new(),
            node1_confirm: false,
            recovery2_proof: String::new(),
            node2_confirm: false,
            recovery3_proof: String::new(),
            node3_confirm: false,
        };
        proof {
            crate::model::lemma_map_values_insert::<AccountId, Recovery, RecoveryView>(
                self.recoveries@,
                caller,
                restarted,
                |r: Recovery| r@,
            );
            assert(restarted@ =~= crate::model::reactivated(old(self)@.recoveries[caller]));
        }
        self.recoveries.insert(caller, restarted);
        proof {
            assert(self@ =~= recovery_started(old(self)@, caller));
        }
    }

    /// Records the confirmation of custodian `caller` for `user`'s recovery.
    /// The call is a silent no-op when the user or the session is unknown,
    /// the session is not in an active round, or the caller is none of the
    /// three assigned custodians. Otherwise the caller's slot stores the
    /// proof and its flag becomes true — re-submission only replaces the
    /// proof. When the threshold of [`crate::model::CONFIRM_THRESHOLD`]
    /// confirmed slots is reached the round finalizes: the status becomes
    /// finalized, the count of finalized rounds grows by one, and — if and
    /// only if the user can cover the whole payout — every one of the three
    /// assigned custodians, confirmed or not, receives one reward unit out
    /// of the user's balance.
    pub fn finish_recovery(&mut self, caller: AccountId, user: AccountId, proof_text: String)
        ensures
            final(self)@ == recovery_finished(old(self)@, caller, user, proof_text@),
    {
        let (n1, n2, n3) = match self.users.get(&user) {
            Some(u) => (u.node1_id, u.node2_id, u.node3_id),
            None => {
                return;
            },
        };
        let slot: u32 = if caller == n1 {
            1
        } else if caller == n2 {
            2
        } else if caller == n3 {
            3
        } else {
            0
        };
        let new_r = match self.recoveries.get(&user) {
            Some(r) => {
                if r.status != Status::Active {
                    return;
                }
                if slot == 0 {
                    return;
                }
                Recovery {
                    status: r.status,
                    uid: r.uid,
                    r_times: r.r_times,
                    recovery1_proof: if slot == 1 {
                        proof_text.clone()
                    } else {
                        r.recovery1_proof.clone()
                    },
                    node1_confirm: r.node1_confirm || slot == 1,
                    recovery2_proof: if slot == 2 {
                        proof_text.clone()
                    } else {
                        r.recovery2_proof.clone()
                    },
                    node2_confirm: r.node2_confirm || slot == 2,
                    recovery3_proof: if slot == 3 {
                        proof_text.clone()
                    } else {
                        r.recovery3_proof.clone()
                    },
                    node3_confirm: r.node3_confirm || slot == 3,
                }
            },
            None => {
                return;
            },
        };
        proof {
            assert(new_r@ =~= with_confirmation(
                old(self)@.recoveries[user],
                custodian_slot(old(self)@.users[user], caller),
                proof_text@,
            ));
        }
        let count: u32 = (if new_r.node1_confirm {
            1
        } else {
            0
        }) + (if new_r.node2_confirm {
            1
        } else {
            0
        }) + (if new_r.node3_confirm {
            1
        } else {
            0
        });
        if count >= CONFIRM_THRESHOLD {
            let sealed = Recovery {
                status: Status::Finalized,
                r_times: if new_r.r_times < u32::MAX {
                    new_r.r_times + 1
                } else {
                    u32::MAX
                },
                ..new_r
            };
            proof {
                assert(sealed@ =~= crate::model::finalized(
                    with_confirmation(
                        old(self)@.recoveries[user],
                        custodian_slot(old(self)@.users[user], caller),
                        proof_text@,
                    ),
                ));
                crate::model::lemma_map_values_insert::<AccountId, Recovery, RecoveryView>(
                    self.recoveries@,
                    user,
                    sealed,
                    |r: Recovery| r@,
                );
            }
            self.recoveries.insert(user, sealed);
            let user_balance = self.balance_of(user);
            if user_balance >= PAYOUT_TOTAL {
                let ghost pre_payout = self@.balances;
                let _ = self.transfer_from_to(user, n1, NODE_REWARD);
                proof {
                    assert(can_debit(pre_payout, user, NODE_REWARD));
                    assert(can_debit(
                        crate::model::moved(pre_payout, user, n1, NODE_REWARD),
                        user,
                        NODE_REWARD,
                    ));
                    assert(can_debit(
                        crate::model::moved(
                            crate::model::moved(pre_payout, user, n1, NODE_REWARD),
                            user,
                            n2,
                            NODE_REWARD,
                        ),
                        user,
                        NODE_REWARD,
                    ));
                }
                let _ = self.transfer_from_to(user, n2, NODE_REWARD);
                let _ = self.transfer_from_to(user, n3, NODE_REWARD);
                proof {
                    assert(self@.balances =~= crate::model::payout(
                        old(self)@.balances,
                        user,
                        n1,
                        n2,
                        n3,
                    ));
                }
            }
            proof {
                assert(self@ =~= recovery_finished(old(self)@, caller, user, proof_text@));
            }
        } else {
            proof {
                crate::model::lemma_map_values_insert::<AccountId, Recovery, RecoveryView>(
                    self.recoveries@,
                    user,
                    new_r,
                    |r: Recovery| r@,
                );
            }
            self.recoveries.insert(user, new_r);
            proof {
                assert(self@ =~= recovery_finished(old(self)@, caller, user, proof_text@));
            }
        }
    }

    /// The node record registered for `id`, or `None` for an identity that
    /// never registered as a node.
    pub fn get_node(&self, id: AccountId) -> (r: Option<&Node>)
        ensures
            match r {
                Some(n) => self@.nodes.dom().contains(id) && n@ == self@.nodes[id],
                None => !self@.nodes.dom().contains(id),
            },
    {
        self.nodes.get(&id)
    }

    /// The user record registered for `id`, or `None` for an identity that
    /// never registered as a user.
    pub fn get_user(&self, id: AccountId) -> (r: Option<&User>)
        ensures
            match r {
                Some(u) => self@.users.dom().contains(id) && u@ == self@.users[id],
                None => !self@.users.dom().contains(id),
            },
    {
        self.users.get(&id)
    }

    /// The recovery session of user `id`, or `None` for an identity without
    /// one. A session exists exactly for the registered users.
    pub fn get_recovery(&self, id: AccountId) -> (r: Option<&Recovery>)
        ensures
            match r {
                Some(rec) => self@.recoveries.dom().contains(id) && rec@ == self@.recoveries[id],
                None => !self@.recoveries.dom().contains(id),
            },
    {
        self.recoveries.get(&id)
    }
}

} // verus!
