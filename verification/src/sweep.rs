//! The sweep that retires workers which have been idle for too long, and
//! the operations that run it or a part of it.

use crate::error::{DispatchError, Error};
use crate::keys::WorkerPublicKey;
use crate::model::{exit_events, PalletView};
use crate::pallet::{ends_as, Pallet};
use crate::types::{Action, BlockNumber, Origin};
use vstd::prelude::*;

verus! {

/// The bytes of each identity in `workers`.
spec fn raw_keys(workers: Seq<WorkerPublicKey>) -> Seq<[u8; 32]> {
    Seq::new(workers.len(), |i: int| workers[i].0)
}

/// Going one key further along `keys` adds `keys[i]` to those that a sweep
/// retires if it is evictable, and nothing if it is not.
proof fn lemma_evictable_next(view: PalletView, keys: Seq<[u8; 32]>, i: int, now: BlockNumber)
    requires
        0 <= i < keys.len(),
    ensures
        view.evictable_among(keys.take(i + 1), now) == if view.evictable(keys[i], now) {
            view.evictable_among(keys.take(i), now).push(keys[i])
        } else {
            view.evictable_among(keys.take(i), now)
        },
{
    let longer = keys.take(i + 1);
    assert(longer.drop_last() =~= keys.take(i));
    assert(longer.last() == keys[i]);
}

/// Going one key further along `keys` adds `keys[i]` to those without a mark
/// of work if it has none, and nothing if it has one.
proof fn lemma_unmarked_next(view: PalletView, keys: Seq<[u8; 32]>, i: int)
    requires
        0 <= i < keys.len(),
    ensures
        view.unmarked_among(keys.take(i + 1)) == if !view.last_work.contains_key(keys[i]) {
            view.unmarked_among(keys.take(i)).push(keys[i])
        } else {
            view.unmarked_among(keys.take(i))
        },
{
    let longer = keys.take(i + 1);
    assert(longer.drop_last() =~= keys.take(i));
    assert(longer.last() == keys[i]);
}

/// The exit of one more of `keys` is one more step of `exited_all`, and one
/// more event.
proof fn lemma_exit_next(view: PalletView, keys: Seq<[u8; 32]>, j: int)
    requires
        0 <= j < keys.len(),
    ensures
        view.exited_all(keys.take(j + 1)) == view.exited_all(keys.take(j)).exited(keys[j]),
        exit_events(keys.take(j + 1)) == exit_events(keys.take(j)).push(
            exit_events(keys)[j],
        ),
{
    let longer = keys.take(j + 1);
    assert(longer.drop_last() =~= keys.take(j));
    assert(longer.last() == keys[j]);
    assert(exit_events(longer) =~= exit_events(keys.take(j)).push(exit_events(keys)[j]));
}

/// Exits leave the master key, the settings and the allow-list as they were.
pub proof fn lemma_exits_keep_rest(view: PalletView, keys: Seq<[u8; 32]>)
    ensures
        view.exited_all(keys).master_key == view.master_key,
        view.exited_all(keys).note_stalled == view.note_stalled,
        view.exited_all(keys).interval == view.interval,
        view.exited_all(keys).policy == view.policy,
        view.exited_all(keys).allowlist == view.allowlist,
        view.exited_all(keys).bin_added_at == view.bin_added_at,
        view.exited_all(keys).history == view.history,
        view.exited_all(keys).old_master_pubkey == view.old_master_pubkey,
        view.exited_all(keys).minimum_version == view.minimum_version,
    decreases keys.len(),
{
    if keys.len() > 0 {
        lemma_exits_keep_rest(view, keys.drop_last());
    }
}

impl Pallet {
    /// Retires every one of `victims`, in order. None of them may be the
    /// designated holder of the master key.
    fn exit_all(&mut self, victims: &Vec<WorkerPublicKey>) -> (actions: Vec<Action>)
        requires
            forall|j: int| 0 <= j < victims@.len() ==> !old(self)@.is_holder(#[trigger] victims@[j].0),
        ensures
            final(self)@ == old(self)@.exited_all(raw_keys(victims@)),
            final(self)@.wf(),
            actions@ == exit_events(raw_keys(victims@)),
    {
        let ghost before = self@;
        let ghost keys = raw_keys(victims@);
        let mut actions: Vec<Action> = Vec::new();
        let mut j: usize = 0;
        assert(actions@ =~= exit_events(keys.take(0)));
        while j < victims.len()
            invariant
                j <= victims@.len(),
                keys == raw_keys(victims@),
                forall|m: int| 0 <= m < victims@.len() ==> !before.is_holder(#[trigger] victims@[m].0),
                self@ == before.exited_all(keys.take(j as int)),
                actions@ == exit_events(keys.take(j as int)),
            decreases victims@.len() - j,
        {
            proof {
                lemma_exit_next(before, keys, j as int);
                lemma_exits_keep_rest(before, keys.take(j as int));
                assert(!before.is_holder(victims@[j as int].0));
                assert(keys[j as int] == victims@[j as int].0);
            }
            match self.execute_exit(&victims[j]) {
                Ok(event) => {
                    actions.push(Action::Deposit(event));
                },
                Err(_) => {},
            }
            j += 1;
        }
        assert(keys.take(j as int) =~= keys);
        let _ = self.worker_count();
        actions
    }

    /// The sweep at the height `now`: every worker that has been idle for
    /// longer than the interval leaves, unless the fleet is stalled or the
    /// worker is the designated holder of the master key.
    pub fn clear_mission(&mut self, now: BlockNumber) -> (actions: Vec<Action>)
        ensures
            (final(self)@, actions@) == old(self)@.swept(now),
            final(self)@.wf(),
    {
        let ghost order = self@.worker_order;
        let count = self.worker_count();
        let mut victims: Vec<WorkerPublicKey> = Vec::new();
        let mut i: usize = 0;
        assert(raw_keys(victims@) =~= self@.evictable_among(order.take(0), now));
        while i < count
            invariant
                i <= count,
                *self == *old(self),
                order == self@.worker_order,
                count == order.len(),
                raw_keys(victims@) == self@.evictable_among(order.take(i as int), now),
                forall|j: int| 0 <= j < victims@.len() ==> !self@.is_holder(#[trigger] victims@[j].0),
            decreases count - i,
        {
            let worker = self.worker_at(i);
            proof {
                lemma_evictable_next(self@, order, i as int, now);
            }
            if self.is_evictable(&worker, now) {
                victims.push(worker);
                assert(raw_keys(victims@) =~= self@.evictable_among(order.take(i as int), now).push(
                    worker.0,
                ));
            }
            i += 1;
        }
        assert(order.take(count as int) =~= order);
        self.exit_all(&victims)
    }

    /// Runs the sweep if the interval divides the height `now`.
    pub fn on_initialize(&mut self, now: BlockNumber) -> (actions: Vec<Action>)
        ensures
            (final(self)@, actions@) == old(self)@.initialized(now),
            final(self)@.wf(),
    {
        let least = self.sweep_interval();
        if least != 0 && now % least == 0 {
            self.clear_mission(now)
        } else {
            let _ = self.worker_count();
            Vec::new()
        }
    }

    /// Runs the sweep at the height `now`, whatever the height.
    pub fn patch_clear_invalid_tee(&mut self, origin: Origin, now: BlockNumber) -> (result: Result<
        Vec<Action>,
        DispatchError,
    >)
        ensures
            ends_as(
                *old(self),
                *final(self),
                result,
                old(self)@.invalid_tee_cleared(origin, now),
            ),
    {
        match origin {
            Origin::Governance => {},
            _ => {
                return Err(DispatchError::BadOrigin);
            },
        }
        Ok(self.clear_mission(now))
    }

    /// Removes every worker that has no mark of work. If the designated
    /// holder of the master key is one of them, nothing is removed.
    pub fn patch_clear_not_work_tee(&mut self, origin: Origin) -> (result: Result<
        Vec<Action>,
        DispatchError,
    >)
        ensures
            ends_as(*old(self), *final(self), result, old(self)@.not_work_tee_cleared(origin)),
    {
        match origin {
            Origin::Governance => {},
            _ => {
                return Err(DispatchError::BadOrigin);
            },
        }
        let ghost order = self@.worker_order;
        let count = self.worker_count();
        let mut victims: Vec<WorkerPublicKey> = Vec::new();
        let mut i: usize = 0;
        assert(raw_keys(victims@) =~= self@.unmarked_among(order.take(0)));
        while i < count
            invariant
                i <= count,
                *self == *old(self),
                order == self@.worker_order,
                count == order.len(),
                origin == Origin::Governance,
                raw_keys(victims@) == self@.unmarked_among(order.take(i as int)),
                forall|j: int| 0 <= j < victims@.len() ==> !self@.is_holder(#[trigger] victims@[j].0),
            decreases count - i,
        {
            let worker = self.worker_at(i);
            proof {
                lemma_unmarked_next(self@, order, i as int);
            }
            if self.last_work(&worker).is_none() {
                if self.master_key_state().is_holder(&worker) {
                    proof {
                        lemma_unmarked_holds(self@, order, i as int);
                        let unmarked = self@.unmarked_among(order);
                        let at = choose|at: int| 0 <= at < unmarked.len() && unmarked[at] == order[i as int];
                        assert(self@.is_holder(unmarked[at]));
                    }
                    return Err(DispatchError::Module(Error::CannotExitMasterKeyHolder));
                }
                victims.push(worker);
                assert(raw_keys(victims@) =~= self@.unmarked_among(order.take(i as int)).push(
                    worker.0,
                ));
            }
            i += 1;
        }
        assert(order.take(count as int) =~= order);
        assert(!(exists|at: int|
            0 <= at < raw_keys(victims@).len() && self@.is_holder(#[trigger] raw_keys(victims@)[at])))
            by {
            assert forall|at: int| 0 <= at < raw_keys(victims@).len() implies !self@.is_holder(
                #[trigger] raw_keys(victims@)[at],
            ) by {
                assert(!self@.is_holder(victims@[at].0));
            }
        }
        Ok(self.exit_all(&victims))
    }
}

/// A key of `keys` that has no mark of work is among those without one.
proof fn lemma_unmarked_holds(view: PalletView, keys: Seq<[u8; 32]>, i: int)
    requires
        0 <= i < keys.len(),
        !view.last_work.contains_key(keys[i]),
    ensures
        view.unmarked_among(keys).contains(keys[i]),
    decreases keys.len(),
{
    let rest = view.unmarked_among(keys.drop_last());
    if i == keys.len() - 1 {
        assert(view.unmarked_among(keys) == rest.push(keys.last()));
        assert(rest.push(keys.last())[rest.len() as int] == keys[i]);
    } else {
        lemma_unmarked_holds(view, keys.drop_last(), i);
        let at = choose|at: int| 0 <= at < rest.len() && rest[at] == keys.drop_last()[i];
        assert(view.unmarked_among(keys)[at] == keys[i]);
    }
}

} // verus!
