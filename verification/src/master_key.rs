//! The life of the network's master key: nobody holds it, one worker is
//! asked to generate it, its public half is on record.

use crate::error::Error;
use crate::keys::{MasterPublicKey, WorkerPublicKey};
use crate::types::{BlockNumber, MessageOrigin};
use vstd::prelude::*;

verus! {

/// Where the launch of the master key stands.
#[derive(Clone, Copy, Debug, PartialEq, Eq)]
pub enum MasterKeyState {
    /// No key is on record and no worker is asked for one.
    Uninitialized,
    /// `holder` is asked to generate the key and to submit its public half.
    Launching { holder: WorkerPublicKey },
    /// The public half is on record, since the height and the unix time (in
    /// seconds) of `launched_at`.
    Launched { holder: WorkerPublicKey, pubkey: MasterPublicKey, launched_at: (BlockNumber, u64) },
}

impl MasterKeyState {
    /// The worker that is designated to hold the key first.
    pub open spec fn holder(self) -> Option<WorkerPublicKey> {
        match self {
            MasterKeyState::Uninitialized => None,
            MasterKeyState::Launching { holder } => Some(holder),
            MasterKeyState::Launched { holder, .. } => Some(holder),
        }
    }

    /// The public key on record.
    pub open spec fn pubkey(self) -> Option<MasterPublicKey> {
        match self {
            MasterKeyState::Launched { pubkey, .. } => Some(pubkey),
            _ => None,
        }
    }

    /// Height and time at which the key on record was launched.
    pub open spec fn launched_at(self) -> Option<(BlockNumber, u64)> {
        match self {
            MasterKeyState::Launched { launched_at, .. } => Some(launched_at),
            _ => None,
        }
    }

    /// What `launch` gives: the key must not be on record, nobody must be
    /// designated, and the target must be a registered worker.
    pub open spec fn launched_to(self, target: WorkerPublicKey, registered: bool) -> Result<
        MasterKeyState,
        Error,
    > {
        match self {
            MasterKeyState::Launched { .. } => Err(Error::MasterKeyAlreadyLaunched),
            MasterKeyState::Launching { .. } => Err(Error::MasterKeyLaunching),
            MasterKeyState::Uninitialized => if registered {
                Ok(MasterKeyState::Launching { holder: target })
            } else {
                Err(Error::WorkerNotFound)
            },
        }
    }

    /// What `submit` gives: only the designated holder is heard; its first
    /// key goes on record, and a later one must repeat it.
    pub open spec fn submitted(
        self,
        sender: MessageOrigin,
        key: MasterPublicKey,
        height: BlockNumber,
        now: u64,
    ) -> Result<MasterKeyState, Error> {
        match sender {
            MessageOrigin::Worker(worker) => match self {
                MasterKeyState::Uninitialized => Err(Error::MasterKeyLaunchRequire),
                MasterKeyState::Launching { holder } => if worker == holder {
                    Ok(MasterKeyState::Launched { holder, pubkey: key, launched_at: (height, now) })
                } else {
                    Err(Error::InvalidMasterKeyFirstHolder)
                },
                MasterKeyState::Launched { holder, pubkey, .. } => if worker != holder {
                    Err(Error::InvalidMasterKeyFirstHolder)
                } else if pubkey == key {
                    Ok(self)
                } else {
                    Err(Error::MasterKeyMismatch)
                },
            },
            _ => Err(Error::InvalidSender),
        }
    }

    /// What `clear` gives: the state to go on with and the key that retires.
    pub open spec fn cleared(self) -> Result<(MasterKeyState, MasterPublicKey), Error> {
        match self {
            MasterKeyState::Launched { pubkey, .. } => Ok((MasterKeyState::Uninitialized, pubkey)),
            _ => Err(Error::MasterKeyAlreadyLaunched),
        }
    }

    /// What `change_holder` gives: the designation passes to `holder`.
    pub open spec fn with_holder(self, holder: WorkerPublicKey) -> Result<MasterKeyState, Error> {
        match self {
            MasterKeyState::Uninitialized => Err(Error::MasterKeyFirstHolderNotFound),
            MasterKeyState::Launching { .. } => Ok(MasterKeyState::Launching { holder }),
            MasterKeyState::Launched { pubkey, launched_at, .. } => Ok(
                MasterKeyState::Launched { holder, pubkey, launched_at },
            ),
        }
    }

    /// The worker that is designated to hold the key first.
    pub fn first_holder(&self) -> (holder: Option<WorkerPublicKey>)
        ensures
            holder == self.holder(),
    {
        match self {
            MasterKeyState::Uninitialized => None,
            MasterKeyState::Launching { holder } => Some(*holder),
            MasterKeyState::Launched { holder, .. } => Some(*holder),
        }
    }

    /// The public key on record.
    pub fn master_pubkey(&self) -> (pubkey: Option<MasterPublicKey>)
        ensures
            pubkey == self.pubkey(),
    {
        match self {
            MasterKeyState::Launched { pubkey, .. } => Some(*pubkey),
            _ => None,
        }
    }

    /// Whether `worker` is the designated holder.
    pub fn is_holder(&self, worker: &WorkerPublicKey) -> (held: bool)
        ensures
            held == (self.holder() == Some(*worker)),
    {
        match self.first_holder() {
            Some(holder) => holder.same(worker),
            None => false,
        }
    }

    /// Designates `target` to generate the key.
    pub fn launch(self, target: WorkerPublicKey, registered: bool) -> (next: Result<
        MasterKeyState,
        Error,
    >)
        ensures
            next == self.launched_to(target, registered),
    {
        match self {
            MasterKeyState::Launched { .. } => Err(Error::MasterKeyAlreadyLaunched),
            MasterKeyState::Launching { .. } => Err(Error::MasterKeyLaunching),
            MasterKeyState::Uninitialized => {
                if registered {
                    Ok(MasterKeyState::Launching { holder: target })
                } else {
                    Err(Error::WorkerNotFound)
                }
            },
        }
    }

    /// Hears a submission of the public key.
    pub fn submit(
        self,
        sender: MessageOrigin,
        key: MasterPublicKey,
        height: BlockNumber,
        now: u64,
    ) -> (next: Result<MasterKeyState, Error>)
        ensures
            next == self.submitted(sender, key, height, now),
    {
        let worker = match sender {
            MessageOrigin::Worker(worker) => worker,
            _ => {
                return Err(Error::InvalidSender);
            },
        };
        match self {
            MasterKeyState::Uninitialized => Err(Error::MasterKeyLaunchRequire),
            MasterKeyState::Launching { holder } => {
                if worker.same(&holder) {
                    Ok(MasterKeyState::Launched { holder, pubkey: key, launched_at: (height, now) })
                } else {
                    Err(Error::InvalidMasterKeyFirstHolder)
                }
            },
            MasterKeyState::Launched { holder, pubkey, launched_at } => {
                if !worker.same(&holder) {
                    Err(Error::InvalidMasterKeyFirstHolder)
                } else if pubkey.same(&key) {
                    Ok(MasterKeyState::Launched { holder, pubkey, launched_at })
                } else {
                    Err(Error::MasterKeyMismatch)
                }
            },
        }
    }

    /// Retires the key on record.
    pub fn clear(self) -> (next: Result<(MasterKeyState, MasterPublicKey), Error>)
        ensures
            next == self.cleared(),
    {
        match self {
            MasterKeyState::Launched { pubkey, .. } => Ok((MasterKeyState::Uninitialized, pubkey)),
            _ => Err(Error::MasterKeyAlreadyLaunched),
        }
    }

    /// Passes the designation to `holder`.
    pub fn change_holder(self, holder: WorkerPublicKey) -> (next: Result<MasterKeyState, Error>)
        ensures
            next == self.with_holder(holder),
    {
        match self {
            MasterKeyState::Uninitialized => Err(Error::MasterKeyFirstHolderNotFound),
            MasterKeyState::Launching { .. } => Ok(MasterKeyState::Launching { holder }),
            MasterKeyState::Launched { pubkey, launched_at, .. } => Ok(
                MasterKeyState::Launched { holder, pubkey, launched_at },
            ),
        }
    }
}

/// A launch fails where a key is on record or a holder is designated. From
/// the uninitialised state, and for a registered target, it designates the
/// target and nothing else.
pub proof fn lemma_launch(state: MasterKeyState, target: WorkerPublicKey, registered: bool)
    ensures
        state.pubkey().is_some() || state.holder().is_some() ==> state.launched_to(
            target,
            registered,
        ).is_err(),
        state.pubkey().is_none() && state.holder().is_none() && registered ==> state.launched_to(
            target,
            registered,
        ) == Ok::<MasterKeyState, Error>(MasterKeyState::Launching { holder: target }),
        state.launched_to(target, registered).is_ok() ==> state == MasterKeyState::Uninitialized
            && registered,
{
}

/// A submission puts a key on record only if it is the first one of the
/// designated holder. If the holder repeats the key on record, nothing
/// changes; if it submits another, the submission fails with
/// `MasterKeyMismatch`. A state that has a key keeps it whatever is
/// submitted.
pub proof fn lemma_submission(
    state: MasterKeyState,
    sender: MessageOrigin,
    key: MasterPublicKey,
    height: BlockNumber,
    now: u64,
)
    ensures
        ({
            let next = state.submitted(sender, key, height, now);
            &&& next.is_ok() && next.unwrap() != state ==> {
                &&& state.pubkey().is_none()
                &&& state.holder().is_some()
                &&& sender == MessageOrigin::Worker(state.holder().unwrap())
                &&& next.unwrap() == MasterKeyState::Launched {
                    holder: state.holder().unwrap(),
                    pubkey: key,
                    launched_at: (height, now),
                }
            }
            &&& state.pubkey().is_some() && state.holder().is_some() && sender
                == MessageOrigin::Worker(state.holder().unwrap()) ==> {
                &&& state.pubkey() == Some(key) ==> next == Ok::<MasterKeyState, Error>(state)
                &&& state.pubkey() != Some(key) ==> next == Err::<MasterKeyState, Error>(
                    Error::MasterKeyMismatch,
                )
            }
            &&& next.is_ok() && state.pubkey().is_some() ==> next.unwrap().pubkey()
                == state.pubkey()
        }),
{
}

/// The states follow one another in one order only: a launch leads from
/// uninitialised to launching, a submission from launching to launched, a
/// clearing from launched to uninitialised.
pub proof fn lemma_transitions_keep_order(
    state: MasterKeyState,
    target: WorkerPublicKey,
    registered: bool,
    sender: MessageOrigin,
    key: MasterPublicKey,
    height: BlockNumber,
    now: u64,
)
    ensures
        state.launched_to(target, registered).is_ok() ==> state is Uninitialized
            && state.launched_to(target, registered).unwrap() is Launching,
        state.submitted(sender, key, height, now).is_ok() ==> !(state is Uninitialized)
            && state.submitted(sender, key, height, now).unwrap() is Launched,
        state.cleared().is_ok() ==> state is Launched && state.cleared().unwrap().0 is Uninitialized,
        state.with_holder(target).is_ok() ==> (state is Launching <==> state.with_holder(
            target,
        ).unwrap() is Launching) && (state is Launched <==> state.with_holder(
            target,
        ).unwrap() is Launched),
{
}

} // verus!
