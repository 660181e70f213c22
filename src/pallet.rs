//! The validator manager: privileged callers queue additions and removals,
//! and the session scheduler drains both queues once per session boundary.
use vstd::prelude::*;
use crate::rotation::{apply_changes, contains_id, rotation, roster_view};

verus! {

/// Who submits a call.
#[derive(Clone, Copy, Debug, PartialEq, Eq, Structural)]
pub enum Origin {
    /// The privileged origin, allowed to change the validator set.
    Root,
    /// An ordinary signed account.
    Signed(u64),
    /// An unsigned call.
    Unsigned,
}

/// Why a call was refused.
#[derive(Clone, Copy, Debug, PartialEq, Eq, Structural)]
pub enum Error {
    /// The origin is not the privileged one.
    BadOrigin,
    /// The validator is already queued for addition.
    ValidatorAlreadyAdded,
    /// The account is not in the current validator set.
    NotValidator,
}

/// Notifications deposited by successful calls.
#[derive(Debug, PartialEq, Eq)]
pub enum Event {
    /// New validators were queued for addition.
    ValidatorsRegistered { validators: Vec<u64> },
    /// A validator was queued for removal.
    ValidatorRemoved { validator: u64 },
}

/// Fixed configuration of the validator manager.
#[derive(Clone, Copy, Debug, PartialEq, Eq, Structural)]
pub struct Config {
    /// Minimum number of validators that a new roster must hold.
    pub min_authorities: u32,
}

/// Converts an account into a validator id: every account is its own validator id.
pub struct ValidatorOf;

impl ValidatorOf {
    /// The validator id of `account`.
    pub fn convert(account: u64) -> (r: Option<u64>)
        ensures
            r == Some(account),
    {
        Some(account)
    }
}

/// Whether an origin may change the validator set.
pub open spec fn is_privileged(origin: Origin) -> bool {
    origin is Root
}

/// A batch may join the addition queue when none of its ids is queued
/// already and no id occurs twice in it.
pub open spec fn fresh_batch(queue: Seq<u64>, batch: Seq<u64>) -> bool {
    queue.disjoint(batch) && batch.no_duplicates()
}

/// Once a batch has joined the addition queue, a later batch that repeats
/// any of its ids is refused until the queue is drained.
pub proof fn lemma_repeated_registration_refused(
    queue: Seq<u64>,
    first: Seq<u64>,
    second: Seq<u64>,
    v: u64,
)
    requires
        fresh_batch(queue, first),
        first.contains(v),
        second.contains(v),
    ensures
        !fresh_batch(queue + first, second),
{
    let a = choose|a: int| 0 <= a < first.len() && first[a] == v;
    let b = choose|b: int| 0 <= b < second.len() && second[b] == v;
    assert((queue + first)[queue.len() + a] == second[b]);
}

/// A batch that holds the same id twice is refused.
pub proof fn lemma_batch_with_repeat_refused(queue: Seq<u64>, batch: Seq<u64>, i: int, j: int)
    requires
        0 <= i < j < batch.len(),
        batch[i] == batch[j],
    ensures
        !fresh_batch(queue, batch),
{
}

/// The state of the validator manager: its configuration, the two queues of
/// pending changes, and the events it has deposited.
pub struct Pallet {
    config: Config,
    validators_to_add: Vec<u64>,
    validators_to_remove: Vec<u64>,
    events: Vec<Event>,
}

impl Pallet {
    /// The configuration.
    pub closed spec fn config_spec(&self) -> Config {
        self.config
    }

    /// Validators queued for addition, in order of registration.
    pub closed spec fn additions(&self) -> Seq<u64> {
        self.validators_to_add@
    }

    /// Validators queued for removal, in order of request.
    pub closed spec fn removals(&self) -> Seq<u64> {
        self.validators_to_remove@
    }

    /// Events deposited so far, oldest first.
    pub closed spec fn event_log(&self) -> Seq<Event> {
        self.events@
    }

    /// The addition queue never holds an id twice.
    pub open spec fn wf(&self) -> bool {
        self.additions().no_duplicates()
    }

    /// A validator manager with empty queues and no events.
    pub fn new(config: Config) -> (r: Pallet)
        ensures
            r.wf(),
            r.config_spec() == config,
            r.additions() == Seq::<u64>::empty(),
            r.removals() == Seq::<u64>::empty(),
            r.event_log() == Seq::<Event>::empty(),
    {
        Pallet {
            config,
            validators_to_add: Vec::new(),
            validators_to_remove: Vec::new(),
            events: Vec::new(),
        }
    }

    fn ensure_privileged(origin: Origin) -> (r: Result<(), Error>)
        ensures
            r is Ok <==> is_privileged(origin),
            r is Err ==> r == Err::<(), Error>(Error::BadOrigin),
    {
        match origin {
            Origin::Root => Ok(()),
            _ => Err(Error::BadOrigin),
        }
    }

    /// Queues `validators` for addition at the next session boundary. The
    /// batch is taken whole or not at all.
    pub fn register_validators(&mut self, origin: Origin, validators: Vec<u64>) -> (r: Result<
        (),
        Error,
    >)
        requires
            old(self).wf(),
        ensures
            final(self).wf(),
            final(self).config_spec() == old(self).config_spec(),
            final(self).removals() == old(self).removals(),
            !is_privileged(origin) ==> r == Err::<(), Error>(Error::BadOrigin),
            is_privileged(origin) && !fresh_batch(old(self).additions(), validators@) ==> r
                == Err::<(), Error>(Error::ValidatorAlreadyAdded),
            is_privileged(origin) && fresh_batch(old(self).additions(), validators@) ==> r
                == Ok::<(), Error>(()),
            r is Ok ==> final(self).additions() == old(self).additions() + validators@
                && final(self).event_log() == old(self).event_log().push(
                Event::ValidatorsRegistered { validators },
            ),
            r is Err ==> final(self).additions() == old(self).additions()
                && final(self).event_log() == old(self).event_log(),
    {
        Self::ensure_privileged(origin)?;
        let ghost queue = self.validators_to_add@;
        let mut pending = self.validators_to_add.clone();
        let mut i: usize = 0;
        while i < validators.len()
            invariant
                i <= validators@.len(),
                *self == *old(self),
                is_privileged(origin),
                queue == old(self).additions(),
                queue.no_duplicates(),
                pending@ == queue + validators@.subrange(0, i as int),
                fresh_batch(queue, validators@.subrange(0, i as int)),
            decreases validators@.len() - i,
        {
            let v = validators[i];
            if contains_id(&pending, v) {
                proof {
                    let k = choose|k: int| 0 <= k < pending@.len() && pending@[k] == v;
                    if k < queue.len() {
                        assert(queue[k] == validators@[i as int]);
                    } else {
                        assert(validators@[k - queue.len()] == validators@[i as int]);
                    }
                }
                return Err(Error::ValidatorAlreadyAdded);
            }
            pending.push(v);
            proof {
                let prefix = validators@.subrange(0, i + 1);
                assert(pending@ =~= queue + prefix);
                assert forall|a: int, b: int| 0 <= a < queue.len() && 0 <= b < prefix.len()
                    implies queue[a] != prefix[b] by {
                    if b == i {
                        assert(pending@[a] == queue[a]);
                    } else {
                        assert(prefix[b] == validators@.subrange(0, i as int)[b]);
                    }
                }
                assert forall|a: int, b: int| 0 <= a < prefix.len() && 0 <= b < prefix.len()
                    && a != b implies prefix[a] != prefix[b] by {
                    if a == i {
                        assert(pending@[queue.len() + b] == prefix[b]);
                    } else if b == i {
                        assert(pending@[queue.len() + a] == prefix[a]);
                    } else {
                        assert(prefix[a] == validators@.subrange(0, i as int)[a]);
                        assert(prefix[b] == validators@.subrange(0, i as int)[b]);
                    }
                }
            }
            i = i + 1;
        }
        assert(validators@.subrange(0, validators@.len() as int) =~= validators@);
        proof {
            assert forall|a: int, b: int| 0 <= a < pending@.len() && 0 <= b < pending@.len()
                && a != b implies pending@[a] != pending@[b] by {
                if a >= queue.len() && b < queue.len() {
                    assert(validators@[a - queue.len()] == pending@[a]);
                } else if a < queue.len() && b >= queue.len() {
                    assert(validators@[b - queue.len()] == pending@[b]);
                } else if a >= queue.len() && b >= queue.len() {
                    assert(validators@[a - queue.len()] == pending@[a]);
                    assert(validators@[b - queue.len()] == pending@[b]);
                }
            }
        }
        self.validators_to_add = pending;
        self.events.push(Event::ValidatorsRegistered { validators });
        Ok(())
    }
    /// Queues `validator`, which must be in the `current` roster, for removal
    /// at the next session boundary.
    pub fn remove_validator(&mut self, origin: Origin, validator: u64, current: &Vec<u64>) -> (r:
        Result<(), Error>)
        requires
            old(self).wf(),
        ensures
            final(self).wf(),
            final(self).config_spec() == old(self).config_spec(),
            final(self).additions() == old(self).additions(),
            !is_privileged(origin) ==> r == Err::<(), Error>(Error::BadOrigin),
            is_privileged(origin) && !current@.contains(validator) ==> r == Err::<(), Error>(
                Error::NotValidator,
            ),
            is_privileged(origin) && current@.contains(validator) ==> r == Ok::<(), Error>(()),
            r is Ok ==> final(self).removals() == old(self).removals().push(validator)
                && final(self).event_log() == old(self).event_log().push(
                Event::ValidatorRemoved { validator },
            ),
            r is Err ==> final(self).removals() == old(self).removals()
                && final(self).event_log() == old(self).event_log(),
    {
        Self::ensure_privileged(origin)?;
        if !contains_id(current, validator) {
            return Err(Error::NotValidator);
        }
        self.validators_to_remove.push(validator);
        self.events.push(Event::ValidatorRemoved { validator });
        Ok(())
    }

    /// Session boundary: drains both queues and computes the next roster
    /// from `current`, or `None` to keep `current` when the result would
    /// hold fewer than the configured minimum. The queues are emptied either way.
    pub fn new_session(&mut self, _new_index: u32, current: &Vec<u64>) -> (r: Option<Vec<u64>>)
        requires
            old(self).wf(),
        ensures
            final(self).wf(),
            roster_view(r) == rotation(
                current@,
                old(self).removals(),
                old(self).additions(),
                old(self).config_spec().min_authorities as nat,
            ),
            final(self).additions() == Seq::<u64>::empty(),
            final(self).removals() == Seq::<u64>::empty(),
            final(self).config_spec() == old(self).config_spec(),
            final(self).event_log() == old(self).event_log(),
    {
        let mut removals: Vec<u64> = Vec::new();
        std::mem::swap(&mut removals, &mut self.validators_to_remove);
        let mut additions: Vec<u64> = Vec::new();
        std::mem::swap(&mut additions, &mut self.validators_to_add);
        apply_changes(current, &removals, &additions, self.config.min_authorities)
    }

    /// Nothing to do when a session ends.
    pub fn end_session(&self, _end_index: u32) {
    }

    /// Nothing to do when a session starts.
    pub fn start_session(&self, _start_index: u32) {
    }

    /// The validators queued for addition.
    pub fn validators_to_add(&self) -> (r: Vec<u64>)
        ensures
            r@ == self.additions(),
    {
        self.validators_to_add.clone()
    }

    /// The validators queued for removal.
    pub fn validators_to_remove(&self) -> (r: Vec<u64>)
        ensures
            r@ == self.removals(),
    {
        self.validators_to_remove.clone()
    }

    /// The configured minimum number of validators.
    pub fn min_authorities(&self) -> (r: u32)
        ensures
            r == self.config_spec().min_authorities,
    {
        self.config.min_authorities
    }

    /// The events deposited so far, oldest first.
    pub fn events(&self) -> (r: &Vec<Event>)
        ensures
            r@ == self.event_log(),
    {
        &self.events
    }
}

} // verus!
