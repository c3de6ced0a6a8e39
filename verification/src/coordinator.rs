//! Epochs, exclusive flags and the cancellation registry of all requests.

use vstd::prelude::*;

use crate::bytes::same_array;
use crate::errors::DispatchError;

verus! {

/// A request, named by its connection and its number on that connection.
#[derive(Clone, Copy)]
pub struct RequestKey {
    pub connection_id: [u8; 16],
    pub request_id: u64,
}

impl RequestKey {
    pub fn same(&self, other: &RequestKey) -> (same: bool)
        ensures
            same == (*self == *other),
    {
        self.request_id == other.request_id && same_array(
            &self.connection_id,
            &other.connection_id,
        )
    }
}

/// A running request and whether it was told to stop.
#[derive(Clone, Copy)]
pub struct RunningRequest {
    pub key: RequestKey,
    pub cancelled: bool,
}

/// Whether no request stands twice in a list of running requests.
pub open spec fn distinct_requests(running: Seq<RunningRequest>) -> bool {
    forall|i: int, j: int|
        0 <= i < running.len() && 0 <= j < running.len() && #[trigger] running[i].key
            == #[trigger] running[j].key ==> i == j
}

/// Whether a request stands in a list of running requests.
pub open spec fn runs(running: Seq<RunningRequest>, key: RequestKey) -> bool {
    exists|i: int| 0 <= i < running.len() && #[trigger] running[i].key == key
}

/// Whether a request stands in a list of running requests and was told to stop.
pub open spec fn told_to_stop(running: Seq<RunningRequest>, key: RequestKey) -> bool {
    exists|i: int|
        0 <= i < running.len() && #[trigger] running[i].key == key && running[i].cancelled
}

/// The running requests, each with whether it was told to stop.
pub open spec fn requests_of(running: Seq<RunningRequest>) -> Map<RequestKey, bool> {
    Map::new(|key: RequestKey| runs(running, key), |key: RequestKey| told_to_stop(running, key))
}

/// Authorization epoch, exclusive flags and running requests of one agent.
pub struct Coordinator {
    pub epoch: u64,
    pub global_in_flight: usize,
    pub kdf_active: bool,
    pub mutation_active: bool,
    pub lock_active: bool,
    pub running: Vec<RunningRequest>,
}

impl Coordinator {
    pub open spec fn wf(&self) -> bool {
        distinct_requests(self.running@)
    }

    /// The running requests, each with whether it was told to stop.
    pub open spec fn requests(&self) -> Map<RequestKey, bool> {
        requests_of(self.running@)
    }

    /// Whether a request was told to stop.
    pub open spec fn cancelled(&self, key: RequestKey) -> bool {
        told_to_stop(self.running@, key)
    }

    /// Whether the flags and the number of places taken are the same.
    pub open spec fn same_flags(&self, other: &Coordinator) -> bool {
        &&& self.global_in_flight == other.global_in_flight
        &&& self.kdf_active == other.kdf_active
        &&& self.mutation_active == other.mutation_active
        &&& self.lock_active == other.lock_active
    }

    /// Whether everything is as in another one but for the flag of changes,
    /// which is as given.
    pub open spec fn with_mutation(&self, other: &Coordinator, active: bool) -> bool {
        &&& self.epoch == other.epoch
        &&& self.requests() == other.requests()
        &&& self.global_in_flight == other.global_in_flight
        &&& self.kdf_active == other.kdf_active
        &&& self.lock_active == other.lock_active
        &&& self.mutation_active == active
    }

    /// Whether everything is as in another one but for the flag of locking,
    /// which is as given.
    pub open spec fn with_lock(&self, other: &Coordinator, active: bool) -> bool {
        &&& self.epoch == other.epoch
        &&& self.requests() == other.requests()
        &&& self.global_in_flight == other.global_in_flight
        &&& self.kdf_active == other.kdf_active
        &&& self.mutation_active == other.mutation_active
        &&& self.lock_active == active
    }

    /// Whether everything is as in another one but for the flag of password
    /// trials, which is as given.
    pub open spec fn with_kdf(&self, other: &Coordinator, active: bool) -> bool {
        &&& self.epoch == other.epoch
        &&& self.requests() == other.requests()
        &&& self.global_in_flight == other.global_in_flight
        &&& self.mutation_active == other.mutation_active
        &&& self.lock_active == other.lock_active
        &&& self.kdf_active == active
    }

    pub fn new() -> (coordinator: Coordinator)
        ensures
            coordinator.wf(),
            coordinator.epoch == 1,
            coordinator.requests() == Map::<RequestKey, bool>::empty(),
            coordinator.global_in_flight == 0,
            !coordinator.kdf_active,
            !coordinator.mutation_active,
            !coordinator.lock_active,
    {
        let coordinator = Coordinator {
            epoch: 1,
            global_in_flight: 0,
            kdf_active: false,
            mutation_active: false,
            lock_active: false,
            running: Vec::new(),
        };
        assert(coordinator.requests() =~= Map::<RequestKey, bool>::empty());
        coordinator
    }

    /// Opens the next epoch and tells every running request to stop.
    pub fn advance_epoch(&mut self) -> (next: Result<u64, DispatchError>)
        requires
            old(self).wf(),
        ensures
            final(self).wf(),
            final(self).same_flags(old(self)),
            old(self).epoch == u64::MAX ==> {
                &&& next == Err::<u64, DispatchError>(DispatchError::Internal)
                &&& *final(self) == *old(self)
            },
            old(self).epoch < u64::MAX ==> {
                &&& next == Ok::<u64, DispatchError>(final(self).epoch)
                &&& final(self).epoch == old(self).epoch + 1
                &&& final(self).requests() == old(self).requests().map_values(|stop: bool| true)
            },
    {
        let next = self.increment_epoch();
        if next.is_err() {
            return next;
        }
        let ghost before = self.running@;
        let mut index: usize = 0;
        while index < self.running.len()
            invariant
                index <= self.running.len(),
                self.running.len() == before.len(),
                self.epoch == old(self).epoch + 1,
                self.same_flags(old(self)),
                forall|i: int|
                    0 <= i < before.len() ==> #[trigger] self.running[i].key == before[i].key,
                forall|i: int| 0 <= i < index ==> #[trigger] self.running[i].cancelled,
            decreases self.running.len() - index,
        {
            let key = self.running[index].key;
            self.running[index] = RunningRequest { key, cancelled: true };
            index += 1;
        }
        proof {
            let after = self.running@;
            assert forall|key: RequestKey| runs(before, key) <==> runs(after, key) by {
                if runs(before, key) {
                    let i = choose|i: int| 0 <= i < before.len() && before[i].key == key;
                    assert(after[i].key == key);
                }
                if runs(after, key) {
                    let i = choose|i: int| 0 <= i < after.len() && after[i].key == key;
                    assert(before[i].key == key);
                }
            }
            assert forall|key: RequestKey| runs(after, key) implies told_to_stop(after, key) by {
                let i = choose|i: int| 0 <= i < after.len() && after[i].key == key;
                assert(after[i].cancelled);
            }
            assert(requests_of(after) =~= requests_of(before).map_values(|stop: bool| true));
            assert(distinct_requests(after)) by {
                assert forall|i: int, j: int|
                    0 <= i < after.len() && 0 <= j < after.len() && #[trigger] after[i].key
                        == #[trigger] after[j].key implies i == j by {
                    assert(before[i].key == before[j].key);
                }
            }
        }
        next
    }

    /// Opens the next epoch and leaves the running requests alone.
    pub fn advance_epoch_without_cancellation(&mut self) -> (next: Result<u64, DispatchError>)
        ensures
            final(self).running@ == old(self).running@,
            final(self).same_flags(old(self)),
            old(self).epoch == u64::MAX ==> {
                &&& next == Err::<u64, DispatchError>(DispatchError::Internal)
                &&& *final(self) == *old(self)
            },
            old(self).epoch < u64::MAX ==> {
                &&& next == Ok::<u64, DispatchError>(final(self).epoch)
                &&& final(self).epoch == old(self).epoch + 1
            },
    {
        self.increment_epoch()
    }

    fn increment_epoch(&mut self) -> (next: Result<u64, DispatchError>)
        ensures
            final(self).running == old(self).running,
            final(self).same_flags(old(self)),
            old(self).epoch == u64::MAX ==> {
                &&& next == Err::<u64, DispatchError>(DispatchError::Internal)
                &&& *final(self) == *old(self)
            },
            old(self).epoch < u64::MAX ==> {
                &&& next == Ok::<u64, DispatchError>(final(self).epoch)
                &&& final(self).epoch == old(self).epoch + 1
            },
    {
        match self.epoch.checked_add(1) {
            Some(next) => {
                self.epoch = next;
                Ok(next)
            },
            None => Err(DispatchError::Internal),
        }
    }

    /// The place of a request among the running ones.
    fn find(&self, key: &RequestKey) -> (place: Option<usize>)
        ensures
            place is Some <==> runs(self.running@, *key),
            place matches Some(index) ==> index < self.running.len() && self.running[index as int].key
                == *key,
    {
        let mut index: usize = 0;
        while index < self.running.len()
            invariant
                index <= self.running.len(),
                forall|i: int| 0 <= i < index ==> #[trigger] self.running[i].key != *key,
            decreases self.running.len() - index,
        {
            if self.running[index].key.same(key) {
                return Some(index);
            }
            index += 1;
        }
        None
    }

    /// Enters a request that has not been told to stop. A request that is
    /// already running is not entered again.
    pub fn register(&mut self, key: RequestKey) -> (entered: Result<(), DispatchError>)
        requires
            old(self).wf(),
        ensures
            final(self).wf(),
            final(self).epoch == old(self).epoch,
            final(self).same_flags(old(self)),
            entered is Ok <==> !old(self).requests().dom().contains(key),
            entered is Ok ==> final(self).requests() == old(self).requests().insert(key, false),
            entered is Err ==> entered == Err::<(), DispatchError>(DispatchError::Internal)
                && *final(self) == *old(self),
    {
        if self.find(&key).is_some() {
            return Err(DispatchError::Internal);
        }
        let ghost before = self.running@;
        self.running.push(RunningRequest { key, cancelled: false });
        proof {
            let after = self.running@;
            assert forall|k: RequestKey| runs(after, k) <==> (k == key || runs(before, k)) by {
                if runs(before, k) {
                    let i = choose|i: int| 0 <= i < before.len() && before[i].key == k;
                    assert(after[i].key == k);
                }
                if k == key {
                    assert(after[before.len() as int].key == key);
                }
                if runs(after, k) && k != key {
                    let i = choose|i: int| 0 <= i < after.len() && after[i].key == k;
                    assert(before[i].key == k);
                }
            }
            assert forall|k: RequestKey| k != key implies told_to_stop(after, k) == told_to_stop(
                before,
                k,
            ) by {
                if told_to_stop(before, k) {
                    let i = choose|i: int|
                        0 <= i < before.len() && before[i].key == k && before[i].cancelled;
                    assert(after[i].key == k && after[i].cancelled);
                }
                if told_to_stop(after, k) {
                    let i = choose|i: int|
                        0 <= i < after.len() && after[i].key == k && after[i].cancelled;
                    assert(before[i].key == k && before[i].cancelled);
                }
            }
            assert(!told_to_stop(after, key)) by {
                if told_to_stop(after, key) {
                    let i = choose|i: int|
                        0 <= i < after.len() && after[i].key == key && after[i].cancelled;
                    assert(before[i].key == key);
                }
            }
            assert(requests_of(after) =~= requests_of(before).insert(key, false));
        }
        Ok(())
    }

    /// Tells one request to stop. The result says whether it is running.
    pub fn cancel(&mut self, key: RequestKey) -> (found: bool)
        requires
            old(self).wf(),
        ensures
            final(self).wf(),
            final(self).epoch == old(self).epoch,
            final(self).same_flags(old(self)),
            found == old(self).requests().dom().contains(key),
            final(self).requests() == (if found {
                old(self).requests().insert(key, true)
            } else {
                old(self).requests()
            }),
    {
        match self.find(&key) {
            None => false,
            Some(place) => {
                let ghost before = self.running@;
                self.running[place] = RunningRequest { key, cancelled: true };
                proof {
                    let after = self.running@;
                    assert forall|k: RequestKey| runs(before, k) <==> runs(after, k) by {
                        if runs(before, k) {
                            let i = choose|i: int| 0 <= i < before.len() && before[i].key == k;
                            assert(after[i].key == k);
                        }
                        if runs(after, k) {
                            let i = choose|i: int| 0 <= i < after.len() && after[i].key == k;
                            assert(before[i].key == k);
                        }
                    }
                    assert forall|k: RequestKey| k != key implies told_to_stop(after, k)
                        == told_to_stop(before, k) by {
                        if told_to_stop(before, k) {
                            let i = choose|i: int|
                                0 <= i < before.len() && before[i].key == k && before[i].cancelled;
                            assert(after[i].key == k && after[i].cancelled);
                        }
                        if told_to_stop(after, k) {
                            let i = choose|i: int|
                                0 <= i < after.len() && after[i].key == k && after[i].cancelled;
                            assert(before[i].key == k && before[i].cancelled);
                        }
                    }
                    assert(after[place as int].key == key && after[place as int].cancelled);
                    assert(requests_of(after) =~= requests_of(before).insert(key, true));
                }
                true
            },
        }
    }

    /// Tells every request of one connection to stop.
    pub fn cancel_connection(&mut self, connection_id: [u8; 16])
        requires
            old(self).wf(),
        ensures
            final(self).wf(),
            final(self).epoch == old(self).epoch,
            final(self).same_flags(old(self)),
            final(self).requests().dom() == old(self).requests().dom(),
            forall|key: RequestKey| #[trigger]
                final(self).cancelled(key) == (old(self).cancelled(key) || (
                old(self).requests().dom().contains(key) && key.connection_id == connection_id)),
    {
        let ghost before = self.running@;
        let mut index: usize = 0;
        while index < self.running.len()
            invariant
                index <= self.running.len(),
                self.running.len() == before.len(),
                self.epoch == old(self).epoch,
                self.same_flags(old(self)),
                forall|i: int|
                    0 <= i < before.len() ==> #[trigger] self.running[i].key == before[i].key,
                forall|i: int|
                    index <= i < before.len() ==> #[trigger] self.running[i] == before[i],
                forall|i: int|
                    0 <= i < index ==> #[trigger] self.running[i].cancelled == (
                    before[i].cancelled || before[i].key.connection_id == connection_id),
            decreases self.running.len() - index,
        {
            let entry = self.running[index];
            if same_array(&entry.key.connection_id, &connection_id) {
                self.running[index] = RunningRequest { key: entry.key, cancelled: true };
            }
            index += 1;
        }
        proof {
            let after = self.running@;
            assert forall|key: RequestKey| runs(before, key) <==> runs(after, key) by {
                if runs(before, key) {
                    let i = choose|i: int| 0 <= i < before.len() && before[i].key == key;
                    assert(after[i].key == key);
                }
                if runs(after, key) {
                    let i = choose|i: int| 0 <= i < after.len() && after[i].key == key;
                    assert(before[i].key == key);
                }
            }
            assert(requests_of(after).dom() =~= requests_of(before).dom());
            assert forall|key: RequestKey| #[trigger]
                self.cancelled(key) == (old(self).cancelled(key) || (
                old(self).requests().dom().contains(key) && key.connection_id
                    == connection_id)) by {
                if told_to_stop(after, key) {
                    let i = choose|i: int|
                        0 <= i < after.len() && after[i].key == key && after[i].cancelled;
                    assert(before[i].key == key);
                    assert(runs(before, key));
                }
                if told_to_stop(before, key) {
                    let i = choose|i: int|
                        0 <= i < before.len() && before[i].key == key && before[i].cancelled;
                    assert(after[i].key == key && after[i].cancelled);
                }
                if runs(before, key) && key.connection_id == connection_id {
                    let i = choose|i: int| 0 <= i < before.len() && before[i].key == key;
                    assert(after[i].key == key && after[i].cancelled);
                }
            }
            assert(distinct_requests(after)) by {
                assert forall|i: int, j: int|
                    0 <= i < after.len() && 0 <= j < after.len() && #[trigger] after[i].key
                        == #[trigger] after[j].key implies i == j by {
                    assert(before[i].key == before[j].key);
                }
            }
        }
    }

    /// Whether a request was told to stop.
    pub fn is_cancelled(&self, key: &RequestKey) -> (stop: bool)
        requires
            self.wf(),
        ensures
            stop == self.cancelled(*key),
    {
        match self.find(key) {
            None => {
                assert(!self.cancelled(*key));
                false
            },
            Some(place) => {
                proof {
                    if self.cancelled(*key) {
                        let i = choose|i: int|
                            0 <= i < self.running.len() && self.running[i].key == *key
                                && self.running[i].cancelled;
                        assert(self.running[place as int].key == self.running[i].key);
                    }
                }
                self.running[place].cancelled
            },
        }
    }

    /// Takes a request that ended off the registry.
    pub fn unregister(&mut self, key: &RequestKey)
        requires
            old(self).wf(),
        ensures
            final(self).wf(),
            final(self).epoch == old(self).epoch,
            final(self).same_flags(old(self)),
            final(self).requests() == old(self).requests().remove(*key),
    {
        let ghost before = self.running@;
        match self.find(key) {
            None => {
                assert(requests_of(before) =~= requests_of(before).remove(*key));
            },
            Some(place) => {
                self.running.remove(place);
                proof {
                    let after = self.running@;
                    let p = place as int;
                    assert forall|i: int| 0 <= i < after.len() implies #[trigger] after[i] == (
                    if i < p {
                        before[i]
                    } else {
                        before[i + 1]
                    }) by {}
                    assert forall|k: RequestKey| runs(after, k) <==> (k != *key && runs(
                        before,
                        k,
                    )) by {
                        if runs(before, k) && k != *key {
                            let i = choose|i: int| 0 <= i < before.len() && before[i].key == k;
                            let j = if i < p { i } else { i - 1 };
                            assert(after[j].key == k);
                        }
                        if runs(after, k) {
                            let j = choose|j: int| 0 <= j < after.len() && after[j].key == k;
                            let i = if j < p { j } else { j + 1 };
                            assert(before[i].key == k);
                            assert(before[i].key == before[p].key ==> i == p);
                        }
                    }
                    assert forall|k: RequestKey| k != *key implies told_to_stop(after, k)
                        == told_to_stop(before, k) by {
                        if told_to_stop(before, k) {
                            let i = choose|i: int|
                                0 <= i < before.len() && before[i].key == k && before[i].cancelled;
                            let j = if i < p { i } else { i - 1 };
                            assert(after[j].key == k && after[j].cancelled);
                        }
                        if told_to_stop(after, k) {
                            let j = choose|j: int|
                                0 <= j < after.len() && after[j].key == k && after[j].cancelled;
                            let i = if j < p { j } else { j + 1 };
                            assert(before[i].key == k && before[i].cancelled);
                        }
                    }
                    assert(requests_of(after) =~= requests_of(before).remove(*key));
                    assert(distinct_requests(after)) by {
                        assert forall|a: int, b: int|
                            0 <= a < after.len() && 0 <= b < after.len() && #[trigger] after[a].key
                                == #[trigger] after[b].key implies a == b by {
                            let i = if a < p { a } else { a + 1 };
                            let j = if b < p { b } else { b + 1 };
                            assert(before[i].key == before[j].key);
                        }
                    }
                }
            },
        }
    }
}

/// A request counts as told to stop exactly where it stands among the running
/// ones with that mark.
pub proof fn requests_are_told_by_their_mark(
    coordinator: Coordinator,
    key: RequestKey,
    told: bool,
)
    requires
        call_ensures(Coordinator::is_cancelled, (&coordinator, &key), told),
    ensures
        told <==> coordinator.requests().dom().contains(key) && coordinator.requests()[key],
        told <==> exists|i: int|
            0 <= i < coordinator.running@.len() && (#[trigger] coordinator.running@[i]).key == key
                && coordinator.running@[i].cancelled,
{
    if told {
        let i = choose|i: int|
            0 <= i < coordinator.running@.len() && #[trigger] coordinator.running@[i].key == key
                && coordinator.running@[i].cancelled;
        assert(coordinator.running@[i].key == key);
    }
}

} // verus!
