//! Passkeys whose creation can still be taken back.
//!
//! A passkey is made before the platform has accepted it. Until its connection
//! ends, the transaction that made it may ask to undo that.

use vstd::prelude::*;

use crate::bytes::same_array;
use crate::outcome::Verdict;
use crate::protocol::OperationCode;

verus! {

/// The transaction that made a passkey.
#[derive(Clone, Copy)]
pub struct PendingPasskeyCreationKey {
    pub connection_id: [u8; 16],
    pub transaction_id: [u8; 16],
}

impl PendingPasskeyCreationKey {
    pub fn same(&self, other: &PendingPasskeyCreationKey) -> (same: bool)
        ensures
            same == (*self == *other),
    {
        same_array(&self.connection_id, &other.connection_id) && same_array(
            &self.transaction_id,
            &other.transaction_id,
        )
    }
}

/// The passkey that a transaction made, for whom, and in which epoch.
#[derive(Clone, Copy)]
pub struct PendingPasskeyCreation {
    pub credential_id: [u8; 32],
    pub authenticated_process_id: u32,
    pub unlock_epoch: u64,
}

impl PendingPasskeyCreation {
    pub fn same(&self, other: &PendingPasskeyCreation) -> (same: bool)
        ensures
            same == (*self == *other),
    {
        self.authenticated_process_id == other.authenticated_process_id && self.unlock_epoch
            == other.unlock_epoch && same_array(&self.credential_id, &other.credential_id)
    }
}

/// One passkey whose creation can still be taken back.
#[derive(Clone, Copy)]
pub struct PendingEntry {
    pub key: PendingPasskeyCreationKey,
    pub creation: PendingPasskeyCreation,
}

/// The passkeys whose creation can still be taken back.
pub struct PendingPasskeyCreations {
    pub entries: Vec<PendingEntry>,
}

/// Whether a transaction stands in a list.
pub open spec fn is_pending(entries: Seq<PendingEntry>, key: PendingPasskeyCreationKey) -> bool {
    exists|i: int| 0 <= i < entries.len() && #[trigger] entries[i].key == key
}

/// The place of a transaction in a list.
pub open spec fn pending_place(entries: Seq<PendingEntry>, key: PendingPasskeyCreationKey) -> int {
    choose|i: int| 0 <= i < entries.len() && #[trigger] entries[i].key == key
}

/// What each transaction of a list made.
pub open spec fn pending_map(entries: Seq<PendingEntry>) -> Map<
    PendingPasskeyCreationKey,
    PendingPasskeyCreation,
> {
    Map::new(
        |key: PendingPasskeyCreationKey| is_pending(entries, key),
        |key: PendingPasskeyCreationKey| entries[pending_place(entries, key)].creation,
    )
}

/// Whether no transaction stands twice in a list.
pub open spec fn distinct_pending(entries: Seq<PendingEntry>) -> bool {
    forall|i: int, j: int|
        0 <= i < entries.len() && 0 <= j < entries.len() && (#[trigger] entries[i]).key == (
        #[trigger] entries[j]).key ==> i == j
}

impl View for PendingPasskeyCreations {
    type V = Map<PendingPasskeyCreationKey, PendingPasskeyCreation>;

    open spec fn view(&self) -> Map<PendingPasskeyCreationKey, PendingPasskeyCreation> {
        pending_map(self.entries@)
    }
}

proof fn pending_at(entries: Seq<PendingEntry>, place: int)
    requires
        distinct_pending(entries),
        0 <= place < entries.len(),
    ensures
        is_pending(entries, entries[place].key),
        pending_map(entries)[entries[place].key] == entries[place].creation,
{
    assert(entries[place].key == entries[place].key);
    let chosen = pending_place(entries, entries[place].key);
    assert(entries[chosen].key == entries[place].key);
}

/// The pending passkeys of every connection but one.
pub open spec fn of_other_connections(
    pending: Map<PendingPasskeyCreationKey, PendingPasskeyCreation>,
    connection_id: [u8; 16],
) -> Map<PendingPasskeyCreationKey, PendingPasskeyCreation> {
    pending.restrict(
        pending.dom().filter(
            |key: PendingPasskeyCreationKey| key.connection_id != connection_id,
        ),
    )
}

impl PendingPasskeyCreations {
    pub open spec fn wf(&self) -> bool {
        distinct_pending(self.entries@)
    }

    pub fn new() -> (pending: PendingPasskeyCreations)
        ensures
            pending.wf(),
            pending@ == Map::<PendingPasskeyCreationKey, PendingPasskeyCreation>::empty(),
    {
        let pending = PendingPasskeyCreations { entries: Vec::new() };
        assert(pending@ =~= Map::<PendingPasskeyCreationKey, PendingPasskeyCreation>::empty());
        pending
    }

    fn find(&self, key: &PendingPasskeyCreationKey) -> (place: Option<usize>)
        ensures
            place is Some <==> self@.dom().contains(*key),
            place matches Some(index) ==> index < self.entries.len() && self.entries[index as int].key
                == *key,
    {
        let mut index: usize = 0;
        while index < self.entries.len()
            invariant
                index <= self.entries.len(),
                forall|i: int| 0 <= i < index ==> (#[trigger] self.entries[i]).key != *key,
            decreases self.entries.len() - index,
        {
            if self.entries[index].key.same(key) {
                assert(self.entries@[index as int].key == *key);
                return Some(index);
            }
            index += 1;
        }
        None
    }

    pub fn contains(&self, key: &PendingPasskeyCreationKey) -> (found: bool)
        ensures
            found == self@.dom().contains(*key),
    {
        self.find(key).is_some()
    }

    /// Whether a transaction made exactly this passkey.
    pub fn made(
        &self,
        key: &PendingPasskeyCreationKey,
        expected: &PendingPasskeyCreation,
    ) -> (made: bool)
        requires
            self.wf(),
        ensures
            made == (self@.dom().contains(*key) && self@[*key] == *expected),
    {
        match self.find(key) {
            Some(place) => {
                proof {
                    pending_at(self.entries@, place as int);
                }
                self.entries[place].creation.same(expected)
            },
            None => false,
        }
    }

    /// Enters a passkey that was just made. The result says whether its
    /// transaction was new; another passkey of the same transaction gives way.
    pub fn insert(
        &mut self,
        key: PendingPasskeyCreationKey,
        creation: PendingPasskeyCreation,
    ) -> (new: bool)
        requires
            old(self).wf(),
        ensures
            final(self).wf(),
            new == !old(self)@.dom().contains(key),
            final(self)@ == old(self)@.insert(key, creation),
    {
        let ghost before = self.entries@;
        match self.find(&key) {
            Some(place) => {
                self.entries[place] = PendingEntry { key, creation };
                proof {
                    let after = self.entries@;
                    let p = place as int;
                    assert(distinct_pending(after)) by {
                        assert forall|i: int, j: int|
                            0 <= i < after.len() && 0 <= j < after.len() && (
                            #[trigger] after[i]).key == (#[trigger] after[j]).key implies i
                            == j by {
                            assert(before[i].key == before[j].key);
                        }
                    }
                    assert forall|k: PendingPasskeyCreationKey|
                        is_pending(after, k) == is_pending(before, k) by {
                        if is_pending(before, k) {
                            assert(after[pending_place(before, k)].key == k);
                        }
                        if is_pending(after, k) {
                            assert(before[pending_place(after, k)].key == k);
                        }
                    }
                    assert forall|k: PendingPasskeyCreationKey| is_pending(after, k) implies
                        pending_map(after)[k] == pending_map(before).insert(key, creation)[k] by {
                        let i = pending_place(after, k);
                        pending_at(after, i);
                        pending_at(before, i);
                    }
                    assert(is_pending(after, key)) by {
                        assert(after[p].key == key);
                    }
                    assert(self@ =~= pending_map(before).insert(key, creation));
                }
                false
            },
            None => {
                self.entries.push(PendingEntry { key, creation });
                proof {
                    let after = self.entries@;
                    let n = before.len() as int;
                    assert(distinct_pending(after)) by {
                        assert forall|i: int, j: int|
                            0 <= i < after.len() && 0 <= j < after.len() && (
                            #[trigger] after[i]).key == (#[trigger] after[j]).key implies i
                            == j by {
                            if i < n && j == n {
                                assert(before[i].key == key);
                            }
                            if j < n && i == n {
                                assert(before[j].key == key);
                            }
                            if i < n && j < n {
                                assert(before[i].key == before[j].key);
                            }
                        }
                    }
                    assert forall|k: PendingPasskeyCreationKey|
                        is_pending(after, k) == (k == key || is_pending(before, k)) by {
                        if is_pending(before, k) {
                            assert(after[pending_place(before, k)].key == k);
                        }
                        if k == key {
                            assert(after[n].key == k);
                        }
                        if is_pending(after, k) && k != key {
                            assert(before[pending_place(after, k)].key == k);
                        }
                    }
                    assert forall|k: PendingPasskeyCreationKey| is_pending(after, k) implies
                        pending_map(after)[k] == pending_map(before).insert(key, creation)[k] by {
                        let i = pending_place(after, k);
                        pending_at(after, i);
                        if i < n {
                            pending_at(before, i);
                        }
                    }
                    assert(self@ =~= pending_map(before).insert(key, creation));
                }
                true
            },
        }
    }

    /// Takes a transaction out and gives what it made.
    pub fn remove(&mut self, key: &PendingPasskeyCreationKey) -> (removed: Option<
        PendingPasskeyCreation,
    >)
        requires
            old(self).wf(),
        ensures
            final(self).wf(),
            removed == (if old(self)@.dom().contains(*key) {
                Some(old(self)@[*key])
            } else {
                None
            }),
            final(self)@ == old(self)@.remove(*key),
    {
        let ghost before = self.entries@;
        match self.find(key) {
            None => {
                assert(self@ =~= pending_map(before).remove(*key));
                None
            },
            Some(place) => {
                let entry = self.entries.remove(place);
                proof {
                    let p = place as int;
                    pending_at(before, p);
                    removal_of_one(before, p);
                    assert(self.entries@ =~= before.remove(p));
                }
                Some(entry.creation)
            },
        }
    }

    /// Takes out every transaction of a connection.
    pub fn forget_connection(&mut self, connection_id: [u8; 16])
        requires
            old(self).wf(),
        ensures
            final(self).wf(),
            final(self)@ == of_other_connections(old(self)@, connection_id),
    {
        let ghost before = self.entries@;
        let mut index: usize = 0;
        while index < self.entries.len()
            invariant
                index <= self.entries.len(),
                self.wf(),
                distinct_pending(before),
                forall|i: int|
                    0 <= i < index ==> (#[trigger] self.entries[i]).key.connection_id
                        != connection_id,
                forall|k: PendingPasskeyCreationKey|
                    k.connection_id != connection_id ==> {
                        &&& #[trigger] self@.dom().contains(k) == pending_map(
                            before,
                        ).dom().contains(k)
                        &&& self@.dom().contains(k) ==> self@[k] == pending_map(before)[k]
                    },
            decreases self.entries.len() - index,
        {
            if same_array(&self.entries[index].key.connection_id, &connection_id) {
                let ghost now = self.entries@;
                let ghost shown = self@;
                self.entries.remove(index);
                proof {
                    removal_of_one(now, index as int);
                    assert(self.entries@ =~= now.remove(index as int));
                    assert(self@ == pending_map(now).remove(now[index as int].key));
                    assert forall|k: PendingPasskeyCreationKey|
                        k.connection_id != connection_id implies {
                        &&& #[trigger] self@.dom().contains(k) == pending_map(
                            before,
                        ).dom().contains(k)
                        &&& self@.dom().contains(k) ==> self@[k] == pending_map(before)[k]
                    } by {
                        assert(k != now[index as int].key);
                        assert(shown.dom().contains(k) == pending_map(before).dom().contains(k));
                    }
                }
            } else {
                index += 1;
            }
        }
        proof {
            assert forall|k: PendingPasskeyCreationKey| k.connection_id == connection_id implies
                !self@.dom().contains(k) by {
                if is_pending(self.entries@, k) {
                    let i = pending_place(self.entries@, k);
                    assert(self.entries@[i].key == k);
                }
            }
            assert(self@ =~= of_other_connections(pending_map(before), connection_id));
        }
    }
}

proof fn removal_of_one(entries: Seq<PendingEntry>, place: int)
    requires
        distinct_pending(entries),
        0 <= place < entries.len(),
    ensures
        distinct_pending(entries.remove(place)),
        pending_map(entries.remove(place)) == pending_map(entries).remove(entries[place].key),
{
    let after = entries.remove(place);
    let key = entries[place].key;
    assert forall|i: int, j: int|
        0 <= i < after.len() && 0 <= j < after.len() && (#[trigger] after[i]).key == (
        #[trigger] after[j]).key implies i == j by {
        let a = if i < place { i } else { i + 1 };
        let b = if j < place { j } else { j + 1 };
        assert(entries[a].key == entries[b].key);
    }
    assert forall|k: PendingPasskeyCreationKey|
        is_pending(after, k) == (k != key && is_pending(entries, k)) by {
        if is_pending(entries, k) && k != key {
            let i = pending_place(entries, k);
            let j = if i < place { i } else { i - 1 };
            assert(after[j].key == k);
        }
        if is_pending(after, k) {
            let j = pending_place(after, k);
            let i = if j < place { j } else { j + 1 };
            assert(entries[i].key == k);
            assert(entries[i].key == entries[place].key ==> i == place);
        }
    }
    assert forall|k: PendingPasskeyCreationKey| is_pending(after, k) implies pending_map(after)[k]
        == pending_map(entries)[k] by {
        let j = pending_place(after, k);
        let i = if j < place { j } else { j + 1 };
        pending_at(after, j);
        pending_at(entries, i);
    }
    assert(pending_map(after) =~= pending_map(entries).remove(key));
}

/// The request of a connection that may carry a passkey proof: the first one,
/// or the second where a creation is taken back.
#[verifier::allow_in_spec]
pub fn expected_request_id(operation: OperationCode) -> u64
    returns
        (if operation == OperationCode::RollbackPasskeyCreation {
            2u64
        } else {
            1u64
        }),
{
    if operation == OperationCode::RollbackPasskeyCreation {
        2
    } else {
        1
    }
}

/// The answer to a request whose passkey proof was not made for it: the proof
/// must answer the challenge of its connection, in the one request that may
/// carry it. A request without a proof is not concerned.
pub fn passkey_binding_failure(
    operation: OperationCode,
    request_id: u64,
    proof_challenge: Option<[u8; 16]>,
    connection_id: [u8; 16],
) -> (failure: Option<Verdict>)
    ensures
        failure == (if proof_challenge is Some && (request_id != expected_request_id(operation)
            || proof_challenge->Some_0 != connection_id) {
            Some(Verdict::invalid())
        } else {
            None
        }),
{
    match proof_challenge {
        Some(challenge) => if request_id != expected_request_id(operation) || !same_array(
            &challenge,
            &connection_id,
        ) {
            Some(Verdict::invalid())
        } else {
            None
        },
        None => None,
    }
}

/// A connection that is forgotten takes its own transactions with it and leaves
/// those of every other one, with what they made.
pub proof fn connections_take_only_their_own(
    pending: Map<PendingPasskeyCreationKey, PendingPasskeyCreation>,
    connection_id: [u8; 16],
    key: PendingPasskeyCreationKey,
)
    ensures
        ({
            let left = of_other_connections(pending, connection_id);
            &&& left.dom().contains(key) <==> pending.dom().contains(key) && key.connection_id
                != connection_id
            &&& left.dom().contains(key) ==> left[key] == pending[key]
        }),
{
}

/// A proof is accepted exactly where it answers the challenge of its own
/// connection in the one request that may carry it: the first of a connection,
/// and the second where a creation is taken back.
pub proof fn proofs_are_bound_to_their_request(
    operation: OperationCode,
    request_id: u64,
    challenge: [u8; 16],
    connection_id: [u8; 16],
    failure: Option<Verdict>,
    without: Option<Verdict>,
)
    requires
        call_ensures(
            passkey_binding_failure,
            (operation, request_id, Some(challenge), connection_id),
            failure,
        ),
        call_ensures(
            passkey_binding_failure,
            (operation, request_id, None, connection_id),
            without,
        ),
    ensures
        failure is None <==> challenge == connection_id && (if operation
            == OperationCode::RollbackPasskeyCreation {
            request_id == 2
        } else {
            request_id == 1
        }),
        failure matches Some(verdict) ==> verdict.error == Some(
            crate::protocol::PublicErrorCode::InvalidRequest,
        ),
        without is None,
{
}

/// What a transaction made is told apart by every part of it.
pub proof fn creations_are_told_apart(
    one: PendingPasskeyCreation,
    other: PendingPasskeyCreation,
    same: bool,
)
    requires
        call_ensures(PendingPasskeyCreation::same, (&one, &other), same),
    ensures
        same ==> one.credential_id@ == other.credential_id@ && one.authenticated_process_id
            == other.authenticated_process_id && one.unlock_epoch == other.unlock_epoch,
        one.credential_id == other.credential_id && one.authenticated_process_id
            == other.authenticated_process_id && one.unlock_epoch == other.unlock_epoch ==> same,
{
}

} // verus!
