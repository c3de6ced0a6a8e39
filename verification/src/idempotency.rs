//! Results that are kept so that a repeated request is answered once more
//! instead of being executed once more.

use vstd::prelude::*;

use crate::bytes::{copy_bytes, same_array};
use crate::errors::DispatchError;
use crate::outcome::{should_cache, ExecutionOutcome, Verdict};
use crate::protocol::{PublicErrorCode, RetryCategory};
use crate::secrets::wipe;

verus! {

/// How many results are kept or under way at once.
pub const MAX_IDEMPOTENCY_RESULTS: usize = 1_024;

/// The kept result of one completed request.
pub struct CachedOutcome {
    pub key: [u8; 16],
    pub request_fingerprint: [u8; 32],
    pub error: Option<PublicErrorCode>,
    pub retry: RetryCategory,
    pub body: Vec<u8>,
}

impl CachedOutcome {
    /// Overwrites the body of a result that is not kept any longer.
    pub fn wipe(&mut self)
        ensures
            final(self)@ == (CachedModel { body: Seq::<u8>::empty(), ..old(self)@ }),
    {
        wipe(&mut self.body);
        assert(self.body@ =~= Seq::<u8>::empty());
    }
}

/// What a kept result says.
pub struct CachedModel {
    pub key: [u8; 16],
    pub request_fingerprint: [u8; 32],
    pub error: Option<PublicErrorCode>,
    pub retry: RetryCategory,
    pub body: Seq<u8>,
}

impl View for CachedOutcome {
    type V = CachedModel;

    open spec fn view(&self) -> CachedModel {
        CachedModel {
            key: self.key,
            request_fingerprint: self.request_fingerprint,
            error: self.error,
            retry: self.retry,
            body: self.body@,
        }
    }
}

/// Kept results, oldest first, and the keys of requests under way. All of it
/// belongs to one cryptographic vault.
pub struct IdempotencyState {
    pub authenticated_vault_id: Option<[u8; 16]>,
    pub cached: Vec<CachedOutcome>,
    pub in_flight: Vec<[u8; 16]>,
}

/// What an idempotency state says.
pub struct IdempotencyModel {
    pub vault_id: Option<[u8; 16]>,
    pub cached: Seq<CachedModel>,
    pub in_flight: Seq<[u8; 16]>,
}

impl View for IdempotencyState {
    type V = IdempotencyModel;

    open spec fn view(&self) -> IdempotencyModel {
        IdempotencyModel {
            vault_id: self.authenticated_vault_id,
            cached: Seq::new(self.cached@.len(), |i: int| self.cached@[i]@),
            in_flight: self.in_flight@,
        }
    }
}

/// The keys other than one.
pub open spec fn is_not(key: [u8; 16]) -> spec_fn([u8; 16]) -> bool {
    |other: [u8; 16]| other != key
}

/// A list of keys without one of them.
pub open spec fn without_key(keys: Seq<[u8; 16]>, key: [u8; 16]) -> Seq<[u8; 16]> {
    keys.filter(is_not(key))
}

impl IdempotencyModel {
    /// Whether the result of a request with this key is kept.
    pub open spec fn keeps(self, key: [u8; 16]) -> bool {
        exists|i: int| 0 <= i < self.cached.len() && #[trigger] self.cached[i].key == key
    }

    /// Whether a request with this key is under way.
    pub open spec fn runs(self, key: [u8; 16]) -> bool {
        exists|i: int| 0 <= i < self.in_flight.len() && #[trigger] self.in_flight[i] == key
    }

    /// The place of the kept result of a key.
    pub open spec fn place(self, key: [u8; 16]) -> int {
        choose|i: int| 0 <= i < self.cached.len() && #[trigger] self.cached[i].key == key
    }

    /// No key is kept twice, none is under way twice, none is both, and all of
    /// them together do not exceed the limit.
    pub open spec fn wf(self) -> bool {
        &&& forall|i: int, j: int|
            0 <= i < self.cached.len() && 0 <= j < self.cached.len() && (
            #[trigger] self.cached[i]).key == (#[trigger] self.cached[j]).key ==> i == j
        &&& forall|i: int, j: int|
            0 <= i < self.in_flight.len() && 0 <= j < self.in_flight.len()
                && #[trigger] self.in_flight[i] == #[trigger] self.in_flight[j] ==> i == j
        &&& forall|i: int, j: int|
            0 <= i < self.cached.len() && 0 <= j < self.in_flight.len() ==> (
            #[trigger] self.cached[i]).key != #[trigger] self.in_flight[j]
        &&& self.cached.len() + self.in_flight.len() <= MAX_IDEMPOTENCY_RESULTS
    }

    /// The state in which the oldest kept result is given up where the limit
    /// is reached.
    pub open spec fn with_room(self) -> IdempotencyModel {
        if self.cached.len() + self.in_flight.len() >= MAX_IDEMPOTENCY_RESULTS
            && self.cached.len() > 0 {
            IdempotencyModel { cached: self.cached.drop_first(), ..self }
        } else {
            self
        }
    }

    /// The state in which a request with this key is under way too.
    pub open spec fn with_running(self, key: [u8; 16]) -> IdempotencyModel {
        IdempotencyModel { in_flight: self.in_flight.push(key), ..self }
    }

    /// The state in which no request with this key is under way.
    pub open spec fn without_running(self, key: [u8; 16]) -> IdempotencyModel {
        IdempotencyModel { in_flight: without_key(self.in_flight, key), ..self }
    }

    /// The state in which a result is kept as the newest.
    pub open spec fn with_cached(self, entry: CachedModel) -> IdempotencyModel {
        IdempotencyModel { cached: self.cached.push(entry), ..self }
    }

    /// The state of another vault: no result is kept.
    pub open spec fn of_vault(self, vault_id: [u8; 16]) -> IdempotencyModel {
        IdempotencyModel { vault_id: Some(vault_id), cached: Seq::empty(), ..self }
    }
}

/// What a request with an idempotency key is told before it is executed.
pub enum Reservation {
    /// The key belongs to a request that asked for something else.
    Conflict,
    /// The kept result of the same request.
    Replay(ExecutionOutcome),
    /// The same key is under way, or no further key can be.
    Busy,
    /// The key is under way now: the request is to be executed.
    Reserved,
}

/// What a request with an idempotency key is told, and what that makes of the
/// keys.
pub open spec fn reserves(
    before: IdempotencyModel,
    after: IdempotencyModel,
    key: [u8; 16],
    request_fingerprint: [u8; 32],
    told: Reservation,
) -> bool {
    if before.keeps(key) {
        let kept = before.cached[before.place(key)];
        &&& after == before
        &&& if kept.request_fingerprint != request_fingerprint {
            told is Conflict
        } else {
            &&& told is Replay
            &&& told->Replay_0.body@ == kept.body
            &&& told->Replay_0.verdict == (Verdict {
                error: kept.error,
                retry: kept.retry,
                replayed: true,
                holds_lock_transition: false,
                committed: false,
            })
        }
    } else if before.runs(key) || before.in_flight.len() >= MAX_IDEMPOTENCY_RESULTS {
        &&& told is Busy
        &&& after == before
    } else {
        &&& told is Reserved
        &&& after == before.with_room().with_running(key)
    }
}

/// The keys after a request that was executed gave its own back.
pub open spec fn concluded(
    before: IdempotencyModel,
    key: [u8; 16],
    request_fingerprint: [u8; 32],
    executed: Result<ExecutionOutcome, DispatchError>,
) -> IdempotencyModel {
    match executed {
        Err(_) => before.without_running(key),
        Ok(outcome) => if should_cache(&outcome.verdict) {
            before.without_running(key).with_cached(
                CachedModel {
                    key,
                    request_fingerprint,
                    error: outcome.verdict.error,
                    retry: outcome.verdict.retry,
                    body: outcome.body@,
                },
            )
        } else {
            before.without_running(key)
        },
    }
}

impl IdempotencyState {
    pub open spec fn wf(&self) -> bool {
        self@.wf()
    }

    pub fn new() -> (state: IdempotencyState)
        ensures
            state.wf(),
            state@ == (IdempotencyModel {
                vault_id: None,
                cached: Seq::empty(),
                in_flight: Seq::empty(),
            }),
    {
        let state = IdempotencyState {
            authenticated_vault_id: None,
            cached: Vec::new(),
            in_flight: Vec::new(),
        };
        assert(state@.cached =~= Seq::<CachedModel>::empty());
        state
    }

    fn find_cached(&self, key: &[u8; 16]) -> (place: Option<usize>)
        ensures
            place is Some <==> self@.keeps(*key),
            place matches Some(index) ==> index < self.cached.len()
                && self@.cached[index as int].key == *key,
    {
        let mut index: usize = 0;
        while index < self.cached.len()
            invariant
                index <= self.cached.len(),
                forall|i: int| 0 <= i < index ==> (#[trigger] self@.cached[i]).key != *key,
            decreases self.cached.len() - index,
        {
            if same_array(&self.cached[index].key, key) {
                assert(self@.cached[index as int].key == *key);
                return Some(index);
            }
            index += 1;
        }
        None
    }

    fn find_running(&self, key: &[u8; 16]) -> (place: Option<usize>)
        ensures
            place is Some <==> self@.runs(*key),
            place matches Some(index) ==> index < self.in_flight.len()
                && self.in_flight[index as int] == *key,
    {
        let mut index: usize = 0;
        while index < self.in_flight.len()
            invariant
                index <= self.in_flight.len(),
                forall|i: int| 0 <= i < index ==> #[trigger] self@.in_flight[i] != *key,
            decreases self.in_flight.len() - index,
        {
            if same_array(&self.in_flight[index], key) {
                assert(self@.in_flight[index as int] == *key);
                return Some(index);
            }
            index += 1;
        }
        None
    }

    /// Looks a key up and, where its request is to be executed, marks it as
    /// under way. The oldest kept result gives way where there is no room.
    pub fn reserve(&mut self, key: [u8; 16], request_fingerprint: [u8; 32]) -> (told: Reservation)
        requires
            old(self).wf(),
        ensures
            final(self).wf(),
            reserves(old(self)@, final(self)@, key, request_fingerprint, told),
    {
        if let Some(place) = self.find_cached(&key) {
            proof {
                let chosen = self@.place(key);
                assert(self@.cached[chosen].key == self@.cached[place as int].key);
            }
            let kept = &self.cached[place];
            if !same_array(&kept.request_fingerprint, &request_fingerprint) {
                return Reservation::Conflict;
            }
            return Reservation::Replay(
                ExecutionOutcome {
                    verdict: Verdict {
                        error: kept.error,
                        retry: kept.retry,
                        replayed: true,
                        holds_lock_transition: false,
                        committed: false,
                    },
                    body: copy_bytes(&kept.body),
                },
            );
        }
        if self.find_running(&key).is_some() {
            return Reservation::Busy;
        }
        let ghost before = self@;
        while self.cached.len() + self.in_flight.len() >= MAX_IDEMPOTENCY_RESULTS
            invariant
                before.wf(),
                before == old(self)@,
                !before.keeps(key),
                !before.runs(key),
                self@ == before || (self@ == before.with_room() && self@.cached.len()
                    + self@.in_flight.len() < MAX_IDEMPOTENCY_RESULTS),
                self.cached.len() == self@.cached.len(),
            decreases self.cached.len(),
        {
            if self.cached.len() == 0 {
                assert(self@.cached.len() == 0);
                return Reservation::Busy;
            }
            let mut oldest = self.cached.remove(0);
            oldest.wipe();
            assert(self@.cached =~= before.cached.drop_first());
        }
        self.in_flight.push(key);
        proof {
            let roomy = before.with_room();
            assert(self@.cached =~= roomy.cached);
            assert forall|i: int| 0 <= i < roomy.cached.len() implies (
            #[trigger] roomy.cached[i]).key != key by {
                if roomy.cached.len() < before.cached.len() {
                    assert(roomy.cached[i] == before.cached[i + 1]);
                    assert(before.cached[i + 1].key != key);
                } else {
                    assert(before.cached[i].key != key);
                }
            }
            assert forall|i: int| 0 <= i < before.in_flight.len() implies
                #[trigger] before.in_flight[i] != key by {}
            assert(self@ == before.with_room().with_running(key));
        }
        Reservation::Reserved
    }

    /// Ends a request that was under way, keeping its result where one is
    /// given.
    pub fn complete(
        &mut self,
        key: [u8; 16],
        result: Option<CachedOutcome>,
    ) -> (completed: Result<(), DispatchError>)
        requires
            old(self).wf(),
            result matches Some(entry) ==> entry.key == key,
        ensures
            final(self).wf(),
            !old(self)@.runs(key) ==> {
                &&& completed == Err::<(), DispatchError>(DispatchError::Internal)
                &&& final(self)@ == old(self)@
            },
            old(self)@.runs(key) ==> {
                &&& completed == Ok::<(), DispatchError>(())
                &&& final(self)@ == (match result {
                    Some(entry) => old(self)@.without_running(key).with_cached(entry@),
                    None => old(self)@.without_running(key),
                })
            },
    {
        if self.find_running(&key).is_none() {
            return Err(DispatchError::Internal);
        }
        let ghost before = self@;
        self.abandon(key);
        proof {
            assert(!before.keeps(key)) by {
                if before.keeps(key) {
                    let i = before.place(key);
                    let j = choose|j: int|
                        0 <= j < before.in_flight.len() && #[trigger] before.in_flight[j] == key;
                    assert(before.cached[i].key != before.in_flight[j]);
                }
            }
        }
        if let Some(entry) = result {
            let ghost entry_model = entry@;
            let ghost between = self@;
            self.cached.push(entry);
            proof {
                assert(self@.cached =~= between.cached.push(entry_model));
                assert(self@ == between.with_cached(entry_model));
                lengths_after_removal(before.in_flight, key);
                assert forall|i: int| 0 <= i < between.cached.len() implies (
                #[trigger] between.cached[i]).key != key by {
                    assert(before.cached[i].key != key);
                }
            }
        }
        Ok(())
    }

    /// Ends a request that was under way without keeping anything of it.
    pub fn abandon(&mut self, key: [u8; 16])
        requires
            old(self).wf(),
        ensures
            final(self).wf(),
            final(self)@ == old(self)@.without_running(key),
            !final(self)@.runs(key),
    {
        let ghost before = self@.in_flight;
        let ghost kept = self@.cached;
        match self.find_running(&key) {
            None => {
                proof {
                    assert forall|i: int| 0 <= i < before.len() implies #[trigger] before[i]
                        != key by {}
                    removing_nothing(before, key);
                    assert(self@ == self@.without_running(key));
                }
            },
            Some(place) => {
                self.in_flight.remove(place);
                proof {
                    removing_one(before, place as int, key);
                    assert(self@.in_flight =~= before.remove(place as int));
                    assert(self@.cached =~= kept);
                    assert forall|i: int| 0 <= i < self@.in_flight.len() implies
                        #[trigger] self@.in_flight[i] != key by {
                        let j = if i < place { i } else { i + 1 };
                        assert(before[j] == self@.in_flight[i]);
                        if before[j] == before[place as int] {
                        }
                    }
                }
            },
        }
    }

    /// Gives up every kept result.
    fn forget_results(&mut self)
        ensures
            final(self)@ == (IdempotencyModel { cached: Seq::<CachedModel>::empty(), ..old(self)@ }),
    {
        while self.cached.len() > 0
            invariant
                self.authenticated_vault_id == old(self).authenticated_vault_id,
                self.in_flight == old(self).in_flight,
            decreases self.cached.len(),
        {
            if let Some(mut entry) = self.cached.pop() {
                entry.wipe();
            }
        }
        assert(self@.cached =~= Seq::<CachedModel>::empty());
    }

    /// Binds the kept results to the vault that was just created. Results of
    /// the time without a vault are given up.
    pub fn initialize_idempotency_vault(&mut self, vault_id: [u8; 16]) -> (bound: Result<
        (),
        DispatchError,
    >)
        requires
            old(self).wf(),
        ensures
            final(self).wf(),
            match old(self)@.vault_id {
                None => bound is Ok && final(self)@ == old(self)@.of_vault(vault_id),
                Some(current) => {
                    &&& final(self)@ == old(self)@
                    &&& bound == (if current == vault_id {
                        Ok::<(), DispatchError>(())
                    } else {
                        Err(DispatchError::Internal)
                    })
                },
            },
    {
        match self.authenticated_vault_id {
            Some(current) => {
                if same_array(&current, &vault_id) {
                    Ok(())
                } else {
                    Err(DispatchError::Internal)
                }
            },
            None => {
                self.forget_results();
                self.authenticated_vault_id = Some(vault_id);
                assert(self@.cached =~= Seq::<CachedModel>::empty());
                Ok(())
            },
        }
    }

    /// Binds the kept results to the vault that was just unlocked. Another
    /// vault than before takes over only while nothing is under way, and
    /// nothing of the former vault is kept.
    pub fn bind_authenticated_idempotency_vault(&mut self, vault_id: [u8; 16]) -> (bound: Result<
        (),
        DispatchError,
    >)
        requires
            old(self).wf(),
        ensures
            final(self).wf(),
            old(self)@.vault_id == Some(vault_id) ==> {
                &&& bound is Ok
                &&& final(self)@ == old(self)@
            },
            old(self)@.vault_id != Some(vault_id) && old(self)@.in_flight.len() > 0 ==> {
                &&& bound == Err::<(), DispatchError>(DispatchError::Internal)
                &&& final(self)@ == old(self)@
            },
            old(self)@.vault_id != Some(vault_id) && old(self)@.in_flight.len() == 0 ==> {
                &&& bound is Ok
                &&& final(self)@ == old(self)@.of_vault(vault_id)
            },
    {
        let same = match self.authenticated_vault_id {
            Some(current) => same_array(&current, &vault_id),
            None => false,
        };
        if same {
            return Ok(());
        }
        if self.in_flight.len() > 0 {
            return Err(DispatchError::Internal);
        }
        self.forget_results();
        self.authenticated_vault_id = Some(vault_id);
        assert(self@.cached =~= Seq::<CachedModel>::empty());
        Ok(())
    }

    /// Ends a request that was reserved and has been executed: a result that
    /// repeating it cannot change is kept under its key.
    pub fn finish_execution(
        &mut self,
        key: [u8; 16],
        request_fingerprint: [u8; 32],
        executed: Result<ExecutionOutcome, DispatchError>,
    ) -> (result: Result<ExecutionOutcome, DispatchError>)
        requires
            old(self).wf(),
            old(self)@.runs(key),
        ensures
            final(self).wf(),
            result == executed,
            final(self)@ == concluded(old(self)@, key, request_fingerprint, executed),
    {
        match executed {
            Err(error) => {
                self.abandon(key);
                Err(error)
            },
            Ok(outcome) => {
                let kept = if should_cache(&outcome.verdict) {
                    Some(
                        CachedOutcome {
                            key,
                            request_fingerprint,
                            error: outcome.verdict.error,
                            retry: outcome.verdict.retry,
                            body: copy_bytes(&outcome.body),
                        },
                    )
                } else {
                    None
                };
                match self.complete(key, kept) {
                    Ok(()) => Ok(outcome),
                    Err(error) => Err(error),
                }
            },
        }
    }
}

/// The answer to a repeated request: the kept result, unless the request is
/// not entitled to it.
pub fn finish_replay(
    replay: ExecutionOutcome,
    rejection: Result<Option<Verdict>, DispatchError>,
) -> (result: Result<ExecutionOutcome, DispatchError>)
    ensures
        match rejection {
            Err(error) => result == Err::<ExecutionOutcome, DispatchError>(error),
            Ok(None) => result == Ok::<ExecutionOutcome, DispatchError>(replay),
            Ok(Some(verdict)) => {
                &&& result is Ok
                &&& result->Ok_0.verdict == verdict
                &&& result->Ok_0.body@.len() == 0
            },
        },
{
    match rejection {
        Err(error) => {
            let _ = replay.discard(Verdict::failed());
            Err(error)
        },
        Ok(None) => Ok(replay),
        Ok(Some(verdict)) => Ok(replay.discard(verdict)),
    }
}

proof fn removing_nothing(keys: Seq<[u8; 16]>, key: [u8; 16])
    requires
        forall|i: int| 0 <= i < keys.len() ==> #[trigger] keys[i] != key,
    ensures
        without_key(keys, key) == keys,
    decreases keys.len(),
{
    reveal(Seq::filter);
    if keys.len() > 0 {
        assert(keys.last() != key);
        assert forall|i: int| 0 <= i < keys.drop_last().len() implies #[trigger] keys.drop_last()[i]
            != key by {
            assert(keys.drop_last()[i] == keys[i]);
        }
        removing_nothing(keys.drop_last(), key);
        assert(keys.drop_last().push(keys.last()) =~= keys);
    }
}

proof fn removing_one(keys: Seq<[u8; 16]>, place: int, key: [u8; 16])
    requires
        0 <= place < keys.len(),
        keys[place] == key,
        forall|i: int, j: int|
            0 <= i < keys.len() && 0 <= j < keys.len() && #[trigger] keys[i]
                == #[trigger] keys[j] ==> i == j,
    ensures
        without_key(keys, key) == keys.remove(place),
{
    let pred = is_not(key);
    let low = keys.take(place);
    let high = keys.skip(place + 1);
    assert(keys =~= low + seq![key] + high);
    Seq::filter_distributes_over_add(low + seq![key], high, pred);
    Seq::filter_distributes_over_add(low, seq![key], pred);
    assert forall|i: int| 0 <= i < low.len() implies #[trigger] low[i] != key by {
        assert(low[i] == keys[i]);
        assert(keys[i] == keys[place] ==> i == place);
    }
    assert forall|i: int| 0 <= i < high.len() implies #[trigger] high[i] != key by {
        assert(high[i] == keys[place + 1 + i]);
        assert(keys[place + 1 + i] == keys[place] ==> place + 1 + i == place);
    }
    removing_nothing(low, key);
    removing_nothing(high, key);
    assert(seq![key].filter(pred) =~= Seq::<[u8; 16]>::empty()) by {
        reveal(Seq::filter);
        reveal_with_fuel(Seq::filter, 2);
    }
    assert(low + Seq::<[u8; 16]>::empty() + high =~= keys.remove(place));
}

proof fn lengths_after_removal(keys: Seq<[u8; 16]>, key: [u8; 16])
    requires
        exists|i: int| 0 <= i < keys.len() && #[trigger] keys[i] == key,
    ensures
        without_key(keys, key).len() < keys.len(),
{
    let place = choose|i: int| 0 <= i < keys.len() && #[trigger] keys[i] == key;
    let pred = is_not(key);
    let low = keys.take(place);
    let high = keys.skip(place + 1);
    assert(keys =~= low + seq![key] + high);
    Seq::filter_distributes_over_add(low + seq![key], high, pred);
    Seq::filter_distributes_over_add(low, seq![key], pred);
    assert(seq![key].filter(pred) =~= Seq::<[u8; 16]>::empty()) by {
        reveal_with_fuel(Seq::filter, 2);
    }
    low.lemma_filter_len(pred);
    high.lemma_filter_len(pred);
}

// Laws

/// A request is not executed again once its result is kept: repeating it is
/// answered with that result, and asking for something else under its key is a
/// conflict.
pub proof fn kept_requests_are_not_executed_again(
    before: IdempotencyModel,
    key: [u8; 16],
    request_fingerprint: [u8; 32],
    outcome: ExecutionOutcome,
    repeated_fingerprint: [u8; 32],
    after: IdempotencyModel,
    told: Reservation,
)
    requires
        before.wf(),
        before.runs(key),
        should_cache(&outcome.verdict),
        reserves(
            concluded(before, key, request_fingerprint, Ok(outcome)),
            after,
            key,
            repeated_fingerprint,
            told,
        ),
    ensures
        repeated_fingerprint != request_fingerprint ==> told is Conflict,
        repeated_fingerprint == request_fingerprint ==> {
            &&& told is Replay
            &&& told->Replay_0.verdict.error == outcome.verdict.error
            &&& told->Replay_0.verdict.retry == outcome.verdict.retry
            &&& told->Replay_0.body@ == outcome.body@
        },
{
    let entry = CachedModel {
        key,
        request_fingerprint,
        error: outcome.verdict.error,
        retry: outcome.verdict.retry,
        body: outcome.body@,
    };
    assert(!before.keeps(key)) by {
        if before.keeps(key) {
            let i = before.place(key);
            let j = choose|j: int|
                0 <= j < before.in_flight.len() && #[trigger] before.in_flight[j] == key;
            assert(before.cached[i].key != before.in_flight[j]);
        }
    }
    kept_results_are_found(before, entry);
}

/// A request whose result is kept is answered with that result when it is
/// repeated.
pub proof fn kept_results_are_found(state: IdempotencyModel, entry: CachedModel)
    requires
        state.wf(),
        !state.keeps(entry.key),
    ensures
        state.without_running(entry.key).with_cached(entry).keeps(entry.key),
        ({
            let after = state.without_running(entry.key).with_cached(entry);
            after.cached[after.place(entry.key)] == entry
        }),
{
    let after = state.without_running(entry.key).with_cached(entry);
    let last = state.cached.len() as int;
    assert(after.cached[last].key == entry.key);
    let place = after.place(entry.key);
    if place != last {
        assert(state.cached[place].key == entry.key);
    }
}

/// A key whose request was given up can be reserved again.
pub proof fn abandoned_keys_can_run_again(state: IdempotencyModel, key: [u8; 16])
    requires
        state.wf(),
        state.runs(key),
    ensures
        !state.without_running(key).keeps(key),
        !state.without_running(key).runs(key),
        state.without_running(key).in_flight.len() < MAX_IDEMPOTENCY_RESULTS,
{
    let place = choose|i: int|
        0 <= i < state.in_flight.len() && #[trigger] state.in_flight[i] == key;
    removing_one(state.in_flight, place, key);
    let after = state.without_running(key);
    assert(after.in_flight == state.in_flight.remove(place));
    assert forall|i: int| 0 <= i < after.in_flight.len() implies #[trigger] after.in_flight[i]
        != key by {
        let j = if i < place { i } else { i + 1 };
        assert(state.in_flight[j] == after.in_flight[i]);
        assert(state.in_flight[j] == state.in_flight[place] ==> j == place);
    }
    assert forall|i: int| 0 <= i < after.cached.len() implies (#[trigger] after.cached[i]).key
        != key by {
        assert(state.cached[i].key != state.in_flight[place]);
    }
}

/// Making room costs at most the oldest kept result.
pub proof fn room_costs_only_the_oldest(state: IdempotencyModel, place: int)
    requires
        state.wf(),
        0 < place < state.cached.len(),
    ensures
        state.with_room().keeps(state.cached[place].key),
        state.with_room().in_flight == state.in_flight,
{
    let after = state.with_room();
    if after.cached.len() < state.cached.len() {
        assert(after.cached[place - 1] == state.cached[place]);
    } else {
        assert(after.cached[place] == state.cached[place]);
    }
}

/// No result of one vault is kept for another.
pub proof fn results_stay_with_their_vault(
    state: IdempotencyModel,
    vault_id: [u8; 16],
    key: [u8; 16],
)
    ensures
        !state.of_vault(vault_id).keeps(key),
{
}

/// A request whose key is new is executed, as long as fewer keys are under way
/// than there may be; its key is under way from then on, and no other is given
/// up.
pub proof fn new_requests_are_executed(
    before: IdempotencyModel,
    after: IdempotencyModel,
    key: [u8; 16],
    request_fingerprint: [u8; 32],
    told: Reservation,
)
    requires
        before.wf(),
        reserves(before, after, key, request_fingerprint, told),
        forall|i: int| 0 <= i < before.cached.len() ==> (#[trigger] before.cached[i]).key != key,
        forall|i: int| 0 <= i < before.in_flight.len() ==> #[trigger] before.in_flight[i] != key,
        before.in_flight.len() < 1_024,
    ensures
        told is Reserved,
        after.in_flight == before.in_flight + seq![key],
        after.vault_id == before.vault_id,
        before.cached.len() + before.in_flight.len() < 1_024 ==> after.cached == before.cached,
        before.cached.len() + before.in_flight.len() == 1_024 ==> after.cached
            == before.cached.subrange(1, before.cached.len() as int),
{
    assert(before.in_flight.push(key) =~= before.in_flight + seq![key]);
}

/// A request is told to come again exactly where its own key is under way or no
/// further key can be, and then nothing changes.
pub proof fn running_keys_are_busy(
    before: IdempotencyModel,
    after: IdempotencyModel,
    key: [u8; 16],
    request_fingerprint: [u8; 32],
    told: Reservation,
)
    requires
        before.wf(),
        reserves(before, after, key, request_fingerprint, told),
    ensures
        before.in_flight.contains(key) ==> told is Busy,
        told is Busy ==> before.in_flight.contains(key) || before.in_flight.len() == 1_024,
        told is Busy ==> after == before,
{
    if before.in_flight.contains(key) {
        let j = before.in_flight.index_of(key);
        assert(before.in_flight[j] == key);
        if before.keeps(key) {
            assert(before.cached[before.place(key)].key == before.in_flight[j]);
        }
    }
    if before.runs(key) {
        let i = choose|i: int|
            0 <= i < before.in_flight.len() && #[trigger] before.in_flight[i] == key;
        assert(before.in_flight.contains(before.in_flight[i]));
    }
}

/// The kept result of a request is given again to the same request, and withheld
/// from one that uses its key for something else.
pub proof fn kept_results_are_given_again(
    before: IdempotencyModel,
    after: IdempotencyModel,
    place: int,
    request_fingerprint: [u8; 32],
    told: Reservation,
)
    requires
        before.wf(),
        0 <= place < before.cached.len(),
        reserves(before, after, before.cached[place].key, request_fingerprint, told),
    ensures
        after == before,
        before.cached[place].request_fingerprint != request_fingerprint <==> told is Conflict,
        before.cached[place].request_fingerprint == request_fingerprint ==> {
            &&& told is Replay
            &&& told->Replay_0.body@ == before.cached[place].body
            &&& told->Replay_0.verdict.error == before.cached[place].error
            &&& told->Replay_0.verdict.retry == before.cached[place].retry
            &&& told->Replay_0.verdict.replayed
        },
{
    let key = before.cached[place].key;
    assert(before.keeps(key));
    assert(before.cached[before.place(key)].key == before.cached[place].key);
}

/// What is left of a list of keys was in it.
proof fn keys_left_were_there(keys: Seq<[u8; 16]>, key: [u8; 16], other: [u8; 16])
    requires
        without_key(keys, key).contains(other),
    ensures
        keys.contains(other),
    decreases keys.len(),
{
    reveal(Seq::filter);
    if keys.len() > 0 {
        let place = without_key(keys, key).index_of(other);
        if keys.last() == other {
            assert(keys[keys.len() - 1] == other);
        } else {
            assert(without_key(keys.drop_last(), key)[place] == other);
            keys_left_were_there(keys.drop_last(), key, other);
            assert(keys[keys.drop_last().index_of(other)] == other);
        }
    }
}

/// What an executed request leaves behind: its key is not under way any more,
/// every other key is, and its answer is the newest kept one exactly where it is
/// to be kept.
pub proof fn executed_requests_give_their_key_back(
    before: IdempotencyModel,
    key: [u8; 16],
    request_fingerprint: [u8; 32],
    executed: Result<ExecutionOutcome, DispatchError>,
    other: [u8; 16],
)
    ensures
        ({
            let after = concluded(before, key, request_fingerprint, executed);
            &&& !after.in_flight.contains(key)
            &&& other != key ==> (after.in_flight.contains(other) <==> before.in_flight.contains(
                other,
            ))
            &&& after.vault_id == before.vault_id
            &&& match executed {
                Ok(outcome) if should_cache(&outcome.verdict) => {
                    &&& after.cached.len() == before.cached.len() + 1
                    &&& after.cached.drop_last() == before.cached
                    &&& after.cached.last().key == key
                    &&& after.cached.last().request_fingerprint == request_fingerprint
                    &&& after.cached.last().error == outcome.verdict.error
                    &&& after.cached.last().retry == outcome.verdict.retry
                    &&& after.cached.last().body == outcome.body@
                },
                _ => after.cached == before.cached,
            }
        }),
{
    broadcast use vstd::seq_lib::group_filter_ensures;

    let after = concluded(before, key, request_fingerprint, executed);
    let keys = before.in_flight;
    let kept = keys.filter(is_not(key));
    if kept.contains(key) {
        let i = kept.index_of(key);
        assert(is_not(key)(kept[i]));
    }
    if other != key {
        assert(is_not(key)(other));
        if keys.contains(other) {
            assert(kept.contains(other));
        }
        if kept.contains(other) {
            keys_left_were_there(keys, key, other);
        }
    }
    if let Ok(outcome) = executed {
        if should_cache(&outcome.verdict) {
            assert(after.cached.drop_last() =~= before.cached);
        }
    }
}

} // verus!
