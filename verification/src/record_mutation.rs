//! Changing one record of a stored vault in a single transaction.

use vstd::prelude::*;

use crate::bytes::same_bytes;
use crate::errors::StorageError;
use crate::sqlite::{same_text, verify_application_schema, verify_database_integrity, SchemaRows};
use crate::vault_data::{
    apply_to_expected_records, same_records, PreparedRecordMutation, RecordMutationKind, VaultData,
};

verus! {

/// What is to be done next while a record is changed.
#[derive(Clone, Copy, Debug, PartialEq, Eq, Structural)]
pub enum MutationAction {
    /// Guard the database file, open it for writing and read its journal mode.
    OpenDatabase,
    /// Ask the database for damage.
    CheckIntegrity,
    /// Read the schema.
    InspectSchema,
    /// Compare the guarded file with what its path names.
    MatchPath,
    /// Begin a transaction and read every row.
    BeginAndRead,
    /// Insert, replace or delete the record row.
    ApplyRow,
    /// Replace the manifest row.
    UpdateManifest,
    /// Ask whoever wants the change whether it still does.
    BeforeCommit,
    /// Commit the transaction.
    Commit,
    /// Compare the guarded file with what its path names once more.
    MatchPathAgain,
    /// Read every row back.
    ReadCommitted,
    /// The change is stored, or the attempt is given up.
    Finish,
}

/// What came of the last action.
pub enum MutationEvent {
    Opened(Result<String, StorageError>),
    Integrity(Result<String, StorageError>),
    Schema(Result<SchemaRows, StorageError>),
    Matched(Result<(), StorageError>),
    Rows(Result<VaultData, StorageError>),
    Affected(Result<u64, StorageError>),
    Asked(Result<(), StorageError>),
    Committed(Result<(), StorageError>),
}

/// The action that follows one whose result is accepted.
pub open spec fn next_mutation_action(action: MutationAction) -> MutationAction {
    match action {
        MutationAction::OpenDatabase => MutationAction::CheckIntegrity,
        MutationAction::CheckIntegrity => MutationAction::InspectSchema,
        MutationAction::InspectSchema => MutationAction::MatchPath,
        MutationAction::MatchPath => MutationAction::BeginAndRead,
        MutationAction::BeginAndRead => MutationAction::ApplyRow,
        MutationAction::ApplyRow => MutationAction::UpdateManifest,
        MutationAction::UpdateManifest => MutationAction::BeforeCommit,
        MutationAction::BeforeCommit => MutationAction::Commit,
        MutationAction::Commit => MutationAction::MatchPathAgain,
        MutationAction::MatchPathAgain => MutationAction::ReadCommitted,
        MutationAction::ReadCommitted => MutationAction::Finish,
        MutationAction::Finish => MutationAction::Finish,
    }
}

/// One attempt to change a record, at the action that it waits for.
pub struct RecordMutationFlow {
    pub waits_for: MutationAction,
    /// The rows that the change was prepared on.
    pub expected: VaultData,
    pub mutation: PreparedRecordMutation,
    /// The transaction was committed.
    pub committed: bool,
    pub failure: Option<StorageError>,
}

/// Whether rows are those that a change to other rows must leave behind.
pub open spec fn rows_after(
    committed: VaultData,
    expected: VaultData,
    mutation: PreparedRecordMutation,
) -> Option<StorageError> {
    match crate::vault_data::changed_records(
        expected@.records,
        mutation.kind,
        mutation.id@,
        crate::bytes::bytes_view(mutation.envelope),
    ) {
        Err(error) => Some(error),
        Ok(changed) => if committed@.header == expected@.header && committed@.manifest
            == mutation.manifest_envelope@ && crate::vault_data::is_ordering_of(
            committed@.records,
            changed,
        ) {
            None
        } else {
            Some(StorageError::Integrity)
        },
    }
}

impl RecordMutationFlow {
    pub open spec fn wf(&self) -> bool {
        &&& self.failure is Some ==> self.waits_for is Finish
        &&& self.committed ==> self.waits_for is MatchPathAgain || self.waits_for is ReadCommitted
            || self.waits_for is Finish
        &&& self.waits_for is MatchPathAgain || self.waits_for is ReadCommitted || (self.waits_for
            is Finish && self.failure is None) ==> self.committed
    }

    /// What the result of the awaited action has against the change.
    pub open spec fn judge(&self, event: MutationEvent) -> Option<StorageError> {
        match (self.waits_for, event) {
            (MutationAction::OpenDatabase, MutationEvent::Opened(result)) => match result {
                Err(error) => Some(error),
                Ok(journal_mode) => if journal_mode@ == "wal"@ {
                    None
                } else {
                    Some(StorageError::Schema)
                },
            },
            (MutationAction::CheckIntegrity, MutationEvent::Integrity(result)) => {
                crate::vault_rows::integrity_error(result)
            },
            (MutationAction::InspectSchema, MutationEvent::Schema(result)) => {
                crate::vault_rows::schema_error(result)
            },
            (MutationAction::MatchPath, MutationEvent::Matched(result)) => {
                crate::vault_rows::error_of(result)
            },
            (MutationAction::BeginAndRead, MutationEvent::Rows(result)) => match result {
                Err(error) => Some(error),
                Ok(current) => if current@ != self.expected@ {
                    Some(StorageError::Conflict)
                } else if !(self.mutation.kind is Delete) && self.mutation.envelope is None {
                    Some(StorageError::Schema)
                } else {
                    None
                },
            },
            (MutationAction::ApplyRow, MutationEvent::Affected(result)) => match result {
                Err(error) => Some(error),
                Ok(rows) => if rows == 1 {
                    None
                } else {
                    Some(StorageError::Conflict)
                },
            },
            (MutationAction::UpdateManifest, MutationEvent::Affected(result)) => match result {
                Err(error) => Some(error),
                Ok(rows) => if rows == 1 {
                    None
                } else {
                    Some(StorageError::Schema)
                },
            },
            (MutationAction::BeforeCommit, MutationEvent::Asked(result)) => {
                crate::vault_rows::error_of(result)
            },
            (MutationAction::Commit, MutationEvent::Committed(result)) => {
                crate::vault_rows::error_of(result)
            },
            (MutationAction::MatchPathAgain, MutationEvent::Matched(result)) => {
                crate::vault_rows::error_of(result)
            },
            (MutationAction::ReadCommitted, MutationEvent::Rows(result)) => match result {
                Err(error) => Some(error),
                Ok(committed) => rows_after(committed, self.expected, self.mutation),
            },
            _ => Some(StorageError::Sqlite),
        }
    }

    /// A change to rows that were read before.
    pub fn apply_record_mutation(
        expected: VaultData,
        mutation: PreparedRecordMutation,
    ) -> (flow: RecordMutationFlow)
        ensures
            flow.wf(),
            flow.waits_for is OpenDatabase,
            flow.expected == expected,
            flow.mutation == mutation,
            !flow.committed,
            flow.failure is None,
    {
        RecordMutationFlow {
            waits_for: MutationAction::OpenDatabase,
            expected,
            mutation,
            committed: false,
            failure: None,
        }
    }

    /// What comes of the awaited action: the change goes on, or it is given up.
    pub open spec fn steps_to(&self, event: MutationEvent, after: &RecordMutationFlow) -> bool {
        &&& after.expected == self.expected
        &&& after.mutation == self.mutation
        &&& if self.waits_for is Finish {
            *after == *self
        } else {
            match self.judge(event) {
                Some(error) => {
                    &&& after.failure == Some(error)
                    &&& after.waits_for is Finish
                    &&& after.committed == self.committed
                },
                None => {
                    &&& after.failure is None
                    &&& after.waits_for == next_mutation_action(self.waits_for)
                    &&& after.committed == (self.committed || self.waits_for is Commit)
                },
            }
        }
    }

    /// Takes in what came of the last action and gives the next one.
    pub fn step(&mut self, event: MutationEvent) -> (action: MutationAction)
        requires
            old(self).wf(),
        ensures
            final(self).wf(),
            action == final(self).waits_for,
            old(self).steps_to(event, final(self)),
    {
        if let MutationAction::Finish = self.waits_for {
            return self.waits_for;
        }
        let judged = self.decide(event);
        match judged {
            Ok(next) => {
                if let MutationAction::Commit = self.waits_for {
                    self.committed = true;
                }
                self.waits_for = next;
            },
            Err(error) => {
                self.failure = Some(error);
                self.waits_for = MutationAction::Finish;
            },
        }
        self.waits_for
    }

    fn decide(&self, event: MutationEvent) -> (decided: Result<MutationAction, StorageError>)
        requires
            !(self.waits_for is Finish),
        ensures
            match self.judge(event) {
                Some(error) => decided == Err::<MutationAction, StorageError>(error),
                None => decided == Ok::<MutationAction, StorageError>(
                    next_mutation_action(self.waits_for),
                ),
            },
    {
        match (self.waits_for, event) {
            (MutationAction::OpenDatabase, MutationEvent::Opened(result)) => match result {
                Err(error) => Err(error),
                Ok(journal_mode) => if same_text(journal_mode.as_str(), "wal") {
                    Ok(MutationAction::CheckIntegrity)
                } else {
                    Err(StorageError::Schema)
                },
            },
            (MutationAction::CheckIntegrity, MutationEvent::Integrity(result)) => match result {
                Err(error) => Err(error),
                Ok(status) => match verify_database_integrity(status.as_str()) {
                    Ok(()) => Ok(MutationAction::InspectSchema),
                    Err(error) => Err(error),
                },
            },
            (MutationAction::InspectSchema, MutationEvent::Schema(result)) => match result {
                Err(error) => Err(error),
                Ok(schema) => match verify_application_schema(&schema) {
                    Ok(()) => Ok(MutationAction::MatchPath),
                    Err(error) => Err(error),
                },
            },
            (MutationAction::MatchPath, MutationEvent::Matched(result)) => match result {
                Err(error) => Err(error),
                Ok(()) => Ok(MutationAction::BeginAndRead),
            },
            (MutationAction::BeginAndRead, MutationEvent::Rows(result)) => match result {
                Err(error) => Err(error),
                Ok(current) => if !current.same(&self.expected) {
                    Err(StorageError::Conflict)
                } else {
                    match self.mutation.kind {
                        RecordMutationKind::Delete => Ok(MutationAction::ApplyRow),
                        _ => if self.mutation.envelope.is_none() {
                            Err(StorageError::Schema)
                        } else {
                            Ok(MutationAction::ApplyRow)
                        },
                    }
                },
            },
            (MutationAction::ApplyRow, MutationEvent::Affected(result)) => match result {
                Err(error) => Err(error),
                Ok(rows) => if rows == 1 {
                    Ok(MutationAction::UpdateManifest)
                } else {
                    Err(StorageError::Conflict)
                },
            },
            (MutationAction::UpdateManifest, MutationEvent::Affected(result)) => match result {
                Err(error) => Err(error),
                Ok(rows) => if rows == 1 {
                    Ok(MutationAction::BeforeCommit)
                } else {
                    Err(StorageError::Schema)
                },
            },
            (MutationAction::BeforeCommit, MutationEvent::Asked(result)) => match result {
                Err(error) => Err(error),
                Ok(()) => Ok(MutationAction::Commit),
            },
            (MutationAction::Commit, MutationEvent::Committed(result)) => match result {
                Err(error) => Err(error),
                Ok(()) => Ok(MutationAction::MatchPathAgain),
            },
            (MutationAction::MatchPathAgain, MutationEvent::Matched(result)) => match result {
                Err(error) => Err(error),
                Ok(()) => Ok(MutationAction::ReadCommitted),
            },
            (MutationAction::ReadCommitted, MutationEvent::Rows(result)) => match result {
                Err(error) => Err(error),
                Ok(committed) => self.accept_committed(&committed),
            },
            _ => Err(StorageError::Sqlite),
        }
    }

    fn accept_committed(&self, committed: &VaultData) -> (decided: Result<
        MutationAction,
        StorageError,
    >)
        ensures
            match rows_after(*committed, self.expected, self.mutation) {
                Some(error) => decided == Err::<MutationAction, StorageError>(error),
                None => decided == Ok::<MutationAction, StorageError>(MutationAction::Finish),
            },
    {
        let records = match apply_to_expected_records(&self.expected.records, &self.mutation) {
            Ok(records) => records,
            Err(error) => {
                return Err(error);
            },
        };
        proof {
            let changed = crate::vault_data::changed_records(
                self.expected@.records,
                self.mutation.kind,
                self.mutation.id@,
                crate::bytes::bytes_view(self.mutation.envelope),
            )->Ok_0;
            let ordered = crate::vault_data::records_model(records@);
            if crate::vault_data::is_ordering_of(committed@.records, changed) {
                assert forall|id: [u8; 16]| #[trigger]
                    crate::vault_data::named(committed@.records, id) == crate::vault_data::named(
                        ordered,
                        id,
                    ) by {
                    assert(crate::vault_data::named(ordered, id) == crate::vault_data::named(
                        changed,
                        id,
                    ));
                }
                crate::vault_data::ordering_is_unique(committed@.records, ordered);
            }
        }
        if same_bytes(&committed.header, &self.expected.header) && same_bytes(
            &committed.manifest,
            &self.mutation.manifest_envelope,
        ) && same_records(&committed.records, &records) {
            Ok(MutationAction::Finish)
        } else {
            Err(StorageError::Integrity)
        }
    }

    /// Whether the change is stored, or why the attempt was given up.
    pub fn finish(&self) -> (result: Result<(), StorageError>)
        requires
            self.wf(),
            self.waits_for is Finish,
        ensures
            match self.failure {
                Some(error) => result == Err::<(), StorageError>(error),
                None => result == Ok::<(), StorageError>(()) && self.committed,
            },
    {
        match self.failure {
            Some(error) => Err(error),
            None => Ok(()),
        }
    }
}

// Laws

/// A change from its first step on: the attempt before each event, and the
/// attempt after the last one.
pub open spec fn is_mutation_run(
    flows: Seq<RecordMutationFlow>,
    events: Seq<MutationEvent>,
) -> bool {
    &&& flows.len() == events.len() + 1
    &&& flows[0].waits_for is OpenDatabase
    &&& !flows[0].committed
    &&& flows[0].failure is None
    &&& forall|i: int|
        0 <= i < events.len() ==> (#[trigger] flows[i]).steps_to(events[i], &flows[i + 1])
}

/// Whether the result of an action was accepted before a place of a run.
pub open spec fn accepted_before(
    flows: Seq<RecordMutationFlow>,
    events: Seq<MutationEvent>,
    action: MutationAction,
    place: int,
) -> bool {
    exists|i: int|
        0 <= i < place && (#[trigger] flows[i]).waits_for == action && flows[i].judge(events[i])
            is None
}

/// How many actions come before one.
pub open spec fn mutation_rank(action: MutationAction) -> int {
    match action {
        MutationAction::OpenDatabase => 0,
        MutationAction::CheckIntegrity => 1,
        MutationAction::InspectSchema => 2,
        MutationAction::MatchPath => 3,
        MutationAction::BeginAndRead => 4,
        MutationAction::ApplyRow => 5,
        MutationAction::UpdateManifest => 6,
        MutationAction::BeforeCommit => 7,
        MutationAction::Commit => 8,
        MutationAction::MatchPathAgain => 9,
        MutationAction::ReadCommitted => 10,
        MutationAction::Finish => 11,
    }
}

proof fn runs_accept_in_order(
    flows: Seq<RecordMutationFlow>,
    events: Seq<MutationEvent>,
    action: MutationAction,
    place: int,
)
    requires
        is_mutation_run(flows, events),
        0 <= place <= events.len(),
        !(action is Finish),
    ensures
        flows[place].failure is Some ==> flows[place].waits_for is Finish,
        flows[place].failure is None && mutation_rank(action) < mutation_rank(
            flows[place].waits_for,
        ) ==> accepted_before(flows, events, action, place),
        flows[place].committed && mutation_rank(action) <= mutation_rank(MutationAction::Commit)
            ==> accepted_before(flows, events, action, place),
    decreases place,
{
    if place > 0 {
        runs_accept_in_order(flows, events, action, place - 1);
        let before = flows[place - 1];
        assert(before.steps_to(events[place - 1], &flows[place]));
        if accepted_before(flows, events, action, place - 1) {
            let i = choose|i: int|
                0 <= i < place - 1 && (#[trigger] flows[i]).waits_for == action && flows[i].judge(
                    events[i],
                ) is None;
            assert(flows[i].waits_for == action);
        }
    }
}

/// A change is committed only after whoever wants it was asked inside the
/// commit section and still wanted it, and only on rows that are those it was
/// prepared on.
pub proof fn commits_were_asked_for(
    flows: Seq<RecordMutationFlow>,
    events: Seq<MutationEvent>,
)
    requires
        is_mutation_run(flows, events),
        flows.last().committed,
    ensures
        accepted_before(flows, events, MutationAction::BeginAndRead, events.len() as int),
        accepted_before(flows, events, MutationAction::BeforeCommit, events.len() as int),
        accepted_before(flows, events, MutationAction::Commit, events.len() as int),
{
    let place = events.len() as int;
    runs_accept_in_order(flows, events, MutationAction::BeginAndRead, place);
    runs_accept_in_order(flows, events, MutationAction::BeforeCommit, place);
    runs_accept_in_order(flows, events, MutationAction::Commit, place);
}

/// A change that is reported as stored passed every check: it was committed,
/// and the database was read back with exactly the rows that it must leave.
pub proof fn stored_changes_passed_every_check(
    flows: Seq<RecordMutationFlow>,
    events: Seq<MutationEvent>,
    action: MutationAction,
)
    requires
        is_mutation_run(flows, events),
        flows.last().waits_for is Finish,
        flows.last().failure is None,
        !(action is Finish),
    ensures
        accepted_before(flows, events, action, events.len() as int),
{
    runs_accept_in_order(flows, events, action, events.len() as int);
}

/// A change is stored exactly where all of this is so, in this order: the
/// database opens with its log, is undamaged and has the schema of a vault, its
/// file is the one that the path names, its rows are those that the change was
/// prepared on, one record row and one manifest row change, the change is still
/// wanted, the transaction is committed, the file is still the one that the path
/// names, and the rows that are read back are those of the change.
pub proof fn changes_that_go_well_are_stored(
    flows: Seq<RecordMutationFlow>,
    events: Seq<MutationEvent>,
)
    requires
        is_mutation_run(flows, events),
        events.len() == 11,
    ensures
        flows.last().waits_for is Finish,
        flows.last().failure is None <==> {
            let expected = flows[0].expected;
            let mutation = flows[0].mutation;
            &&& events[0] matches MutationEvent::Opened(Ok(journal)) && journal@ == "wal"@
            &&& events[1] matches MutationEvent::Integrity(Ok(status)) && status@ == "ok"@
            &&& events[2] matches MutationEvent::Schema(Ok(schema))
                && crate::sqlite::is_vault_schema(schema)
            &&& events[3] matches MutationEvent::Matched(Ok(_))
            &&& events[4] matches MutationEvent::Rows(Ok(current)) && current.header@
                == expected.header@ && current.manifest@ == expected.manifest@
                && crate::vault_data::records_model(current.records@)
                == crate::vault_data::records_model(expected.records@)
            &&& mutation.kind == RecordMutationKind::Delete || mutation.envelope is Some
            &&& events[5] matches MutationEvent::Affected(Ok(rows)) && rows == 1
            &&& events[6] matches MutationEvent::Affected(Ok(rows)) && rows == 1
            &&& events[7] matches MutationEvent::Asked(Ok(_))
            &&& events[8] matches MutationEvent::Committed(Ok(_))
            &&& events[9] matches MutationEvent::Matched(Ok(_))
            &&& events[10] matches MutationEvent::Rows(Ok(stored)) && rows_after(
                stored,
                expected,
                mutation,
            ) is None
        },
        flows.last().failure is None ==> flows.last().committed,
{
    assert(flows[0].steps_to(events[0], &flows[1]));
    assert(flows[1].failure is Some && flows[1].waits_for is Finish || flows[1].failure is None
        && flows[1].waits_for is CheckIntegrity);
    assert(flows[1].steps_to(events[1], &flows[2]));
    assert(flows[2].failure is Some && flows[2].waits_for is Finish || flows[2].failure is None
        && flows[2].waits_for is InspectSchema);
    assert(flows[2].steps_to(events[2], &flows[3]));
    assert(flows[3].failure is Some && flows[3].waits_for is Finish || flows[3].failure is None
        && flows[3].waits_for is MatchPath);
    assert(flows[3].steps_to(events[3], &flows[4]));
    assert(flows[4].failure is Some && flows[4].waits_for is Finish || flows[4].failure is None
        && flows[4].waits_for is BeginAndRead);
    assert(flows[4].steps_to(events[4], &flows[5]));
    assert(flows[5].failure is Some && flows[5].waits_for is Finish || flows[5].failure is None
        && flows[5].waits_for is ApplyRow);
    assert(flows[5].steps_to(events[5], &flows[6]));
    assert(flows[6].failure is Some && flows[6].waits_for is Finish || flows[6].failure is None
        && flows[6].waits_for is UpdateManifest);
    assert(flows[6].steps_to(events[6], &flows[7]));
    assert(flows[7].failure is Some && flows[7].waits_for is Finish || flows[7].failure is None
        && flows[7].waits_for is BeforeCommit);
    assert(flows[7].steps_to(events[7], &flows[8]));
    assert(flows[8].failure is Some && flows[8].waits_for is Finish || flows[8].failure is None
        && flows[8].waits_for is Commit);
    assert(flows[8].steps_to(events[8], &flows[9]));
    assert(flows[9].failure is Some && flows[9].waits_for is Finish || flows[9].failure is None
        && flows[9].waits_for is MatchPathAgain);
    assert(flows[9].steps_to(events[9], &flows[10]));
    assert(flows[10].failure is Some && flows[10].waits_for is Finish || flows[10].failure is None
        && flows[10].waits_for is ReadCommitted);
    assert(flows[10].steps_to(events[10], &flows[11]));
    assert(flows[11].failure is Some && flows[11].waits_for is Finish || flows[11].failure is None
        && flows[11].waits_for is Finish);
}

/// The rows that a change leaves behind differ from those before it in what was
/// changed alone: the header stays, the manifest is the one of the change, the
/// changed record says what the change said, or is gone, and every other record
/// stands as before.
pub proof fn stored_rows_differ_by_the_change(
    stored: VaultData,
    expected: VaultData,
    mutation: PreparedRecordMutation,
    record: crate::vault_data::RecordModel,
)
    requires
        rows_after(stored, expected, mutation) is None,
        crate::vault_data::names_are_distinct(expected@.records),
        mutation.kind == RecordMutationKind::Insert ==> !crate::vault_data::names(
            expected@.records,
            mutation.id@,
        ),
    ensures
        stored.header@ == expected.header@,
        stored.manifest@ == mutation.manifest_envelope@,
        record.id != mutation.id@ ==> (stored@.records.contains(record)
            <==> expected@.records.contains(record)),
        record.id == mutation.id@ ==> (stored@.records.contains(record) <==> mutation.kind
            != RecordMutationKind::Delete && mutation.envelope is Some && record.envelope
            == mutation.envelope->Some_0@),
        mutation.kind != RecordMutationKind::Insert ==> crate::vault_data::names(
            expected@.records,
            mutation.id@,
        ),
        forall|i: int, j: int|
            0 <= i < j < stored@.records.len() ==> crate::vault_data::number(
                #[trigger] stored@.records[i].id@,
            ) <= crate::vault_data::number(#[trigger] stored@.records[j].id@),
{
    let changed = crate::vault_data::changed_records(
        expected@.records,
        mutation.kind,
        mutation.id@,
        crate::bytes::bytes_view(mutation.envelope),
    )->Ok_0;
    crate::vault_data::orderings_hold_the_same(stored@.records, changed, record);
    crate::vault_data::changes_change_one_record(
        expected@.records,
        mutation.kind,
        mutation.id@,
        crate::bytes::bytes_view(mutation.envelope),
        record,
    );
    assert forall|i: int, j: int| 0 <= i < j < stored@.records.len() implies
        crate::vault_data::number(#[trigger] stored@.records[i].id@)
        <= crate::vault_data::number(#[trigger] stored@.records[j].id@) by {
        crate::vault_data::names_are_ordered_as_their_numbers(
            stored@.records[j].id,
            stored@.records[i].id,
        );
    }
}

/// A change that is given up says why: what the platform or the core reported is
/// reported on; rows that are not those the change was prepared on, and a record
/// that is not there once, are a conflict; a database with another journal, or
/// without its one manifest, has another schema; damage, and rows that are not
/// those of the change, are a matter of integrity.
pub proof fn given_up_changes_say_why(flow: RecordMutationFlow, event: MutationEvent)
    ensures
        event matches MutationEvent::Opened(Err(error)) ==> (flow.waits_for is OpenDatabase
            ==> flow.judge(event) == Some(error)),
        event matches MutationEvent::Matched(Err(error)) ==> (flow.waits_for is MatchPath
            || flow.waits_for is MatchPathAgain ==> flow.judge(event) == Some(error)),
        event matches MutationEvent::Rows(Err(error)) ==> (flow.waits_for is BeginAndRead
            || flow.waits_for is ReadCommitted ==> flow.judge(event) == Some(error)),
        event matches MutationEvent::Affected(Err(error)) ==> (flow.waits_for is ApplyRow
            || flow.waits_for is UpdateManifest ==> flow.judge(event) == Some(error)),
        event matches MutationEvent::Asked(Err(error)) ==> (flow.waits_for is BeforeCommit
            ==> flow.judge(event) == Some(error)),
        event matches MutationEvent::Committed(Err(error)) ==> (flow.waits_for is Commit
            ==> flow.judge(event) == Some(error)),
        event matches MutationEvent::Opened(Ok(_)) ==> (flow.waits_for is OpenDatabase ==> (
        flow.judge(event) matches Some(error) ==> error == StorageError::Schema)),
        event matches MutationEvent::Integrity(Ok(_)) ==> (flow.waits_for is CheckIntegrity ==> (
        flow.judge(event) matches Some(error) ==> error == StorageError::Integrity)),
        event matches MutationEvent::Schema(Ok(_)) ==> (flow.waits_for is InspectSchema ==> (
        flow.judge(event) matches Some(error) ==> error == StorageError::Schema)),
        event matches MutationEvent::Rows(Ok(current)) ==> (flow.waits_for is BeginAndRead ==> (
        flow.judge(event) == Some(StorageError::Conflict) <==> current@ != flow.expected@)),
        event matches MutationEvent::Affected(Ok(rows)) ==> (flow.waits_for is ApplyRow ==> (
        flow.judge(event) == Some(StorageError::Conflict) <==> rows != 1)),
        event matches MutationEvent::Affected(Ok(rows)) ==> (flow.waits_for is UpdateManifest ==> (
        flow.judge(event) == Some(StorageError::Schema) <==> rows != 1)),
        event matches MutationEvent::Rows(Ok(stored)) ==> (flow.waits_for is ReadCommitted && (
        stored@.header != flow.expected@.header || stored@.manifest
            != flow.mutation.manifest_envelope@) && flow.mutation.kind is Insert
            && flow.mutation.envelope is Some ==> flow.judge(event) == Some(
            StorageError::Integrity,
        )),
{
}

} // verus!
