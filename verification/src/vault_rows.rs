//! Reading a vault from its database.
//!
//! The read goes through a fixed list of steps. The database work of a step is
//! done by the caller; whether its result is accepted is decided here. The first
//! result that is not accepted ends the attempt with its error.

use vstd::prelude::*;

use crate::bytes::copy_bytes;
use crate::errors::StorageError;
use crate::sqlite::{
    validate_wal_database_header, verify_application_schema, verify_database_integrity,
    FormatLimits, SchemaRows,
};
use crate::vault_data::{EncryptedRecord, RecordId, VaultData};

verus! {

/// The rows of which a vault has one each, and how many of each there are.
pub struct SingletonRows {
    pub header: Vec<u8>,
    pub manifest: Vec<u8>,
    pub header_count: i64,
    pub manifest_count: i64,
    pub record_count: i64,
}

/// One row of the record table.
pub struct RawRecord {
    pub record_id: Vec<u8>,
    pub envelope: Vec<u8>,
}

/// What is wrong with the singleton rows.
pub open spec fn singleton_error(rows: SingletonRows, limits: FormatLimits) -> Option<
    StorageError,
> {
    if rows.header@.len() > limits.max_header_bytes || rows.manifest@.len()
        > limits.max_manifest_envelope_bytes {
        Some(StorageError::ResourceLimit)
    } else if rows.header_count != 1 || rows.manifest_count != 1 || rows.record_count < 0 {
        Some(StorageError::Schema)
    } else if rows.record_count > usize::MAX {
        Some(StorageError::ResourceLimit)
    } else if rows.record_count > limits.max_records {
        Some(StorageError::Schema)
    } else {
        None
    }
}

/// Accepts singleton rows within the limits of the format, each there once.
pub fn accept_singletons(
    rows: &SingletonRows,
    limits: FormatLimits,
) -> (accepted: Result<(), StorageError>)
    ensures
        accepted == (match singleton_error(*rows, limits) {
            Some(error) => Err::<(), StorageError>(error),
            None => Ok(()),
        }),
{
    if rows.header.len() > limits.max_header_bytes || rows.manifest.len()
        > limits.max_manifest_envelope_bytes {
        return Err(StorageError::ResourceLimit);
    }
    if rows.header_count != 1 || rows.manifest_count != 1 || rows.record_count < 0 {
        return Err(StorageError::Schema);
    }
    if rows.record_count as u64 > usize::MAX as u64 {
        return Err(StorageError::ResourceLimit);
    }
    if rows.record_count as usize > limits.max_records {
        return Err(StorageError::Schema);
    }
    Ok(())
}

/// What is wrong with the record row at a place.
pub open spec fn row_error(row: RawRecord, place: int, limits: FormatLimits) -> Option<
    StorageError,
> {
    if place >= limits.max_records || row.envelope@.len() > limits.max_record_envelope_bytes {
        Some(StorageError::ResourceLimit)
    } else if row.record_id@.len() != 16 {
        Some(StorageError::Schema)
    } else {
        None
    }
}

/// What is wrong with the first record row that has something wrong with it.
pub open spec fn rows_error(rows: Seq<RawRecord>, limits: FormatLimits) -> Option<StorageError>
    decreases rows.len(),
{
    if rows.len() == 0 {
        None
    } else {
        match rows_error(rows.drop_last(), limits) {
            Some(error) => Some(error),
            None => row_error(rows.last(), rows.len() - 1, limits),
        }
    }
}

/// Whether records say what rows hold.
pub open spec fn records_hold_rows(
    records: Seq<EncryptedRecord>,
    rows: Seq<RawRecord>,
) -> bool {
    &&& records.len() == rows.len()
    &&& forall|i: int|
        0 <= i < records.len() ==> (#[trigger] records[i]).id@@ == rows[i].record_id@
            && records[i].envelope@ == rows[i].envelope@
}

proof fn earlier_error_stays(rows: Seq<RawRecord>, place: int, limits: FormatLimits)
    requires
        0 <= place < rows.len(),
        rows_error(rows.take(place), limits) is None,
        row_error(rows[place], place, limits) is Some,
    ensures
        rows_error(rows, limits) == row_error(rows[place], place, limits),
    decreases rows.len(),
{
    if place == rows.len() - 1 {
        assert(rows.take(place) =~= rows.drop_last());
    } else {
        assert(rows.drop_last().take(place) =~= rows.take(place));
        earlier_error_stays(rows.drop_last(), place, limits);
    }
}

/// The records that rows hold, if all of them are within the limits of the
/// format and named by sixteen bytes.
pub fn read_encrypted_records(
    rows: &Vec<RawRecord>,
    limits: FormatLimits,
) -> (read: Result<Vec<EncryptedRecord>, StorageError>)
    ensures
        match rows_error(rows@, limits) {
            Some(error) => read == Err::<Vec<EncryptedRecord>, StorageError>(error),
            None => read is Ok && records_hold_rows(read->Ok_0@, rows@),
        },
{
    let mut records: Vec<EncryptedRecord> = Vec::new();
    let mut index: usize = 0;
    assert(rows@.take(0) =~= Seq::<RawRecord>::empty());
    while index < rows.len()
        invariant
            index <= rows.len(),
            rows_error(rows@.take(index as int), limits) is None,
            records_hold_rows(records@, rows@.take(index as int)),
        decreases rows.len() - index,
    {
        let row = &rows[index];
        proof {
            assert(rows@.take(index + 1).drop_last() =~= rows@.take(index as int));
            assert(rows@.take(index + 1).last() == rows@[index as int]);
        }
        if index >= limits.max_records || row.envelope.len() > limits.max_record_envelope_bytes {
            proof {
                earlier_error_stays(rows@, index as int, limits);
            }
            return Err(StorageError::ResourceLimit);
        }
        if row.record_id.len() != 16 {
            proof {
                earlier_error_stays(rows@, index as int, limits);
            }
            return Err(StorageError::Schema);
        }
        let id = record_id_of(&row.record_id);
        let envelope = copy_bytes(&row.envelope);
        records.push(EncryptedRecord { id, envelope });
        index += 1;
        proof {
            let taken = rows@.take(index as int);
            assert forall|i: int| 0 <= i < records@.len() implies (#[trigger] records@[i]).id@@
                == taken[i].record_id@ && records@[i].envelope@ == taken[i].envelope@ by {
                if i < index - 1 {
                    assert(rows@.take(index - 1)[i] == taken[i]);
                }
            }
        }
    }
    assert(rows@.take(index as int) =~= rows@);
    Ok(records)
}

fn record_id_of(bytes: &Vec<u8>) -> (id: RecordId)
    requires
        bytes@.len() == 16,
    ensures
        id@@ == bytes@,
{
    let mut name: [u8; 16] = [0u8; 16];
    let mut index: usize = 0;
    while index < 16
        invariant
            index <= 16,
            bytes@.len() == 16,
            forall|i: int| 0 <= i < index ==> name[i] == bytes[i],
        decreases 16 - index,
    {
        name[index] = bytes[index];
        index += 1;
    }
    assert(name@ =~= bytes@);
    RecordId::from_bytes(name)
}

// Reading

/// What is to be done next while a vault is read.
#[derive(Clone, Copy, Debug, PartialEq, Eq, Structural)]
pub enum ReadAction {
    /// Compare sizes and names of the database files with the limits and the
    /// paths.
    CheckInputs,
    /// Read the first bytes of the database file.
    ReadDatabaseHeader,
    /// Copy the database files and open the copy for reading.
    OpenDatabase,
    /// Compare sizes and names once more.
    RecheckInputs,
    /// Ask the database for damage.
    CheckIntegrity,
    /// Read the schema.
    InspectSchema,
    /// Read the rows that are there once, and the number of records.
    ReadSingletons,
    /// Read the record rows.
    ReadRecords,
    /// Compare sizes and names a last time.
    RecheckInputsLast,
    /// The vault was read, or was not.
    Finish,
}

/// What came of the last action.
pub enum ReadEvent {
    Checked(Result<(), StorageError>),
    DatabaseHeader(Option<[u8; 20]>),
    Opened(Result<(), StorageError>),
    Integrity(Result<String, StorageError>),
    Schema(Result<SchemaRows, StorageError>),
    Singletons(Result<SingletonRows, StorageError>),
    Records(Result<Vec<RawRecord>, StorageError>),
}

/// The action that follows one whose result is accepted.
pub open spec fn next_read_action(action: ReadAction) -> ReadAction {
    match action {
        ReadAction::CheckInputs => ReadAction::ReadDatabaseHeader,
        ReadAction::ReadDatabaseHeader => ReadAction::OpenDatabase,
        ReadAction::OpenDatabase => ReadAction::RecheckInputs,
        ReadAction::RecheckInputs => ReadAction::CheckIntegrity,
        ReadAction::CheckIntegrity => ReadAction::InspectSchema,
        ReadAction::InspectSchema => ReadAction::ReadSingletons,
        ReadAction::ReadSingletons => ReadAction::ReadRecords,
        ReadAction::ReadRecords => ReadAction::RecheckInputsLast,
        ReadAction::RecheckInputsLast => ReadAction::Finish,
        ReadAction::Finish => ReadAction::Finish,
    }
}

/// One attempt to read a vault, at the action that it waits for.
pub struct VaultReadFlow {
    pub waits_for: ReadAction,
    pub singletons: Option<SingletonRows>,
    pub records: Option<Vec<EncryptedRecord>>,
    pub failure: Option<StorageError>,
}

impl VaultReadFlow {
    pub open spec fn wf(&self) -> bool {
        &&& self.failure is Some ==> self.waits_for is Finish
        &&& self.failure is None && (self.waits_for is ReadRecords || self.waits_for
            is RecheckInputsLast || self.waits_for is Finish) ==> self.singletons is Some
        &&& self.failure is None && (self.waits_for is RecheckInputsLast || self.waits_for
            is Finish) ==> self.records is Some
    }

    /// What the result of the awaited action has against the database.
    pub open spec fn judge(&self, event: ReadEvent, limits: FormatLimits) -> Option<
        StorageError,
    > {
        match (self.waits_for, event) {
            (ReadAction::CheckInputs, ReadEvent::Checked(result)) => error_of(result),
            (ReadAction::RecheckInputs, ReadEvent::Checked(result)) => error_of(result),
            (ReadAction::RecheckInputsLast, ReadEvent::Checked(result)) => error_of(result),
            (ReadAction::ReadDatabaseHeader, ReadEvent::DatabaseHeader(header)) => match header {
                None => Some(StorageError::Filesystem),
                Some(header) => if crate::sqlite::is_wal_header(header@) {
                    None
                } else {
                    Some(StorageError::InvalidDatabaseHeader)
                },
            },
            (ReadAction::OpenDatabase, ReadEvent::Opened(result)) => error_of(result),
            (ReadAction::CheckIntegrity, ReadEvent::Integrity(result)) => integrity_error(result),
            (ReadAction::InspectSchema, ReadEvent::Schema(result)) => schema_error(result),
            (ReadAction::ReadSingletons, ReadEvent::Singletons(result)) => match result {
                Err(error) => Some(error),
                Ok(rows) => singleton_error(rows, limits),
            },
            (ReadAction::ReadRecords, ReadEvent::Records(result)) => match result {
                Err(error) => Some(error),
                Ok(rows) => match rows_error(rows@, limits) {
                    Some(error) => Some(error),
                    None => if rows@.len() == self.singletons->Some_0.record_count {
                        None
                    } else {
                        Some(StorageError::Schema)
                    },
                },
            },
            _ => Some(StorageError::Sqlite),
        }
    }

    pub fn new() -> (flow: VaultReadFlow)
        ensures
            flow.wf(),
            flow.waits_for is CheckInputs,
            flow.singletons is None,
            flow.records is None,
            flow.failure is None,
    {
        VaultReadFlow {
            waits_for: ReadAction::CheckInputs,
            singletons: None,
            records: None,
            failure: None,
        }
    }

    /// What comes of the awaited action: reading goes on, or it is given up.
    pub open spec fn steps_to(
        &self,
        event: ReadEvent,
        limits: FormatLimits,
        after: &VaultReadFlow,
    ) -> bool {
        if self.waits_for is Finish {
            *after == *self
        } else {
            match self.judge(event, limits) {
                Some(error) => {
                    &&& after.failure == Some(error)
                    &&& after.waits_for is Finish
                },
                None => {
                    &&& after.failure is None
                    &&& after.waits_for == next_read_action(self.waits_for)
                    &&& match event {
                        ReadEvent::Singletons(Ok(rows)) => after.singletons == Some(rows)
                            && after.records == self.records,
                        ReadEvent::Records(Ok(rows)) => after.singletons == self.singletons
                            && after.records is Some && records_hold_rows(
                            after.records->Some_0@,
                            rows@,
                        ),
                        _ => after.singletons == self.singletons && after.records == self.records,
                    }
                },
            }
        }
    }

    /// Takes in what came of the last action and gives the next one.
    pub fn step(&mut self, event: ReadEvent, limits: FormatLimits) -> (action: ReadAction)
        requires
            old(self).wf(),
        ensures
            final(self).wf(),
            action == final(self).waits_for,
            old(self).steps_to(event, limits, final(self)),
    {
        let judged: Result<ReadAction, StorageError> = match (self.waits_for, event) {
            (ReadAction::Finish, _) => {
                return ReadAction::Finish;
            },
            (ReadAction::CheckInputs, ReadEvent::Checked(Ok(()))) => {
                Ok(ReadAction::ReadDatabaseHeader)
            },
            (ReadAction::RecheckInputs, ReadEvent::Checked(Ok(()))) => {
                Ok(ReadAction::CheckIntegrity)
            },
            (ReadAction::RecheckInputsLast, ReadEvent::Checked(Ok(()))) => Ok(ReadAction::Finish),
            (
                ReadAction::CheckInputs
                | ReadAction::RecheckInputs
                | ReadAction::RecheckInputsLast,
                ReadEvent::Checked(Err(error)),
            ) => Err(error),
            (ReadAction::ReadDatabaseHeader, ReadEvent::DatabaseHeader(header)) => {
                match validate_wal_database_header(header) {
                    Ok(()) => Ok(ReadAction::OpenDatabase),
                    Err(error) => Err(error),
                }
            },
            (ReadAction::OpenDatabase, ReadEvent::Opened(Ok(()))) => Ok(ReadAction::RecheckInputs),
            (ReadAction::OpenDatabase, ReadEvent::Opened(Err(error))) => Err(error),
            (ReadAction::CheckIntegrity, ReadEvent::Integrity(result)) => {
                match accept_integrity(&result) {
                    Ok(()) => Ok(ReadAction::InspectSchema),
                    Err(error) => Err(error),
                }
            },
            (ReadAction::InspectSchema, ReadEvent::Schema(result)) => {
                match accept_schema(&result) {
                    Ok(()) => Ok(ReadAction::ReadSingletons),
                    Err(error) => Err(error),
                }
            },
            (ReadAction::ReadSingletons, ReadEvent::Singletons(result)) => match result {
                Err(error) => Err(error),
                Ok(rows) => match accept_singletons(&rows, limits) {
                    Err(error) => Err(error),
                    Ok(()) => {
                        self.singletons = Some(rows);
                        Ok(ReadAction::ReadRecords)
                    },
                },
            },
            (ReadAction::ReadRecords, ReadEvent::Records(result)) => match result {
                Err(error) => Err(error),
                Ok(rows) => match read_encrypted_records(&rows, limits) {
                    Err(error) => Err(error),
                    Ok(records) => {
                        let expected: i64 = match &self.singletons {
                            Some(singletons) => singletons.record_count,
                            None => 0,
                        };
                        if expected >= 0 && records.len() as u64 == expected as u64 {
                            self.records = Some(records);
                            Ok(ReadAction::RecheckInputsLast)
                        } else {
                            Err(StorageError::Schema)
                        }
                    },
                },
            },
            _ => Err(StorageError::Sqlite),
        };
        match judged {
            Ok(next) => {
                self.waits_for = next;
            },
            Err(error) => {
                self.failure = Some(error);
                self.waits_for = ReadAction::Finish;
            },
        }
        self.waits_for
    }

    /// The vault that was read, or why it was not.
    pub fn finish(self) -> (result: Result<VaultData, StorageError>)
        requires
            self.wf(),
            self.waits_for is Finish,
        ensures
            match self.failure {
                Some(error) => result == Err::<VaultData, StorageError>(error),
                None => {
                    &&& result is Ok
                    &&& result->Ok_0.header == self.singletons->Some_0.header
                    &&& result->Ok_0.manifest == self.singletons->Some_0.manifest
                    &&& result->Ok_0.records == self.records->Some_0
                },
            },
    {
        if let Some(error) = self.failure {
            return Err(error);
        }
        match (self.singletons, self.records) {
            (Some(singletons), Some(records)) => Ok(
                VaultData { header: singletons.header, manifest: singletons.manifest, records },
            ),
            _ => Err(StorageError::Sqlite),
        }
    }
}

/// The error of a result.
pub open spec fn error_of<T>(result: Result<T, StorageError>) -> Option<StorageError> {
    match result {
        Ok(_) => None,
        Err(error) => Some(error),
    }
}

/// What the answer to an integrity check has against the database.
pub open spec fn integrity_error(result: Result<String, StorageError>) -> Option<StorageError> {
    match result {
        Err(error) => Some(error),
        Ok(status) => if status@ == "ok"@ {
            None
        } else {
            Some(StorageError::Integrity)
        },
    }
}

/// What its schema has against a database.
pub open spec fn schema_error(result: Result<SchemaRows, StorageError>) -> Option<StorageError> {
    match result {
        Err(error) => Some(error),
        Ok(schema) => if crate::sqlite::is_vault_schema(schema) {
            None
        } else {
            Some(StorageError::Schema)
        },
    }
}

fn accept_integrity(result: &Result<String, StorageError>) -> (accepted: Result<
    (),
    StorageError,
>)
    ensures
        error_of(accepted) == integrity_error(*result),
{
    match result {
        Err(error) => Err(*error),
        Ok(status) => verify_database_integrity(status.as_str()),
    }
}

fn accept_schema(result: &Result<SchemaRows, StorageError>) -> (accepted: Result<
    (),
    StorageError,
>)
    ensures
        error_of(accepted) == schema_error(*result),
{
    match result {
        Err(error) => Err(*error),
        Ok(schema) => verify_application_schema(schema),
    }
}

/// The header and manifest of a vault that holds no record.
pub fn read_empty_vault(read: Result<VaultData, StorageError>) -> (empty: Result<
    (Vec<u8>, Vec<u8>),
    StorageError,
>)
    ensures
        match read {
            Err(error) => empty == Err::<(Vec<u8>, Vec<u8>), StorageError>(error),
            Ok(data) => if data.records@.len() == 0 {
                empty == Ok::<(Vec<u8>, Vec<u8>), StorageError>((data.header, data.manifest))
            } else {
                empty == Err::<(Vec<u8>, Vec<u8>), StorageError>(StorageError::Schema)
            },
        },
{
    match read {
        Err(error) => Err(error),
        Ok(data) => if data.records.len() == 0 {
            Ok((data.header, data.manifest))
        } else {
            Err(StorageError::Schema)
        },
    }
}

/// A vault that was read, if it holds no records.
pub fn read_guarded_empty_vault(read: Result<VaultData, StorageError>) -> (empty: Result<
    VaultData,
    StorageError,
>)
    ensures
        empty == (match read {
            Ok(data) => if data@.records.len() == 0 {
                Ok::<VaultData, StorageError>(data)
            } else {
                Err(StorageError::Schema)
            },
            Err(error) => Err(error),
        }),
{
    match read {
        Ok(data) => if data.records.len() == 0 {
            Ok(data)
        } else {
            Err(StorageError::Schema)
        },
        Err(error) => Err(error),
    }
}

// Laws

/// A read from its first step on: the attempt before each event, and the
/// attempt after the last one.
pub open spec fn is_read_run(
    flows: Seq<VaultReadFlow>,
    events: Seq<ReadEvent>,
    limits: FormatLimits,
) -> bool {
    &&& flows.len() == events.len() + 1
    &&& flows[0].waits_for is CheckInputs
    &&& flows[0].failure is None
    &&& forall|i: int|
        0 <= i < events.len() ==> (#[trigger] flows[i]).steps_to(events[i], limits, &flows[i + 1])
}

/// Whether the result of an action was accepted before a place of a run.
pub open spec fn read_accepted_before(
    flows: Seq<VaultReadFlow>,
    events: Seq<ReadEvent>,
    limits: FormatLimits,
    action: ReadAction,
    place: int,
) -> bool {
    exists|i: int|
        0 <= i < place && (#[trigger] flows[i]).waits_for == action && flows[i].judge(
            events[i],
            limits,
        ) is None
}

/// How many actions come before one.
pub open spec fn read_rank(action: ReadAction) -> int {
    match action {
        ReadAction::CheckInputs => 0,
        ReadAction::ReadDatabaseHeader => 1,
        ReadAction::OpenDatabase => 2,
        ReadAction::RecheckInputs => 3,
        ReadAction::CheckIntegrity => 4,
        ReadAction::InspectSchema => 5,
        ReadAction::ReadSingletons => 6,
        ReadAction::ReadRecords => 7,
        ReadAction::RecheckInputsLast => 8,
        ReadAction::Finish => 9,
    }
}

proof fn reads_accept_in_order(
    flows: Seq<VaultReadFlow>,
    events: Seq<ReadEvent>,
    limits: FormatLimits,
    action: ReadAction,
    place: int,
)
    requires
        is_read_run(flows, events, limits),
        0 <= place <= events.len(),
        !(action is Finish),
    ensures
        flows[place].failure is Some ==> flows[place].waits_for is Finish,
        flows[place].failure is None && read_rank(action) < read_rank(flows[place].waits_for)
            ==> read_accepted_before(flows, events, limits, action, place),
    decreases place,
{
    if place > 0 {
        reads_accept_in_order(flows, events, limits, action, place - 1);
        let before = flows[place - 1];
        assert(before.steps_to(events[place - 1], limits, &flows[place]));
        if read_accepted_before(flows, events, limits, action, place - 1) {
            let i = choose|i: int|
                0 <= i < place - 1 && (#[trigger] flows[i]).waits_for == action && flows[i].judge(
                    events[i],
                    limits,
                ) is None;
            assert(flows[i].waits_for == action);
        }
    }
}

/// Rows are handed out only of a database that passed every check: its files
/// before, during and after it was read, its integrity, its schema, and its
/// rows.
pub proof fn read_vaults_passed_every_check(
    flows: Seq<VaultReadFlow>,
    events: Seq<ReadEvent>,
    limits: FormatLimits,
    action: ReadAction,
)
    requires
        is_read_run(flows, events, limits),
        flows.last().waits_for is Finish,
        flows.last().failure is None,
        !(action is Finish),
    ensures
        read_accepted_before(flows, events, limits, action, events.len() as int),
{
    reads_accept_in_order(flows, events, limits, action, events.len() as int);
}

/// Record rows are accepted exactly where there are no more of them than the
/// format allows, and each is named by sixteen bytes and within its size.
pub proof fn rows_within_the_limits_are_accepted(rows: Seq<RawRecord>, limits: FormatLimits)
    ensures
        rows_error(rows, limits) is None <==> rows.len() <= limits.max_records && forall|i: int|
            0 <= i < rows.len() ==> (#[trigger] rows[i]).record_id@.len() == 16
                && rows[i].envelope@.len() <= limits.max_record_envelope_bytes,
    decreases rows.len(),
{
    if rows.len() > 0 {
        let rest = rows.drop_last();
        rows_within_the_limits_are_accepted(rest, limits);
        assert(rows.last() == rows[rows.len() - 1]);
        assert forall|i: int| 0 <= i < rest.len() implies rest[i] == rows[i] by {}
        if rows_error(rows, limits) is None {
            assert forall|i: int| 0 <= i < rows.len() implies (#[trigger] rows[i]).record_id@.len()
                == 16 && rows[i].envelope@.len() <= limits.max_record_envelope_bytes by {
                if i < rows.len() - 1 {
                    assert(rest[i].record_id@.len() == 16);
                }
            }
        }
        if forall|i: int|
            0 <= i < rows.len() ==> (#[trigger] rows[i]).record_id@.len() == 16
                && rows[i].envelope@.len() <= limits.max_record_envelope_bytes {
            assert forall|i: int| 0 <= i < rest.len() implies (#[trigger] rest[i]).record_id@.len()
                == 16 && rest[i].envelope@.len() <= limits.max_record_envelope_bytes by {
                assert(rows[i].record_id@.len() == 16);
            }
        }
    }
}

/// A vault is read exactly where all of this is so, in this order: its inputs
/// are in order, its file begins as a database with a write-ahead log does, it
/// opens, its inputs are still in order, it is undamaged and has the schema of a
/// vault, its header and manifest stand there once, its records are as many as
/// it says, all within the limits of the format, and its inputs are in order to
/// the end. What was read is what the rows hold, in their order.
pub proof fn sound_vaults_are_read(
    flows: Seq<VaultReadFlow>,
    events: Seq<ReadEvent>,
    limits: FormatLimits,
)
    requires
        is_read_run(flows, events, limits),
        events.len() == 9,
    ensures
        flows.last().waits_for is Finish,
        flows.last().failure is None <==> {
            &&& events[0] matches ReadEvent::Checked(Ok(_))
            &&& events[1] matches ReadEvent::DatabaseHeader(Some(header)) && header@.take(16)
                == vstd::utf8::encode_utf8("SQLite format 3\0"@) && header@[18] == 2 && header@[19]
                == 2
            &&& events[2] matches ReadEvent::Opened(Ok(_))
            &&& events[3] matches ReadEvent::Checked(Ok(_))
            &&& events[4] matches ReadEvent::Integrity(Ok(status)) && status@ == "ok"@
            &&& events[5] matches ReadEvent::Schema(Ok(schema)) && crate::sqlite::is_vault_schema(
                schema,
            )
            &&& events[6] matches ReadEvent::Singletons(Ok(single))
            &&& single.header_count == 1 && single.manifest_count == 1
            &&& single.header@.len() <= limits.max_header_bytes
            &&& single.manifest@.len() <= limits.max_manifest_envelope_bytes
            &&& events[7] matches ReadEvent::Records(Ok(rows))
            &&& rows@.len() == single.record_count
            &&& rows@.len() <= limits.max_records
            &&& forall|i: int|
                0 <= i < rows@.len() ==> (#[trigger] rows@[i]).record_id@.len() == 16
                    && rows@[i].envelope@.len() <= limits.max_record_envelope_bytes
            &&& events[8] matches ReadEvent::Checked(Ok(_))
        },
        flows.last().failure is None ==> {
            let single = events[6]->Singletons_0->Ok_0;
            let rows = events[7]->Records_0->Ok_0@;
            let records = flows.last().records->Some_0@;
            &&& flows.last().singletons == Some(single)
            &&& flows.last().records is Some
            &&& records.len() == rows.len()
            &&& forall|i: int|
                0 <= i < rows.len() ==> (#[trigger] records[i]).id@@ == rows[i].record_id@
                    && records[i].envelope@ == rows[i].envelope@
        },
{
    if let ReadEvent::Records(Ok(rows)) = events[7] {
        rows_within_the_limits_are_accepted(rows@, limits);
    }
    assert(flows[0].steps_to(events[0], limits, &flows[1]));
    assert(flows[1].failure is Some && flows[1].waits_for is Finish || flows[1].failure is None
        && flows[1].waits_for is ReadDatabaseHeader);
    assert(flows[1].steps_to(events[1], limits, &flows[2]));
    assert(flows[2].failure is Some && flows[2].waits_for is Finish || flows[2].failure is None
        && flows[2].waits_for is OpenDatabase);
    assert(flows[2].steps_to(events[2], limits, &flows[3]));
    assert(flows[3].failure is Some && flows[3].waits_for is Finish || flows[3].failure is None
        && flows[3].waits_for is RecheckInputs);
    assert(flows[3].steps_to(events[3], limits, &flows[4]));
    assert(flows[4].failure is Some && flows[4].waits_for is Finish || flows[4].failure is None
        && flows[4].waits_for is CheckIntegrity);
    assert(flows[4].steps_to(events[4], limits, &flows[5]));
    assert(flows[5].failure is Some && flows[5].waits_for is Finish || flows[5].failure is None
        && flows[5].waits_for is InspectSchema);
    assert(flows[5].steps_to(events[5], limits, &flows[6]));
    assert(flows[6].failure is Some && flows[6].waits_for is Finish || flows[6].failure is None
        && flows[6].waits_for is ReadSingletons);
    assert(flows[6].steps_to(events[6], limits, &flows[7]));
    assert(flows[7].failure is Some && flows[7].waits_for is Finish || flows[7].failure is None
        && flows[7].waits_for is ReadRecords);
    assert(flows[7].steps_to(events[7], limits, &flows[8]));
    assert(flows[8].failure is Some && flows[8].waits_for is Finish || flows[8].failure is None
        && flows[8].waits_for is RecheckInputsLast);
    assert(flows[8].steps_to(events[8], limits, &flows[9]));
    assert(flows[9].failure is Some && flows[9].waits_for is Finish || flows[9].failure is None
        && flows[9].waits_for is Finish);
}

/// A vault that is not read says why: what the platform reported is reported on,
/// a file that begins otherwise is no such database, damage is a matter of
/// integrity, and rows that are too many or too large are told apart from rows
/// that are not those of a vault.
pub proof fn unread_vaults_say_why(flow: VaultReadFlow, event: ReadEvent, limits: FormatLimits)
    ensures
        event matches ReadEvent::Checked(Err(error)) ==> (flow.waits_for is CheckInputs
            || flow.waits_for is RecheckInputs || flow.waits_for is RecheckInputsLast
            ==> flow.judge(event, limits) == Some(error)),
        event matches ReadEvent::Opened(Err(error)) ==> (flow.waits_for is OpenDatabase
            ==> flow.judge(event, limits) == Some(error)),
        event matches ReadEvent::DatabaseHeader(header) ==> (flow.waits_for is ReadDatabaseHeader
            ==> (flow.judge(event, limits) matches Some(error) ==> error == (if header is None {
            StorageError::Filesystem
        } else {
            StorageError::InvalidDatabaseHeader
        }))),
        event matches ReadEvent::Integrity(result) ==> (flow.waits_for is CheckIntegrity ==> (
        flow.judge(event, limits) matches Some(error) ==> error == (match result {
            Err(reported) => reported,
            Ok(_) => StorageError::Integrity,
        }))),
        event matches ReadEvent::Schema(result) ==> (flow.waits_for is InspectSchema ==> (
        flow.judge(event, limits) matches Some(error) ==> error == (match result {
            Err(reported) => reported,
            Ok(_) => StorageError::Schema,
        }))),
        event matches ReadEvent::Singletons(Ok(rows)) ==> (flow.waits_for is ReadSingletons
            && rows.record_count <= limits.max_records ==> (flow.judge(event, limits) == Some(
            StorageError::ResourceLimit,
        ) <==> rows.header@.len() > limits.max_header_bytes || rows.manifest@.len()
            > limits.max_manifest_envelope_bytes)),
        event matches ReadEvent::Singletons(Ok(rows)) ==> (flow.waits_for is ReadSingletons
            && rows.header@.len() <= limits.max_header_bytes && rows.manifest@.len()
            <= limits.max_manifest_envelope_bytes && (rows.header_count != 1 || rows.manifest_count
            != 1 || rows.record_count < 0) ==> flow.judge(event, limits) == Some(
            StorageError::Schema,
        )),
        event matches ReadEvent::Records(Ok(rows)) ==> (flow.waits_for is ReadRecords
            && flow.singletons is Some && rows_error(rows@, limits) is None && rows@.len()
            != flow.singletons->Some_0.record_count ==> flow.judge(event, limits) == Some(
            StorageError::Schema,
        )),
{
}

/// The first row that is not as it has to be decides what is said of all: one
/// that is too large, or one too many, is over a limit, and one with another
/// name is not of a vault.
pub proof fn the_first_bad_row_decides(rows: Seq<RawRecord>, place: int, limits: FormatLimits)
    requires
        0 <= place < rows.len(),
        forall|i: int|
            0 <= i < place ==> i < limits.max_records && (#[trigger] rows[i]).record_id@.len() == 16
                && rows[i].envelope@.len() <= limits.max_record_envelope_bytes,
    ensures
        place >= limits.max_records || rows[place].envelope@.len()
            > limits.max_record_envelope_bytes ==> rows_error(rows, limits) == Some(
            StorageError::ResourceLimit,
        ),
        place < limits.max_records && rows[place].envelope@.len()
            <= limits.max_record_envelope_bytes && rows[place].record_id@.len() != 16 ==> rows_error(
            rows,
            limits,
        ) == Some(StorageError::Schema),
{
    let front = rows.take(place);
    assert forall|i: int| 0 <= i < front.len() implies (#[trigger] front[i]).record_id@.len() == 16
        && front[i].envelope@.len() <= limits.max_record_envelope_bytes by {
        assert(front[i] == rows[i]);
    }
    if place > 0 {
        assert(rows[place - 1].record_id@.len() == 16);
    }
    rows_within_the_limits_are_accepted(front, limits);
    if row_error(rows[place], place, limits) is Some {
        earlier_error_stays(rows, place, limits);
    }
}

/// A count that the format does not allow is not that of a vault.
pub proof fn counts_out_of_bounds_are_refused(
    rows: SingletonRows,
    limits: FormatLimits,
    accepted: Result<(), StorageError>,
)
    requires
        call_ensures(accept_singletons, (&rows, limits), accepted),
        rows.header@.len() <= limits.max_header_bytes,
        rows.manifest@.len() <= limits.max_manifest_envelope_bytes,
    ensures
        accepted is Ok <==> rows.header_count == 1 && rows.manifest_count == 1 && 0
            <= rows.record_count <= limits.max_records,
        accepted matches Err(error) ==> error == StorageError::Schema || rows.record_count
            > usize::MAX && error == StorageError::ResourceLimit,
{
}

/// A new vault is read back as one without records, with the header and the
/// manifest that its rows hold; one with a record is no new vault.
pub proof fn new_vaults_are_read_back(
    data: VaultData,
    empty: Result<(Vec<u8>, Vec<u8>), StorageError>,
    whole: Result<VaultData, StorageError>,
)
    requires
        call_ensures(read_empty_vault, (Ok(data),), empty),
        call_ensures(read_guarded_empty_vault, (Ok(data),), whole),
    ensures
        empty is Ok <==> data.records@.len() == 0,
        whole is Ok <==> empty is Ok,
        empty matches Ok((header, manifest)) ==> header@ == data.header@ && manifest@
            == data.manifest@,
        whole matches Ok(read) ==> read@ == data@,
        empty matches Err(error) ==> error == StorageError::Schema,
        whole matches Err(error) ==> error == StorageError::Schema,
{
}

/// Every row is read as the record that it holds, in its place.
pub proof fn rows_are_read_in_place(
    rows: &Vec<RawRecord>,
    limits: FormatLimits,
    read: Result<Vec<EncryptedRecord>, StorageError>,
    place: int,
)
    requires
        call_ensures(read_encrypted_records, (rows, limits), read),
        read is Ok,
        0 <= place < rows@.len(),
    ensures
        read->Ok_0@.len() == rows@.len(),
        read->Ok_0@[place].id@@ == rows@[place].record_id@,
        read->Ok_0@[place].envelope@ == rows@[place].envelope@,
        rows@.len() <= limits.max_records,
{
    rows_within_the_limits_are_accepted(rows@, limits);
}

} // verus!
