//! Vault databases: schema, rows and changes, over databases in memory.

use librarian_vault_agent::errors::StorageError;
use librarian_vault_agent::filesystem::FileStamp;
use librarian_vault_agent::new_database::{
    configure_limits, initialize_connection, initialize_database,
};
use librarian_vault_agent::record_mutation::{
    MutationAction, MutationEvent, RecordMutationFlow,
};
use librarian_vault_agent::sqlite::{
    mark_database_image_as_wal, validate_guarded_sqlite_input_paths,
    validate_guarded_sqlite_input_sizes, validate_wal_database_header, verify_application_schema,
    verify_database_integrity, FormatLimits, SchemaObject, SchemaRows, TableDefinition,
    MAX_SQLITE_SHM_BYTES, SQLITE_HEADER_BYTES, SQLITE_READ_VERSION_OFFSET, SQLITE_WAL_VERSION,
    SQLITE_WRITE_VERSION_OFFSET, VAULT_SCHEMA,
};
use librarian_vault_agent::vault_data::{
    PreparedRecordMutation, RecordId, RecordMutationKind, VaultData,
};
use librarian_vault_agent::vault_rows::{
    read_encrypted_records, RawRecord, ReadAction, ReadEvent, SingletonRows, VaultReadFlow,
};
use rusqlite::limits::Limit;
use rusqlite::{Connection, MAIN_DB};

const MAX_MANIFEST_ENVELOPE_BYTES: usize = 8 * 1024 * 1024;

fn limits() -> FormatLimits {
    FormatLimits {
        max_header_bytes: 64,
        max_manifest_envelope_bytes: 64,
        max_records: 3,
        max_record_envelope_bytes: 16,
        max_database_bytes: 1_000_000,
    }
}

fn vault() -> Connection {
    let connection = Connection::open_in_memory().expect("database");
    connection.execute_batch(VAULT_SCHEMA).expect("schema");
    connection
        .execute(
            "INSERT INTO vault_header(singleton, header) VALUES (1, ?1)",
            [b"header".as_slice()],
        )
        .expect("header");
    connection
        .execute(
            "INSERT INTO vault_manifest(singleton, envelope) VALUES (1, ?1)",
            [b"manifest".as_slice()],
        )
        .expect("manifest");
    connection
}

fn definition(connection: &Connection, table: &str) -> TableDefinition {
    TableDefinition {
        strict: connection
            .query_row(
                "SELECT strict FROM pragma_table_list WHERE name = ?1",
                [table],
                |row| row.get(0),
            )
            .unwrap_or(0),
        sql: connection
            .query_row(
                "SELECT sql FROM sqlite_schema WHERE type = 'table' AND name = ?1",
                [table],
                |row| row.get(0),
            )
            .unwrap_or_default(),
    }
}

fn schema(connection: &Connection) -> SchemaRows {
    let mut statement = connection
        .prepare("SELECT type, name FROM sqlite_schema ORDER BY type, name")
        .expect("schema query");
    let objects = statement
        .query_map([], |row| {
            Ok(SchemaObject {
                kind: row.get(0)?,
                name: row.get(1)?,
            })
        })
        .expect("schema rows")
        .collect::<Result<Vec<_>, _>>()
        .expect("schema rows");
    SchemaRows {
        objects,
        encrypted_records: definition(connection, "encrypted_records"),
        vault_header: definition(connection, "vault_header"),
        vault_manifest: definition(connection, "vault_manifest"),
    }
}

fn singletons(connection: &Connection) -> SingletonRows {
    let bytes = |sql: &str| -> Vec<u8> {
        connection
            .query_row(sql, [], |row| row.get(0))
            .expect("singleton row")
    };
    let count = |sql: &str| -> i64 {
        connection
            .query_row(sql, [], |row| row.get(0))
            .expect("row count")
    };
    SingletonRows {
        header: bytes("SELECT header FROM vault_header WHERE singleton = 1"),
        manifest: bytes("SELECT envelope FROM vault_manifest WHERE singleton = 1"),
        header_count: count("SELECT COUNT(*) FROM vault_header"),
        manifest_count: count("SELECT COUNT(*) FROM vault_manifest"),
        record_count: count("SELECT COUNT(*) FROM encrypted_records"),
    }
}

fn raw_records(connection: &Connection) -> Vec<RawRecord> {
    let mut statement = connection
        .prepare("SELECT record_id, envelope FROM encrypted_records ORDER BY record_id")
        .expect("record query");
    let rows = statement
        .query_map([], |row| {
            Ok(RawRecord {
                record_id: row.get(0)?,
                envelope: row.get(1)?,
            })
        })
        .expect("record rows");
    rows.collect::<Result<Vec<_>, _>>().expect("record rows")
}

fn rows(connection: &Connection) -> VaultData {
    let singletons = singletons(connection);
    VaultData {
        header: singletons.header,
        manifest: singletons.manifest,
        records: read_encrypted_records(&raw_records(connection), limits())
            .ok()
            .expect("records"),
    }
}

fn read(connection: &mut Connection) -> Result<VaultData, StorageError> {
    let mut image = connection.serialize(MAIN_DB).expect("image").to_vec();
    assert!(mark_database_image_as_wal(&mut image));
    let mut header = [0_u8; 20];
    header.copy_from_slice(&image[..20]);
    let mut flow = VaultReadFlow::new();
    let mut action = ReadAction::CheckInputs;
    loop {
        let event = match action {
            ReadAction::CheckInputs
            | ReadAction::RecheckInputs
            | ReadAction::RecheckInputsLast => ReadEvent::Checked(Ok(())),
            ReadAction::ReadDatabaseHeader => ReadEvent::DatabaseHeader(Some(header)),
            ReadAction::OpenDatabase => ReadEvent::Opened(Ok(())),
            ReadAction::CheckIntegrity => ReadEvent::Integrity(Ok(integrity(connection))),
            ReadAction::InspectSchema => ReadEvent::Schema(Ok(schema(connection))),
            ReadAction::ReadSingletons => ReadEvent::Singletons(Ok(singletons(connection))),
            ReadAction::ReadRecords => ReadEvent::Records(Ok(raw_records(connection))),
            ReadAction::Finish => return flow.finish(),
        };
        action = flow.step(event, limits());
    }
}

fn integrity(connection: &Connection) -> String {
    connection
        .query_row("PRAGMA integrity_check", [], |row| row.get(0))
        .expect("integrity")
}

// Schema

#[test]
fn created_tables_are_the_expected_ones() {
    assert_eq!(verify_application_schema(&schema(&vault())), Ok(()));
    assert_eq!(verify_database_integrity(&integrity(&vault())), Ok(()));
    assert_eq!(
        verify_database_integrity("row 1 missing"),
        Err(StorageError::Integrity)
    );
}

#[test]
fn unexpected_application_schema_has_a_non_secret_internal_category() {
    let connection = Connection::open_in_memory().expect("test database must open");
    connection
        .execute_batch("CREATE TABLE attacker_controlled(value BLOB) STRICT;")
        .expect("unexpected table fixture must be created");
    assert_eq!(
        verify_application_schema(&schema(&connection)),
        Err(StorageError::Schema)
    );
}

#[test]
fn reserved_prefix_schema_objects_fail_closed() {
    let connection = Connection::open_in_memory().expect("SQLite fixture must open");
    connection
        .execute_batch(
            "CREATE TABLE vault_header (
                singleton INTEGER PRIMARY KEY CHECK (singleton = 1),
                header BLOB NOT NULL
            ) STRICT;
            CREATE TABLE vault_manifest (
                singleton INTEGER PRIMARY KEY CHECK (singleton = 1),
                envelope BLOB NOT NULL
            ) STRICT;
            CREATE TABLE encrypted_records (
                record_id BLOB PRIMARY KEY NOT NULL CHECK (length(record_id) = 16),
                envelope BLOB NOT NULL
            ) STRICT, WITHOUT ROWID;",
        )
        .expect("production schema fixture must initialize");
    assert_eq!(verify_application_schema(&schema(&connection)), Ok(()));
    connection
        .pragma_update(None, "writable_schema", true)
        .expect("schema-tampering fixture must enable direct writes");
    connection
        .execute(
            "INSERT INTO sqlite_schema(type, name, tbl_name, rootpage, sql)
             VALUES ('view', 'sqlite_attacker', 'sqlite_attacker', 0,
                     'CREATE VIEW sqlite_attacker AS SELECT 1')",
            [],
        )
        .expect("reserved-prefix schema row must be injected");
    connection
        .pragma_update(None, "writable_schema", false)
        .expect("schema-tampering fixture must restore normal behavior");
    assert!(
        verify_application_schema(&schema(&connection)).is_err(),
        "every unexpected schema row must fail closed, including reserved prefixes"
    );
}

#[test]
fn unexpected_application_tables_fail_closed() {
    let mut connection = vault();
    assert!(read(&mut connection).is_ok());
    connection
        .execute_batch("CREATE TABLE unexpected_plaintext(value TEXT) STRICT;")
        .expect("test must add an unexpected table");
    assert_eq!(read(&mut connection).err(), Some(StorageError::Schema));
}

#[test]
fn unexpected_views_and_triggers_fail_closed() {
    let mut connection = vault();
    connection
        .execute_batch(
            "CREATE VIEW unexpected_view AS SELECT header FROM vault_header;
             CREATE TRIGGER unexpected_trigger
             AFTER INSERT ON encrypted_records
             BEGIN
                 SELECT 1;
             END;",
        )
        .expect("test must add unexpected schema objects");
    assert_eq!(read(&mut connection).err(), Some(StorageError::Schema));
}

#[test]
fn sqlite_similar_prefix_objects_fail_closed() {
    let mut connection = vault();
    connection
        .execute_batch("CREATE TABLE sqliteXplaintext(value TEXT) STRICT;")
        .expect("test must add an application-owned lookalike table");
    assert_eq!(read(&mut connection).err(), Some(StorageError::Schema));
}

#[test]
fn loosened_tables_fail_closed() {
    for loosened in [
        "CREATE TABLE vault_header (
            singleton INTEGER PRIMARY KEY CHECK (singleton = 1),
            header BLOB NOT NULL
        );",
        "CREATE TABLE vault_header (
            singleton INTEGER PRIMARY KEY,
            header BLOB NOT NULL
        ) STRICT;",
    ] {
        let connection = vault();
        connection
            .execute_batch("DROP TABLE vault_header;")
            .expect("table must go");
        connection.execute_batch(loosened).expect("table");
        assert_eq!(
            verify_application_schema(&schema(&connection)),
            Err(StorageError::Schema)
        );
    }
}

#[test]
fn extra_singleton_rows_fail_closed() {
    let mut connection = vault();
    connection
        .execute_batch(
            "PRAGMA ignore_check_constraints = ON;
             INSERT INTO vault_header(singleton, header)
             SELECT 2, header FROM vault_header WHERE singleton = 1;",
        )
        .expect("test must add an extra header row");
    // The row breaks its own constraint too, so that the damage is found first
    // where constraints are looked at.
    assert!(read(&mut connection).is_err());
    connection
        .execute_batch(
            "DELETE FROM vault_header WHERE singleton = 2;
             INSERT INTO vault_manifest(singleton, envelope)
             SELECT 2, envelope FROM vault_manifest WHERE singleton = 1;",
        )
        .expect("test must replace the extra row with an extra manifest row");
    assert!(read(&mut connection).is_err());
    connection
        .execute_batch("DELETE FROM vault_manifest WHERE singleton = 2;")
        .expect("test must remove the extra row");
    assert!(read(&mut connection).is_ok());
}

#[test]
fn sqlite_row_limit_allows_the_maximum_manifest_payload() {
    let mut connection = Connection::open_in_memory().expect("SQLite fixture must open");
    configure_limits(&mut connection).expect("production limits must apply");
    connection
        .execute_batch(
            "CREATE TABLE manifest_fixture (
                singleton INTEGER PRIMARY KEY,
                envelope BLOB NOT NULL
            ) STRICT;",
        )
        .expect("manifest fixture schema must initialize");
    let envelope = vec![0_u8; MAX_MANIFEST_ENVELOPE_BYTES];
    connection
        .execute(
            "INSERT INTO manifest_fixture(singleton, envelope) VALUES (1, ?1)",
            [&envelope],
        )
        .expect("a format-valid maximum manifest must fit within the SQLite row limit");
    let stored_bytes: i64 = connection
        .query_row(
            "SELECT length(envelope) FROM manifest_fixture WHERE singleton = 1",
            [],
            |row| row.get(0),
        )
        .expect("maximum manifest length must remain readable");
    assert_eq!(
        usize::try_from(stored_bytes).expect("stored length must fit"),
        envelope.len()
    );
}

#[test]
fn sqlite_primary_key_rejects_duplicate_record_identifiers() {
    let connection = vault();
    let insert = || {
        connection.execute(
            "INSERT INTO encrypted_records(record_id, envelope) VALUES (?1, ?2)",
            ([7_u8; 16].as_slice(), b"envelope".as_slice()),
        )
    };
    assert!(insert().is_ok());
    assert!(
        insert().is_err(),
        "duplicate identifiers must fail at the SQLite boundary"
    );
}

// Images and files

#[test]
fn malformed_sqlite_header_has_a_non_secret_internal_category() {
    assert_eq!(
        validate_wal_database_header(Some([0_u8; SQLITE_HEADER_BYTES])),
        Err(StorageError::InvalidDatabaseHeader)
    );
    assert_eq!(
        validate_wal_database_header(None),
        Err(StorageError::Filesystem)
    );
}

#[test]
fn created_vault_persists_wal_journal_mode() {
    let mut connection = vault();
    let mut image = connection.serialize(MAIN_DB).expect("image").to_vec();
    let mut header = [0_u8; SQLITE_HEADER_BYTES];
    header.copy_from_slice(&image[..SQLITE_HEADER_BYTES]);
    assert_eq!(
        validate_wal_database_header(Some(header)),
        Err(StorageError::InvalidDatabaseHeader)
    );
    assert!(mark_database_image_as_wal(&mut image));
    header.copy_from_slice(&image[..SQLITE_HEADER_BYTES]);
    assert_eq!(header[SQLITE_READ_VERSION_OFFSET], SQLITE_WAL_VERSION);
    assert_eq!(header[SQLITE_WRITE_VERSION_OFFSET], SQLITE_WAL_VERSION);
    assert_eq!(validate_wal_database_header(Some(header)), Ok(()));

    let mut short = image[..19].to_vec();
    assert!(!mark_database_image_as_wal(&mut short));
    let mut other = vec![0_u8; 40];
    assert!(!mark_database_image_as_wal(&mut other));
    assert_eq!(other, vec![0_u8; 40]);
}

fn stamp(is_file: bool, length: u64) -> Option<Option<FileStamp>> {
    Some(Some(FileStamp {
        is_file,
        is_redirected: false,
        volume: 1,
        file: 1,
        length,
    }))
}

#[test]
fn database_files_are_bounded_together() {
    let regular = |length| stamp(true, length);
    let sizes = |database, wal, shm| {
        validate_guarded_sqlite_input_sizes(database, wal, shm, limits())
    };
    assert_eq!(
        sizes(Some(900_000), regular(60_000), regular(40_000)),
        Ok(())
    );
    assert_eq!(
        sizes(Some(900_000), regular(60_000), regular(40_001)),
        Err(StorageError::ResourceLimit)
    );
    assert_eq!(
        sizes(Some(u64::MAX), regular(1), None),
        Err(StorageError::ResourceLimit)
    );
    assert_eq!(
        sizes(Some(0), None, regular(MAX_SQLITE_SHM_BYTES + 1)),
        Err(StorageError::ResourceLimit)
    );
    assert_eq!(
        sizes(Some(0), stamp(false, 0), None),
        Err(StorageError::Identity)
    );
    assert_eq!(sizes(Some(0), Some(None), None), Err(StorageError::Filesystem));
    assert_eq!(sizes(None, None, None), Err(StorageError::Filesystem));
    assert_eq!(
        validate_guarded_sqlite_input_paths(
            Ok(()),
            Err(StorageError::Identity),
            Err(StorageError::Filesystem)
        ),
        Err(StorageError::Identity)
    );
    assert_eq!(
        validate_guarded_sqlite_input_paths(Ok(()), Ok(()), Ok(())),
        Ok(())
    );
}

// Rows

fn insert(connection: &Connection, marker: u8, envelope: &[u8]) {
    connection
        .execute(
            "INSERT INTO encrypted_records(record_id, envelope) VALUES (?1, ?2)",
            ([marker; 16].as_slice(), envelope),
        )
        .expect("record");
}

#[test]
fn stored_rows_are_read_back_in_order() {
    let mut connection = vault();
    insert(&connection, 9, b"nine");
    insert(&connection, 2, b"two");
    let data = read(&mut connection).ok().expect("vault");
    assert_eq!(data.header, b"header".to_vec());
    assert_eq!(data.manifest, b"manifest".to_vec());
    assert_eq!(data.records.len(), 2);
    assert_eq!(data.records[0].id.as_bytes(), [2; 16]);
    assert_eq!(data.records[1].envelope, b"nine".to_vec());
}

#[test]
fn oversized_rows_are_refused() {
    let mut connection = vault();
    insert(&connection, 1, &[0; 17]);
    assert_eq!(
        read(&mut connection).err(),
        Some(StorageError::ResourceLimit)
    );
    let mut connection = vault();
    for marker in 1..=4 {
        insert(&connection, marker, b"x");
    }
    assert_eq!(read(&mut connection).err(), Some(StorageError::Schema));
    let mut connection = vault();
    connection
        .execute("UPDATE vault_header SET header = zeroblob(65)", [])
        .expect("header");
    assert_eq!(
        read(&mut connection).err(),
        Some(StorageError::ResourceLimit)
    );
    let short = RawRecord {
        record_id: vec![1; 15],
        envelope: Vec::new(),
    };
    assert!(matches!(
        read_encrypted_records(&vec![short], limits()),
        Err(StorageError::Schema)
    ));
}

#[test]
fn refused_steps_end_a_read() {
    let mut flow = VaultReadFlow::new();
    assert_eq!(
        flow.step(ReadEvent::Checked(Err(StorageError::Identity)), limits()),
        ReadAction::Finish
    );
    assert!(matches!(flow.finish(), Err(StorageError::Identity)));
    let mut flow = VaultReadFlow::new();
    assert_eq!(
        flow.step(ReadEvent::Opened(Ok(())), limits()),
        ReadAction::Finish
    );
    assert!(matches!(flow.finish(), Err(StorageError::Sqlite)));
    let mut flow = VaultReadFlow::new();
    flow.step(ReadEvent::Checked(Ok(())), limits());
    flow.step(ReadEvent::DatabaseHeader(None), limits());
    assert!(matches!(flow.finish(), Err(StorageError::Filesystem)));
}

// Changes

fn change(kind: RecordMutationKind, marker: u8, envelope: Option<&[u8]>) -> PreparedRecordMutation {
    PreparedRecordMutation {
        kind,
        id: RecordId::from_bytes([marker; 16]),
        envelope: envelope.map(<[u8]>::to_vec),
        manifest_envelope: b"next manifest".to_vec(),
    }
}

fn apply_row(connection: &Connection, mutation: &PreparedRecordMutation) -> u64 {
    let id = mutation.id.as_bytes();
    let affected = match mutation.kind {
        RecordMutationKind::Insert => connection.execute(
            "INSERT INTO encrypted_records(record_id, envelope) VALUES (?1, ?2)",
            (id.as_slice(), mutation.envelope.as_ref().expect("envelope")),
        ),
        RecordMutationKind::Update => connection.execute(
            "UPDATE encrypted_records SET envelope = ?2 WHERE record_id = ?1",
            (id.as_slice(), mutation.envelope.as_ref().expect("envelope")),
        ),
        RecordMutationKind::Delete => connection.execute(
            "DELETE FROM encrypted_records WHERE record_id = ?1",
            [id.as_slice()],
        ),
    };
    affected.expect("change") as u64
}

/// Runs a change against a database. A change that is not committed is rolled
/// back.
fn apply(
    connection: &Connection,
    expected: VaultData,
    mutation: PreparedRecordMutation,
    before_commit: impl Fn() -> Result<(), StorageError>,
) -> Result<(), StorageError> {
    let mut flow = RecordMutationFlow::apply_record_mutation(expected, mutation);
    let mut action = MutationAction::OpenDatabase;
    let mut transaction = false;
    loop {
        let event = match action {
            MutationAction::OpenDatabase => MutationEvent::Opened(Ok("wal".to_owned())),
            MutationAction::CheckIntegrity => {
                MutationEvent::Integrity(Ok(integrity(connection)))
            }
            MutationAction::InspectSchema => MutationEvent::Schema(Ok(schema(connection))),
            MutationAction::MatchPath | MutationAction::MatchPathAgain => {
                MutationEvent::Matched(Ok(()))
            }
            MutationAction::BeginAndRead => {
                connection
                    .execute_batch("BEGIN IMMEDIATE")
                    .expect("transaction");
                transaction = true;
                MutationEvent::Rows(Ok(rows(connection)))
            }
            MutationAction::ApplyRow => {
                MutationEvent::Affected(Ok(apply_row(connection, &flow.mutation)))
            }
            MutationAction::UpdateManifest => {
                let affected = connection
                    .execute(
                        "UPDATE vault_manifest SET envelope = ?1 WHERE singleton = 1",
                        [&flow.mutation.manifest_envelope],
                    )
                    .expect("manifest");
                MutationEvent::Affected(Ok(affected as u64))
            }
            MutationAction::BeforeCommit => MutationEvent::Asked(before_commit()),
            MutationAction::Commit => {
                connection.execute_batch("COMMIT").expect("commit");
                transaction = false;
                MutationEvent::Committed(Ok(()))
            }
            MutationAction::ReadCommitted => MutationEvent::Rows(Ok(rows(connection))),
            MutationAction::Finish => {
                if transaction {
                    connection.execute_batch("ROLLBACK").expect("rollback");
                }
                return flow.finish();
            }
        };
        action = flow.step(event);
    }
}

#[test]
fn changes_are_stored_with_their_manifest() {
    let connection = vault();
    insert(&connection, 5, b"five");
    for mutation in [
        change(RecordMutationKind::Insert, 3, Some(b"three")),
        change(RecordMutationKind::Update, 3, Some(b"THREE")),
        change(RecordMutationKind::Delete, 5, None),
    ] {
        assert_eq!(
            apply(&connection, rows(&connection), mutation, || Ok(())),
            Ok(())
        );
    }
    let stored = rows(&connection);
    assert_eq!(stored.manifest, b"next manifest".to_vec());
    assert_eq!(stored.records.len(), 1);
    assert_eq!(stored.records[0].envelope, b"THREE".to_vec());
}

#[test]
fn refused_commits_leave_the_rows_alone() {
    let connection = vault();
    insert(&connection, 5, b"five");
    assert_eq!(
        apply(
            &connection,
            rows(&connection),
            change(RecordMutationKind::Insert, 3, Some(b"three")),
            || Err(StorageError::Aborted)
        ),
        Err(StorageError::Aborted)
    );
    let stored = rows(&connection);
    assert_eq!(stored.manifest, b"manifest".to_vec());
    assert_eq!(stored.records.len(), 1);
}

#[test]
fn changes_of_other_rows_conflict() {
    let connection = vault();
    let expected = rows(&connection);
    insert(&connection, 5, b"five");
    assert_eq!(
        apply(
            &connection,
            expected,
            change(RecordMutationKind::Insert, 3, Some(b"three")),
            || Ok(())
        ),
        Err(StorageError::Conflict)
    );
    assert_eq!(
        apply(
            &connection,
            rows(&connection),
            change(RecordMutationKind::Update, 6, Some(b"six")),
            || Ok(())
        ),
        Err(StorageError::Conflict)
    );
    assert_eq!(
        apply(
            &connection,
            rows(&connection),
            change(RecordMutationKind::Insert, 6, None),
            || Ok(())
        ),
        Err(StorageError::Schema)
    );
    assert_eq!(rows(&connection).records.len(), 1);
}

#[test]
fn other_journals_are_refused() {
    let connection = vault();
    let mut flow = RecordMutationFlow::apply_record_mutation(
        rows(&connection),
        change(RecordMutationKind::Insert, 3, Some(b"three")),
    );
    assert_eq!(
        flow.step(MutationEvent::Opened(Ok("delete".to_owned()))),
        MutationAction::Finish
    );
    assert_eq!(flow.finish(), Err(StorageError::Schema));
}

/// Opens the bytes of a database that is not journalled by a log.
fn open_image(image: &[u8]) -> Connection {
    let mut plain = image.to_vec();
    plain[SQLITE_READ_VERSION_OFFSET] = 1;
    plain[SQLITE_WRITE_VERSION_OFFSET] = 1;
    let mut connection = Connection::open_in_memory().expect("database");
    connection
        .deserialize_read_exact(MAIN_DB, plain.as_slice(), plain.len(), true)
        .expect("image");
    connection
}

#[test]
fn new_images_hold_one_header_and_one_manifest() {
    let image = initialize_database(b"a header", b"a manifest").expect("image");
    let mut header = [0_u8; SQLITE_HEADER_BYTES];
    header.copy_from_slice(&image[..SQLITE_HEADER_BYTES]);
    assert_eq!(validate_wal_database_header(Some(header)), Ok(()));
    assert_eq!(&header[16..18], &[0x10, 0x00]);

    let connection = open_image(&image);
    assert_eq!(verify_application_schema(&schema(&connection)), Ok(()));
    let stored = |sql: &str| -> Vec<u8> {
        connection
            .query_row(sql, [], |row| row.get(0))
            .expect("stored row")
    };
    assert_eq!(stored("SELECT header FROM vault_header"), b"a header");
    assert_eq!(stored("SELECT envelope FROM vault_manifest"), b"a manifest");
    let count = |table: &str| -> i64 {
        connection
            .query_row(&format!("SELECT COUNT(*) FROM {table}"), [], |row| {
                row.get(0)
            })
            .expect("count")
    };
    assert_eq!(count("vault_header"), 1);
    assert_eq!(count("vault_manifest"), 1);
    assert_eq!(count("encrypted_records"), 0);
}

#[test]
fn images_differ_by_what_they_hold() {
    let image = |header: &[u8], manifest: &[u8]| initialize_database(header, manifest);
    let first = image(b"a", b"b");
    assert!(first.is_some());
    assert_eq!(first, image(b"a", b"b"));
    assert_ne!(first, image(b"c", b"b"));
    assert_ne!(first, image(b"a", b"c"));
}

#[test]
fn connections_are_bounded() {
    let mut connection = Connection::open_in_memory().expect("database");
    assert!(configure_limits(&mut connection).is_ok());
    let limit = |limit| connection.limit(limit).expect("limit");
    assert_eq!(limit(Limit::SQLITE_LIMIT_LENGTH), 8_454_144);
    assert_eq!(limit(Limit::SQLITE_LIMIT_SQL_LENGTH), 65_536);
    assert_eq!(limit(Limit::SQLITE_LIMIT_COLUMN), 16);
    assert_eq!(limit(Limit::SQLITE_LIMIT_EXPR_DEPTH), 32);
    assert_eq!(limit(Limit::SQLITE_LIMIT_COMPOUND_SELECT), 4);
    assert_eq!(limit(Limit::SQLITE_LIMIT_ATTACHED), 0);
}

#[test]
fn databases_are_initialized_once() {
    let mut connection = Connection::open_in_memory().expect("database");
    assert!(initialize_connection(&mut connection, b"h", b"m").is_ok());
    let pragma = |name: &str| -> i64 {
        connection
            .pragma_query_value(None, name, |row| row.get(0))
            .expect("pragma")
    };
    assert_eq!(pragma("page_size"), 4_096);
    assert_eq!(pragma("synchronous"), 2);
    assert_eq!(pragma("foreign_keys"), 1);
    assert_eq!(pragma("trusted_schema"), 0);
    assert_eq!(pragma("max_page_count"), 131_072);
    assert!(initialize_connection(&mut connection, b"h", b"m").is_err());
}

#[test]
fn tables_are_stored_as_they_are_written() {
    let stored: String = vault()
        .query_row(
            "SELECT sql FROM sqlite_schema WHERE name = 'vault_header'",
            [],
            |row| row.get(0),
        )
        .expect("schema text");
    assert_eq!(
        stored,
        "CREATE TABLE vault_header (\n            singleton INTEGER PRIMARY KEY CHECK \
         (singleton = 1),\n            header BLOB NOT NULL\n        ) STRICT"
    );
}
