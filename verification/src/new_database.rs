//! The database image of a new vault.

use rusqlite::config::DbConfig;
use rusqlite::limits::Limit;
use rusqlite::Connection;
use vstd::prelude::*;

use crate::sqlite::{
    mark_database_image_as_wal, MAX_PAGE_COUNT, MAX_SQLITE_ROW_BYTES, MAX_SQL_ATTACHED_DATABASES,
    MAX_SQL_BYTES, MAX_SQL_COLUMNS, MAX_SQL_COMPOUND_SELECTS, MAX_SQL_EXPRESSION_DEPTH,
    SQLITE_PAGE_BYTES, VAULT_SCHEMA,
};

verus! {

/// A connection to a database.
#[verifier::external_type_specification]
#[verifier::external_body]
pub struct ExConnection(rusqlite::Connection);

/// Why the database engine refused something.
#[verifier::external_type_specification]
#[verifier::external_body]
pub struct ExDatabaseError(rusqlite::Error);

/// What the engine bounds while it runs a statement.
#[derive(Clone, Copy, Debug, PartialEq, Eq, Structural)]
pub enum SqlLimit {
    RowBytes,
    StatementBytes,
    Columns,
    ExpressionDepth,
    CompoundSelects,
    AttachedDatabases,
}

/// Something that was done to a database.
pub enum DatabaseStep {
    /// A bound was set.
    Limit { limit: SqlLimit, value: int },
    /// The guard against statements that damage the file was switched.
    Defensive(bool),
    /// A pragma was given a number.
    Pragma { name: Seq<char>, value: int },
    /// Statements without parameters were run.
    Batch(Seq<char>),
    /// A statement with one blob as its parameter was run.
    Statement { sql: Seq<char>, blob: Seq<u8> },
}

/// A step that the engine was asked for, and whether it took it.
pub struct AskedStep {
    pub step: DatabaseStep,
    pub taken: bool,
}

/// What this module asked for on a connection that it opened, in order. The
/// past of a connection that was opened elsewhere is another one.
pub uninterp spec fn asked_of(connection: Connection) -> Seq<AskedStep>;

/// The bytes of a database in memory that took exactly the steps of a creation
/// with this header and this manifest since it was opened.
pub uninterp spec fn image_of(header: Seq<u8>, manifest: Seq<u8>) -> Seq<u8>;

/// Steps that were all taken.
pub open spec fn all_taken(steps: Seq<DatabaseStep>) -> Seq<AskedStep> {
    Seq::new(steps.len(), |i: int| AskedStep { step: steps[i], taken: true })
}

/// Whether a connection was asked for one more step.
pub open spec fn asked(
    before: Connection,
    after: Connection,
    step: DatabaseStep,
    taken: bool,
) -> bool {
    asked_of(after) == asked_of(before).push(AskedStep { step, taken })
}

/// Whether the first `place` steps were asked for and taken, and the one at
/// `place` was asked for and refused.
pub open spec fn refused_at(
    before: Connection,
    after: Connection,
    steps: Seq<DatabaseStep>,
    place: int,
) -> bool {
    &&& 0 <= place < steps.len()
    &&& asked_of(after) == asked_of(before) + all_taken(steps.take(place)).push(
        AskedStep { step: steps[place], taken: false },
    )
}

/// Whether steps were asked for in order, up to the last one or up to the first
/// one that the engine refused.
pub open spec fn ran(
    before: Connection,
    after: Connection,
    steps: Seq<DatabaseStep>,
    to_the_end: bool,
) -> bool {
    if to_the_end {
        asked_of(after) == asked_of(before) + all_taken(steps)
    } else {
        exists|place: int| refused_at(before, after, steps, place)
    }
}

/// `rusqlite::Connection::open_in_memory`. A database that it opens is new:
/// it was asked for nothing. Nothing is said of whether one can be opened.
#[verifier::external_body]
fn open_in_memory() -> (opened: Result<Connection, rusqlite::Error>)
    ensures
        opened matches Ok(connection) ==> asked_of(connection) == Seq::<AskedStep>::empty(),
{
    Connection::open_in_memory()
}

/// `rusqlite::Connection::set_limit`. The engine takes every bound that is not
/// negative; of the bound that it had before nothing is said.
#[verifier::external_body]
fn set_limit(connection: &mut Connection, limit: SqlLimit, value: i32) -> (set: Result<
    i32,
    rusqlite::Error,
>)
    ensures
        set is Ok <==> value >= 0,
        asked(
            *old(connection),
            *final(connection),
            (DatabaseStep::Limit { limit, value: value as int }),
            set is Ok,
        ),
{
    let limit = match limit {
        SqlLimit::RowBytes => Limit::SQLITE_LIMIT_LENGTH,
        SqlLimit::StatementBytes => Limit::SQLITE_LIMIT_SQL_LENGTH,
        SqlLimit::Columns => Limit::SQLITE_LIMIT_COLUMN,
        SqlLimit::ExpressionDepth => Limit::SQLITE_LIMIT_EXPR_DEPTH,
        SqlLimit::CompoundSelects => Limit::SQLITE_LIMIT_COMPOUND_SELECT,
        SqlLimit::AttachedDatabases => Limit::SQLITE_LIMIT_ATTACHED,
    };
    connection.set_limit(limit, value)
}

/// `rusqlite::Connection::set_db_config` for the defensive flag. The engine
/// always switches it, and answers with what it is now.
#[verifier::external_body]
fn set_defensive(connection: &mut Connection, on: bool) -> (set: Result<bool, rusqlite::Error>)
    ensures
        set is Ok && set->Ok_0 == on,
        asked(*old(connection), *final(connection), DatabaseStep::Defensive(on), true),
{
    connection.set_db_config(DbConfig::SQLITE_DBCONFIG_DEFENSIVE, on)
}

/// `rusqlite::Connection::pragma_update` with a number. A success means that
/// the pragma was run with that number. Nothing is said of when it succeeds.
#[verifier::external_body]
fn pragma_update(connection: &mut Connection, name: &str, value: u32) -> (updated: Result<
    (),
    rusqlite::Error,
>)
    ensures
        asked(
            *old(connection),
            *final(connection),
            (DatabaseStep::Pragma { name: name@, value: value as int }),
            updated is Ok,
        ),
{
    connection.pragma_update(None, name, value)
}

/// `rusqlite::Connection::execute_batch`. A success means that all statements
/// of the text were run. Nothing is said of when it succeeds.
#[verifier::external_body]
fn execute_batch(connection: &mut Connection, sql: &str) -> (run: Result<(), rusqlite::Error>)
    ensures
        asked(*old(connection), *final(connection), DatabaseStep::Batch(sql@), run is Ok),
{
    connection.execute_batch(sql)
}

/// `rusqlite::Connection::execute` with one blob as the parameter. A success
/// means that the statement was run with it. Nothing is said of when it
/// succeeds, nor of how many rows it changed.
#[verifier::external_body]
fn execute(connection: &mut Connection, sql: &str, blob: &[u8]) -> (run: Result<
    usize,
    rusqlite::Error,
>)
    ensures
        asked(
            *old(connection),
            *final(connection),
            (DatabaseStep::Statement { sql: sql@, blob: blob@ }),
            run is Ok,
        ),
{
    connection.execute(sql, (blob,))
}

/// `rusqlite::Connection::serialize` for the main database of a connection that
/// took the steps of a creation and was asked for nothing else. A success gives
/// the bytes that the database has after them: these steps name nothing but the
/// header and the manifest, so the bytes depend on those alone. Of a connection
/// with any other past nothing is said, nor of when it succeeds.
#[verifier::external_body]
fn serialize(connection: Connection) -> (image: Result<Vec<u8>, rusqlite::Error>)
    ensures
        forall|header: Seq<u8>, manifest: Seq<u8>|
            image is Ok && asked_of(connection) == all_taken(
                #[trigger] creation_steps(header, manifest),
            ) ==> image->Ok_0@ == image_of(header, manifest),
{
    let mut connection = connection;
    Ok(connection.serialize(rusqlite::MAIN_DB)?.to_vec())
}

/// Whether this is what came of opening a database in memory.
pub closed spec fn was_opened(opened: Result<Connection, rusqlite::Error>) -> bool {
    call_ensures(open_in_memory, (), opened)
}

/// Whether this is what came of asking a connection for its bytes.
pub closed spec fn was_serialized(
    connection: Connection,
    image: Result<Vec<u8>, rusqlite::Error>,
) -> bool {
    call_ensures(serialize, (connection,), image)
}

/// The bounds of every connection to a vault's database.
pub open spec fn limit_steps() -> Seq<DatabaseStep> {
    seq![
        DatabaseStep::Limit { limit: SqlLimit::RowBytes, value: MAX_SQLITE_ROW_BYTES as int },
        DatabaseStep::Limit { limit: SqlLimit::StatementBytes, value: MAX_SQL_BYTES as int },
        DatabaseStep::Limit { limit: SqlLimit::Columns, value: MAX_SQL_COLUMNS as int },
        DatabaseStep::Limit {
            limit: SqlLimit::ExpressionDepth,
            value: MAX_SQL_EXPRESSION_DEPTH as int,
        },
        DatabaseStep::Limit {
            limit: SqlLimit::CompoundSelects,
            value: MAX_SQL_COMPOUND_SELECTS as int,
        },
        DatabaseStep::Limit {
            limit: SqlLimit::AttachedDatabases,
            value: MAX_SQL_ATTACHED_DATABASES as int,
        },
    ]
}

/// A pragma with its number.
pub open spec fn pragma(name: &str, value: int) -> DatabaseStep {
    DatabaseStep::Pragma { name: name@, value }
}

/// What turns an empty database into that of a new vault: its settings, its
/// tables, and one row each for the header and the manifest, written at once.
pub open spec fn creation_steps(header: Seq<u8>, manifest: Seq<u8>) -> Seq<DatabaseStep> {
    limit_steps() + seq![
        DatabaseStep::Defensive(true),
        pragma("page_size", SQLITE_PAGE_BYTES as int),
        pragma("synchronous", SYNCHRONOUS_FULL as int),
        pragma("foreign_keys", 1),
        pragma("trusted_schema", 0),
        pragma("max_page_count", MAX_PAGE_COUNT as int),
        DatabaseStep::Batch(VAULT_SCHEMA@),
        DatabaseStep::Batch("BEGIN IMMEDIATE"@),
        DatabaseStep::Statement { sql: INSERT_HEADER@, blob: header },
        DatabaseStep::Statement { sql: INSERT_MANIFEST@, blob: manifest },
        DatabaseStep::Batch("COMMIT"@),
    ]
}

/// The engine's number for syncing at every commit.
pub const SYNCHRONOUS_FULL: u32 = 2;

pub const INSERT_HEADER: &'static str =
    "INSERT INTO vault_header(singleton, header) VALUES (1, ?1)";

pub const INSERT_MANIFEST: &'static str =
    "INSERT INTO vault_manifest(singleton, envelope) VALUES (1, ?1)";

proof fn one_step_further(
    start: Connection,
    before: Connection,
    after: Connection,
    steps: Seq<DatabaseStep>,
    place: int,
    taken: bool,
)
    requires
        0 <= place < steps.len(),
        asked_of(before) == asked_of(start) + all_taken(steps.take(place)),
        asked(before, after, steps[place], taken),
    ensures
        taken ==> asked_of(after) == asked_of(start) + all_taken(steps.take(place + 1)),
        !taken ==> ran(start, after, steps, false),
{
    if taken {
        assert(all_taken(steps.take(place + 1)) =~= all_taken(steps.take(place)).push(
            AskedStep { step: steps[place], taken: true },
        ));
        assert(asked_of(after) =~= asked_of(start) + all_taken(steps.take(place + 1)));
    } else {
        assert(asked_of(after) =~= asked_of(start) + all_taken(steps.take(place)).push(
            AskedStep { step: steps[place], taken: false },
        ));
        assert(refused_at(start, after, steps, place));
    }
}

/// Bounds what statements on a connection can ask of the engine. No bound is
/// ever refused.
pub fn configure_limits(connection: &mut Connection) -> (configured: Result<(), rusqlite::Error>)
    ensures
        configured is Ok,
        ran(*old(connection), *final(connection), limit_steps(), true),
{
    set_limit(connection, SqlLimit::RowBytes, MAX_SQLITE_ROW_BYTES)?;
    set_limit(connection, SqlLimit::StatementBytes, MAX_SQL_BYTES)?;
    set_limit(connection, SqlLimit::Columns, MAX_SQL_COLUMNS)?;
    set_limit(connection, SqlLimit::ExpressionDepth, MAX_SQL_EXPRESSION_DEPTH)?;
    set_limit(connection, SqlLimit::CompoundSelects, MAX_SQL_COMPOUND_SELECTS)?;
    set_limit(connection, SqlLimit::AttachedDatabases, MAX_SQL_ATTACHED_DATABASES)?;
    assert(asked_of(*connection) =~= asked_of(*old(connection)) + all_taken(limit_steps()));
    Ok(())
}

/// Turns an empty database into that of a new vault. The steps are asked for one
/// after the other; the first one that the engine refuses is the last one.
pub fn initialize_connection(
    connection: &mut Connection,
    header: &[u8],
    manifest: &[u8],
) -> (initialized: Result<(), rusqlite::Error>)
    ensures
        ran(
            *old(connection),
            *final(connection),
            creation_steps(header@, manifest@),
            initialized is Ok,
        ),
{
    let ghost start = *connection;
    let ghost steps = creation_steps(header@, manifest@);
    configure_limits(connection)?;
    let ghost before = *connection;
    set_defensive(connection, true)?;
    proof {
        assert(limit_steps() =~= steps.take(6));
        one_step_further(start, before, *connection, steps, 6, true);
    }
    let ghost before = *connection;
    let answer = pragma_update(connection, "page_size", SQLITE_PAGE_BYTES);
    proof {
        one_step_further(start, before, *connection, steps, 7, answer is Ok);
    }
    if let Err(error) = answer {
        return Err(error);
    }
    let ghost before = *connection;
    let answer = pragma_update(connection, "synchronous", SYNCHRONOUS_FULL);
    proof {
        one_step_further(start, before, *connection, steps, 8, answer is Ok);
    }
    if let Err(error) = answer {
        return Err(error);
    }
    let ghost before = *connection;
    let answer = pragma_update(connection, "foreign_keys", 1);
    proof {
        one_step_further(start, before, *connection, steps, 9, answer is Ok);
    }
    if let Err(error) = answer {
        return Err(error);
    }
    let ghost before = *connection;
    let answer = pragma_update(connection, "trusted_schema", 0);
    proof {
        one_step_further(start, before, *connection, steps, 10, answer is Ok);
    }
    if let Err(error) = answer {
        return Err(error);
    }
    let ghost before = *connection;
    let answer = pragma_update(connection, "max_page_count", MAX_PAGE_COUNT);
    proof {
        one_step_further(start, before, *connection, steps, 11, answer is Ok);
    }
    if let Err(error) = answer {
        return Err(error);
    }
    let ghost before = *connection;
    let answer = execute_batch(connection, VAULT_SCHEMA);
    proof {
        one_step_further(start, before, *connection, steps, 12, answer is Ok);
    }
    if let Err(error) = answer {
        return Err(error);
    }
    let ghost before = *connection;
    let answer = execute_batch(connection, "BEGIN IMMEDIATE");
    proof {
        one_step_further(start, before, *connection, steps, 13, answer is Ok);
    }
    if let Err(error) = answer {
        return Err(error);
    }
    let ghost before = *connection;
    let answer = execute(connection, INSERT_HEADER, header);
    proof {
        one_step_further(start, before, *connection, steps, 14, answer is Ok);
    }
    if let Err(error) = answer {
        return Err(error);
    }
    let ghost before = *connection;
    let answer = execute(connection, INSERT_MANIFEST, manifest);
    proof {
        one_step_further(start, before, *connection, steps, 15, answer is Ok);
    }
    if let Err(error) = answer {
        return Err(error);
    }
    let ghost before = *connection;
    let answer = execute_batch(connection, "COMMIT");
    proof {
        one_step_further(start, before, *connection, steps, 16, answer is Ok);
    }
    proof {
        assert(steps.take(17) =~= steps);
    }
    answer
}

/// The image that is written to a file, of the bytes of a database that took
/// the steps of a creation.
pub open spec fn image_from(
    serialized: Result<Vec<u8>, rusqlite::Error>,
    header: Seq<u8>,
    manifest: Seq<u8>,
    image: Option<Vec<u8>>,
) -> bool {
    let plain = image_of(header, manifest);
    match serialized {
        Err(_) => image is None,
        Ok(bytes) => {
            &&& bytes@ == plain
            &&& image is Some <==> crate::sqlite::is_database_image(plain)
            &&& image matches Some(marked) ==> marked@ == crate::sqlite::marked_image(plain)
        },
    }
}

/// The image of the database of a new vault, ready to be written to a file: the
/// bytes of an empty database after the steps of a creation, marked as
/// journalled by a write-ahead log. There is none only where the engine opens no
/// database, refuses a step, gives no bytes, or gives bytes that are no database.
pub fn initialize_database(header: &[u8], manifest: &[u8]) -> (image: Option<Vec<u8>>)
    ensures
        exists|opened: Result<Connection, rusqlite::Error>| #[trigger]
            was_opened(opened) && match opened {
                Err(_) => image is None,
                Ok(connection) => exists|filled: Connection, to_the_end: bool|
                    {
                        &&& #[trigger] ran(
                            connection,
                            filled,
                            creation_steps(header@, manifest@),
                            to_the_end,
                        )
                        &&& !to_the_end ==> image is None
                        &&& to_the_end ==> exists|
                            serialized: Result<Vec<u8>, rusqlite::Error>,
                        | #[trigger]
                            was_serialized(filled, serialized) && image_from(
                                serialized,
                                header@,
                                manifest@,
                                image,
                            )
                    },
            },
{
    let ghost steps = creation_steps(header@, manifest@);
    let opened = open_in_memory();
    assert(was_opened(opened));
    let mut connection = match opened {
        Ok(connection) => connection,
        Err(_) => {
            return None;
        },
    };
    let ghost empty = connection;
    if initialize_connection(&mut connection, header, manifest).is_err() {
        assert(ran(empty, connection, steps, false));
        return None;
    }
    assert(ran(empty, connection, steps, true));
    assert(Seq::<AskedStep>::empty() + all_taken(steps) =~= all_taken(steps));
    let ghost filled = connection;
    let serialized = serialize(connection);
    assert(was_serialized(filled, serialized));
    match serialized {
        Ok(bytes) => {
            let mut image = bytes;
            if mark_database_image_as_wal(&mut image) {
                assert(image_from(serialized, header@, manifest@, Some(image)));
                Some(image)
            } else {
                assert(image_from(serialized, header@, manifest@, None));
                None
            }
        },
        Err(_) => None,
    }
}

/// A new vault is written in one transaction behind every setting: all bounds
/// come before anything is run, the tables before the transaction, and header
/// and manifest are the two statements in it, each written once.
pub proof fn vaults_are_written_in_one_transaction(header: Seq<u8>, manifest: Seq<u8>)
    ensures
        ({
            let steps = creation_steps(header, manifest);
            &&& steps.len() == 17
            &&& forall|i: int|
                0 <= i < 17 ==> (#[trigger] steps[i] is Limit <==> i < 6) && (steps[i] is Statement
                    <==> i == 14 || i == 15)
            &&& steps[6] == DatabaseStep::Defensive(true)
            &&& steps[12] == DatabaseStep::Batch(VAULT_SCHEMA@)
            &&& steps[13] == DatabaseStep::Batch("BEGIN IMMEDIATE"@)
            &&& steps[14]->blob == header && steps[15]->blob == manifest
            &&& steps[16] == DatabaseStep::Batch("COMMIT"@)
        }),
{
    let steps = creation_steps(header, manifest);
    assert(limit_steps().len() == 6);
    assert forall|i: int| 0 <= i < 17 implies (#[trigger] steps[i] is Limit <==> i < 6) && (steps[i]
        is Statement <==> i == 14 || i == 15) by {
        if i < 6 {
            assert(steps[i] == limit_steps()[i]);
        }
    }
}

/// Two vaults are written by the same steps only where they are the same.
pub proof fn creations_tell_vaults_apart(
    header: Seq<u8>,
    manifest: Seq<u8>,
    other_header: Seq<u8>,
    other_manifest: Seq<u8>,
)
    requires
        creation_steps(header, manifest) == creation_steps(other_header, other_manifest),
    ensures
        header == other_header,
        manifest == other_manifest,
{
    vaults_are_written_in_one_transaction(header, manifest);
    vaults_are_written_in_one_transaction(other_header, other_manifest);
}

} // verus!
