//! What is believed of a vault database: its image, its files and its schema.

use vstd::prelude::*;

use crate::bytes::same_bytes;
use crate::errors::StorageError;
use crate::filesystem::{guarded_file_size, FileStamp};

verus! {

pub const MAX_SQLITE_ROW_BYTES: i32 = 8_454_144;

pub const MAX_PAGE_COUNT: u32 = 131_072;

pub const MAX_SQLITE_SHM_BYTES: u64 = 8_388_608;

pub const SQLITE_HEADER_BYTES: usize = 20;

pub const SQLITE_READ_VERSION_OFFSET: usize = 18;

pub const SQLITE_WRITE_VERSION_OFFSET: usize = 19;

pub const SQLITE_WAL_VERSION: u8 = 2;

pub const SQLITE_PAGE_BYTES: u32 = 4096;

pub const MAX_SQL_BYTES: i32 = 65_536;

pub const MAX_SQL_COLUMNS: i32 = 16;

pub const MAX_SQL_EXPRESSION_DEPTH: i32 = 32;

pub const MAX_SQL_COMPOUND_SELECTS: i32 = 4;

pub const MAX_SQL_ATTACHED_DATABASES: i32 = 0;

/// The statements that make the tables of a new vault.
pub const VAULT_SCHEMA: &'static str = "
        CREATE TABLE vault_header (
            singleton INTEGER PRIMARY KEY CHECK (singleton = 1),
            header BLOB NOT NULL
        ) STRICT;

        CREATE TABLE vault_manifest (
            singleton INTEGER PRIMARY KEY CHECK (singleton = 1),
            envelope BLOB NOT NULL
        ) STRICT;

        CREATE TABLE encrypted_records (
            record_id BLOB PRIMARY KEY NOT NULL CHECK (length(record_id) = 16),
            envelope BLOB NOT NULL
        ) STRICT, WITHOUT ROWID;
        ";

/// The limits that the vault format sets.
#[derive(Clone, Copy, Debug, PartialEq, Eq, Structural)]
pub struct FormatLimits {
    pub max_header_bytes: usize,
    pub max_manifest_envelope_bytes: usize,
    pub max_records: usize,
    pub max_record_envelope_bytes: usize,
    pub max_database_bytes: u64,
}

// Database image

/// The sixteen bytes that every database file starts with.
pub open spec fn sqlite_magic() -> Seq<u8> {
    vstd::utf8::encode_utf8("SQLite format 3\0"@)
}

/// Whether bytes start with the database magic and are long enough to carry
/// the format versions.
pub open spec fn is_database_image(image: Seq<u8>) -> bool {
    &&& image.len() >= SQLITE_HEADER_BYTES
    &&& image.take(16) == sqlite_magic()
}

/// A database image that is marked as journalled by a write-ahead log.
pub open spec fn marked_image(image: Seq<u8>) -> Seq<u8> {
    image.update(SQLITE_READ_VERSION_OFFSET as int, SQLITE_WAL_VERSION).update(
        SQLITE_WRITE_VERSION_OFFSET as int,
        SQLITE_WAL_VERSION,
    )
}

/// Whether a database file header names the write-ahead log as its journal.
pub open spec fn is_wal_header(header: Seq<u8>) -> bool {
    &&& header.len() >= SQLITE_HEADER_BYTES
    &&& header.take(16) == sqlite_magic()
    &&& header[SQLITE_READ_VERSION_OFFSET as int] == SQLITE_WAL_VERSION
    &&& header[SQLITE_WRITE_VERSION_OFFSET as int] == SQLITE_WAL_VERSION
}

/// Whether bytes start with the database magic.
fn starts_with_magic(bytes: &[u8]) -> (magic: bool)
    requires
        bytes@.len() >= 16,
    ensures
        magic == (bytes@.take(16) == sqlite_magic()),
{
    let expected = "SQLite format 3\0".as_bytes();
    let mut start: Vec<u8> = Vec::new();
    let mut index: usize = 0;
    while index < 16
        invariant
            index <= 16,
            bytes@.len() >= 16,
            start@ == bytes@.take(index as int),
        decreases 16 - index,
    {
        start.push(bytes[index]);
        index += 1;
        assert(start@ =~= bytes@.take(index as int));
    }
    same_bytes(&start, expected)
}

/// Marks a database image as journalled by a write-ahead log. Bytes that are
/// no database image stay as they are.
pub fn mark_database_image_as_wal(image: &mut Vec<u8>) -> (marked: bool)
    ensures
        marked == is_database_image(old(image)@),
        marked ==> final(image)@ == marked_image(old(image)@),
        !marked ==> final(image)@ == old(image)@,
{
    if image.len() < SQLITE_HEADER_BYTES || !starts_with_magic(image) {
        return false;
    }
    image.set(SQLITE_READ_VERSION_OFFSET, SQLITE_WAL_VERSION);
    image.set(SQLITE_WRITE_VERSION_OFFSET, SQLITE_WAL_VERSION);
    true
}

/// Whether a file starts with the header of a database that is journalled by a
/// write-ahead log. A header that cannot be read is none.
pub fn validate_wal_database_header(header: Option<[u8; 20]>) -> (valid: Result<
    (),
    StorageError,
>)
    ensures
        valid == (match header {
            None => Err::<(), StorageError>(StorageError::Filesystem),
            Some(header) => if is_wal_header(header@) {
                Ok(())
            } else {
                Err(StorageError::InvalidDatabaseHeader)
            },
        }),
{
    match header {
        None => Err(StorageError::Filesystem),
        Some(header) => {
            if starts_with_magic(&header) && header[SQLITE_READ_VERSION_OFFSET]
                == SQLITE_WAL_VERSION && header[SQLITE_WRITE_VERSION_OFFSET]
                == SQLITE_WAL_VERSION {
                Ok(())
            } else {
                Err(StorageError::InvalidDatabaseHeader)
            }
        },
    }
}

/// A marked image is accepted when its file is opened.
pub proof fn marked_image_is_accepted(image: Seq<u8>)
    requires
        is_database_image(image),
    ensures
        is_wal_header(marked_image(image).take(SQLITE_HEADER_BYTES as int)),
{
    assert(marked_image(image).take(SQLITE_HEADER_BYTES as int).take(16) =~= image.take(16));
}

// Files of a database

/// Whether the files of a database are together small enough to be read. The
/// sizes are none where a file cannot be asked.
pub fn validate_guarded_sqlite_input_sizes(
    database_bytes: Option<u64>,
    wal: Option<Option<FileStamp>>,
    shm: Option<Option<FileStamp>>,
    limits: FormatLimits,
) -> (valid: Result<(), StorageError>)
    ensures
        database_bytes is None ==> valid == Err::<(), StorageError>(StorageError::Filesystem),
        database_bytes is Some ==> {
            let wal_size = spec_file_size(wal, limits.max_database_bytes);
            let shm_size = spec_file_size(shm, MAX_SQLITE_SHM_BYTES);
            match (wal_size, shm_size) {
                (Err(error), _) => valid == Err::<(), StorageError>(error),
                (Ok(_), Err(error)) => valid == Err::<(), StorageError>(error),
                (Ok(wal_bytes), Ok(shm_bytes)) => valid == (if database_bytes->Some_0 + wal_bytes
                    + shm_bytes <= limits.max_database_bytes {
                    Ok::<(), StorageError>(())
                } else {
                    Err(StorageError::ResourceLimit)
                }),
            }
        },
{
    let database_bytes: u64 = match database_bytes {
        Some(bytes) => bytes,
        None => {
            return Err(StorageError::Filesystem);
        },
    };
    let wal_bytes: u64 = match guarded_file_size(wal, limits.max_database_bytes) {
        Ok(bytes) => bytes,
        Err(error) => {
            return Err(error);
        },
    };
    let shm_bytes: u64 = match guarded_file_size(shm, MAX_SQLITE_SHM_BYTES) {
        Ok(bytes) => bytes,
        Err(error) => {
            return Err(error);
        },
    };
    let both: u64 = match database_bytes.checked_add(wal_bytes) {
        Some(sum) => sum,
        None => {
            return Err(StorageError::ResourceLimit);
        },
    };
    match both.checked_add(shm_bytes) {
        Some(total) => if total > limits.max_database_bytes {
            Err(StorageError::ResourceLimit)
        } else {
            Ok(())
        },
        None => Err(StorageError::ResourceLimit),
    }
}

/// The size of an optional regular file of bounded length.
pub open spec fn spec_file_size(
    file: Option<Option<FileStamp>>,
    maximum_bytes: u64,
) -> Result<u64, StorageError> {
    match file {
        None => Ok(0),
        Some(None) => Err(StorageError::Filesystem),
        Some(Some(stamp)) => if !stamp.is_regular() {
            Err(StorageError::Identity)
        } else if stamp.length > maximum_bytes {
            Err(StorageError::ResourceLimit)
        } else {
            Ok(stamp.length)
        },
    }
}

/// Whether the files of a database still are what their paths name: the first
/// that is not decides.
pub fn validate_guarded_sqlite_input_paths(
    database: Result<(), StorageError>,
    wal: Result<(), StorageError>,
    shm: Result<(), StorageError>,
) -> (valid: Result<(), StorageError>)
    ensures
        valid == (if database is Err {
            database
        } else if wal is Err {
            wal
        } else {
            shm
        }),
{
    match database {
        Err(error) => Err(error),
        Ok(()) => match wal {
            Err(error) => Err(error),
            Ok(()) => shm,
        },
    }
}

// Schema

/// Whether a character separates words.
pub open spec fn is_space(c: char) -> bool {
    let code = c as u32;
    ||| 0x9 <= code <= 0xD
    ||| code == 0x20
    ||| code == 0x85
    ||| code == 0xA0
    ||| code == 0x1680
    ||| 0x2000 <= code <= 0x200A
    ||| code == 0x2028
    ||| code == 0x2029
    ||| code == 0x202F
    ||| code == 0x205F
    ||| code == 0x3000
}

fn space(c: char) -> (space: bool)
    ensures
        space == is_space(c),
{
    let code: u32 = c as u32;
    (0x9 <= code && code <= 0xD) || code == 0x20 || code == 0x85 || code == 0xA0 || code == 0x1680
        || (0x2000 <= code && code <= 0x200A) || code == 0x2028 || code == 0x2029 || code == 0x202F
        || code == 0x205F || code == 0x3000
}

/// The words of a text with one blank between them.
pub open spec fn single_spaced(text: Seq<char>) -> Seq<char>
    decreases text.len(),
{
    if text.len() == 0 {
        Seq::empty()
    } else {
        let before = single_spaced(text.drop_last());
        let c = text.last();
        if is_space(c) {
            before
        } else if before.len() > 0 && is_space(text[text.len() - 2]) {
            before.push(' ').push(c)
        } else {
            before.push(c)
        }
    }
}

/// Writes the words of a text with one blank between them.
pub fn write_single_spaced(text: &str) -> (words: Vec<char>)
    ensures
        words@ == single_spaced(text@),
{
    let mut words: Vec<char> = Vec::new();
    let mut gap = false;
    for c in iter: text.chars()
        invariant
            iter.seq() == text@,
            words@ == single_spaced(text@.take(iter.index() as int)),
            gap == (iter.index() > 0 && is_space(text@[iter.index() - 1])),
    {
        proof {
            let n = iter.index() as int;
            assert(text@.take(n + 1).drop_last() =~= text@.take(n));
            assert(text@.take(n + 1).last() == c);
        }
        if space(c) {
            gap = true;
        } else {
            if gap && words.len() > 0 {
                words.push(' ');
            }
            words.push(c);
            gap = false;
        }
    }
    assert(text@.take(text@.len() as int) =~= text@);
    words
}

/// Whether a list of characters spells a text.
fn spells(characters: &Vec<char>, text: &str) -> (same: bool)
    ensures
        same == (characters@ == text@),
{
    let mut expected: Vec<char> = Vec::new();
    for c in iter: text.chars()
        invariant
            iter.seq() == text@,
            expected@ == text@.take(iter.index() as int),
    {
        expected.push(c);
        assert(expected@ =~= text@.take(iter.index() as int + 1));
    }
    assert(expected@ =~= text@);
    if characters.len() != expected.len() {
        return false;
    }
    let mut index: usize = 0;
    while index < characters.len()
        invariant
            index <= characters.len(),
            characters.len() == expected.len(),
            expected@ == text@,
            forall|i: int| 0 <= i < index ==> characters[i] == expected[i],
        decreases characters.len() - index,
    {
        if characters[index] != expected[index] {
            return false;
        }
        index += 1;
    }
    assert(characters@ =~= expected@);
    true
}

/// Whether two texts are equal.
pub fn same_text(left: &str, right: &str) -> (same: bool)
    ensures
        same == (left@ == right@),
{
    left.to_owned() == right.to_owned()
}

/// One object of a database schema.
pub struct SchemaObject {
    pub kind: String,
    pub name: String,
}

/// What a database says of one of its tables.
pub struct TableDefinition {
    pub strict: u32,
    pub sql: String,
}

/// What a database says of its schema: every object, ordered by kind and name,
/// and the definitions of the three tables that a vault has.
pub struct SchemaRows {
    pub objects: Vec<SchemaObject>,
    pub encrypted_records: TableDefinition,
    pub vault_header: TableDefinition,
    pub vault_manifest: TableDefinition,
}

/// Whether a table is strict and defined by exactly these words.
pub open spec fn is_defined_as(table: TableDefinition, sql: Seq<char>) -> bool {
    table.strict == 1 && single_spaced(table.sql@) == sql
}

/// Whether an object is the table of a name.
pub open spec fn is_table_named(object: SchemaObject, name: Seq<char>) -> bool {
    object.kind@ == "table"@ && object.name@ == name
}

/// Whether a schema is that of a vault and nothing more.
pub open spec fn is_vault_schema(schema: SchemaRows) -> bool {
    &&& schema.objects@.len() == 3
    &&& is_table_named(schema.objects@[0], "encrypted_records"@)
    &&& is_table_named(schema.objects@[1], "vault_header"@)
    &&& is_table_named(schema.objects@[2], "vault_manifest"@)
    &&& is_defined_as(
        schema.encrypted_records,
        "CREATE TABLE encrypted_records ( record_id BLOB PRIMARY KEY NOT NULL CHECK (length(record_id) = 16), envelope BLOB NOT NULL ) STRICT, WITHOUT ROWID"@,
    )
    &&& is_defined_as(
        schema.vault_header,
        "CREATE TABLE vault_header ( singleton INTEGER PRIMARY KEY CHECK (singleton = 1), header BLOB NOT NULL ) STRICT"@,
    )
    &&& is_defined_as(
        schema.vault_manifest,
        "CREATE TABLE vault_manifest ( singleton INTEGER PRIMARY KEY CHECK (singleton = 1), envelope BLOB NOT NULL ) STRICT"@,
    )
}

fn table_named(object: &SchemaObject, name: &str) -> (named: bool)
    ensures
        named == is_table_named(*object, name@),
{
    same_text(object.kind.as_str(), "table") && same_text(object.name.as_str(), name)
}

fn defined_as(table: &TableDefinition, sql: &str) -> (defined: bool)
    ensures
        defined == is_defined_as(*table, sql@),
{
    table.strict == 1 && spells(&write_single_spaced(table.sql.as_str()), sql)
}

/// Accepts the schema of a vault and no other.
pub fn verify_application_schema(schema: &SchemaRows) -> (valid: Result<(), StorageError>)
    ensures
        valid == (if is_vault_schema(*schema) {
            Ok::<(), StorageError>(())
        } else {
            Err(StorageError::Schema)
        }),
{
    if schema.objects.len() == 3 && table_named(&schema.objects[0], "encrypted_records")
        && table_named(&schema.objects[1], "vault_header") && table_named(
        &schema.objects[2],
        "vault_manifest",
    ) && defined_as(
        &schema.encrypted_records,
        "CREATE TABLE encrypted_records ( record_id BLOB PRIMARY KEY NOT NULL CHECK (length(record_id) = 16), envelope BLOB NOT NULL ) STRICT, WITHOUT ROWID",
    ) && defined_as(
        &schema.vault_header,
        "CREATE TABLE vault_header ( singleton INTEGER PRIMARY KEY CHECK (singleton = 1), header BLOB NOT NULL ) STRICT",
    ) && defined_as(
        &schema.vault_manifest,
        "CREATE TABLE vault_manifest ( singleton INTEGER PRIMARY KEY CHECK (singleton = 1), envelope BLOB NOT NULL ) STRICT",
    ) {
        Ok(())
    } else {
        Err(StorageError::Schema)
    }
}

/// Accepts the one answer with which a database reports no damage.
pub fn verify_database_integrity(status: &str) -> (valid: Result<(), StorageError>)
    ensures
        valid == (if status@ == "ok"@ {
            Ok::<(), StorageError>(())
        } else {
            Err(StorageError::Integrity)
        }),
{
    if same_text(status, "ok") {
        Ok(())
    } else {
        Err(StorageError::Integrity)
    }
}

/// Whether a text holds words with single blanks between them and nothing else.
pub open spec fn is_single_spaced(text: Seq<char>) -> bool {
    &&& text.len() > 0 ==> !is_space(text[0]) && !is_space(text.last())
    &&& forall|i: int|
        #![trigger text[i]]
        0 < i < text.len() && is_space(text[i]) ==> text[i] == ' ' && !is_space(text[i - 1])
}

/// Writing words with one blank between them keeps every character of the words
/// in its order, and leaves single blanks between words and none elsewhere.
pub proof fn words_are_kept(text: Seq<char>)
    ensures
        is_single_spaced(single_spaced(text)),
        single_spaced(text).filter(|c: char| !is_space(c)) == text.filter(|c: char| !is_space(c)),
        text.len() > 0 && !is_space(text.last()) ==> single_spaced(text).len() > 0,
    decreases text.len(),
{
    let visible = |c: char| !is_space(c);
    reveal(Seq::filter);
    if text.len() > 0 {
        let front = text.drop_last();
        let before = single_spaced(front);
        let c = text.last();
        words_are_kept(front);
        if !is_space(c) {
            let after = single_spaced(text);
            if before.len() > 0 && is_space(text[text.len() - 2]) {
                let gap = before.push(' ');
                assert(gap.drop_last() =~= before);
                assert(gap.filter(visible) == before.filter(visible));
                assert(after.drop_last() =~= gap);
                assert(after == gap.push(c));
                assert(before[before.len() - 1] == before.last());
            } else {
                assert(after.drop_last() =~= before);
            }
            assert(after.filter(visible) == before.filter(visible).push(c));
            assert(after.last() == c);
        }
    }
}

/// A text that holds words with single blanks between them is written as it is,
/// so that writing twice is writing once.
pub proof fn single_spaced_texts_stay(text: Seq<char>)
    requires
        is_single_spaced(text),
    ensures
        single_spaced(text) == text,
    decreases text.len(),
{
    if text.len() > 0 {
        let n = text.len() as int;
        assert(text.last() == text[n - 1]);
        if n == 1 {
            assert(text.drop_last() =~= Seq::<char>::empty());
            assert(single_spaced(text.drop_last()) == Seq::<char>::empty());
            assert(single_spaced(text) =~= text);
        } else if is_space(text[n - 2]) {
            assert(text[n - 2] == ' ');
            assert(n >= 3);
            let words = text.take(n - 2);
            assert(!is_space(words.last()));
            assert forall|i: int|
                #![trigger words[i]]
                0 < i < words.len() && is_space(words[i]) implies words[i] == ' ' && !is_space(
                words[i - 1],
            ) by {
                assert(words[i] == text[i]);
            }
            single_spaced_texts_stay(words);
            let front = text.drop_last();
            assert(front.drop_last() =~= words);
            assert(front.last() == ' ');
            assert(single_spaced(front) == words);
            assert(single_spaced(text) =~= text);
        } else {
            let front = text.drop_last();
            assert forall|i: int|
                #![trigger front[i]]
                0 < i < front.len() && is_space(front[i]) implies front[i] == ' ' && !is_space(
                front[i - 1],
            ) by {
                assert(front[i] == text[i]);
            }
            single_spaced_texts_stay(front);
            assert(single_spaced(text) =~= text);
        }
    }
}

/// The files of a database are small enough exactly where those beside it are
/// regular files, the shared memory is within its own limit, and all of them
/// together are within the limit of the format.
pub proof fn files_within_the_limits_are_read(
    database_bytes: u64,
    wal: Option<FileStamp>,
    shm: Option<FileStamp>,
    limits: FormatLimits,
    valid: Result<(), StorageError>,
)
    requires
        call_ensures(
            validate_guarded_sqlite_input_sizes,
            (
                Some(database_bytes),
                (match wal {
                    Some(stamp) => Some(Some(stamp)),
                    None => None,
                }),
                (match shm {
                    Some(stamp) => Some(Some(stamp)),
                    None => None,
                }),
                limits,
            ),
            valid,
        ),
    ensures
        valid is Ok <==> {
            let wal_bytes = match wal {
                Some(stamp) => stamp.length as int,
                None => 0,
            };
            let shm_bytes = match shm {
                Some(stamp) => stamp.length as int,
                None => 0,
            };
            &&& wal matches Some(stamp) ==> stamp.is_file && !stamp.is_redirected
            &&& shm matches Some(stamp) ==> stamp.is_file && !stamp.is_redirected
            &&& shm_bytes <= MAX_SQLITE_SHM_BYTES
            &&& database_bytes + wal_bytes + shm_bytes <= limits.max_database_bytes
        },
{
}

/// Words are separated by what Unicode counts as white space, and by nothing
/// else.
pub proof fn words_are_separated_by_white_space(c: char)
    ensures
        is_space(c) <==> {
            ||| c == '\t' || c == '\n' || c == '\u{b}' || c == '\u{c}' || c == '\r' || c == ' '
            ||| c == '\u{85}' || c == '\u{a0}' || c == '\u{1680}'
            ||| '\u{2000}' <= c <= '\u{200a}'
            ||| c == '\u{2028}' || c == '\u{2029}' || c == '\u{202f}' || c == '\u{205f}'
            ||| c == '\u{3000}'
        },
{
}

/// A schema is accepted only where it has the three tables of a vault and
/// nothing besides, all of them strict; how its statements are spaced does not
/// matter.
pub proof fn only_vault_schemas_are_accepted(
    schema: SchemaRows,
    respaced: SchemaRows,
    valid: Result<(), StorageError>,
    still: Result<(), StorageError>,
)
    requires
        call_ensures(verify_application_schema, (&schema,), valid),
        call_ensures(verify_application_schema, (&respaced,), still),
    ensures
        valid is Ok ==> {
            &&& schema.objects@.len() == 3
            &&& forall|i: int| 0 <= i < 3 ==> (#[trigger] schema.objects@[i]).kind@ == "table"@
            &&& schema.objects@[0].name@ == "encrypted_records"@
            &&& schema.objects@[1].name@ == "vault_header"@
            &&& schema.objects@[2].name@ == "vault_manifest"@
            &&& schema.encrypted_records.strict == 1
            &&& schema.vault_header.strict == 1
            &&& schema.vault_manifest.strict == 1
            &&& single_spaced(schema.encrypted_records.sql@)
                == "CREATE TABLE encrypted_records ( record_id BLOB PRIMARY KEY NOT NULL CHECK (length(record_id) = 16), envelope BLOB NOT NULL ) STRICT, WITHOUT ROWID"@
            &&& single_spaced(schema.vault_header.sql@)
                == "CREATE TABLE vault_header ( singleton INTEGER PRIMARY KEY CHECK (singleton = 1), header BLOB NOT NULL ) STRICT"@
            &&& single_spaced(schema.vault_manifest.sql@)
                == "CREATE TABLE vault_manifest ( singleton INTEGER PRIMARY KEY CHECK (singleton = 1), envelope BLOB NOT NULL ) STRICT"@
        },
        respaced.objects == schema.objects && respaced.encrypted_records.strict
            == schema.encrypted_records.strict && respaced.vault_header.strict
            == schema.vault_header.strict && respaced.vault_manifest.strict
            == schema.vault_manifest.strict && single_spaced(respaced.encrypted_records.sql@)
            == single_spaced(schema.encrypted_records.sql@) && single_spaced(
            respaced.vault_header.sql@,
        ) == single_spaced(schema.vault_header.sql@) && single_spaced(respaced.vault_manifest.sql@)
            == single_spaced(schema.vault_manifest.sql@) ==> (still is Ok <==> valid is Ok),
{
}

/// The files of a database are all still what their paths name, or they are not
/// read.
pub proof fn every_file_must_still_be_named(
    database: Result<(), StorageError>,
    wal: Result<(), StorageError>,
    shm: Result<(), StorageError>,
    valid: Result<(), StorageError>,
)
    requires
        call_ensures(validate_guarded_sqlite_input_paths, (database, wal, shm), valid),
    ensures
        valid is Ok <==> database is Ok && wal is Ok && shm is Ok,
        valid matches Err(error) ==> {
            ||| database is Err && error == database->Err_0
            ||| database is Ok && wal is Err && error == wal->Err_0
            ||| database is Ok && wal is Ok && error == shm->Err_0
        },
{
}

} // verus!
