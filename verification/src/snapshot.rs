//! Private copies of database files, which are read in place of the files
//! themselves.

use vstd::prelude::*;

use crate::bytes::copy_bytes;
use crate::errors::StorageError;
use crate::random::name_entropy;
use crate::storage::{CreateAttempt, MAX_STAGING_ATTEMPTS};
use crate::text::push_hex;

verus! {

/// The name of a snapshot directory: the random bytes as one number, the last
/// byte being the highest, in hexadecimal digits.
pub open spec fn snapshot_directory_name(random: Seq<u8>) -> Seq<u8> {
    vstd::utf8::encode_utf8("librarian-vault-snapshot-"@) + crate::text::hex(random.reverse())
}

/// Writes the name of a snapshot directory.
pub fn write_snapshot_directory_name(random: &[u8; 16]) -> (name: Vec<u8>)
    ensures
        name@ == snapshot_directory_name(random@),
{
    let mut reversed: Vec<u8> = Vec::new();
    let mut index: usize = 16;
    while index > 0
        invariant
            index <= 16,
            reversed@.len() == 16 - index,
            forall|i: int| 0 <= i < 16 - index ==> reversed@[i] == random@[15 - i],
        decreases index,
    {
        index -= 1;
        reversed.push(random[index]);
    }
    assert(reversed@ =~= random@.reverse());
    let mut name = copy_bytes("librarian-vault-snapshot-".as_bytes());
    push_hex(&mut name, &reversed);
    name
}

/// Tries one name for a snapshot directory. A name that is taken gives nothing.
pub fn try_snapshot_directory<F>(
    random: Option<[u8; 16]>,
    create: &F,
) -> (tried: Result<Option<Vec<u8>>, StorageError>) where F: Fn(&Vec<u8>) -> CreateAttempt
    requires
        forall|name: &Vec<u8>| call_requires(*create, (name,)),
    ensures
        random is None ==> tried == Err::<Option<Vec<u8>>, StorageError>(StorageError::Randomness),
        random is Some ==> exists|name: Vec<u8>, attempt: CreateAttempt|
            name@ == snapshot_directory_name(random->Some_0@) && #[trigger] call_ensures(
                *create,
                (&name,),
                attempt,
            ) && match attempt {
                CreateAttempt::Created => tried == Ok::<Option<Vec<u8>>, StorageError>(Some(name)),
                CreateAttempt::AlreadyExists => tried == Ok::<Option<Vec<u8>>, StorageError>(None),
                CreateAttempt::Failed => tried == Err::<Option<Vec<u8>>, StorageError>(
                    StorageError::Filesystem,
                ),
            },
{
    let random = match random {
        Some(random) => random,
        None => {
            return Err(StorageError::Randomness);
        },
    };
    let name = write_snapshot_directory_name(&random);
    match create(&name) {
        CreateAttempt::Created => Ok(Some(name)),
        CreateAttempt::AlreadyExists => Ok(None),
        CreateAttempt::Failed => Err(StorageError::Filesystem),
    }
}

/// Whether a snapshot directory was asked for under this name, with this
/// outcome, and the name was made of random bytes that the system gave.
pub open spec fn was_tried<F>(create: F, name: Vec<u8>, attempt: CreateAttempt) -> bool where
    F: Fn(&Vec<u8>) -> CreateAttempt,
 {
    &&& call_ensures(create, (&name,), attempt)
    &&& exists|random: [u8; 16]| #[trigger]
        call_ensures(name_entropy, (), Some(random)) && name@ == snapshot_directory_name(random@)
}

/// Creates a private directory under the first of a bounded number of random
/// names that is free. It is given up only where every one of them was taken.
pub fn reserve_sqlite_snapshot_directory<F>(
    create: F,
) -> (reserved: Result<Vec<u8>, StorageError>) where F: Fn(&Vec<u8>) -> CreateAttempt
    requires
        forall|name: &Vec<u8>| call_requires(create, (name,)),
    ensures
        match reserved {
            Ok(name) => was_tried(create, name, CreateAttempt::Created),
            Err(StorageError::Randomness) => call_ensures(name_entropy, (), None),
            Err(StorageError::Filesystem) => exists|name: Vec<u8>| #[trigger]
                was_tried(create, name, CreateAttempt::Failed),
            Err(StorageError::Snapshot) => exists|taken: Seq<Vec<u8>>|
                #![trigger taken.len()]
                taken.len() == MAX_STAGING_ATTEMPTS && forall|i: int|
                    #![trigger taken[i]]
                    0 <= i < taken.len() ==> was_tried(
                        create,
                        taken[i],
                        CreateAttempt::AlreadyExists,
                    ),
            Err(_) => false,
        },
{
    let ghost mut taken = Seq::<Vec<u8>>::empty();
    let mut attempt: u64 = 0;
    while attempt < MAX_STAGING_ATTEMPTS
        invariant
            attempt <= MAX_STAGING_ATTEMPTS,
            forall|name: &Vec<u8>| call_requires(create, (name,)),
            taken.len() == attempt,
            forall|i: int|
                #![trigger taken[i]]
                0 <= i < taken.len() ==> was_tried(
                    create,
                    taken[i],
                    CreateAttempt::AlreadyExists,
                ),
        decreases MAX_STAGING_ATTEMPTS - attempt,
    {
        let random = name_entropy();
        let tried = try_snapshot_directory(random, &create);
        proof {
            if random is Some {
                let (name, outcome) = choose|name: Vec<u8>, outcome: CreateAttempt|
                    name@ == snapshot_directory_name(random->Some_0@) && #[trigger] call_ensures(
                        create,
                        (&name,),
                        outcome,
                    ) && match outcome {
                        CreateAttempt::Created => tried == Ok::<Option<Vec<u8>>, StorageError>(
                            Some(name),
                        ),
                        CreateAttempt::AlreadyExists => tried == Ok::<
                            Option<Vec<u8>>,
                            StorageError,
                        >(None),
                        CreateAttempt::Failed => tried == Err::<Option<Vec<u8>>, StorageError>(
                            StorageError::Filesystem,
                        ),
                    };
                assert(call_ensures(name_entropy, (), Some(random->Some_0)));
                assert(was_tried(create, name, outcome));
                if outcome is AlreadyExists {
                    taken = taken.push(name);
                }
            }
        }
        match tried {
            Ok(Some(name)) => {
                return Ok(name);
            },
            Ok(None) => {},
            Err(error) => {
                return Err(error);
            },
        }
        attempt += 1;
    }
    Err(StorageError::Snapshot)
}

/// Whether a copy holds as many bytes as its source announced.
pub fn accept_snapshot_copy(
    expected_bytes: u64,
    copied_bytes: u64,
) -> (accepted: Result<(), StorageError>)
    ensures
        accepted == (if copied_bytes == expected_bytes {
            Ok::<(), StorageError>(())
        } else {
            Err(StorageError::Snapshot)
        }),
{
    if copied_bytes == expected_bytes {
        Ok(())
    } else {
        Err(StorageError::Snapshot)
    }
}

/// Whether a snapshot is complete: the database was copied, and so was its log
/// if it has one.
pub fn accept_snapshot(
    database: Result<(), StorageError>,
    wal: Option<Result<(), StorageError>>,
) -> (accepted: Result<(), StorageError>)
    ensures
        accepted == (if database is Ok && (wal is Some ==> wal->Some_0 is Ok) {
            Ok::<(), StorageError>(())
        } else {
            Err(StorageError::Snapshot)
        }),
{
    let wal_is_copied = match wal {
        Some(copied) => copied.is_ok(),
        None => true,
    };
    if database.is_ok() && wal_is_copied {
        Ok(())
    } else {
        Err(StorageError::Snapshot)
    }
}

/// Two snapshots have one name only where they were drawn the same.
pub proof fn snapshot_names_are_told_apart(one: Seq<u8>, other: Seq<u8>)
    requires
        one.len() == other.len(),
        snapshot_directory_name(one) == snapshot_directory_name(other),
    ensures
        one == other,
{
    let front = vstd::utf8::encode_utf8("librarian-vault-snapshot-"@);
    let count = front.len() as int;
    assert(snapshot_directory_name(one).skip(count) =~= crate::text::hex(one.reverse()));
    assert(snapshot_directory_name(other).skip(count) =~= crate::text::hex(other.reverse()));
    crate::text::hex_tells_bytes_apart(one.reverse(), other.reverse());
    assert(one.reverse().reverse() =~= one);
    assert(other.reverse().reverse() =~= other);
}

/// A snapshot is used only where every byte of the database and of its log was
/// copied.
pub proof fn snapshots_are_complete(
    expected_bytes: u64,
    copied_bytes: u64,
    copied: Result<(), StorageError>,
    wal: Option<Result<(), StorageError>>,
    accepted: Result<(), StorageError>,
)
    requires
        call_ensures(accept_snapshot_copy, (copied_bytes, expected_bytes), copied),
        call_ensures(accept_snapshot, (copied, wal), accepted),
    ensures
        accepted is Ok <==> copied_bytes == expected_bytes && (wal matches Some(log) ==> log is Ok),
        accepted matches Err(error) ==> error == StorageError::Snapshot,
{
}

} // verus!
