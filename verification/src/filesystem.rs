//! What the agent concludes from looking at names and files.
//!
//! Paths are the byte strings that the platform names files by.

use vstd::prelude::*;

use crate::bytes::{copy_bytes, joined};
use crate::errors::StorageError;

verus! {

/// What opening a name gave, redirections not being followed.
#[derive(Clone, Copy, Debug, PartialEq, Eq, Structural)]
pub enum NameProbe {
    Found,
    NotFound,
    Failed,
}

/// What an open file says of itself.
#[derive(Clone, Copy, Debug, PartialEq, Eq, Structural)]
pub struct FileStamp {
    pub is_file: bool,
    pub is_redirected: bool,
    pub volume: u64,
    pub file: u64,
    pub length: u64,
}

impl FileStamp {
    /// Whether this is a regular file that was reached without redirection.
    #[verifier::allow_in_spec]
    pub fn is_regular(&self) -> bool
        returns
            self.is_file && !self.is_redirected,
    {
        self.is_file && !self.is_redirected
    }
}

/// The directory that holds a path, from the parent that the platform gives
/// it. A bare name lies in the working directory.
pub fn parent_directory(parent: Option<Vec<u8>>) -> (directory: Vec<u8>)
    ensures
        directory@ == (match parent {
            Some(parent) if parent@.len() > 0 => parent@,
            _ => vstd::utf8::encode_utf8("."@),
        }),
{
    match parent {
        Some(parent) => if parent.len() > 0 {
            parent
        } else {
            copy_bytes(".".as_bytes())
        },
        None => copy_bytes(".".as_bytes()),
    }
}

/// The name of a file that the database keeps beside itself.
pub fn sqlite_sidecar(path: &[u8], suffix: &str) -> (sidecar: Vec<u8>)
    ensures
        sidecar@ == path@ + vstd::utf8::encode_utf8(suffix@),
{
    joined(path, suffix.as_bytes())
}

/// Whether two open files are one. Files that cannot be asked are not known to
/// be anything.
pub fn guarded_files_match(
    left: Option<FileStamp>,
    right: Option<FileStamp>,
) -> (matched: Result<(), StorageError>)
    ensures
        matched == (match (left, right) {
            (Some(left), Some(right)) => if left.is_file && right.is_file && left.volume
                == right.volume && left.file == right.file {
                Ok::<(), StorageError>(())
            } else {
                Err(StorageError::Identity)
            },
            _ => Err(StorageError::Filesystem),
        }),
{
    match (left, right) {
        (Some(left), Some(right)) => if left.is_file && right.is_file && left.volume
            == right.volume && left.file == right.file {
            Ok(())
        } else {
            Err(StorageError::Identity)
        },
        _ => Err(StorageError::Filesystem),
    }
}

/// Whether an open file is the one that its path names now. The path must name
/// a regular file.
pub fn guarded_file_matches_path(
    file: Option<FileStamp>,
    named: Option<FileStamp>,
) -> (matched: Result<(), StorageError>)
    ensures
        matched == (match named {
            Some(found) if found.is_regular() => match file {
                Some(file) => if file.is_file && file.volume == found.volume && file.file
                    == found.file {
                    Ok::<(), StorageError>(())
                } else {
                    Err(StorageError::Identity)
                },
                None => Err(StorageError::Filesystem),
            },
            _ => Err(StorageError::Filesystem),
        }),
{
    match named {
        Some(found) => if found.is_regular() {
            guarded_files_match(file, Some(found))
        } else {
            Err(StorageError::Filesystem)
        },
        None => Err(StorageError::Filesystem),
    }
}

/// Whether an optional file still is what its path names: a file that was not
/// there must still not be there.
pub fn guarded_optional_file_matches_path(
    file: Option<Result<(), StorageError>>,
    probe: NameProbe,
) -> (matched: Result<(), StorageError>)
    ensures
        matched == (match file {
            Some(comparison) => comparison,
            None => match probe {
                NameProbe::NotFound => Ok::<(), StorageError>(()),
                NameProbe::Found => Err(StorageError::Identity),
                NameProbe::Failed => Err(StorageError::Filesystem),
            },
        }),
{
    match file {
        Some(comparison) => comparison,
        None => match probe {
            NameProbe::NotFound => Ok(()),
            NameProbe::Found => Err(StorageError::Identity),
            NameProbe::Failed => Err(StorageError::Filesystem),
        },
    }
}

/// The size of an optional guarded file, which must be a regular file of at
/// most `maximum_bytes`. The inner option is none where the file cannot be
/// asked.
pub fn guarded_file_size(
    file: Option<Option<FileStamp>>,
    maximum_bytes: u64,
) -> (size: Result<u64, StorageError>)
    ensures
        size == (match file {
            None => Ok::<u64, StorageError>(0),
            Some(None) => Err(StorageError::Filesystem),
            Some(Some(stamp)) => if !stamp.is_regular() {
                Err(StorageError::Identity)
            } else if stamp.length > maximum_bytes {
                Err(StorageError::ResourceLimit)
            } else {
                Ok(stamp.length)
            },
        }),
{
    match file {
        None => Ok(0),
        Some(None) => Err(StorageError::Filesystem),
        Some(Some(stamp)) => if !stamp.is_regular() {
            Err(StorageError::Identity)
        } else if stamp.length > maximum_bytes {
            Err(StorageError::ResourceLimit)
        } else {
            Ok(stamp.length)
        },
    }
}

/// What looking for an optional regular file gave: the file, that there is
/// none, or a failure.
pub fn optional_regular_file(
    probe: NameProbe,
    stamp: Option<FileStamp>,
) -> (file: Result<Option<FileStamp>, StorageError>)
    ensures
        file == (match probe {
            NameProbe::NotFound => Ok::<Option<FileStamp>, StorageError>(None),
            NameProbe::Failed => Err(StorageError::Filesystem),
            NameProbe::Found => match stamp {
                Some(found) if found.is_regular() => Ok(Some(found)),
                _ => Err(StorageError::Filesystem),
            },
        }),
{
    match probe {
        NameProbe::NotFound => Ok(None),
        NameProbe::Failed => Err(StorageError::Filesystem),
        NameProbe::Found => match stamp {
            Some(found) => if found.is_regular() {
                Ok(Some(found))
            } else {
                Err(StorageError::Filesystem)
            },
            None => Err(StorageError::Filesystem),
        },
    }
}

/// Whether the database has nothing beside it, from what looking for its log
/// and for its shared-memory file gave.
pub fn ensure_sidecars_absent(
    wal: NameProbe,
    shm: NameProbe,
) -> (absent: Result<(), StorageError>)
    ensures
        absent is Ok <==> wal == NameProbe::NotFound && shm == NameProbe::NotFound,
        absent == Err::<(), StorageError>(StorageError::Sidecar) <==> wal == NameProbe::Found || (
        wal == NameProbe::NotFound && shm == NameProbe::Found),
        absent matches Err(error) ==> error == StorageError::Sidecar || error
            == StorageError::Filesystem,
{
    match wal {
        NameProbe::Found => {
            return Err(StorageError::Sidecar);
        },
        NameProbe::Failed => {
            return Err(StorageError::Filesystem);
        },
        NameProbe::NotFound => {},
    }
    match shm {
        NameProbe::Found => Err(StorageError::Sidecar),
        NameProbe::Failed => Err(StorageError::Filesystem),
        NameProbe::NotFound => Ok(()),
    }
}

/// One part of a path.
pub enum PathComponent {
    Prefix,
    RootDir,
    CurDir,
    ParentDir,
    Normal(Vec<u8>),
}

/// The directory name that a part of a path is opened by, none where it names
/// no directory of its own.
pub open spec fn directory_name(component: PathComponent) -> Option<Seq<u8>> {
    match component {
        PathComponent::Prefix => None,
        PathComponent::RootDir => None,
        PathComponent::CurDir => None,
        PathComponent::ParentDir => Some(vstd::utf8::encode_utf8(".."@)),
        PathComponent::Normal(name) => Some(name@),
    }
}

/// The directory names on the way to a file.
pub open spec fn directory_names(components: Seq<PathComponent>) -> Seq<Seq<u8>>
    decreases components.len(),
{
    if components.len() == 0 {
        Seq::empty()
    } else {
        match directory_name(components.last()) {
            Some(name) => directory_names(components.drop_last()).push(name),
            None => directory_names(components.drop_last()),
        }
    }
}

/// What each of a list of names says.
pub open spec fn names_view(names: Seq<Vec<u8>>) -> Seq<Seq<u8>> {
    Seq::new(names.len(), |i: int| names[i]@)
}

/// The directories that are opened one inside the other on the way to a file,
/// each without following a redirection. A path without a file name, or with a
/// drive in it, has no such way.
pub fn ancestor_directories(
    has_file_name: bool,
    components: &Vec<PathComponent>,
) -> (directories: Option<Vec<Vec<u8>>>)
    ensures
        directories is Some <==> has_file_name && (forall|i: int|
            0 <= i < components@.len() ==> !((#[trigger] components@[i]) is Prefix)),
        directories matches Some(names) ==> names_view(names@) == directory_names(components@),
{
    if !has_file_name {
        return None;
    }
    let mut names: Vec<Vec<u8>> = Vec::new();
    let mut index: usize = 0;
    assert(names_view(names@) =~= directory_names(components@.take(0)));
    while index < components.len()
        invariant
            index <= components.len(),
            forall|i: int| 0 <= i < index ==> !((#[trigger] components@[i]) is Prefix),
            names_view(names@) == directory_names(components@.take(index as int)),
        decreases components.len() - index,
    {
        let ghost before = names@;
        let ghost component = components@[index as int];
        match &components[index] {
            PathComponent::Prefix => {
                return None;
            },
            PathComponent::RootDir => {},
            PathComponent::CurDir => {},
            PathComponent::ParentDir => {
                names.push(copy_bytes("..".as_bytes()));
            },
            PathComponent::Normal(name) => {
                names.push(copy_bytes(name));
            },
        }
        index += 1;
        proof {
            assert(components@.take(index as int).drop_last() =~= components@.take(index - 1));
            assert(components@.take(index as int).last() == component);
            match directory_name(component) {
                Some(name) => {
                    assert(names_view(names@) =~= names_view(before).push(name));
                },
                None => {
                    assert(names@ == before);
                },
            }
        }
    }
    assert(components@.take(index as int) =~= components@);
    Some(names)
}

/// Whether a directory on the way to a file may be passed through.
pub fn ancestor_is_trusted(is_directory: bool, is_redirected: bool) -> (trusted: bool)
    ensures
        trusted == (is_directory && !is_redirected),
{
    is_directory && !is_redirected
}

/// Two open files are one whichever is asked first, every regular file is one
/// with itself, and a file that cannot be asked is one with none.
pub proof fn files_are_one_by_volume_and_number(
    one: Option<FileStamp>,
    other: Option<FileStamp>,
    matched: Result<(), StorageError>,
    reverse: Result<(), StorageError>,
)
    requires
        call_ensures(guarded_files_match, (one, other), matched),
        call_ensures(guarded_files_match, (other, one), reverse),
    ensures
        matched is Ok <==> reverse is Ok,
        one is Some && one == other && one->Some_0.is_file ==> matched is Ok,
        matched is Ok ==> one is Some && other is Some && one->Some_0.volume
            == other->Some_0.volume && one->Some_0.file == other->Some_0.file,
        one is None || other is None ==> matched is Err,
        one is Some && other is Some && !(one->Some_0.is_file && other->Some_0.is_file)
            ==> matched is Err,
{
}

/// A guarded file is what its path names where the path leads to it straight.
pub proof fn paths_lead_straight_to_their_file(
    guarded: Option<FileStamp>,
    named: Option<FileStamp>,
    matched: Result<(), StorageError>,
)
    requires
        call_ensures(guarded_file_matches_path, (guarded, named), matched),
    ensures
        matched is Ok ==> guarded is Some && named is Some && named->Some_0.is_file
            && !named->Some_0.is_redirected,
        guarded is Some && guarded == named && guarded->Some_0.is_file
            && !guarded->Some_0.is_redirected ==> matched is Ok,
        guarded is Some && named is Some && (guarded->Some_0.volume != named->Some_0.volume
            || guarded->Some_0.file != named->Some_0.file) ==> matched is Err,
{
}

/// The way to a file passes through as many directories as its path has names
/// and steps upwards, in their order.
pub proof fn ways_follow_their_path(front: Seq<PathComponent>, back: Seq<PathComponent>)
    ensures
        directory_names(front + back) == directory_names(front) + directory_names(back),
        directory_names(back).len() <= back.len(),
        back.len() == 1 ==> match back[0] {
            PathComponent::Normal(name) => directory_names(back) == seq![name@],
            PathComponent::ParentDir => directory_names(back) == seq![
                vstd::utf8::encode_utf8(".."@),
            ],
            _ => directory_names(back).len() == 0,
        },
    decreases back.len(),
{
    if back.len() == 0 {
        assert(front + back =~= front);
        assert(directory_names(front) + directory_names(back) =~= directory_names(front));
    } else {
        let rest = back.drop_last();
        ways_follow_their_path(front, rest);
        assert((front + back).drop_last() =~= front + rest);
        assert((front + back).last() == back.last());
        assert(directory_names(front + back) =~= directory_names(front) + directory_names(back));
        if back.len() == 1 {
            assert(rest =~= Seq::<PathComponent>::empty());
            assert(directory_names(rest) == Seq::<Seq<u8>>::empty());
            match back[0] {
                PathComponent::Normal(name) => {
                    assert(directory_names(back) =~= seq![name@]);
                },
                PathComponent::ParentDir => {
                    assert(directory_names(back) =~= seq![vstd::utf8::encode_utf8(".."@)]);
                },
                _ => {},
            }
        }
    }
}

/// No database is opened where anything of its own stands beside it.
pub proof fn sidecars_are_absent_together(wal: NameProbe, shm: NameProbe, absent: Result<
    (),
    StorageError,
>)
    requires
        call_ensures(ensure_sidecars_absent, (wal, shm), absent),
    ensures
        absent is Ok <==> wal == NameProbe::NotFound && shm == NameProbe::NotFound,
{
}

} // verus!
