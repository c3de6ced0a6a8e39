//! The file that the protected local state is kept in: how it is named,
//! written, read and removed.

use vstd::prelude::*;

use crate::bytes::{is_zero, joined, same_bytes};
use crate::errors::{StorageError, WindowsHelloStateError};
use crate::filesystem::NameProbe;
use crate::hello::was_stored;
use crate::random::name_entropy;
use crate::secrets::wipe;
use crate::text::push_hex;
use crate::windows_hello::{HelloLimits, ProtectorBinding, WindowsHelloLocalState};

verus! {

/// The longest protected state that is read.
pub const MAXIMUM_PROTECTED_STATE_BYTES: u64 = 16_384;

/// The file that the protected local state is kept in.
pub struct WindowsHelloStateStore {
    pub path: Vec<u8>,
    /// The last name of the path, as text.
    pub file_name: Vec<u8>,
}

/// The name of a new file beside one that it is to replace.
pub open spec fn state_staging_name(file_name: Seq<u8>, random: Seq<u8>) -> Seq<u8> {
    file_name + vstd::utf8::encode_utf8("."@) + crate::text::hex(random)
        + vstd::utf8::encode_utf8(".tmp"@)
}

impl WindowsHelloStateStore {
    /// A store at a path, given what the platform makes of the path. It must be
    /// absolute and name a file in a directory.
    pub fn new(
        path: Vec<u8>,
        is_absolute: bool,
        file_name: Option<Vec<u8>>,
        has_parent: bool,
    ) -> (store: Result<WindowsHelloStateStore, WindowsHelloStateError>)
        ensures
            store is Ok <==> is_absolute && file_name is Some && has_parent,
            store matches Err(error) ==> error == WindowsHelloStateError::Invalid,
            store matches Ok(made) ==> made.path == path && made.file_name == file_name->Some_0,
    {
        match file_name {
            Some(file_name) => if is_absolute && has_parent {
                Ok(WindowsHelloStateStore { path, file_name })
            } else {
                Err(WindowsHelloStateError::Invalid)
            },
            None => Err(WindowsHelloStateError::Invalid),
        }
    }

    /// The name of the new file that is written first, from random bytes.
    pub fn staging_name(&self, random: Option<[u8; 16]>) -> (name: Result<
        Vec<u8>,
        WindowsHelloStateError,
    >)
        ensures
            name is Ok <==> random is Some && random->Some_0@ != crate::bytes::zeros(16),
            name matches Err(error) ==> error == WindowsHelloStateError::Failed,
            name matches Ok(bytes) ==> bytes@ == state_staging_name(
                self.file_name@,
                random->Some_0@,
            ),
    {
        let random = match random {
            Some(random) => random,
            None => {
                return Err(WindowsHelloStateError::Failed);
            },
        };
        if is_zero(&random) {
            return Err(WindowsHelloStateError::Failed);
        }
        let mut name = joined(&self.file_name, ".".as_bytes());
        push_hex(&mut name, &random);
        Ok(joined(&name, ".tmp".as_bytes()))
    }

    /// The name of the new file that is written first.
    pub fn staging_path(&self) -> (name: Result<Vec<u8>, WindowsHelloStateError>)
        ensures
            name matches Err(error) ==> error == WindowsHelloStateError::Failed,
            name matches Ok(bytes) ==> exists|random: [u8; 16]|
                random@ != crate::bytes::zeros(16) && bytes@ == #[trigger] state_staging_name(
                    self.file_name@,
                    random@,
                ),
    {
        self.staging_name(name_entropy())
    }
}

// Writing

/// What is to be done next while a state is written.
#[derive(Clone, Copy, Debug, PartialEq, Eq)]
pub enum SaveAction {
    /// Guard the directories on the way to the file.
    GuardAncestors,
    /// Open the present file, if there is one.
    OpenExisting,
    /// Check who may use the present file, and that its path names it.
    CheckExisting,
    /// Make a new file under the staging name.
    ReserveStaging,
    /// Write the protected state to the new file and make it durable.
    WriteStaging,
    /// Let nobody but the user use the new file.
    RestrictStaging,
    /// Check who may use the new file, and that its name names it.
    CheckStaging,
    /// Check that the path still names the present file.
    MatchExisting,
    /// Put the new file in the place of the present one.
    ReplaceFile,
    /// Open the file at the path, check it, and read it.
    ReadReplacement,
    /// Give the new file the path as a second name, which must be free.
    LinkFile,
    /// Open the file at the path and check that it is the new file.
    CheckLink,
    /// Take the staging name away.
    RemoveStagingName,
    /// Make the directory entry durable.
    SyncParent,
    /// Take the staging name away, whatever comes of it.
    CleanUpStaging,
    /// The state is stored, or is not.
    Finish(Result<(), WindowsHelloStateError>),
}

/// What came of the last action.
pub enum SaveEvent {
    Done,
    NotDone,
    Existing(NameProbe),
    Content(Option<Vec<u8>>),
}

/// The action after one that is done.
pub open spec fn next_save_action(action: SaveAction, replacing: bool) -> SaveAction {
    match action {
        SaveAction::GuardAncestors => SaveAction::OpenExisting,
        SaveAction::OpenExisting => if replacing {
            SaveAction::CheckExisting
        } else {
            SaveAction::ReserveStaging
        },
        SaveAction::CheckExisting => SaveAction::ReserveStaging,
        SaveAction::ReserveStaging => SaveAction::WriteStaging,
        SaveAction::WriteStaging => SaveAction::RestrictStaging,
        SaveAction::RestrictStaging => SaveAction::CheckStaging,
        SaveAction::CheckStaging => if replacing {
            SaveAction::MatchExisting
        } else {
            SaveAction::LinkFile
        },
        SaveAction::MatchExisting => SaveAction::ReplaceFile,
        SaveAction::ReplaceFile => SaveAction::ReadReplacement,
        SaveAction::ReadReplacement => SaveAction::SyncParent,
        SaveAction::LinkFile => SaveAction::CheckLink,
        SaveAction::CheckLink => SaveAction::RemoveStagingName,
        SaveAction::RemoveStagingName => SaveAction::SyncParent,
        SaveAction::SyncParent => SaveAction::Finish(Ok(())),
        SaveAction::CleanUpStaging => action,
        SaveAction::Finish(_) => action,
    }
}

/// Whether the staging name may be taken when this action is awaited.
pub open spec fn after_staging(action: SaveAction) -> bool {
    match action {
        SaveAction::GuardAncestors => false,
        SaveAction::OpenExisting => false,
        SaveAction::CheckExisting => false,
        SaveAction::ReserveStaging => false,
        SaveAction::Finish(_) => false,
        _ => true,
    }
}

/// Whether the file at the path is the new one when this action is awaited.
pub open spec fn after_publication(action: SaveAction) -> bool {
    match action {
        SaveAction::ReadReplacement => true,
        SaveAction::CheckLink => true,
        SaveAction::RemoveStagingName => true,
        SaveAction::SyncParent => true,
        _ => false,
    }
}

/// Writing one protected state, at the action that it waits for.
pub struct SaveFlow {
    pub waits_for: SaveAction,
    /// A file stood at the path before.
    pub replacing: bool,
    /// The file at the path is the new one.
    pub published: bool,
    pub protected: Vec<u8>,
}

impl SaveFlow {
    pub open spec fn wf(&self) -> bool {
        &&& self.waits_for is GuardAncestors || self.waits_for is OpenExisting ==> !self.replacing
        &&& after_publication(self.waits_for) ==> self.published
        &&& self.published ==> {
            ||| after_publication(self.waits_for)
            ||| self.waits_for is CleanUpStaging
            ||| self.waits_for is Finish && crate::hello::is_stored(self.waits_for->Finish_0)
        }
        &&& self.waits_for is Finish && crate::hello::is_stored(self.waits_for->Finish_0)
            ==> self.published
    }

    /// Whether an event says that the awaited action is done.
    pub open spec fn accepts(&self, event: SaveEvent) -> bool {
        match (self.waits_for, event) {
            (SaveAction::OpenExisting, SaveEvent::Existing(probe)) => !(probe is Failed),
            (SaveAction::OpenExisting, _) => false,
            (SaveAction::ReadReplacement, SaveEvent::Content(content)) => match content {
                Some(bytes) => bytes@ == self.protected@,
                None => false,
            },
            (SaveAction::ReadReplacement, _) => false,
            (_, SaveEvent::Done) => true,
            _ => false,
        }
    }

    /// A state that is to be written, in its protected form, or what ends the
    /// attempt at once: a state with no stored form, or one that was not
    /// protected.
    pub fn save<F>(state: &WindowsHelloLocalState, protect: F) -> (flow: Result<
        SaveFlow,
        WindowsHelloStateError,
    >) where F: FnOnce(&Vec<u8>) -> Option<Vec<u8>>
        requires
            forall|plaintext: &Vec<u8>| call_requires(protect, (plaintext,)),
        ensures
            !crate::windows_hello::storable(state@) ==> flow == Err::<
                SaveFlow,
                WindowsHelloStateError,
            >(WindowsHelloStateError::Invalid),
            crate::windows_hello::storable(state@) ==> exists|
                plaintext: Vec<u8>,
                protected: Option<Vec<u8>>,
            |
                plaintext@ == crate::windows_hello::stored_form(state@) && #[trigger] call_ensures(
                    protect,
                    (&plaintext,),
                    protected,
                ) && match protected {
                    None => flow == Err::<SaveFlow, WindowsHelloStateError>(
                        WindowsHelloStateError::Failed,
                    ),
                    Some(bytes) => flow is Ok && flow->Ok_0.protected == bytes,
                },
            flow matches Ok(started) ==> started.wf() && started.waits_for is GuardAncestors
                && !started.published && !started.replacing,
    {
        let plaintext = match state.encode() {
            Ok(plaintext) => plaintext,
            Err(_) => {
                return Err(WindowsHelloStateError::Invalid);
            },
        };
        let protected = protect(&plaintext);
        let mut plaintext = plaintext;
        wipe(&mut plaintext);
        match protected {
            Some(protected) => Ok(
                SaveFlow {
                    waits_for: SaveAction::GuardAncestors,
                    replacing: false,
                    published: false,
                    protected,
                },
            ),
            None => Err(WindowsHelloStateError::Failed),
        }
    }

    /// Takes in what came of the last action and gives the next one. A failure
    /// before the file at the path is the new one leaves it as it was; a later
    /// one is told apart from it. The staging name is taken away in both.
    pub fn step(&mut self, event: SaveEvent) -> (action: SaveAction)
        requires
            old(self).wf(),
        ensures
            final(self).wf(),
            action == final(self).waits_for,
            *final(self) == save_next(*old(self), event),
    {
        let cleanup = SaveAction::CleanUpStaging;
        let failed = SaveAction::Finish(Err(WindowsHelloStateError::Failed));
        let next = match (self.waits_for, event) {
            (SaveAction::Finish(result), _) => SaveAction::Finish(result),
            (SaveAction::CleanUpStaging, _) => if self.published {
                SaveAction::Finish(Err(WindowsHelloStateError::Published))
            } else {
                failed
            },
            (SaveAction::GuardAncestors, SaveEvent::Done) => SaveAction::OpenExisting,
            (SaveAction::GuardAncestors, _) => failed,
            (SaveAction::OpenExisting, SaveEvent::Existing(NameProbe::Found)) => {
                self.replacing = true;
                SaveAction::CheckExisting
            },
            (SaveAction::OpenExisting, SaveEvent::Existing(NameProbe::NotFound)) => {
                SaveAction::ReserveStaging
            },
            (SaveAction::OpenExisting, _) => failed,
            (SaveAction::CheckExisting, SaveEvent::Done) => SaveAction::ReserveStaging,
            (SaveAction::CheckExisting, _) => failed,
            (SaveAction::ReserveStaging, SaveEvent::Done) => SaveAction::WriteStaging,
            (SaveAction::ReserveStaging, _) => failed,
            (SaveAction::WriteStaging, SaveEvent::Done) => SaveAction::RestrictStaging,
            (SaveAction::RestrictStaging, SaveEvent::Done) => SaveAction::CheckStaging,
            (SaveAction::CheckStaging, SaveEvent::Done) => if self.replacing {
                SaveAction::MatchExisting
            } else {
                SaveAction::LinkFile
            },
            (SaveAction::MatchExisting, SaveEvent::Done) => SaveAction::ReplaceFile,
            (SaveAction::ReplaceFile, SaveEvent::Done) => {
                self.published = true;
                SaveAction::ReadReplacement
            },
            (SaveAction::ReadReplacement, SaveEvent::Content(Some(content))) => {
                if same_bytes(&content, &self.protected) {
                    SaveAction::SyncParent
                } else {
                    cleanup
                }
            },
            (SaveAction::LinkFile, SaveEvent::Done) => {
                self.published = true;
                SaveAction::CheckLink
            },
            (SaveAction::CheckLink, SaveEvent::Done) => SaveAction::RemoveStagingName,
            (SaveAction::RemoveStagingName, SaveEvent::Done) => SaveAction::SyncParent,
            (SaveAction::SyncParent, SaveEvent::Done) => SaveAction::Finish(Ok(())),
            _ => cleanup,
        };
        self.waits_for = next;
        next
    }
}

/// What follows an event while a state is written.
pub open spec fn save_next(flow: SaveFlow, event: SaveEvent) -> SaveFlow {
    let replacing = flow.replacing || (flow.waits_for is OpenExisting && event
        == SaveEvent::Existing(NameProbe::Found));
    let published = flow.published || (flow.accepts(event) && (flow.waits_for is ReplaceFile
        || flow.waits_for is LinkFile));
    SaveFlow {
        waits_for: match flow.waits_for {
            SaveAction::Finish(result) => SaveAction::Finish(result),
            SaveAction::CleanUpStaging => SaveAction::Finish(
                Err(
                    if flow.published {
                        WindowsHelloStateError::Published
                    } else {
                        WindowsHelloStateError::Failed
                    },
                ),
            ),
            _ => if flow.accepts(event) {
                next_save_action(flow.waits_for, replacing)
            } else if after_staging(flow.waits_for) {
                SaveAction::CleanUpStaging
            } else {
                SaveAction::Finish(Err(WindowsHelloStateError::Failed))
            },
        },
        replacing,
        published,
        protected: flow.protected,
    }
}

// Reading

/// What is to be done next while a state is read.
#[derive(Clone, Copy, Debug, PartialEq, Eq, Structural)]
pub enum LoadAction {
    /// Guard the directories on the way to the file.
    GuardAncestors,
    /// Open the file, if there is one.
    OpenFile,
    /// Check who may use the file, and that its path names it.
    CheckFile,
    /// Ask for the file's length.
    Measure,
    /// Read the file, check that its path still names it, and undo the
    /// protection.
    ReadPlaintext,
    /// The state was read, or was not.
    Finish,
}

/// What came of the last action.
pub enum LoadEvent {
    Done,
    NotDone,
    Opened(NameProbe),
    Measured(Result<u64, StorageError>),
    Plaintext(Option<Vec<u8>>),
}

/// Reading one state, at the action that it waits for.
pub struct LoadFlow {
    pub waits_for: LoadAction,
    pub plaintext: Result<Vec<u8>, WindowsHelloStateError>,
}

/// What an event makes of reading a state: the next action, or why it ends.
pub open spec fn next_load_action(action: LoadAction, event: LoadEvent) -> Result<
    LoadAction,
    WindowsHelloStateError,
> {
    match (action, event) {
        (LoadAction::GuardAncestors, LoadEvent::Done) => Ok(LoadAction::OpenFile),
        (LoadAction::OpenFile, LoadEvent::Opened(NameProbe::Found)) => Ok(LoadAction::CheckFile),
        (LoadAction::OpenFile, LoadEvent::Opened(NameProbe::NotFound)) => Err(
            WindowsHelloStateError::NotFound,
        ),
        (LoadAction::CheckFile, LoadEvent::Done) => Ok(LoadAction::Measure),
        (LoadAction::Measure, LoadEvent::Measured(Ok(length))) => if length
            > MAXIMUM_PROTECTED_STATE_BYTES {
            Err(WindowsHelloStateError::Failed)
        } else if length == 0 {
            Err(WindowsHelloStateError::Invalid)
        } else {
            Ok(LoadAction::ReadPlaintext)
        },
        (LoadAction::ReadPlaintext, LoadEvent::Plaintext(Some(_))) => Ok(LoadAction::Finish),
        _ => Err(WindowsHelloStateError::Failed),
    }
}

/// What follows an event while a state is read.
pub open spec fn load_next(flow: LoadFlow, event: LoadEvent) -> LoadFlow {
    if flow.waits_for is Finish {
        flow
    } else {
        match next_load_action(flow.waits_for, event) {
            Err(error) => LoadFlow { waits_for: LoadAction::Finish, plaintext: Err(error) },
            Ok(next) => LoadFlow {
                waits_for: next,
                plaintext: match event {
                    LoadEvent::Plaintext(Some(bytes)) => Ok(bytes),
                    _ => flow.plaintext,
                },
            },
        }
    }
}

impl LoadFlow {
    pub fn load() -> (flow: LoadFlow)
        ensures
            flow.waits_for is GuardAncestors,
            flow.plaintext == Err::<Vec<u8>, WindowsHelloStateError>(
                WindowsHelloStateError::Failed,
            ),
    {
        LoadFlow {
            waits_for: LoadAction::GuardAncestors,
            plaintext: Err(WindowsHelloStateError::Failed),
        }
    }

    /// Takes in what came of the last action and gives the next one.
    pub fn step(&mut self, event: LoadEvent) -> (action: LoadAction)
        ensures
            action == final(self).waits_for,
            *final(self) == load_next(*old(self), event),
    {
        let next = match (self.waits_for, event) {
            (LoadAction::Finish, _) => {
                return self.waits_for;
            },
            (LoadAction::GuardAncestors, LoadEvent::Done) => Ok(LoadAction::OpenFile),
            (LoadAction::OpenFile, LoadEvent::Opened(NameProbe::Found)) => Ok(
                LoadAction::CheckFile,
            ),
            (LoadAction::OpenFile, LoadEvent::Opened(NameProbe::NotFound)) => Err(
                WindowsHelloStateError::NotFound,
            ),
            (LoadAction::CheckFile, LoadEvent::Done) => Ok(LoadAction::Measure),
            (LoadAction::Measure, LoadEvent::Measured(Ok(length))) => if length
                > MAXIMUM_PROTECTED_STATE_BYTES {
                Err(WindowsHelloStateError::Failed)
            } else if length == 0 {
                Err(WindowsHelloStateError::Invalid)
            } else {
                Ok(LoadAction::ReadPlaintext)
            },
            (LoadAction::ReadPlaintext, LoadEvent::Plaintext(Some(bytes))) => {
                self.plaintext = Ok(bytes);
                Ok(LoadAction::Finish)
            },
            _ => Err(WindowsHelloStateError::Failed),
        };
        match next {
            Ok(next) => {
                self.waits_for = next;
            },
            Err(error) => {
                self.waits_for = LoadAction::Finish;
                self.plaintext = Err(error);
            },
        }
        self.waits_for
    }

    /// The state that was read, or why none was. What it was read from is
    /// overwritten.
    pub fn finish<P>(self, limits: HelloLimits, read_protector: P) -> (loaded: Result<
        WindowsHelloLocalState,
        WindowsHelloStateError,
    >) where P: FnOnce(&Vec<u8>) -> Option<ProtectorBinding>
        requires
            self.waits_for is Finish,
            forall|protector: &Vec<u8>| call_requires(read_protector, (protector,)),
        ensures
            self.plaintext matches Err(error) ==> loaded == Err::<
                WindowsHelloLocalState,
                WindowsHelloStateError,
            >(error),
            self.plaintext matches Ok(bytes) ==> {
                &&& loaded matches Err(error) ==> error == WindowsHelloStateError::Invalid
                &&& loaded matches Ok(state) ==> crate::windows_hello::is_stored_form(
                    bytes@,
                    limits,
                ) && crate::windows_hello::readable_state(bytes@) == Some(state@)
                &&& crate::windows_hello::is_stored_form(bytes@, limits) ==> {
                    let state = crate::windows_hello::readable_state(bytes@)->Some_0;
                    match state.enrollment {
                        None => loaded is Ok,
                        Some(enrollment) => exists|
                            protector: Vec<u8>,
                            read: Option<ProtectorBinding>,
                        |
                            protector@ == enrollment.protector && #[trigger] call_ensures(
                                read_protector,
                                (&protector,),
                                read,
                            ) && (loaded is Ok <==> (read is Some
                                && crate::windows_hello::protects(read->Some_0, enrollment))),
                    }
                }
            },
    {
        match self.plaintext {
            Ok(bytes) => {
                let loaded = WindowsHelloLocalState::decode(&bytes, limits, read_protector);
                let mut bytes = bytes;
                wipe(&mut bytes);
                loaded
            },
            Err(error) => Err(error),
        }
    }
}

// Removing

/// What is to be done next while a state is removed.
#[derive(Clone, Copy, Debug, PartialEq, Eq)]
pub enum RemoveAction {
    /// Guard the directories on the way to the file.
    GuardAncestors,
    /// Open the file, if there is one.
    OpenFile,
    /// Check who may use the file, and that its path names it.
    CheckFile,
    /// Remove the file.
    RemoveFile,
    /// Make the removal durable.
    SyncParent,
    /// The state was removed, or was not.
    Finish(Result<(), WindowsHelloStateError>),
}

/// What follows an action of a removal: opening is answered by what was found,
/// every other action by whether it was done.
pub open spec fn next_remove_action(
    action: RemoveAction,
    opened: NameProbe,
    done: bool,
) -> RemoveAction {
    match action {
        RemoveAction::OpenFile => match opened {
            NameProbe::Found => RemoveAction::CheckFile,
            NameProbe::NotFound => RemoveAction::Finish(Err(WindowsHelloStateError::NotFound)),
            NameProbe::Failed => RemoveAction::Finish(Err(WindowsHelloStateError::Failed)),
        },
        RemoveAction::Finish(result) => RemoveAction::Finish(result),
        _ => if !done {
            RemoveAction::Finish(Err(WindowsHelloStateError::Failed))
        } else if action is GuardAncestors {
            RemoveAction::OpenFile
        } else if action is CheckFile {
            RemoveAction::RemoveFile
        } else if action is RemoveFile {
            RemoveAction::SyncParent
        } else {
            RemoveAction::Finish(Ok(()))
        },
    }
}

/// The action of a removal after another one.
pub fn remove_step(action: RemoveAction, opened: NameProbe, done: bool) -> (next: RemoveAction)
    ensures
        next == next_remove_action(action, opened, done),
{
    match action {
        RemoveAction::OpenFile => match opened {
            NameProbe::Found => RemoveAction::CheckFile,
            NameProbe::NotFound => RemoveAction::Finish(Err(WindowsHelloStateError::NotFound)),
            NameProbe::Failed => RemoveAction::Finish(Err(WindowsHelloStateError::Failed)),
        },
        RemoveAction::Finish(result) => RemoveAction::Finish(result),
        _ if !done => RemoveAction::Finish(Err(WindowsHelloStateError::Failed)),
        RemoveAction::GuardAncestors => RemoveAction::OpenFile,
        RemoveAction::CheckFile => RemoveAction::RemoveFile,
        RemoveAction::RemoveFile => RemoveAction::SyncParent,
        RemoveAction::SyncParent => RemoveAction::Finish(Ok(())),
    }
}

// The file and its owner

/// What came of loading or removing a state, given whether the file was still
/// found to be the agent's own afterwards.
pub fn with_ownership<T>(
    result: Result<T, WindowsHelloStateError>,
    still_owned: bool,
) -> (owned: Result<T, WindowsHelloStateError>)
    ensures
        owned == (if still_owned {
            result
        } else {
            Err(WindowsHelloStateError::Failed)
        }),
{
    if still_owned {
        result
    } else {
        Err(WindowsHelloStateError::Failed)
    }
}

/// What came of storing a state, given whether the file was still found to be
/// the agent's own afterwards. A state that is in place stays told apart from
/// one that is not.
pub fn saved_with_ownership(
    result: Result<(), WindowsHelloStateError>,
    still_owned: bool,
) -> (owned: Result<(), WindowsHelloStateError>)
    ensures
        owned == (if still_owned {
            result
        } else if crate::hello::is_stored(result) {
            Err(WindowsHelloStateError::Published)
        } else {
            Err(WindowsHelloStateError::Failed)
        }),
        crate::hello::is_stored(owned) == crate::hello::is_stored(result),
{
    if still_owned {
        result
    } else if was_stored(&result) {
        Err(WindowsHelloStateError::Published)
    } else {
        Err(WindowsHelloStateError::Failed)
    }
}

// Laws

/// The two files that matter while a state is written: what stands at the path,
/// and what stands at the staging name.
pub struct StoredFiles {
    pub at_path: Option<Seq<u8>>,
    pub staged: Option<Seq<u8>>,
}

/// The files after the action that was awaited came to this. The new file
/// appears at the path as a whole or not at all, and nothing else is done to
/// the path.
pub open spec fn files_after(files: StoredFiles, flow: SaveFlow, event: SaveEvent) -> StoredFiles {
    match flow.waits_for {
        SaveAction::WriteStaging => if flow.accepts(event) {
            StoredFiles { staged: Some(flow.protected@), ..files }
        } else {
            StoredFiles { staged: None, ..files }
        },
        SaveAction::ReplaceFile | SaveAction::LinkFile => if flow.accepts(event) {
            StoredFiles { at_path: files.staged, ..files }
        } else {
            files
        },
        _ => files,
    }
}

/// A writing of a state, and the files, after these events.
pub open spec fn saved_by(
    flow: SaveFlow,
    files: StoredFiles,
    events: Seq<SaveEvent>,
) -> (SaveFlow, StoredFiles)
    decreases events.len(),
{
    if events.len() == 0 {
        (flow, files)
    } else {
        let (before, files_before) = saved_by(flow, files, events.drop_last());
        (
            save_next(before, events.last()),
            files_after(files_before, before, events.last()),
        )
    }
}

/// Whether the protected state stands at the staging name when this action is
/// awaited.
pub open spec fn after_writing(action: SaveAction) -> bool {
    match action {
        SaveAction::RestrictStaging => true,
        SaveAction::CheckStaging => true,
        SaveAction::MatchExisting => true,
        SaveAction::ReplaceFile => true,
        SaveAction::LinkFile => true,
        _ => false,
    }
}

proof fn files_follow_the_flow(flow: SaveFlow, files: StoredFiles, events: Seq<SaveEvent>)
    requires
        flow.wf(),
        flow.waits_for is GuardAncestors,
        !flow.published,
    ensures
        saved_by(flow, files, events).0.wf(),
        saved_by(flow, files, events).0.protected == flow.protected,
        after_writing(saved_by(flow, files, events).0.waits_for) ==> saved_by(
            flow,
            files,
            events,
        ).1.staged == Some(flow.protected@),
        saved_by(flow, files, events).1.at_path == (if saved_by(flow, files, events).0.published {
            Some(flow.protected@)
        } else {
            files.at_path
        }),
    decreases events.len(),
{
    if events.len() > 0 {
        files_follow_the_flow(flow, files, events.drop_last());
    }
}

/// However writing a state ends, the path holds all of the new state or what it
/// held before: the new state after a success and after a failure that is told
/// apart as one of a published state, and what it held before after every other
/// failure.
pub proof fn states_are_written_whole_or_not_at_all(
    flow: SaveFlow,
    files: StoredFiles,
    events: Seq<SaveEvent>,
)
    requires
        flow.wf(),
        flow.waits_for is GuardAncestors,
        !flow.published,
        saved_by(flow, files, events).0.waits_for is Finish,
    ensures
        saved_by(flow, files, events).1.at_path == (if crate::hello::is_stored(
            saved_by(flow, files, events).0.waits_for->Finish_0,
        ) {
            Some(flow.protected@)
        } else {
            files.at_path
        }),
{
    files_follow_the_flow(flow, files, events);
}

/// A reading of a state after these events.
pub open spec fn loaded_by(events: Seq<LoadEvent>) -> LoadFlow
    decreases events.len(),
{
    if events.len() == 0 {
        LoadFlow {
            waits_for: LoadAction::GuardAncestors,
            plaintext: Err(WindowsHelloStateError::Failed),
        }
    } else {
        load_next(loaded_by(events.drop_last()), events.last())
    }
}

proof fn plaintext_was_read(events: Seq<LoadEvent>)
    ensures
        loaded_by(events).plaintext matches Ok(bytes) ==> exists|i: int|
            0 <= i < events.len() && #[trigger] events[i] == LoadEvent::Plaintext(Some(bytes)),
    decreases events.len(),
{
    if events.len() > 0 {
        let earlier = events.drop_last();
        plaintext_was_read(earlier);
        let before = loaded_by(earlier);
        if loaded_by(events).plaintext is Ok {
            let bytes = loaded_by(events).plaintext->Ok_0;
            if before.plaintext == Ok::<Vec<u8>, WindowsHelloStateError>(bytes) {
                let i = choose|i: int|
                    0 <= i < earlier.len() && #[trigger] earlier[i] == LoadEvent::Plaintext(
                        Some(bytes),
                    );
                assert(events[i] == earlier[i]);
            } else {
                assert(events[events.len() - 1] == LoadEvent::Plaintext(Some(bytes)));
            }
        }
    }
}

/// A state that was written is read back as itself: where writing it ended with
/// the state in place, and reading it reached the end with what undoing the
/// protection of the file at the path gives, that is the stored form of the
/// state, which is accepted and says what was written.
pub proof fn written_states_are_read_back(
    state: crate::windows_hello::LocalStateModel,
    limits: HelloLimits,
    flow: SaveFlow,
    files: StoredFiles,
    saving: Seq<SaveEvent>,
    loading: Seq<LoadEvent>,
    unprotect: spec_fn(Seq<u8>) -> Option<Seq<u8>>,
)
    requires
        crate::windows_hello::valid_state(state, limits),
        crate::windows_hello::storable(state),
        flow.wf(),
        flow.waits_for is GuardAncestors,
        !flow.published,
        unprotect(flow.protected@) == Some(crate::windows_hello::stored_form(state)),
        saved_by(flow, files, saving).0.waits_for is Finish,
        crate::hello::is_stored(saved_by(flow, files, saving).0.waits_for->Finish_0),
        forall|i: int|
            0 <= i < loading.len() ==> (#[trigger] loading[i] matches LoadEvent::Plaintext(
                Some(bytes),
            ) ==> Some(bytes@) == unprotect(saved_by(flow, files, saving).1.at_path->Some_0)),
        loaded_by(loading).plaintext is Ok,
    ensures
        crate::windows_hello::is_stored_form(loaded_by(loading).plaintext->Ok_0@, limits),
        crate::windows_hello::readable_state(loaded_by(loading).plaintext->Ok_0@) == Some(state),
{
    states_are_written_whole_or_not_at_all(flow, files, saving);
    plaintext_was_read(loading);
    let bytes = loaded_by(loading).plaintext->Ok_0;
    let i = choose|i: int|
        0 <= i < loading.len() && #[trigger] loading[i] == LoadEvent::Plaintext(Some(bytes));
    assert(loading[i] is Plaintext);
    crate::windows_hello::stored_state_is_accepted(state, limits);
}

/// Whether writing can only fail from an action on.
spec fn will_fail(action: SaveAction) -> bool {
    action is CleanUpStaging || (action is Finish && action->Finish_0 is Err)
}

/// A state that is written over another one is stored exactly where everything
/// goes well: the way to it is guarded, the present file is the user's, a new
/// one is made, written, kept from others and checked, the path still names the
/// present file, the new one takes its place and is read back as what was to be
/// written, and the directory entry is durable.
pub proof fn replacements_that_go_well_are_stored(flows: Seq<SaveFlow>, events: Seq<SaveEvent>)
    requires
        events.len() == 11,
        flows.len() == 12,
        flows[0].waits_for is GuardAncestors,
        !flows[0].replacing,
        !flows[0].published,
        forall|i: int| 0 <= i < 11 ==> flows[i + 1] == save_next(flows[i], #[trigger] events[i]),
        events[1] == SaveEvent::Existing(NameProbe::Found),
    ensures
        flows[11].waits_for matches SaveAction::Finish(Ok(_)) <==> {
            &&& events[0] is Done
            &&& forall|i: int| 2 <= i < 9 ==> #[trigger] events[i] is Done
            &&& events[9] matches SaveEvent::Content(Some(content)) && content@
                == flows[0].protected@
            &&& events[10] is Done
        },
        flows[11].waits_for matches SaveAction::Finish(Ok(_)) ==> flows[11].published,
{
    assert(flows[1] == save_next(flows[0], events[0]));
    assert(flows[1].waits_for is OpenExisting || will_fail(flows[1].waits_for));
    assert(flows[2] == save_next(flows[1], events[1]));
    assert(flows[2].waits_for is CheckExisting || will_fail(flows[2].waits_for));
    assert(flows[3] == save_next(flows[2], events[2]));
    assert(flows[3].waits_for is ReserveStaging || will_fail(flows[3].waits_for));
    assert(flows[4] == save_next(flows[3], events[3]));
    assert(flows[4].waits_for is WriteStaging || will_fail(flows[4].waits_for));
    assert(flows[5] == save_next(flows[4], events[4]));
    assert(flows[5].waits_for is RestrictStaging || will_fail(flows[5].waits_for));
    assert(flows[6] == save_next(flows[5], events[5]));
    assert(flows[6].waits_for is CheckStaging || will_fail(flows[6].waits_for));
    assert(flows[7] == save_next(flows[6], events[6]));
    assert(flows[7].waits_for is MatchExisting || will_fail(flows[7].waits_for));
    assert(flows[8] == save_next(flows[7], events[7]));
    assert(flows[8].waits_for is ReplaceFile || will_fail(flows[8].waits_for));
    assert(flows[9] == save_next(flows[8], events[8]));
    assert(flows[9].waits_for is ReadReplacement || will_fail(flows[9].waits_for));
    assert(flows[10] == save_next(flows[9], events[9]));
    assert(flows[10].waits_for is SyncParent || will_fail(flows[10].waits_for));
    assert(flows[11] == save_next(flows[10], events[10]));
    if forall|i: int| 2 <= i < 9 ==> #[trigger] events[i] is Done {
        assert(events[2] is Done && events[3] is Done && events[4] is Done && events[5] is Done);
        assert(events[6] is Done && events[7] is Done && events[8] is Done);
    }
}

/// A state that is written where none was is stored exactly where everything
/// goes well: the way to it is guarded, a new file is made, written, kept from
/// others and checked, the path becomes its name and is checked, the staging
/// name goes, and the directory entry is durable.
pub proof fn first_states_that_go_well_are_stored(flows: Seq<SaveFlow>, events: Seq<SaveEvent>)
    requires
        events.len() == 10,
        flows.len() == 11,
        flows[0].waits_for is GuardAncestors,
        !flows[0].replacing,
        !flows[0].published,
        forall|i: int| 0 <= i < 10 ==> flows[i + 1] == save_next(flows[i], #[trigger] events[i]),
        events[1] == SaveEvent::Existing(NameProbe::NotFound),
    ensures
        flows[10].waits_for matches SaveAction::Finish(Ok(_)) <==> {
            &&& events[0] is Done
            &&& forall|i: int| 2 <= i < 10 ==> #[trigger] events[i] is Done
        },
        flows[10].waits_for matches SaveAction::Finish(Ok(_)) ==> flows[10].published,
{
    assert(flows[1] == save_next(flows[0], events[0]));
    assert(flows[1].waits_for is OpenExisting || will_fail(flows[1].waits_for));
    assert(flows[2] == save_next(flows[1], events[1]));
    assert(flows[2].waits_for is ReserveStaging || will_fail(flows[2].waits_for));
    assert(flows[3] == save_next(flows[2], events[2]));
    assert(flows[3].waits_for is WriteStaging || will_fail(flows[3].waits_for));
    assert(flows[4] == save_next(flows[3], events[3]));
    assert(flows[4].waits_for is RestrictStaging || will_fail(flows[4].waits_for));
    assert(flows[5] == save_next(flows[4], events[4]));
    assert(flows[5].waits_for is CheckStaging || will_fail(flows[5].waits_for));
    assert(flows[6] == save_next(flows[5], events[5]));
    assert(flows[6].waits_for is LinkFile || will_fail(flows[6].waits_for));
    assert(flows[7] == save_next(flows[6], events[6]));
    assert(flows[7].waits_for is CheckLink || will_fail(flows[7].waits_for));
    assert(flows[8] == save_next(flows[7], events[7]));
    assert(flows[8].waits_for is RemoveStagingName || will_fail(flows[8].waits_for));
    assert(flows[9] == save_next(flows[8], events[8]));
    assert(flows[9].waits_for is SyncParent || will_fail(flows[9].waits_for));
    assert(flows[10] == save_next(flows[9], events[9]));
    if forall|i: int| 2 <= i < 10 ==> #[trigger] events[i] is Done {
        assert(events[2] is Done && events[3] is Done && events[4] is Done && events[5] is Done);
        assert(events[6] is Done && events[7] is Done && events[8] is Done && events[9] is Done);
    }
}

/// A state is read exactly where its file is there, is the user's, has a length
/// that a protected state can have, and its protection can be undone. Where
/// there is no file, that is what the reader is told.
pub proof fn present_states_are_read(flows: Seq<LoadFlow>, events: Seq<LoadEvent>)
    requires
        events.len() == 5,
        flows.len() == 6,
        flows[0].waits_for is GuardAncestors,
        flows[0].plaintext is Err,
        forall|i: int| 0 <= i < 5 ==> flows[i + 1] == load_next(flows[i], #[trigger] events[i]),
    ensures
        flows[5].waits_for is Finish,
        flows[5].plaintext is Ok <==> {
            &&& events[0] is Done
            &&& events[1] == LoadEvent::Opened(NameProbe::Found)
            &&& events[2] is Done
            &&& events[3] matches LoadEvent::Measured(Ok(length)) && 0 < length
                <= MAXIMUM_PROTECTED_STATE_BYTES
            &&& events[4] matches LoadEvent::Plaintext(Some(_))
        },
        flows[5].plaintext matches Ok(bytes) ==> events[4] == LoadEvent::Plaintext(Some(bytes)),
        flows[5].plaintext matches Err(error) ==> (error == WindowsHelloStateError::NotFound
            <==> events[0] is Done && events[1] == LoadEvent::Opened(NameProbe::NotFound)),
{
    assert(flows[1] == load_next(flows[0], events[0]));
    assert(flows[2] == load_next(flows[1], events[1]));
    assert(flows[3] == load_next(flows[2], events[2]));
    assert(flows[4] == load_next(flows[3], events[3]));
    assert(flows[5] == load_next(flows[4], events[4]));
}

/// A state is removed exactly where its file is there and is the user's, and the
/// removal is done and durable. Where there is no file, that is what the caller
/// is told.
pub proof fn present_states_are_removed(
    actions: Seq<RemoveAction>,
    opened: NameProbe,
    done: Seq<bool>,
)
    requires
        done.len() == 5,
        actions.len() == 6,
        actions[0] is GuardAncestors,
        forall|i: int|
            0 <= i < 5 ==> actions[i + 1] == next_remove_action(
                actions[i],
                opened,
                #[trigger] done[i],
            ),
    ensures
        actions[5] is Finish,
        actions[5] matches RemoveAction::Finish(Ok(_)) <==> done[0] && opened == NameProbe::Found
            && done[2] && done[3] && done[4],
        actions[5] matches RemoveAction::Finish(Err(error)) ==> (error
            == WindowsHelloStateError::NotFound <==> done[0] && opened == NameProbe::NotFound),
        forall|i: int|
            0 <= i < 5 && #[trigger] actions[i] is RemoveFile ==> i == 3 && done[0] && done[2],
{
    assert(actions[1] == next_remove_action(actions[0], opened, done[0]));
    assert(actions[2] == next_remove_action(actions[1], opened, done[1]));
    assert(actions[3] == next_remove_action(actions[2], opened, done[2]));
    assert(actions[4] == next_remove_action(actions[3], opened, done[3]));
    assert(actions[5] == next_remove_action(actions[4], opened, done[4]));
}

/// Two new files of one state have one name only where they were drawn the same.
pub proof fn state_staging_names_are_told_apart(
    file_name: Seq<u8>,
    one: Seq<u8>,
    other: Seq<u8>,
)
    requires
        one.len() == other.len(),
        state_staging_name(file_name, one) == state_staging_name(file_name, other),
    ensures
        one == other,
{
    let start = (file_name + vstd::utf8::encode_utf8("."@)).len() as int;
    let left = crate::text::hex(one);
    let right = crate::text::hex(other);
    assert(state_staging_name(file_name, one).subrange(start, start + left.len()) =~= left);
    assert(state_staging_name(file_name, other).subrange(start, start + right.len()) =~= right);
    crate::text::hex_tells_bytes_apart(one, other);
}

/// A state that is not stored leaves nothing staged: whatever goes wrong once a
/// new file was made is followed by taking its name away, and what goes wrong
/// before ends the attempt. The caller is told apart whether the path already
/// stands for the new file.
pub proof fn failed_states_are_cleaned_up(flow: SaveFlow, event: SaveEvent)
    ensures
        flow.waits_for is WriteStaging || flow.waits_for is RestrictStaging || flow.waits_for
            is CheckStaging || flow.waits_for is MatchExisting || flow.waits_for is ReplaceFile
            || flow.waits_for is LinkFile || flow.waits_for is CheckLink || flow.waits_for
            is RemoveStagingName || flow.waits_for is SyncParent ==> (!(event is Done) <==> save_next(
            flow,
            event,
        ).waits_for is CleanUpStaging),
        flow.waits_for is ReadReplacement && !(event is Content) ==> save_next(
            flow,
            event,
        ).waits_for is CleanUpStaging,
        flow.waits_for is GuardAncestors || flow.waits_for is CheckExisting || flow.waits_for
            is ReserveStaging ==> (event is NotDone ==> save_next(flow, event).waits_for
            == SaveAction::Finish(
            Err::<(), WindowsHelloStateError>(WindowsHelloStateError::Failed),
        )),
        flow.waits_for is OpenExisting && event == SaveEvent::Existing(NameProbe::Failed)
            ==> save_next(flow, event).waits_for == SaveAction::Finish(
            Err::<(), WindowsHelloStateError>(WindowsHelloStateError::Failed),
        ),
        flow.waits_for is CleanUpStaging ==> save_next(flow, event).waits_for
            == SaveAction::Finish(
            Err::<(), WindowsHelloStateError>(
                if flow.published {
                    WindowsHelloStateError::Published
                } else {
                    WindowsHelloStateError::Failed
                },
            ),
        ),
        save_next(flow, event).published ==> flow.published || flow.waits_for is ReplaceFile
            || flow.waits_for is LinkFile,
        save_next(flow, event).protected == flow.protected,
{
}

/// A state that is not read says why: there is none, it is empty, or something
/// went wrong.
pub proof fn unread_states_say_why(action: LoadAction, event: LoadEvent)
    ensures
        next_load_action(action, event) matches Err(error) ==> {
            &&& error == WindowsHelloStateError::NotFound <==> action is OpenFile && event
                == LoadEvent::Opened(NameProbe::NotFound)
            &&& error == WindowsHelloStateError::Invalid <==> action is Measure && event is Measured
                && event->Measured_0 is Ok && event->Measured_0->Ok_0 == 0
            &&& error == WindowsHelloStateError::NotFound || error
                == WindowsHelloStateError::Invalid || error == WindowsHelloStateError::Failed
        },
{
}

} // verus!
