//! Creation of a vault: a private staging file is filled, published under the
//! target name by a link that never replaces anything, and checked.

use vstd::prelude::*;

use crate::bytes::{joined, same_bytes};
use crate::errors::{CreateError, StorageError};
use crate::filesystem::{guarded_file_matches_path, guarded_files_match, FileStamp};
use crate::text::push_decimal;
use crate::vault_data::VaultData;
use crate::vault_rows::read_guarded_empty_vault;

verus! {

/// How many names are tried for a staging file or a snapshot directory.
pub const MAX_STAGING_ATTEMPTS: u64 = 128;

/// What opening the target name gave, redirections not being followed.
#[derive(Clone, Copy, Debug, PartialEq, Eq, Structural)]
pub enum TargetProbe {
    /// Something is there. It is none where it cannot be asked whether it
    /// redirects.
    Found { is_redirected: Option<bool> },
    NotFound,
    Failed,
}

/// Whether a vault can be created under a name. The way to it must be trusted
/// and the name must be free.
pub fn validate_new_target(
    ancestors_are_trusted: bool,
    has_file_name: bool,
    probe: TargetProbe,
) -> (valid: Result<(), CreateError>)
    ensures
        valid is Ok <==> ancestors_are_trusted && has_file_name && probe == TargetProbe::NotFound,
        valid == Err::<(), CreateError>(CreateError::AlreadyExists) <==> ancestors_are_trusted
            && has_file_name && probe == (TargetProbe::Found { is_redirected: Some(false) }),
{
    if !ancestors_are_trusted || !has_file_name {
        return Err(CreateError::Failed);
    }
    match probe {
        TargetProbe::Found { is_redirected: Some(false) } => Err(CreateError::AlreadyExists),
        TargetProbe::Found { .. } => Err(CreateError::Failed),
        TargetProbe::NotFound => Ok(()),
        TargetProbe::Failed => Err(CreateError::Failed),
    }
}

/// What creating a file that must not exist gave.
#[derive(Clone, Copy, Debug, PartialEq, Eq, Structural)]
pub enum CreateAttempt {
    Created,
    AlreadyExists,
    Failed,
}

/// The name of a staging file: the target's own name, this process and a
/// number that is used once.
pub open spec fn staging_name(target_name: Seq<u8>, process_id: u32, sequence: u64) -> Seq<u8> {
    target_name + vstd::utf8::encode_utf8(".librarian-stage-"@) + crate::text::decimal(
        process_id as nat,
    ) + vstd::utf8::encode_utf8("-"@) + crate::text::decimal(sequence as nat)
}

/// Writes the name of a staging file.
pub fn write_staging_name(target_name: &[u8], process_id: u32, sequence: u64) -> (name: Vec<u8>)
    ensures
        name@ == staging_name(target_name@, process_id, sequence),
{
    let mut name = joined(target_name, ".librarian-stage-".as_bytes());
    push_decimal(&mut name, process_id as u64);
    let mut name = joined(&name, "-".as_bytes());
    push_decimal(&mut name, sequence);
    name
}

/// Creates a staging file under the first of a bounded number of fresh names
/// that is free.
pub fn reserve_staging_file<F>(
    target_name: &[u8],
    process_id: u32,
    next_sequence: &mut u64,
    create: F,
) -> (reserved: Result<Vec<u8>, CreateError>) where F: Fn(&Vec<u8>) -> CreateAttempt
    requires
        forall|name: &Vec<u8>| call_requires(create, (name,)),
    ensures
        *old(next_sequence) <= *final(next_sequence) <= *old(next_sequence) + MAX_STAGING_ATTEMPTS,
        match reserved {
            Ok(name) => {
                let last = *final(next_sequence) - 1;
                &&& *old(next_sequence) <= last
                &&& name@ == staging_name(target_name@, process_id, last as u64)
                &&& call_ensures(create, (&name,), CreateAttempt::Created)
                &&& names_taken(create, target_name@, process_id, *old(next_sequence), last)
            },
            Err(error) => {
                let last = *final(next_sequence) - 1;
                &&& error == CreateError::Failed
                &&& {
                    ||| *final(next_sequence) == u64::MAX && names_taken(
                        create,
                        target_name@,
                        process_id,
                        *old(next_sequence),
                        u64::MAX as int,
                    )
                    ||| *final(next_sequence) == *old(next_sequence) + MAX_STAGING_ATTEMPTS
                        && names_taken(
                        create,
                        target_name@,
                        process_id,
                        *old(next_sequence),
                        *final(next_sequence) as int,
                    )
                    ||| *old(next_sequence) <= last && names_taken(
                        create,
                        target_name@,
                        process_id,
                        *old(next_sequence),
                        last,
                    ) && attempt_gave(
                        create,
                        staging_name(target_name@, process_id, last as u64),
                        CreateAttempt::Failed,
                    )
                }
            },
        },
{
    let mut attempt: u64 = 0;
    while attempt < MAX_STAGING_ATTEMPTS
        invariant
            attempt <= MAX_STAGING_ATTEMPTS,
            *next_sequence == *old(next_sequence) + attempt,
            forall|name: &Vec<u8>| call_requires(create, (name,)),
            names_taken(
                create,
                target_name@,
                process_id,
                *old(next_sequence),
                *next_sequence as int,
            ),
        decreases MAX_STAGING_ATTEMPTS - attempt,
    {
        let sequence: u64 = *next_sequence;
        match sequence.checked_add(1) {
            Some(following) => {
                *next_sequence = following;
            },
            None => {
                return Err(CreateError::Failed);
            },
        }
        let name = write_staging_name(target_name, process_id, sequence);
        match create(&name) {
            CreateAttempt::Created => {
                return Ok(name);
            },
            CreateAttempt::AlreadyExists => {
                assert(attempt_gave(
                    create,
                    staging_name(target_name@, process_id, sequence),
                    CreateAttempt::AlreadyExists,
                ));
            },
            CreateAttempt::Failed => {
                return Err(CreateError::Failed);
            },
        }
        attempt += 1;
    }
    Err(CreateError::Failed)
}

/// Whether creating a file of a name was tried and gave a result.
pub open spec fn attempt_gave<F>(create: F, name: Seq<u8>, result: CreateAttempt) -> bool where
    F: Fn(&Vec<u8>) -> CreateAttempt,
 {
    exists|bytes: Vec<u8>| bytes@ == name && #[trigger] call_ensures(create, (&bytes,), result)
}

/// Whether every staging name from one number up to another was found taken.
pub open spec fn names_taken<F>(
    create: F,
    target_name: Seq<u8>,
    process_id: u32,
    from: u64,
    to: int,
) -> bool where F: Fn(&Vec<u8>) -> CreateAttempt {
    forall|sequence: u64|
        from <= sequence < to ==> attempt_gave(
            create,
            #[trigger] staging_name(target_name, process_id, sequence),
            CreateAttempt::AlreadyExists,
        )
}

// Creating and publishing

/// What is to be done next while a vault is created.
#[derive(Clone, Copy, Debug, PartialEq, Eq)]
pub enum CreateAction {
    /// Look at the target name.
    ValidateTarget,
    /// Create the private staging file.
    ReserveStaging,
    /// Read the clock, let the core make a header, a manifest and a session,
    /// and take a session number.
    CreateCore,
    /// Fill the staging file with a database that holds header and manifest.
    InitializeDatabase,
    /// Look for files beside the staging file.
    CheckStagingSidecars,
    /// Look for files beside the target name.
    CheckTargetSidecars,
    /// Compare the staging file with what its name names.
    MatchReservation,
    /// Ask whoever wants the vault whether it still does.
    BeforePublish,
    /// Link the staging file to the target name, which must be free.
    LinkTarget,
    /// Open the target and compare it with the staging file; look for files
    /// beside it.
    CheckPublication,
    /// Remove the staging name.
    RemoveStagingName,
    /// Open the target again, without sharing writes, and compare it with the
    /// published file; look for files beside it.
    SealTarget,
    /// Make the directory entry durable.
    SyncParent,
    /// Read the target as a vault and compare what it holds.
    VerifyPublished,
    /// Remove the target.
    RemoveTarget { sync: bool },
    /// Remove the target if it still is the published file.
    RemoveTargetIfPublished { sync: bool },
    /// Make the removal durable, whatever comes of it.
    SyncRemoval,
    /// Remove the staging file, if its name is still there, and the files
    /// beside it, whatever comes of it.
    CleanUpStaging(Result<(), CreateError>),
    /// The vault was created, or was not.
    Finish(Result<(), CreateError>),
}

/// What came of the last action. `Done` and `NotDone` answer every action but
/// looking at the target, asking, and linking.
#[derive(Clone, Copy, Debug, PartialEq, Eq)]
pub enum CreateEvent {
    Done,
    NotDone,
    Target(Result<(), CreateError>),
    Asked(Result<(), CreateError>),
    Linked(CreateAttempt),
}

/// The creation of one vault, at the action that it waits for.
#[derive(Clone, Copy, Debug, PartialEq, Eq)]
pub struct CreateFlow {
    pub waits_for: CreateAction,
    /// The target name stands for this vault's file.
    pub linked: bool,
    /// Taking the target name back was asked for.
    pub taken_back: bool,
}

/// The action after one that is done, while everything succeeds.
pub open spec fn next_create_action(action: CreateAction) -> CreateAction {
    match action {
        CreateAction::ValidateTarget => CreateAction::ReserveStaging,
        CreateAction::ReserveStaging => CreateAction::CreateCore,
        CreateAction::CreateCore => CreateAction::InitializeDatabase,
        CreateAction::InitializeDatabase => CreateAction::CheckStagingSidecars,
        CreateAction::CheckStagingSidecars => CreateAction::CheckTargetSidecars,
        CreateAction::CheckTargetSidecars => CreateAction::MatchReservation,
        CreateAction::MatchReservation => CreateAction::BeforePublish,
        CreateAction::BeforePublish => CreateAction::LinkTarget,
        CreateAction::LinkTarget => CreateAction::CheckPublication,
        CreateAction::CheckPublication => CreateAction::RemoveStagingName,
        CreateAction::RemoveStagingName => CreateAction::SealTarget,
        CreateAction::SealTarget => CreateAction::SyncParent,
        CreateAction::SyncParent => CreateAction::VerifyPublished,
        CreateAction::VerifyPublished => CreateAction::CleanUpStaging(Ok(())),
        CreateAction::RemoveTarget { sync: true } => CreateAction::SyncRemoval,
        CreateAction::RemoveTargetIfPublished { sync: true } => CreateAction::SyncRemoval,
        CreateAction::RemoveTarget { sync: false } => CreateAction::CleanUpStaging(
            Err(CreateError::Failed),
        ),
        CreateAction::RemoveTargetIfPublished { sync: false } => CreateAction::CleanUpStaging(
            Err(CreateError::Failed),
        ),
        CreateAction::SyncRemoval => CreateAction::CleanUpStaging(Err(CreateError::Failed)),
        CreateAction::CleanUpStaging(result) => CreateAction::Finish(result),
        CreateAction::Finish(result) => CreateAction::Finish(result),
    }
}

/// The action after one that is not done: the target is taken back wherever it
/// may already stand for this vault's file, durably once it was made durable.
pub open spec fn next_failure_action(action: CreateAction) -> CreateAction {
    match action {
        CreateAction::CheckPublication => CreateAction::RemoveTarget { sync: false },
        CreateAction::RemoveStagingName => CreateAction::RemoveTarget { sync: false },
        CreateAction::SealTarget => CreateAction::RemoveTargetIfPublished { sync: false },
        CreateAction::SyncParent => CreateAction::RemoveTarget { sync: true },
        CreateAction::VerifyPublished => CreateAction::RemoveTargetIfPublished { sync: true },
        _ => CreateAction::CleanUpStaging(Err(CreateError::Failed)),
    }
}

/// Whether an event answers an action.
pub open spec fn create_event_answers(action: CreateAction, event: CreateEvent) -> bool {
    match action {
        CreateAction::ValidateTarget => event is Target,
        CreateAction::ReserveStaging => event is Target,
        CreateAction::BeforePublish => event is Asked,
        CreateAction::LinkTarget => event is Linked,
        CreateAction::Finish(_) => false,
        _ => event is Done || event is NotDone,
    }
}

/// The creation after an event.
pub open spec fn create_next(flow: CreateFlow, event: CreateEvent) -> CreateFlow {
    let action = flow.waits_for;
    if action is Finish {
        flow
    } else if action is CleanUpStaging {
        CreateFlow { waits_for: next_create_action(action), ..flow }
    } else if !create_event_answers(action, event) {
        CreateFlow {
            waits_for: if flow.linked && !flow.taken_back {
                CreateAction::RemoveTargetIfPublished { sync: true }
            } else if action is ValidateTarget || action is ReserveStaging {
                CreateAction::Finish(Err(CreateError::Failed))
            } else {
                CreateAction::CleanUpStaging(Err(CreateError::Failed))
            },
            taken_back: flow.linked || flow.taken_back,
            ..flow
        }
    } else {
        match event {
            CreateEvent::Target(Err(error)) => CreateFlow {
                waits_for: CreateAction::Finish(Err(error)),
                ..flow
            },
            CreateEvent::Asked(Err(error)) => CreateFlow {
                waits_for: CreateAction::CleanUpStaging(Err(error)),
                ..flow
            },
            CreateEvent::Linked(CreateAttempt::Created) => CreateFlow {
                waits_for: CreateAction::CheckPublication,
                linked: true,
                ..flow
            },
            CreateEvent::Linked(CreateAttempt::AlreadyExists) => CreateFlow {
                waits_for: CreateAction::CleanUpStaging(Err(CreateError::AlreadyExists)),
                ..flow
            },
            CreateEvent::Linked(CreateAttempt::Failed) => CreateFlow {
                waits_for: CreateAction::CleanUpStaging(Err(CreateError::Failed)),
                ..flow
            },
            CreateEvent::NotDone => if flow.taken_back {
                CreateFlow { waits_for: next_create_action(action), ..flow }
            } else {
                let next = next_failure_action(action);
                CreateFlow { waits_for: next, taken_back: !(next is CleanUpStaging), ..flow }
            },
            _ => CreateFlow { waits_for: next_create_action(action), ..flow },
        }
    }
}

impl CreateFlow {
    /// What holds at every point of a creation: a target that stands for this
    /// vault's file is kept only by success and otherwise taken back.
    pub open spec fn wf(&self) -> bool {
        &&& self.taken_back ==> self.linked
        &&& self.linked && !self.taken_back ==> {
            ||| self.waits_for is CheckPublication
            ||| self.waits_for is RemoveStagingName
            ||| self.waits_for is SealTarget
            ||| self.waits_for is SyncParent
            ||| self.waits_for is VerifyPublished
            ||| self.waits_for matches CreateAction::CleanUpStaging(Ok(_))
            ||| self.waits_for matches CreateAction::Finish(Ok(_))
        }
        &&& self.taken_back ==> {
            ||| self.waits_for is RemoveTarget
            ||| self.waits_for is RemoveTargetIfPublished
            ||| self.waits_for is SyncRemoval
            ||| self.waits_for == CreateAction::CleanUpStaging(
                Err::<(), CreateError>(CreateError::Failed),
            )
            ||| self.waits_for == CreateAction::Finish(Err::<(), CreateError>(CreateError::Failed))
        }
        &&& !self.linked ==> {
            ||| self.waits_for is ValidateTarget
            ||| self.waits_for is ReserveStaging
            ||| self.waits_for is CreateCore
            ||| self.waits_for is InitializeDatabase
            ||| self.waits_for is CheckStagingSidecars
            ||| self.waits_for is CheckTargetSidecars
            ||| self.waits_for is MatchReservation
            ||| self.waits_for is BeforePublish
            ||| self.waits_for is LinkTarget
            ||| self.waits_for matches CreateAction::CleanUpStaging(Err(_))
            ||| self.waits_for matches CreateAction::Finish(Err(_))
        }
    }

    /// A creation that has not looked at anything yet.
    pub fn create() -> (flow: CreateFlow)
        ensures
            flow.wf(),
            flow == (CreateFlow {
                waits_for: CreateAction::ValidateTarget,
                linked: false,
                taken_back: false,
            }),
    {
        CreateFlow { waits_for: CreateAction::ValidateTarget, linked: false, taken_back: false }
    }

    /// Takes in what came of the last action and gives the next one.
    pub fn step(&mut self, event: CreateEvent) -> (action: CreateAction)
        requires
            old(self).wf(),
        ensures
            final(self).wf(),
            *final(self) == create_next(*old(self), event),
            action == final(self).waits_for,
    {
        let action = self.waits_for;
        let next = match (action, event) {
            (CreateAction::Finish(result), _) => CreateAction::Finish(result),
            (CreateAction::CleanUpStaging(result), _) => CreateAction::Finish(result),
            (CreateAction::ValidateTarget, CreateEvent::Target(Ok(()))) => {
                CreateAction::ReserveStaging
            },
            (CreateAction::ValidateTarget, CreateEvent::Target(Err(error))) => {
                CreateAction::Finish(Err(error))
            },
            (CreateAction::ReserveStaging, CreateEvent::Target(Ok(()))) => {
                CreateAction::CreateCore
            },
            (CreateAction::ReserveStaging, CreateEvent::Target(Err(error))) => {
                CreateAction::Finish(Err(error))
            },
            (CreateAction::CreateCore, CreateEvent::Done) => CreateAction::InitializeDatabase,
            (CreateAction::InitializeDatabase, CreateEvent::Done) => {
                CreateAction::CheckStagingSidecars
            },
            (CreateAction::CheckStagingSidecars, CreateEvent::Done) => {
                CreateAction::CheckTargetSidecars
            },
            (CreateAction::CheckTargetSidecars, CreateEvent::Done) => {
                CreateAction::MatchReservation
            },
            (CreateAction::MatchReservation, CreateEvent::Done) => CreateAction::BeforePublish,
            (CreateAction::BeforePublish, CreateEvent::Asked(Ok(()))) => CreateAction::LinkTarget,
            (CreateAction::BeforePublish, CreateEvent::Asked(Err(error))) => {
                CreateAction::CleanUpStaging(Err(error))
            },
            (CreateAction::LinkTarget, CreateEvent::Linked(CreateAttempt::Created)) => {
                self.linked = true;
                CreateAction::CheckPublication
            },
            (CreateAction::LinkTarget, CreateEvent::Linked(CreateAttempt::AlreadyExists)) => {
                CreateAction::CleanUpStaging(Err(CreateError::AlreadyExists))
            },
            (CreateAction::LinkTarget, CreateEvent::Linked(CreateAttempt::Failed)) => {
                CreateAction::CleanUpStaging(Err(CreateError::Failed))
            },
            (CreateAction::CheckPublication, CreateEvent::Done) => CreateAction::RemoveStagingName,
            (CreateAction::CheckPublication, CreateEvent::NotDone) => {
                self.taken_back = true;
                CreateAction::RemoveTarget { sync: false }
            },
            (CreateAction::RemoveStagingName, CreateEvent::Done) => CreateAction::SealTarget,
            (CreateAction::RemoveStagingName, CreateEvent::NotDone) => {
                self.taken_back = true;
                CreateAction::RemoveTarget { sync: false }
            },
            (CreateAction::SealTarget, CreateEvent::Done) => CreateAction::SyncParent,
            (CreateAction::SealTarget, CreateEvent::NotDone) => {
                self.taken_back = true;
                CreateAction::RemoveTargetIfPublished { sync: false }
            },
            (CreateAction::SyncParent, CreateEvent::Done) => CreateAction::VerifyPublished,
            (CreateAction::SyncParent, CreateEvent::NotDone) => {
                self.taken_back = true;
                CreateAction::RemoveTarget { sync: true }
            },
            (CreateAction::VerifyPublished, CreateEvent::Done) => {
                CreateAction::CleanUpStaging(Ok(()))
            },
            (CreateAction::VerifyPublished, CreateEvent::NotDone) => {
                self.taken_back = true;
                CreateAction::RemoveTargetIfPublished { sync: true }
            },
            (CreateAction::RemoveTarget { sync }, CreateEvent::Done | CreateEvent::NotDone) => {
                if sync {
                    CreateAction::SyncRemoval
                } else {
                    CreateAction::CleanUpStaging(Err(CreateError::Failed))
                }
            },
            (
                CreateAction::RemoveTargetIfPublished { sync },
                CreateEvent::Done | CreateEvent::NotDone,
            ) => {
                if sync {
                    CreateAction::SyncRemoval
                } else {
                    CreateAction::CleanUpStaging(Err(CreateError::Failed))
                }
            },
            (CreateAction::ValidateTarget | CreateAction::ReserveStaging, _) => {
                CreateAction::Finish(Err(CreateError::Failed))
            },
            _ => {
                if self.linked && !self.taken_back {
                    self.taken_back = true;
                    CreateAction::RemoveTargetIfPublished { sync: true }
                } else {
                    CreateAction::CleanUpStaging(Err(CreateError::Failed))
                }
            },
        };
        self.waits_for = next;
        next
    }
}

// Judging what was published

/// Whether the file at a target, none where no regular file could be opened
/// there, is another one, and no other files of a database lie beside it.
pub open spec fn stands_for(
    file: Option<FileStamp>,
    target: Option<FileStamp>,
    sidecars: Result<(), StorageError>,
) -> bool {
    &&& file is Some && file->Some_0.is_file
    &&& target is Some && target->Some_0.is_regular()
    &&& file->Some_0.volume == target->Some_0.volume
    &&& file->Some_0.file == target->Some_0.file
    &&& sidecars is Ok
}

/// Whether the target stands for the staging file, right after it was linked.
pub fn publication_is_valid(
    reservation: Option<FileStamp>,
    published: Option<FileStamp>,
    sidecars: Result<(), StorageError>,
) -> (valid: bool)
    ensures
        valid == stands_for(reservation, published, sidecars),
{
    guarded_file_matches_path(reservation, published).is_ok() && sidecars.is_ok()
}

/// Whether the target still stands for the published file, now that nothing
/// else may write to it.
pub fn seal_published_vault(
    published: Option<FileStamp>,
    sealed: Option<FileStamp>,
    sidecars: Result<(), StorageError>,
) -> (result: Result<(), CreateError>)
    ensures
        result == (if stands_for(published, sealed, sidecars) {
            Ok::<(), CreateError>(())
        } else {
            Err(CreateError::Failed)
        }),
{
    if publication_is_valid(published, sealed, sidecars) {
        Ok(())
    } else {
        Err(CreateError::Failed)
    }
}

/// Whether the target was read back as the vault that was to be created: an
/// empty one with this header and this manifest, from the published file.
pub fn verify_published_vault(
    published: Option<FileStamp>,
    read: Result<VaultData, StorageError>,
    read_from: Option<FileStamp>,
    expected_header: &[u8],
    expected_manifest: &[u8],
) -> (verified: Result<(), CreateError>)
    ensures
        verified == (if read is Ok && read->Ok_0@.records.len() == 0 && published is Some
            && published->Some_0.is_file && read_from is Some && read_from->Some_0.is_file
            && published->Some_0.volume == read_from->Some_0.volume && published->Some_0.file
            == read_from->Some_0.file && read->Ok_0@.header == expected_header@
            && read->Ok_0@.manifest == expected_manifest@ {
            Ok::<(), CreateError>(())
        } else {
            Err(CreateError::Failed)
        }),
{
    match read_guarded_empty_vault(read) {
        Ok(data) => {
            if guarded_files_match(published, read_from).is_ok() && same_bytes(
                &data.header,
                expected_header,
            ) && same_bytes(&data.manifest, expected_manifest) {
                Ok(())
            } else {
                Err(CreateError::Failed)
            }
        },
        Err(_) => Err(CreateError::Failed),
    }
}

/// Whether the target may be removed: it must be a regular file, and the one
/// that was published.
pub fn target_is_published(published: Option<FileStamp>, current: Option<FileStamp>) -> (removable:
    bool)
    ensures
        removable == stands_for(published, current, Ok(())),
{
    guarded_file_matches_path(published, current).is_ok()
}

// Laws

/// A creation after these events.
pub open spec fn create_after(events: Seq<CreateEvent>) -> CreateFlow
    decreases events.len(),
{
    if events.len() == 0 {
        CreateFlow {
            waits_for: CreateAction::ValidateTarget,
            linked: false,
            taken_back: false,
        }
    } else {
        create_next(create_after(events.drop_last()), events.last())
    }
}

proof fn creations_stay_wf(events: Seq<CreateEvent>)
    ensures
        create_after(events).wf(),
    decreases events.len(),
{
    if events.len() > 0 {
        creations_stay_wf(events.drop_last());
    }
}

/// How many events brought a creation to an action, while everything succeeds.
pub open spec fn events_before(action: CreateAction) -> int {
    match action {
        CreateAction::ValidateTarget => 0,
        CreateAction::ReserveStaging => 1,
        CreateAction::CreateCore => 2,
        CreateAction::InitializeDatabase => 3,
        CreateAction::CheckStagingSidecars => 4,
        CreateAction::CheckTargetSidecars => 5,
        CreateAction::MatchReservation => 6,
        CreateAction::BeforePublish => 7,
        CreateAction::LinkTarget => 8,
        CreateAction::CheckPublication => 9,
        CreateAction::RemoveStagingName => 10,
        CreateAction::SealTarget => 11,
        CreateAction::SyncParent => 12,
        CreateAction::VerifyPublished => 13,
        CreateAction::CleanUpStaging(Ok(_)) => 14,
        CreateAction::Finish(Ok(_)) => 14,
        _ => -1,
    }
}

/// Whether an event is the success of the action at this place of a creation.
pub open spec fn is_success_at(event: CreateEvent, place: int) -> bool {
    if place < 2 {
        event is Target && event->Target_0 is Ok
    } else if place == 7 {
        event is Asked && event->Asked_0 is Ok
    } else if place == 8 {
        event == CreateEvent::Linked(CreateAttempt::Created)
    } else {
        event is Done
    }
}

/// Whether the first events are successes, each of the action at its place.
pub open spec fn all_went_well(events: Seq<CreateEvent>, count: int) -> bool {
    &&& events.len() >= count
    &&& forall|i: int| 0 <= i < count ==> is_success_at(#[trigger] events[i], i)
}

proof fn creations_follow_their_events(events: Seq<CreateEvent>)
    ensures
        ({
            let flow = create_after(events);
            let count = events_before(flow.waits_for);
            &&& count >= 0 ==> all_went_well(events, count)
            &&& 0 <= count < 14 ==> events.len() == count
            &&& flow.linked ==> all_went_well(events, 9)
        }),
    decreases events.len(),
{
    creations_stay_wf(events);
    if events.len() > 0 {
        let earlier = events.drop_last();
        creations_follow_their_events(earlier);
        creations_stay_wf(earlier);
        assert(forall|i: int| 0 <= i < earlier.len() ==> earlier[i] == #[trigger] events[i]);
        assert(events[events.len() - 1] == events.last());
        assert(create_after(events) == create_next(create_after(earlier), events.last()));
    }
}

proof fn finished_creations_stay_finished(events: Seq<CreateEvent>, count: int)
    requires
        0 <= count <= events.len(),
        create_after(events.take(count)).waits_for is Finish,
    ensures
        create_after(events) == create_after(events.take(count)),
    decreases events.len(),
{
    if count < events.len() {
        assert(events.drop_last().take(count) =~= events.take(count));
        finished_creations_stay_finished(events.drop_last(), count);
    } else {
        assert(events.take(count) =~= events);
    }
}

/// A vault is created only where every step succeeded, in order, from looking
/// at its name to reading the published vault back.
pub proof fn created_vaults_passed_every_step(events: Seq<CreateEvent>)
    requires
        create_after(events).waits_for matches CreateAction::Finish(Ok(_)),
    ensures
        all_went_well(events, 14),
{
    creations_follow_their_events(events);
}

/// Whoever wants the vault is asked at most once, when the staging file is
/// complete and nothing is published; the name is linked only after they agreed,
/// and what they refuse with is what the creation ends with.
pub proof fn creations_ask_once_before_publishing(events: Seq<CreateEvent>)
    ensures
        create_after(events).linked ==> all_went_well(events, 9),
        forall|count: int|
            #![trigger events.take(count)]
            0 <= count <= events.len() && create_after(events.take(count)).waits_for
                is BeforePublish ==> count == 7 && all_went_well(events, 7) && !create_after(
                events.take(count),
            ).linked,
        events.len() > 7 && create_after(events.take(7)).waits_for is BeforePublish ==> (
        events[7] matches CreateEvent::Asked(Err(error)) ==> {
            &&& create_after(events).waits_for == (if events.len() == 8 {
                CreateAction::CleanUpStaging(Err::<(), CreateError>(error))
            } else {
                CreateAction::Finish(Err::<(), CreateError>(error))
            })
            &&& !create_after(events).linked
        }),
{
    creations_follow_their_events(events);
    assert forall|count: int|
        #![trigger events.take(count)]
        0 <= count <= events.len() && create_after(events.take(count)).waits_for
            is BeforePublish implies count == 7 && all_went_well(events, 7) && !create_after(
        events.take(count),
    ).linked by {
        creations_follow_their_events(events.take(count));
        creations_stay_wf(events.take(count));
        assert(forall|i: int| 0 <= i < count ==> events.take(count)[i] == #[trigger] events[i]);
    }
    if events.len() > 7 && create_after(events.take(7)).waits_for is BeforePublish {
        creations_stay_wf(events.take(7));
        if events[7] is Asked && events[7]->Asked_0 is Err {
            assert(events.take(8).drop_last() =~= events.take(7));
            assert(create_after(events.take(8)) == create_next(
                create_after(events.take(7)),
                events[7],
            ));
            if events.len() > 8 {
                assert(events.take(9).drop_last() =~= events.take(8));
                finished_creations_stay_finished(events, 9);
            } else {
                assert(events.take(8) =~= events);
            }
        }
    }
}

/// Whatever happens while a vault is created, its name stands for the new file
/// at the end of a success, and a failed creation that had linked it has taken
/// it back. A vault that was there before is never touched.
pub proof fn failed_creations_are_taken_back(events: Seq<CreateEvent>)
    ensures
        create_after(events).waits_for matches CreateAction::Finish(Ok(_)) ==> create_after(
            events,
        ).linked && !create_after(events).taken_back,
        create_after(events).waits_for matches CreateAction::Finish(Err(_)) ==> (create_after(
            events,
        ).linked ==> create_after(events).taken_back),
        create_after(events).waits_for == CreateAction::Finish(
            Err::<(), CreateError>(CreateError::AlreadyExists),
        ) ==> !create_after(events).linked,
{
    creations_stay_wf(events);
}

/// The files that a creation can touch or could be thought to touch.
pub struct CreationFiles {
    /// What stands at the target name.
    pub target: Option<Seq<u8>>,
    /// What stands at the staging name.
    pub staged: Option<Seq<u8>>,
    /// Whether there are files of a database beside the staging file.
    pub staged_sidecars: bool,
    /// The log beside the target name.
    pub target_wal: Option<Seq<u8>>,
    /// The shared-memory file beside the target name.
    pub target_shm: Option<Seq<u8>>,
}

/// What filling the staging file makes: the image of the vault where it is done,
/// or whatever it came to, and possibly files beside it.
pub struct Filled {
    pub image: Seq<u8>,
    pub partial: Seq<u8>,
    pub sidecars: bool,
}

/// The files after the awaited action came to this.
pub open spec fn creation_files_after(
    files: CreationFiles,
    flow: CreateFlow,
    event: CreateEvent,
    filled: Filled,
) -> CreationFiles {
    match (flow.waits_for, event) {
        (CreateAction::ReserveStaging, CreateEvent::Target(Ok(_))) => CreationFiles {
            staged: Some(Seq::empty()),
            ..files
        },
        (CreateAction::InitializeDatabase, CreateEvent::Done) => CreationFiles {
            staged: Some(filled.image),
            staged_sidecars: filled.sidecars,
            ..files
        },
        (CreateAction::InitializeDatabase, _) => CreationFiles {
            staged: Some(filled.partial),
            staged_sidecars: filled.sidecars,
            ..files
        },
        (CreateAction::LinkTarget, CreateEvent::Linked(CreateAttempt::Created)) => CreationFiles {
            target: files.staged,
            ..files
        },
        (CreateAction::RemoveStagingName, CreateEvent::Done) => CreationFiles {
            staged: None,
            ..files
        },
        (CreateAction::RemoveTarget { .. }, CreateEvent::Done) => CreationFiles {
            target: None,
            ..files
        },
        (CreateAction::RemoveTargetIfPublished { .. }, CreateEvent::Done) => CreationFiles {
            target: None,
            ..files
        },
        (CreateAction::CleanUpStaging(_), CreateEvent::Done) => CreationFiles {
            staged: None,
            staged_sidecars: false,
            ..files
        },
        _ => files,
    }
}

/// The files after these events of a creation.
pub open spec fn files_created_by(
    files: CreationFiles,
    events: Seq<CreateEvent>,
    filled: Filled,
) -> CreationFiles
    decreases events.len(),
{
    if events.len() == 0 {
        files
    } else {
        creation_files_after(
            files_created_by(files, events.drop_last(), filled),
            create_after(events.drop_last()),
            events.last(),
            filled,
        )
    }
}

/// Whether an action removes a file for good.
pub open spec fn removes_file(action: CreateAction) -> bool {
    action is RemoveTarget || action is RemoveTargetIfPublished || action is CleanUpStaging
}

/// Whether the platform removed every file that a creation wanted removed.
pub open spec fn removals_were_done(events: Seq<CreateEvent>) -> bool
    decreases events.len(),
{
    events.len() > 0 ==> {
        &&& removals_were_done(events.drop_last())
        &&& removes_file(create_after(events.drop_last()).waits_for) ==> events.last() is Done
    }
}

proof fn files_follow_the_creation(
    files: CreationFiles,
    events: Seq<CreateEvent>,
    filled: Filled,
)
    requires
        files.target is None,
        files.staged is None,
        !files.staged_sidecars,
        removals_were_done(events),
    ensures
        ({
            let flow = create_after(events);
            let after = files_created_by(files, events, filled);
            let count = events_before(flow.waits_for);
            &&& flow.wf()
            &&& after.target_wal == files.target_wal
            &&& after.target_shm == files.target_shm
            &&& !flow.linked ==> after.target is None
            &&& flow.linked && !flow.taken_back ==> after.target == Some(filled.image)
            &&& flow.taken_back && !removes_file(flow.waits_for) ==> after.target is None
            &&& flow.taken_back && flow.waits_for is CleanUpStaging ==> after.target is None
            &&& 0 <= count < 2 ==> after.staged is None && !after.staged_sidecars
            &&& 4 <= count < 9 ==> after.staged == Some(filled.image)
            &&& flow.waits_for is Finish ==> after.staged is None && !after.staged_sidecars
        }),
    decreases events.len(),
{
    creations_stay_wf(events);
    if events.len() > 0 {
        files_follow_the_creation(files, events.drop_last(), filled);
    }
}

/// A creation at a free name leaves the complete vault there or nothing at all:
/// the vault after a success, and nothing at the name after any failure. Either
/// way no staging file is left, nor a file beside it, and files that lay beside
/// the name are as they were. This holds where the platform removes what it is
/// asked to remove.
pub proof fn creations_leave_a_vault_or_nothing(
    files: CreationFiles,
    events: Seq<CreateEvent>,
    filled: Filled,
)
    requires
        files.target is None,
        files.staged is None,
        !files.staged_sidecars,
        removals_were_done(events),
        create_after(events).waits_for is Finish,
    ensures
        files_created_by(files, events, filled).target == (
        if create_after(events).waits_for->Finish_0 is Ok {
            Some(filled.image)
        } else {
            None
        }),
        files_created_by(files, events, filled).staged is None,
        !files_created_by(files, events, filled).staged_sidecars,
        files_created_by(files, events, filled).target_wal == files.target_wal,
        files_created_by(files, events, filled).target_shm == files.target_shm,
{
    files_follow_the_creation(files, events, filled);
}

/// Whatever the platform refuses to remove, the removal of the staging file is
/// asked for before a creation ends that had reserved it.
pub proof fn creations_clean_up_before_they_end(events: Seq<CreateEvent>)
    requires
        events.len() > 2,
        !(create_after(events.drop_last()).waits_for is Finish),
        create_after(events).waits_for is Finish,
    ensures
        create_after(events.drop_last()).waits_for == CreateAction::CleanUpStaging(
            create_after(events).waits_for->Finish_0,
        ),
{
    let earlier = events.drop_last();
    creations_stay_wf(earlier);
    creations_follow_their_events(earlier);
}

proof fn removals_were_done_before(events: Seq<CreateEvent>, count: int)
    requires
        0 <= count <= events.len(),
        removals_were_done(events),
    ensures
        removals_were_done(events.take(count)),
    decreases events.len(),
{
    if count < events.len() {
        assert(events.drop_last().take(count) =~= events.take(count));
        removals_were_done_before(events.drop_last(), count);
    } else {
        assert(events.take(count) =~= events);
    }
}

/// The creation of a vault at a free name, as a whole. Whoever wants it is asked
/// at most once, when the complete vault stands at the staging name and nothing
/// at its own, and what they refuse with is what the creation ends with. After
/// any failure nothing stands at the name; after a success the complete vault
/// does, the handle that was made is unlocked, and another handle of the same
/// path unlocks as well, once the core opens the rows that were published. No
/// staging file is left either way, and files that lay beside the name are
/// untouched. This holds where the platform removes what it is asked to remove.
pub proof fn vaults_are_created_whole_or_not_at_all<S>(
    files: CreationFiles,
    events: Seq<CreateEvent>,
    filled: Filled,
    created: crate::lifecycle::VaultAgent<S>,
    reopened: crate::lifecycle::VaultAgent<S>,
    sessions: u64,
    rows: crate::vault_data::VaultModel,
    unlocking: Seq<crate::unlock_attempt::UnlockEvent<S>>,
)
    requires
        files.target is None,
        files.staged is None,
        !files.staged_sidecars,
        removals_were_done(events),
        create_after(events).waits_for is Finish,
        created.wf(),
        created.session is Some,
        created.recognizes(rows),
        rows.records.len() == 0,
        reopened.wf(),
        reopened.path == created.path,
        reopened.session is None,
        reopened.authorization_epoch == 0,
        sessions < u64::MAX,
        unlocking.len() == 7,
        crate::unlock_attempt::goes_well(unlocking, 7),
        unlocking[1]->Rows_0->Ok_0@ == rows,
    ensures
        forall|count: int|
            #![trigger events.take(count)]
            0 <= count < events.len() && create_after(events.take(count)).waits_for
                is BeforePublish ==> {
                let then = files_created_by(files, events.take(count), filled);
                &&& count == 7
                &&& then.staged == Some(filled.image)
                &&& then.target is None
                &&& events[count] matches CreateEvent::Asked(Err(error)) ==> create_after(
                    events,
                ).waits_for == CreateAction::Finish(Err::<(), CreateError>(error))
            },
        ({
            let after = files_created_by(files, events, filled);
            &&& after.staged is None
            &&& !after.staged_sidecars
            &&& after.target_wal == files.target_wal
            &&& after.target_shm == files.target_shm
            &&& match create_after(events).waits_for->Finish_0 {
                Err(_) => after.target is None,
                Ok(_) => {
                    let opened = crate::unlock_attempt::unlocked_by(reopened, sessions, unlocking);
                    &&& after.target == Some(filled.image)
                    &&& all_went_well(events, 14)
                    &&& opened.attempt.step is Unlocked
                    &&& opened.agent.session is Some
                    &&& opened.agent.recognizes(rows)
                },
            }
        }),
{
    creations_leave_a_vault_or_nothing(files, events, filled);
    creations_follow_their_events(events);
    creations_ask_once_before_publishing(events);
    crate::unlock_attempt::created_vaults_unlock(created, reopened, sessions, rows, unlocking);
    assert forall|count: int|
        #![trigger events.take(count)]
        0 <= count < events.len() && create_after(events.take(count)).waits_for
            is BeforePublish implies {
        let then = files_created_by(files, events.take(count), filled);
        &&& count == 7
        &&& then.staged == Some(filled.image)
        &&& then.target is None
        &&& events[count] matches CreateEvent::Asked(Err(error)) ==> create_after(events).waits_for
            == CreateAction::Finish(Err::<(), CreateError>(error))
    } by {
        removals_were_done_before(events, count);
        files_follow_the_creation(files, events.take(count), filled);
        creations_stay_wf(events.take(count));
        creations_follow_their_events(events.take(count));
    }
}

/// Two staging files of one process never have one name, as each has a number of
/// its own.
pub proof fn staging_names_are_told_apart(
    target_name: Seq<u8>,
    process_id: u32,
    one: u64,
    other: u64,
)
    requires
        one != other,
    ensures
        staging_name(target_name, process_id, one) != staging_name(target_name, process_id, other),
{
    let front = target_name + vstd::utf8::encode_utf8(".librarian-stage-"@) + crate::text::decimal(
        process_id as nat,
    ) + vstd::utf8::encode_utf8("-"@);
    let left = staging_name(target_name, process_id, one);
    let right = staging_name(target_name, process_id, other);
    if left == right {
        let count = front.len() as int;
        assert(left.skip(count) =~= crate::text::decimal(one as nat));
        assert(right.skip(count) =~= crate::text::decimal(other as nat));
        crate::text::written_numbers_are_read_back(one as nat);
        crate::text::written_numbers_are_read_back(other as nat);
    }
}

/// A creation in which everything goes well ends with the vault, and only such a
/// one: the target is free, a staging file is made, the core makes its part, the
/// database is filled, nothing stands beside either file, the staging file is
/// the one that was made, the vault is still wanted, the target is linked and
/// checked, the staging name goes, the target is sealed, its directory entry is
/// durable, and it is read back. Cleaning up afterwards changes nothing of it.
pub proof fn creations_that_go_well_succeed(flows: Seq<CreateFlow>, events: Seq<CreateEvent>)
    requires
        events.len() == 15,
        flows.len() == 16,
        flows[0].waits_for is ValidateTarget,
        !flows[0].linked,
        !flows[0].taken_back,
        forall|i: int|
            0 <= i < 15 ==> flows[i + 1] == create_next(flows[i], #[trigger] events[i]),
    ensures
        flows[15].waits_for matches CreateAction::Finish(Ok(_)) <==> {
            &&& events[0] matches CreateEvent::Target(Ok(_))
            &&& events[1] matches CreateEvent::Target(Ok(_))
            &&& events[2] is Done
            &&& events[3] is Done
            &&& events[4] is Done
            &&& events[5] is Done
            &&& events[6] is Done
            &&& events[7] matches CreateEvent::Asked(Ok(_))
            &&& events[8] matches CreateEvent::Linked(CreateAttempt::Created)
            &&& events[9] is Done
            &&& events[10] is Done
            &&& events[11] is Done
            &&& events[12] is Done
            &&& events[13] is Done
        },
{
    assert(flows[1] == create_next(flows[0], events[0]));
    assert(events_before(flows[1].waits_for) == 1 || ends_badly(flows[1].waits_for));
    assert(flows[2] == create_next(flows[1], events[1]));
    assert(events_before(flows[2].waits_for) == 2 || ends_badly(flows[2].waits_for));
    assert(flows[3] == create_next(flows[2], events[2]));
    assert(events_before(flows[3].waits_for) == 3 || ends_badly(flows[3].waits_for));
    assert(flows[4] == create_next(flows[3], events[3]));
    assert(events_before(flows[4].waits_for) == 4 || ends_badly(flows[4].waits_for));
    assert(flows[5] == create_next(flows[4], events[4]));
    assert(events_before(flows[5].waits_for) == 5 || ends_badly(flows[5].waits_for));
    assert(flows[6] == create_next(flows[5], events[5]));
    assert(events_before(flows[6].waits_for) == 6 || ends_badly(flows[6].waits_for));
    assert(flows[7] == create_next(flows[6], events[6]));
    assert(events_before(flows[7].waits_for) == 7 || ends_badly(flows[7].waits_for));
    assert(flows[8] == create_next(flows[7], events[7]));
    assert(events_before(flows[8].waits_for) == 8 || ends_badly(flows[8].waits_for));
    assert(flows[9] == create_next(flows[8], events[8]));
    assert(events_before(flows[9].waits_for) == 9 || ends_badly(flows[9].waits_for));
    assert(flows[10] == create_next(flows[9], events[9]));
    assert(events_before(flows[10].waits_for) == 10 || ends_badly(flows[10].waits_for));
    assert(flows[11] == create_next(flows[10], events[10]));
    assert(events_before(flows[11].waits_for) == 11 || ends_badly(flows[11].waits_for));
    assert(flows[12] == create_next(flows[11], events[11]));
    assert(events_before(flows[12].waits_for) == 12 || ends_badly(flows[12].waits_for));
    assert(flows[13] == create_next(flows[12], events[12]));
    assert(events_before(flows[13].waits_for) == 13 || ends_badly(flows[13].waits_for));
    assert(flows[14] == create_next(flows[13], events[13]));
    assert(events_before(flows[14].waits_for) == 14 || ends_badly(flows[14].waits_for));
    assert(flows[15] == create_next(flows[14], events[14]));
    assert(events_before(flows[15].waits_for) == 14 || ends_badly(flows[15].waits_for));
}

/// Whether a creation can only fail from an action on.
spec fn ends_badly(action: CreateAction) -> bool {
    match action {
        CreateAction::RemoveTarget { .. } => true,
        CreateAction::RemoveTargetIfPublished { .. } => true,
        CreateAction::SyncRemoval => true,
        CreateAction::CleanUpStaging(result) => result is Err,
        CreateAction::Finish(result) => result is Err,
        _ => false,
    }
}

/// A published file is accepted where it is a regular file, the very one that
/// was guarded, and nothing stands beside it.
pub proof fn only_the_own_file_is_published(
    guarded: Option<FileStamp>,
    found: Option<FileStamp>,
    sidecars: Result<(), StorageError>,
    valid: bool,
    sealed: Result<(), CreateError>,
    removable: bool,
)
    requires
        call_ensures(publication_is_valid, (guarded, found, sidecars), valid),
        call_ensures(seal_published_vault, (guarded, found, sidecars), sealed),
        call_ensures(target_is_published, (guarded, found), removable),
    ensures
        valid <==> removable && sidecars is Ok,
        sealed is Ok <==> valid,
        removable ==> guarded is Some && found is Some,
        guarded is Some && found is Some ==> (removable <==> guarded->Some_0.is_file
            && found->Some_0.is_file && !found->Some_0.is_redirected && (
        guarded->Some_0.volume, guarded->Some_0.file) == (
        found->Some_0.volume, found->Some_0.file)),
{
}

/// A creation that fails says why, and takes back what it did as far as it had
/// come: a name that is taken is told apart from every other failure, a target
/// is taken back durably once its directory entry was made durable, and it is
/// left alone from the moment at which it may have been replaced by another
/// file, unless it still is the own one.
pub proof fn failed_creations_say_why(flow: CreateFlow, event: CreateEvent)
    ensures
        flow.waits_for is ValidateTarget || flow.waits_for is ReserveStaging ==> (
        event matches CreateEvent::Target(Err(error)) ==> create_next(flow, event).waits_for
            == CreateAction::Finish(Err::<(), CreateError>(error))),
        flow.waits_for is BeforePublish ==> (event matches CreateEvent::Asked(Err(error))
            ==> create_next(flow, event).waits_for == CreateAction::CleanUpStaging(
            Err::<(), CreateError>(error),
        )),
        flow.waits_for is LinkTarget && event == CreateEvent::Linked(CreateAttempt::AlreadyExists)
            ==> create_next(flow, event).waits_for == CreateAction::CleanUpStaging(
            Err::<(), CreateError>(CreateError::AlreadyExists),
        ),
        flow.waits_for is LinkTarget && event == CreateEvent::Linked(CreateAttempt::Failed)
            ==> create_next(flow, event).waits_for == CreateAction::CleanUpStaging(
            Err::<(), CreateError>(CreateError::Failed),
        ),
        event is NotDone && !flow.taken_back ==> {
            let next = create_next(flow, event).waits_for;
            &&& flow.waits_for is CheckPublication || flow.waits_for is RemoveStagingName ==> next
                == CreateAction::RemoveTarget { sync: false }
            &&& flow.waits_for is SealTarget ==> next == CreateAction::RemoveTargetIfPublished {
                sync: false,
            }
            &&& flow.waits_for is SyncParent ==> next == CreateAction::RemoveTarget { sync: true }
            &&& flow.waits_for is VerifyPublished ==> next
                == CreateAction::RemoveTargetIfPublished { sync: true }
        },
        flow.waits_for matches CreateAction::CleanUpStaging(result) ==> create_next(
            flow,
            event,
        ).waits_for == CreateAction::Finish(result),
{
}

/// A vault is created only under a name that is free, on a way that is trusted;
/// a name that is taken is told apart, unless it only leads elsewhere.
pub proof fn only_free_names_are_taken(
    trusted: bool,
    has_file_name: bool,
    probe: TargetProbe,
    valid: Result<(), CreateError>,
)
    requires
        call_ensures(validate_new_target, (trusted, has_file_name, probe), valid),
    ensures
        valid is Ok <==> trusted && has_file_name && probe is NotFound,
        valid matches Err(error) ==> (error == CreateError::AlreadyExists <==> trusted
            && has_file_name && probe is Found && probe->is_redirected == Some(false)),
{
}

/// A vault that was published is read back as what was to be written: from the
/// published file, without records, with its header and its manifest.
pub proof fn published_vaults_are_what_was_written(
    published: FileStamp,
    data: VaultData,
    read_from: FileStamp,
    header: &[u8],
    manifest: &[u8],
    verified: Result<(), CreateError>,
)
    requires
        call_ensures(
            verify_published_vault,
            (Some(published), Ok(data), Some(read_from), header, manifest),
            verified,
        ),
    ensures
        verified is Ok <==> {
            &&& published.is_file && read_from.is_file
            &&& (published.volume, published.file) == (read_from.volume, read_from.file)
            &&& data.records@.len() == 0
            &&& data.header@ == header@ && data.manifest@ == manifest@
        },
{
}

/// An answer that a creation did not wait for ends it: a target that may stand
/// for the new file is taken back durably, if it still is that file, and
/// whatever was staged is cleaned up.
pub proof fn unexpected_answers_end_creations(flow: CreateFlow, event: CreateEvent)
    requires
        !(flow.waits_for is Finish),
        !(flow.waits_for is CleanUpStaging),
        !(match flow.waits_for {
            CreateAction::ValidateTarget | CreateAction::ReserveStaging => event is Target,
            CreateAction::BeforePublish => event is Asked,
            CreateAction::LinkTarget => event is Linked,
            _ => event is Done || event is NotDone,
        }),
    ensures
        ({
            let next = create_next(flow, event).waits_for;
            &&& flow.linked && !flow.taken_back ==> next == CreateAction::RemoveTargetIfPublished {
                sync: true,
            }
            &&& !flow.linked && (flow.waits_for is ValidateTarget || flow.waits_for
                is ReserveStaging) ==> next == CreateAction::Finish(
                Err::<(), CreateError>(CreateError::Failed),
            )
            &&& !flow.linked && !(flow.waits_for is ValidateTarget) && !(flow.waits_for
                is ReserveStaging) ==> next == CreateAction::CleanUpStaging(
                Err::<(), CreateError>(CreateError::Failed),
            )
            &&& flow.taken_back && !(flow.waits_for is ValidateTarget) && !(flow.waits_for
                is ReserveStaging) ==> next == CreateAction::CleanUpStaging(
                Err::<(), CreateError>(CreateError::Failed),
            )
            &&& create_next(flow, event).linked == flow.linked
        }),
{
}

} // verus!
