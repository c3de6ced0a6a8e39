//! What the process around the agent decides: who it is, whom it serves, and
//! what it does with connections and frames.

use sha2::{Digest, Sha256};
use vstd::prelude::*;

use crate::bytes::{copy_bytes, joined, same_bytes};
use crate::storage::CreateAttempt;

verus! {

/// The integrity level of an ordinary process of the user.
pub const MEDIUM_INTEGRITY_RID: u32 = 0x2000;

/// Why the process does not serve.
#[derive(Clone, Copy, Debug, PartialEq, Eq, Structural)]
pub enum HostError {
    Identity,
    LocalState,
    Runtime,
    Discovery,
    Transport,
}

/// What the platform says of a process. Texts are given in UTF-8.
pub struct ProcessObservation {
    pub package_full_name: Option<Vec<u8>>,
    pub package_family_name: Option<Vec<u8>>,
    pub application_user_model_id: Option<Vec<u8>>,
    pub elevated: bool,
    pub app_container: bool,
    pub integrity_rid: u32,
    /// The last name of the path of the executable.
    pub image_name: Option<Vec<u8>>,
    /// The directory of the executable.
    pub image_directory: Option<Vec<u8>>,
    pub session_id: u32,
    pub user_sid: Vec<u8>,
    pub logon_sid: Vec<u8>,
}

/// The package that the agent belongs to, and where it is installed.
pub struct AgentIdentity {
    pub package_full_name: Vec<u8>,
    pub package_family_name: Vec<u8>,
    pub install_root: Vec<u8>,
}

/// An ASCII letter in lower case, and any other byte as it is.
#[verifier::allow_in_spec]
pub fn ascii_lower(byte: u8) -> u8
    returns
        (if 65 <= byte && byte <= 90 {
            (byte + 32) as u8
        } else {
            byte
        }),
{
    if 65 <= byte && byte <= 90 {
        byte + 32
    } else {
        byte
    }
}

/// Whether two names differ at most in the case of ASCII letters.
pub open spec fn same_ignoring_case(left: Seq<u8>, right: Seq<u8>) -> bool {
    &&& left.len() == right.len()
    &&& forall|i: int|
        0 <= i < left.len() ==> ascii_lower(#[trigger] left[i]) == ascii_lower(right[i])
}

/// Whether two names differ at most in the case of ASCII letters.
pub fn eq_ignore_ascii_case(left: &[u8], right: &[u8]) -> (same: bool)
    ensures
        same == same_ignoring_case(left@, right@),
{
    if left.len() != right.len() {
        return false;
    }
    let mut index: usize = 0;
    while index < left.len()
        invariant
            index <= left.len(),
            left.len() == right.len(),
            forall|i: int|
                0 <= i < index ==> ascii_lower(#[trigger] left@[i]) == ascii_lower(right@[i]),
        decreases left.len() - index,
    {
        if ascii_lower(left[index]) != ascii_lower(right[index]) {
            assert(ascii_lower(left@[index as int]) != ascii_lower(right@[index as int]));
            return false;
        }
        index += 1;
    }
    true
}

/// The identity of one application of a package.
pub open spec fn application_of(family: Seq<u8>, application: Seq<char>) -> Seq<u8> {
    family + vstd::utf8::encode_utf8("!"@) + vstd::utf8::encode_utf8(application)
}

fn application_name(family: &[u8], application: &str) -> (name: Vec<u8>)
    ensures
        name@ == application_of(family@, application@),
{
    let family = joined(family, "!".as_bytes());
    joined(&family, application.as_bytes())
}

/// Whether a process is the agent of an installed package, run as an ordinary
/// process of the user.
pub open spec fn is_agent(observation: ProcessObservation) -> bool {
    &&& observation.package_full_name is Some
    &&& observation.package_family_name is Some
    &&& !observation.elevated
    &&& !observation.app_container
    &&& observation.integrity_rid == MEDIUM_INTEGRITY_RID
    &&& observation.application_user_model_id is Some
    &&& observation.application_user_model_id->Some_0@ == application_of(
        observation.package_family_name->Some_0@,
        "VaultAgent"@,
    )
    &&& observation.image_name is Some
    &&& same_ignoring_case(
        observation.image_name->Some_0@,
        vstd::utf8::encode_utf8("Librarian.VaultAgent.exe"@),
    )
    &&& observation.image_directory is Some
}

/// Makes sure that this process is the agent of an installed package.
pub fn validate_agent(observation: &ProcessObservation) -> (identity: Result<
    AgentIdentity,
    HostError,
>)
    ensures
        identity is Ok <==> is_agent(*observation),
        identity matches Err(error) ==> error == HostError::Identity,
        identity matches Ok(agent) ==> {
            &&& agent.package_full_name@ == observation.package_full_name->Some_0@
            &&& agent.package_family_name@ == observation.package_family_name->Some_0@
            &&& agent.install_root@ == observation.image_directory->Some_0@
        },
{
    let (full_name, family_name) = match (
        &observation.package_full_name,
        &observation.package_family_name,
    ) {
        (Some(full_name), Some(family_name)) => (full_name, family_name),
        _ => {
            return Err(HostError::Identity);
        },
    };
    let expected = application_name(family_name, "VaultAgent");
    let valid_image = match &observation.image_name {
        Some(name) => eq_ignore_ascii_case(name, "Librarian.VaultAgent.exe".as_bytes()),
        None => false,
    };
    let valid_application = match &observation.application_user_model_id {
        Some(application) => same_bytes(application, &expected),
        None => false,
    };
    if observation.elevated || observation.app_container || observation.integrity_rid
        != MEDIUM_INTEGRITY_RID || !valid_application || !valid_image {
        return Err(HostError::Identity);
    }
    match &observation.image_directory {
        Some(directory) => Ok(
            AgentIdentity {
                package_full_name: copy_bytes(full_name),
                package_family_name: copy_bytes(family_name),
                install_root: copy_bytes(directory),
            },
        ),
        None => Err(HostError::Identity),
    }
}

/// Whether the directory for the agent's files can be used: the package's own
/// directory must be an absolute path to a directory, and the one below it must
/// be a directory, whether it was there or was made.
pub fn accept_local_state(
    is_absolute: bool,
    is_directory: bool,
    created: CreateAttempt,
    root_is_directory: bool,
) -> (accepted: Result<(), HostError>)
    ensures
        accepted == (if is_absolute && is_directory && created != CreateAttempt::Failed
            && root_is_directory {
            Ok::<(), HostError>(())
        } else {
            Err(HostError::LocalState)
        }),
{
    if !is_absolute || !is_directory {
        return Err(HostError::LocalState);
    }
    match created {
        CreateAttempt::Failed => Err(HostError::LocalState),
        _ => if root_is_directory {
            Ok(())
        } else {
            Err(HostError::LocalState)
        },
    }
}

/// What a peer must be to be served as the desktop application.
pub struct DesktopPolicy {
    pub session_id: u32,
    pub user_sid: Vec<u8>,
    pub logon_sid: Vec<u8>,
    pub maximum_integrity_rid: u32,
    pub image_directory: Vec<u8>,
    pub image_name: Vec<u8>,
    pub package_full_name: Vec<u8>,
    pub package_family_name: Vec<u8>,
    pub application_user_model_id: Vec<u8>,
}

/// The desktop application of the agent's own package, in the agent's own
/// session.
pub fn desktop_policy(current: &ProcessObservation, identity: &AgentIdentity) -> (policy:
    DesktopPolicy)
    ensures
        policy.session_id == current.session_id,
        policy.user_sid@ == current.user_sid@,
        policy.logon_sid@ == current.logon_sid@,
        policy.maximum_integrity_rid == MEDIUM_INTEGRITY_RID,
        policy.image_directory@ == identity.install_root@,
        policy.image_name@ == vstd::utf8::encode_utf8("Librarian.Windows.exe"@),
        policy.package_full_name@ == identity.package_full_name@,
        policy.package_family_name@ == identity.package_family_name@,
        policy.application_user_model_id@ == application_of(
            identity.package_family_name@,
            "Desktop"@,
        ),
{
    DesktopPolicy {
        session_id: current.session_id,
        user_sid: copy_bytes(&current.user_sid),
        logon_sid: copy_bytes(&current.logon_sid),
        maximum_integrity_rid: MEDIUM_INTEGRITY_RID,
        image_directory: copy_bytes(&identity.install_root),
        image_name: copy_bytes("Librarian.Windows.exe".as_bytes()),
        package_full_name: copy_bytes(&identity.package_full_name),
        package_family_name: copy_bytes(&identity.package_family_name),
        application_user_model_id: application_name(&identity.package_family_name, "Desktop"),
    }
}

/// What a client of the agent is.
#[derive(Clone, Copy, Debug, PartialEq, Eq, Structural)]
pub enum ClientRole {
    Desktop,
    PasskeyProvider,
    NativeHost,
}

/// Whether the prompt is offered to a client: only the desktop application
/// shows it.
pub fn offers_windows_hello(role: ClientRole) -> (offered: bool)
    ensures
        offered == (role is Desktop),
{
    role == ClientRole::Desktop
}

/// What came of waiting for a connection.
#[derive(Clone, Copy, Debug, PartialEq, Eq, Structural)]
pub enum AcceptResult {
    Connected,
    Timeout,
    AccessDenied,
    PeerExited,
    Unavailable,
    ResourceLimit,
    ListenerLost,
    MalformedFrame,
    Internal,
}

/// What the process does next.
#[derive(Clone, Copy, Debug, PartialEq, Eq, Structural)]
pub enum AcceptDecision {
    /// Serve the connection.
    Serve,
    /// Wait for the next one.
    Wait,
    /// Wait for a little while first.
    Pause,
    /// Withdraw the endpoint and publish a new one.
    Republish,
    /// Stop.
    Stop,
}

/// What the process does without a free listener: it waits for one to come
/// back, or publishes new ones where none will.
pub fn without_listener(workers: usize) -> (decision: AcceptDecision)
    ensures
        decision == (if workers == 0 {
            AcceptDecision::Republish
        } else {
            AcceptDecision::Pause
        }),
{
    if workers == 0 {
        AcceptDecision::Republish
    } else {
        AcceptDecision::Pause
    }
}

/// What the process does after it waited for a connection. A peer that is
/// refused, late or gone is no reason to stop.
pub fn after_accept(result: AcceptResult) -> (decision: AcceptDecision)
    ensures
        decision == (match result {
            AcceptResult::Connected => AcceptDecision::Serve,
            AcceptResult::Timeout => AcceptDecision::Wait,
            AcceptResult::AccessDenied => AcceptDecision::Wait,
            AcceptResult::PeerExited => AcceptDecision::Wait,
            AcceptResult::Unavailable => AcceptDecision::Wait,
            AcceptResult::ResourceLimit => AcceptDecision::Pause,
            AcceptResult::ListenerLost => AcceptDecision::Republish,
            AcceptResult::MalformedFrame => AcceptDecision::Stop,
            AcceptResult::Internal => AcceptDecision::Stop,
        }),
{
    match result {
        AcceptResult::Connected => AcceptDecision::Serve,
        AcceptResult::Timeout => AcceptDecision::Wait,
        AcceptResult::AccessDenied => AcceptDecision::Wait,
        AcceptResult::PeerExited => AcceptDecision::Wait,
        AcceptResult::Unavailable => AcceptDecision::Wait,
        AcceptResult::ResourceLimit => AcceptDecision::Pause,
        AcceptResult::ListenerLost => AcceptDecision::Republish,
        AcceptResult::MalformedFrame => AcceptDecision::Stop,
        AcceptResult::Internal => AcceptDecision::Stop,
    }
}

/// The kinds of frame of the protocol.
#[derive(Clone, Copy, Debug, PartialEq, Eq, Structural)]
pub enum MessageKind {
    ClientHello,
    ServerHello,
    Request,
    Response,
    Cancel,
    Event,
}

/// What is done with a frame of a negotiated connection.
#[derive(Clone, Copy, Debug, PartialEq, Eq, Structural)]
pub enum FrameDecision {
    /// Apply the cancellation that it carries.
    Cancel,
    /// Dispatch the request that it carries, once that was read.
    Dispatch,
    /// Close the connection.
    Close,
}

/// What is done with a frame of a negotiated connection: peers send requests
/// and cancellations, and nothing else.
pub fn frame_decision(kind: MessageKind) -> (decision: FrameDecision)
    ensures
        decision == (match kind {
            MessageKind::Cancel => FrameDecision::Cancel,
            MessageKind::Request => FrameDecision::Dispatch,
            _ => FrameDecision::Close,
        }),
{
    match kind {
        MessageKind::Cancel => FrameDecision::Cancel,
        MessageKind::Request => FrameDecision::Dispatch,
        _ => FrameDecision::Close,
    }
}

/// The SHA-256 digest of bytes.
pub uninterp spec fn sha256_of(bytes: Seq<u8>) -> Seq<u8>;

/// Calls `Digest::digest` of the crate `sha2` for `Sha256`. The digest depends
/// on the bytes alone.
#[verifier::external_body]
fn sha256(bytes: &[u8]) -> (digest: [u8; 32])
    ensures
        digest@ == sha256_of(bytes@),
{
    Sha256::digest(bytes).into()
}

/// What an executable is known by: the digest of its file. A file that could
/// not be read has none.
pub fn build_id(content: Option<&[u8]>) -> (id: Result<[u8; 32], HostError>)
    ensures
        match content {
            Some(bytes) => id is Ok && id->Ok_0@ == sha256_of(bytes@),
            None => id == Err::<[u8; 32], HostError>(HostError::Identity),
        },
{
    match content {
        Some(bytes) => Ok(sha256(bytes)),
        None => Err(HostError::Identity),
    }
}

/// Two names are the same but for case exactly where each pair of bytes is equal
/// or is an upper-case letter and its lower-case form.
pub proof fn letters_match_in_either_case(left: &[u8], right: &[u8], same: bool)
    requires
        call_ensures(eq_ignore_ascii_case, (left, right), same),
    ensures
        same <==> left@.len() == right@.len() && forall|i: int|
            0 <= i < left@.len() ==> {
                ||| #[trigger] left@[i] == right@[i]
                ||| 'A' as u8 <= left@[i] <= 'Z' as u8 && right@[i] == left@[i] + 32
                ||| 'A' as u8 <= right@[i] <= 'Z' as u8 && left@[i] == right@[i] + 32
            },
{
    if same {
        assert forall|i: int| 0 <= i < left@.len() implies {
            ||| #[trigger] left@[i] == right@[i]
            ||| 'A' as u8 <= left@[i] <= 'Z' as u8 && right@[i] == left@[i] + 32
            ||| 'A' as u8 <= right@[i] <= 'Z' as u8 && left@[i] == right@[i] + 32
        } by {
            assert(ascii_lower(left@[i]) == ascii_lower(right@[i]));
        }
    }
}

/// A process is taken for the agent only where nothing about it is missing or
/// out of the ordinary, and every such process is: changing any one of these for
/// the worse is enough to refuse it.
pub proof fn only_ordinary_agents_serve(
    observation: ProcessObservation,
    identity: Result<AgentIdentity, HostError>,
)
    requires
        call_ensures(validate_agent, (&observation,), identity),
    ensures
        identity is Ok ==> {
            &&& !observation.elevated && !observation.app_container
            &&& observation.integrity_rid == 0x2000
            &&& observation.package_full_name matches Some(full)
            &&& observation.package_family_name matches Some(family)
            &&& observation.application_user_model_id matches Some(application)
            &&& application@ == family@ + vstd::utf8::encode_utf8("!"@) + vstd::utf8::encode_utf8(
                "VaultAgent"@,
            )
            &&& observation.image_directory matches Some(directory)
            &&& identity->Ok_0.package_full_name@ == full@
            &&& identity->Ok_0.package_family_name@ == family@
            &&& identity->Ok_0.install_root@ == directory@
        },
        ({
            &&& !observation.elevated && !observation.app_container
            &&& observation.integrity_rid == 0x2000
            &&& observation.package_full_name is Some
            &&& observation.package_family_name matches Some(family)
            &&& observation.application_user_model_id matches Some(application)
            &&& application@ == family@ + vstd::utf8::encode_utf8("!"@) + vstd::utf8::encode_utf8(
                "VaultAgent"@,
            )
            &&& observation.image_name matches Some(name)
            &&& name@ == vstd::utf8::encode_utf8("Librarian.VaultAgent.exe"@)
            &&& observation.image_directory is Some
        }) ==> identity is Ok,
{
}

/// What a peer does never ends the process; only what is wrong with the process
/// itself does, and a connection is served whenever there is one.
pub proof fn peers_do_not_end_the_process(result: AcceptResult, decision: AcceptDecision)
    requires
        call_ensures(after_accept, (result,), decision),
    ensures
        decision == AcceptDecision::Serve <==> result == AcceptResult::Connected,
        decision == AcceptDecision::Stop <==> result == AcceptResult::MalformedFrame || result
            == AcceptResult::Internal,
        decision == AcceptDecision::Republish <==> result == AcceptResult::ListenerLost,
        decision == AcceptDecision::Pause <==> result == AcceptResult::ResourceLimit,
{
}

/// Requests are dispatched, cancellations taken, and every other frame ends its
/// connection.
pub proof fn only_requests_are_dispatched(kind: MessageKind, decision: FrameDecision)
    requires
        call_ensures(frame_decision, (kind,), decision),
    ensures
        decision == FrameDecision::Dispatch <==> kind == MessageKind::Request,
        decision == FrameDecision::Cancel <==> kind == MessageKind::Cancel,
        decision == FrameDecision::Close <==> kind != MessageKind::Request && kind
            != MessageKind::Cancel,
{
}

/// The desktop application is asked to be of the same package, directory, user
/// and session as the agent itself, and to be no more trusted than it.
pub proof fn desktops_are_of_the_same_installation(
    current: ProcessObservation,
    identity: AgentIdentity,
    policy: DesktopPolicy,
)
    requires
        call_ensures(desktop_policy, (&current, &identity), policy),
    ensures
        policy.session_id == current.session_id,
        policy.user_sid@ == current.user_sid@ && policy.logon_sid@ == current.logon_sid@,
        policy.package_full_name@ == identity.package_full_name@,
        policy.package_family_name@ == identity.package_family_name@,
        policy.image_directory@ == identity.install_root@,
        policy.maximum_integrity_rid == 0x2000,
        policy.application_user_model_id@ == identity.package_family_name@
            + vstd::utf8::encode_utf8("!"@) + vstd::utf8::encode_utf8("Desktop"@),
        policy.image_name@ == vstd::utf8::encode_utf8("Librarian.Windows.exe"@),
{
}

/// A process without a listener publishes itself again once nobody is served.
pub proof fn listeners_come_back(workers: usize, decision: AcceptDecision)
    requires
        call_ensures(without_listener, (workers,), decision),
    ensures
        decision == AcceptDecision::Republish <==> workers == 0,
        decision == AcceptDecision::Pause <==> workers > 0,
{
}

} // verus!
