//! The protected local state of the platform prompt: which credential opens
//! which vault, and which credential still waits to be removed.

use vstd::prelude::*;

use crate::bytes::{copy_bytes, is_zero, joined, same_array, same_bytes};
use crate::cbor::{
    decode_array_head, decode_bytes, decode_text, decode_u32, encode_array_head, encode_bytes,
    encode_text, encode_u32,
};
use crate::errors::WindowsHelloStateError;
use crate::lifecycle::VaultBinding;
use crate::secrets::wipe;

verus! {

/// The longest encoded state.
pub const MAXIMUM_LOCAL_STATE_BYTES: usize = 4_096;

/// The limits that the vault format sets.
#[derive(Clone, Copy, Debug, PartialEq, Eq, Structural)]
pub struct HelloLimits {
    pub max_credential_id_bytes: usize,
    pub max_protector_bytes: usize,
}

/// What a stored protector says it was made for.
pub struct ProtectorBinding {
    pub vault_id: [u8; 16],
    pub key_epoch: u32,
    pub credential_id: Vec<u8>,
    pub prf_salt: [u8; 32],
}

/// An enrollment: everything that is needed to ask the platform for the secret
/// that opens a vault.
pub struct HelloEnrollment {
    pub vault_id: [u8; 16],
    pub key_epoch: u32,
    pub installation_key: [u8; 32],
    pub credential_id: Vec<u8>,
    pub prf_salt: [u8; 32],
    pub protector: Vec<u8>,
}

/// What an enrollment says.
pub struct EnrollmentModel {
    pub vault_id: Seq<u8>,
    pub key_epoch: u32,
    pub installation_key: Seq<u8>,
    pub credential_id: Seq<u8>,
    pub prf_salt: Seq<u8>,
    pub protector: Seq<u8>,
}

impl View for HelloEnrollment {
    type V = EnrollmentModel;

    open spec fn view(&self) -> EnrollmentModel {
        EnrollmentModel {
            vault_id: self.vault_id@,
            key_epoch: self.key_epoch,
            installation_key: self.installation_key@,
            credential_id: self.credential_id@,
            prf_salt: self.prf_salt@,
            protector: self.protector@,
        }
    }
}

/// The local state: an enrollment, a credential that waits to be removed, or
/// both.
pub struct WindowsHelloLocalState {
    pub enrollment: Option<HelloEnrollment>,
    pub pending_removal: Option<Vec<u8>>,
}

/// What a local state says.
pub struct LocalStateModel {
    pub enrollment: Option<EnrollmentModel>,
    pub pending_removal: Option<Seq<u8>>,
}

impl View for WindowsHelloLocalState {
    type V = LocalStateModel;

    open spec fn view(&self) -> LocalStateModel {
        LocalStateModel {
            enrollment: match self.enrollment {
                Some(enrollment) => Some(enrollment@),
                None => None,
            },
            pending_removal: crate::bytes::bytes_view(self.pending_removal),
        }
    }
}

/// Whether bytes can name a credential.
pub open spec fn is_credential_id(id: Seq<u8>, limits: HelloLimits) -> bool {
    0 < id.len() <= limits.max_credential_id_bytes
}

/// Whether an enrollment is complete and within the limits of the format.
pub open spec fn valid_enrollment(enrollment: EnrollmentModel, limits: HelloLimits) -> bool {
    &&& enrollment.vault_id.len() == 16 && enrollment.vault_id != crate::bytes::zeros(16)
    &&& enrollment.key_epoch != 0
    &&& enrollment.installation_key.len() == 32 && enrollment.installation_key != crate::bytes::zeros(32)
    &&& is_credential_id(enrollment.credential_id, limits)
    &&& enrollment.prf_salt.len() == 32 && enrollment.prf_salt != crate::bytes::zeros(32)
    &&& 0 < enrollment.protector.len() <= limits.max_protector_bytes
}

/// Whether a protector was made for an enrollment.
pub open spec fn protects(protector: ProtectorBinding, enrollment: EnrollmentModel) -> bool {
    &&& protector.vault_id@ == enrollment.vault_id
    &&& protector.key_epoch == enrollment.key_epoch
    &&& protector.credential_id@ == enrollment.credential_id
    &&& protector.prf_salt@ == enrollment.prf_salt
}

/// Whether a local state is complete and within the limits of the format.
pub open spec fn valid_state(state: LocalStateModel, limits: HelloLimits) -> bool {
    &&& state.enrollment is Some || state.pending_removal is Some
    &&& state.enrollment is Some ==> valid_enrollment(state.enrollment->Some_0, limits)
    &&& state.pending_removal is Some ==> is_credential_id(state.pending_removal->Some_0, limits)
}

impl HelloEnrollment {
    fn is_valid(&self, limits: HelloLimits) -> (valid: bool)
        ensures
            valid == valid_enrollment(self@, limits),
    {
        !is_zero(&self.vault_id) && self.key_epoch != 0 && !is_zero(&self.installation_key)
            && self.credential_id.len() > 0 && self.credential_id.len()
            <= limits.max_credential_id_bytes && !is_zero(&self.prf_salt) && self.protector.len()
            > 0 && self.protector.len() <= limits.max_protector_bytes
    }

    fn is_protected_by(&self, protector: &ProtectorBinding) -> (protected: bool)
        ensures
            protected == protects(*protector, self@),
    {
        same_array(&protector.vault_id, &self.vault_id) && protector.key_epoch == self.key_epoch
            && same_bytes(&protector.credential_id, &self.credential_id) && same_array(
            &protector.prf_salt,
            &self.prf_salt,
        )
    }

    pub fn copy(&self) -> (copy: HelloEnrollment)
        ensures
            copy@ == self@,
            copy.vault_id == self.vault_id,
            copy.key_epoch == self.key_epoch,
    {
        HelloEnrollment {
            vault_id: self.vault_id,
            key_epoch: self.key_epoch,
            installation_key: self.installation_key,
            credential_id: copy_bytes(&self.credential_id),
            prf_salt: self.prf_salt,
            protector: copy_bytes(&self.protector),
        }
    }
}

// The stored form

/// The text that every stored state starts with.
pub open spec fn state_magic() -> Seq<u8> {
    vstd::utf8::encode_utf8("LBR-HLO"@)
}

/// The fields of an enrollment, in order.
pub open spec fn enrollment_fields(enrollment: EnrollmentModel) -> Seq<u8> {
    crate::cbor::bytes_item(enrollment.vault_id) + crate::cbor::uint_item(
        enrollment.key_epoch as nat,
    ) + crate::cbor::bytes_item(enrollment.installation_key) + crate::cbor::bytes_item(
        enrollment.credential_id,
    ) + crate::cbor::bytes_item(enrollment.prf_salt) + crate::cbor::bytes_item(
        enrollment.protector,
    )
}

/// The bytes that a state is stored as. An enrollment alone is the first
/// version of the form; a credential that waits to be removed makes it the
/// second.
pub open spec fn stored_form(state: LocalStateModel) -> Seq<u8> {
    match (state.enrollment, state.pending_removal) {
        (Some(enrollment), None) => state_head(8, 1) + enrollment_fields(enrollment),
        (Some(enrollment), Some(pending)) => state_head(9, 2) + enrollment_fields(enrollment)
            + crate::cbor::bytes_item(pending),
        (None, Some(pending)) => state_head(3, 2) + crate::cbor::bytes_item(pending),
        (None, None) => Seq::empty(),
    }
}

/// The number of items, the magic and the version of a stored state.
pub open spec fn state_head(items: nat, version: nat) -> Seq<u8> {
    crate::cbor::head(4, items) + crate::cbor::text_item(state_magic()) + crate::cbor::uint_item(
        version,
    )
}

fn write_head(items: u64, version: u32) -> (head: Vec<u8>)
    ensures
        head@ == state_head(items as nat, version as nat),
{
    let head = joined(&encode_array_head(items), &encode_text("LBR-HLO"));
    joined(&head, &encode_u32(version))
}

fn write_enrollment(enrollment: &HelloEnrollment) -> (fields: Vec<u8>)
    ensures
        fields@ == enrollment_fields(enrollment@),
{
    let fields = joined(&encode_bytes(&enrollment.vault_id), &encode_u32(enrollment.key_epoch));
    let fields = joined(&fields, &encode_bytes(&enrollment.installation_key));
    let fields = joined(&fields, &encode_bytes(&enrollment.credential_id));
    let fields = joined(&fields, &encode_bytes(&enrollment.prf_salt));
    joined(&fields, &encode_bytes(&enrollment.protector))
}

/// The enrollment whose fields stand at a position, and the position behind.
pub open spec fn enrollment_at(input: Seq<u8>, position: int) -> Option<(EnrollmentModel, int)> {
    match crate::cbor::content_at(input, position, 2) {
        Some((vault_id, p1)) if vault_id.len() == 16 => match crate::cbor::uint_at(input, p1) {
            Some((key_epoch, p2)) if key_epoch <= u32::MAX => match crate::cbor::content_at(
                input,
                p2,
                2,
            ) {
                Some((installation_key, p3)) if installation_key.len() == 32 => {
                    match crate::cbor::content_at(input, p3, 2) {
                        Some((credential_id, p4)) => match crate::cbor::content_at(input, p4, 2) {
                            Some((prf_salt, p5)) if prf_salt.len() == 32 => {
                                match crate::cbor::content_at(input, p5, 2) {
                                    Some((protector, p6)) => Some(
                                        (
                                            EnrollmentModel {
                                                vault_id,
                                                key_epoch: key_epoch as u32,
                                                installation_key,
                                                credential_id,
                                                prf_salt,
                                                protector,
                                            },
                                            p6,
                                        ),
                                    ),
                                    None => None,
                                }
                            },
                            _ => None,
                        },
                        None => None,
                    }
                },
                _ => None,
            },
            _ => None,
        },
        _ => None,
    }
}

/// The number of items and the version at the start of a stored state, and the
/// position behind them.
pub open spec fn state_head_at(input: Seq<u8>) -> Option<(nat, nat, int)> {
    match crate::cbor::head_at(input, 0) {
        Some((kind, items, p1)) if kind == 4 => match crate::cbor::content_at(input, p1, 3) {
            Some((magic, p2)) if magic == state_magic() => match crate::cbor::uint_at(input, p2) {
                Some((version, p3)) if version <= u32::MAX => Some((items, version, p3)),
                _ => None,
            },
            _ => None,
        },
        _ => None,
    }
}

/// The state that bytes can be read as, whether or not they are in the one
/// form that it is stored in.
pub open spec fn readable_state(input: Seq<u8>) -> Option<LocalStateModel> {
    match state_head_at(input) {
        Some((items, version, position)) => {
            if items == 8 && version == 1 {
                match enrollment_at(input, position) {
                    Some((enrollment, end)) if end == input.len() => Some(
                        LocalStateModel {
                            enrollment: Some(enrollment),
                            pending_removal: None,
                        },
                    ),
                    _ => None,
                }
            } else if items == 9 && version == 2 {
                match enrollment_at(input, position) {
                    Some((enrollment, next)) => match crate::cbor::content_at(input, next, 2) {
                        Some((pending, end)) if end == input.len() => Some(
                            LocalStateModel {
                                enrollment: Some(enrollment),
                                pending_removal: Some(pending),
                            },
                        ),
                        _ => None,
                    },
                    None => None,
                }
            } else if items == 3 && version == 2 {
                match crate::cbor::content_at(input, position, 2) {
                    Some((pending, end)) if end == input.len() => Some(
                        LocalStateModel { enrollment: None, pending_removal: Some(pending) },
                    ),
                    _ => None,
                }
            } else {
                None
            }
        },
        None => None,
    }
}

fn fixed_array<const N: usize>(bytes: &Vec<u8>) -> (array: Option<[u8; N]>)
    ensures
        array is Some <==> bytes@.len() == N,
        array matches Some(fixed) ==> fixed@ == bytes@,
{
    if bytes.len() != N {
        return None;
    }
    let mut array: [u8; N] = [0u8; N];
    let mut index: usize = 0;
    while index < N
        invariant
            index <= N,
            bytes@.len() == N,
            forall|i: int| 0 <= i < index ==> array[i] == bytes[i],
        decreases N - index,
    {
        array[index] = bytes[index];
        index += 1;
    }
    assert(array@ =~= bytes@);
    Some(array)
}

fn read_enrollment(input: &[u8], position: usize) -> (read: Option<(HelloEnrollment, usize)>)
    ensures
        match enrollment_at(input@, position as int) {
            Some((enrollment, end)) => read is Some && read->Some_0.0@ == enrollment
                && read->Some_0.1 == end,
            None => read is None,
        },
{
    let (vault_id, p1) = match decode_bytes(input, position) {
        Some(item) => item,
        None => {
            return None;
        },
    };
    let vault_id = match fixed_array::<16>(&vault_id) {
        Some(vault_id) => vault_id,
        None => {
            return None;
        },
    };
    let (key_epoch, p2) = match decode_u32(input, p1) {
        Some(item) => item,
        None => {
            return None;
        },
    };
    let (installation_key, p3) = match decode_bytes(input, p2) {
        Some(item) => item,
        None => {
            return None;
        },
    };
    let mut read_key = installation_key;
    let installation_key = fixed_array::<32>(&read_key);
    wipe(&mut read_key);
    let installation_key = match installation_key {
        Some(installation_key) => installation_key,
        None => {
            return None;
        },
    };
    let (credential_id, p4) = match decode_bytes(input, p3) {
        Some(item) => item,
        None => {
            return None;
        },
    };
    let (prf_salt, p5) = match decode_bytes(input, p4) {
        Some(item) => item,
        None => {
            return None;
        },
    };
    let prf_salt = match fixed_array::<32>(&prf_salt) {
        Some(prf_salt) => prf_salt,
        None => {
            return None;
        },
    };
    let (protector, p6) = match decode_bytes(input, p5) {
        Some(item) => item,
        None => {
            return None;
        },
    };
    Some(
        (
            HelloEnrollment {
                vault_id,
                key_epoch,
                installation_key,
                credential_id,
                prf_salt,
                protector,
            },
            p6,
        ),
    )
}

fn read_state_head(input: &[u8]) -> (read: Option<(u64, u32, usize)>)
    ensures
        match state_head_at(input@) {
            Some((items, version, position)) => read is Some && read->Some_0.0 == items
                && read->Some_0.1 == version && read->Some_0.2 == position,
            None => read is None,
        },
{
    let (items, p1) = match decode_array_head(input, 0) {
        Some((Some(items), p1)) => (items, p1),
        _ => {
            return None;
        },
    };
    let (magic, p2) = match decode_text(input, p1) {
        Some(item) => item,
        None => {
            proof {
                vstd::utf8::encode_utf8_valid_utf8("LBR-HLO"@);
            }
            return None;
        },
    };
    if !same_bytes(&magic, "LBR-HLO".as_bytes()) {
        return None;
    }
    match decode_u32(input, p2) {
        Some((version, p3)) => Some((items, version, p3)),
        None => None,
    }
}

fn read_state(input: &[u8]) -> (read: Option<WindowsHelloLocalState>)
    ensures
        match readable_state(input@) {
            Some(state) => read is Some && read->Some_0@ == state,
            None => read is None,
        },
{
    let (items, version, position) = match read_state_head(input) {
        Some(head) => head,
        None => {
            return None;
        },
    };
    if items == 8 && version == 1 {
        match read_enrollment(input, position) {
            Some((enrollment, end)) => if end == input.len() {
                Some(
                    WindowsHelloLocalState { enrollment: Some(enrollment), pending_removal: None },
                )
            } else {
                None
            },
            None => None,
        }
    } else if items == 9 && version == 2 {
        match read_enrollment(input, position) {
            Some((enrollment, next)) => match decode_bytes(input, next) {
                Some((pending, end)) => if end == input.len() {
                    Some(
                        WindowsHelloLocalState {
                            enrollment: Some(enrollment),
                            pending_removal: Some(pending),
                        },
                    )
                } else {
                    None
                },
                None => None,
            },
            None => None,
        }
    } else if items == 3 && version == 2 {
        match decode_bytes(input, position) {
            Some((pending, end)) => if end == input.len() {
                Some(WindowsHelloLocalState { enrollment: None, pending_removal: Some(pending) })
            } else {
                None
            },
            None => None,
        }
    } else {
        None
    }
}

// Reading back

/// The ways to see a run of six items as one item with what stands around it.
proof fn regroup(
    before: Seq<u8>,
    i1: Seq<u8>,
    i2: Seq<u8>,
    i3: Seq<u8>,
    i4: Seq<u8>,
    i5: Seq<u8>,
    i6: Seq<u8>,
    after: Seq<u8>,
)
    ensures
        before + (i1 + i2 + i3 + i4 + i5 + i6) + after == before + i1 + (i2 + i3 + i4 + i5 + i6
            + after),
        before + (i1 + i2 + i3 + i4 + i5 + i6) + after == (before + i1) + i2 + (i3 + i4 + i5 + i6
            + after),
        before + (i1 + i2 + i3 + i4 + i5 + i6) + after == (before + i1 + i2) + i3 + (i4 + i5 + i6
            + after),
        before + (i1 + i2 + i3 + i4 + i5 + i6) + after == (before + i1 + i2 + i3) + i4 + (i5 + i6
            + after),
        before + (i1 + i2 + i3 + i4 + i5 + i6) + after == (before + i1 + i2 + i3 + i4) + i5 + (i6
            + after),
        before + (i1 + i2 + i3 + i4 + i5 + i6) + after == (before + i1 + i2 + i3 + i4 + i5) + i6
            + after,
{
    let whole = before + (i1 + i2 + i3 + i4 + i5 + i6) + after;
    assert(whole =~= before + i1 + (i2 + i3 + i4 + i5 + i6 + after));
    assert(whole =~= (before + i1) + i2 + (i3 + i4 + i5 + i6 + after));
    assert(whole =~= (before + i1 + i2) + i3 + (i4 + i5 + i6 + after));
    assert(whole =~= (before + i1 + i2 + i3) + i4 + (i5 + i6 + after));
    assert(whole =~= (before + i1 + i2 + i3 + i4) + i5 + (i6 + after));
    assert(whole =~= (before + i1 + i2 + i3 + i4 + i5) + i6 + after);
}

#[verifier::spinoff_prover]
proof fn enrollment_read_back(before: Seq<u8>, enrollment: EnrollmentModel, after: Seq<u8>)
    requires
        enrollment.vault_id.len() == 16,
        enrollment.installation_key.len() == 32,
        enrollment.credential_id.len() < 0x1_0000_0000_0000_0000,
        enrollment.prf_salt.len() == 32,
        enrollment.protector.len() < 0x1_0000_0000_0000_0000,
    ensures
        enrollment_at(before + enrollment_fields(enrollment) + after, before.len() as int) == Some(
            (enrollment, (before.len() + enrollment_fields(enrollment).len()) as int),
        ),
{
    let i1 = crate::cbor::bytes_item(enrollment.vault_id);
    let i2 = crate::cbor::uint_item(enrollment.key_epoch as nat);
    let i3 = crate::cbor::bytes_item(enrollment.installation_key);
    let i4 = crate::cbor::bytes_item(enrollment.credential_id);
    let i5 = crate::cbor::bytes_item(enrollment.prf_salt);
    let i6 = crate::cbor::bytes_item(enrollment.protector);
    let whole = before + enrollment_fields(enrollment) + after;
    let p1 = before.len() + i1.len();
    let p2 = p1 + i2.len();
    let p3 = p2 + i3.len();
    let p4 = p3 + i4.len();
    let p5 = p4 + i5.len();
    regroup(before, i1, i2, i3, i4, i5, i6, after);
    assert(crate::cbor::content_at(whole, before.len() as int, 2) == Some(
        (enrollment.vault_id, p1 as int),
    )) by {
        crate::cbor::content_read_back(
            before,
            2,
            enrollment.vault_id,
            i2 + i3 + i4 + i5 + i6 + after,
        );
    }
    assert(crate::cbor::uint_at(whole, p1 as int) == Some(
        (enrollment.key_epoch as nat, p2 as int),
    )) by {
        crate::cbor::head_read_back(
            before + i1,
            0,
            enrollment.key_epoch as nat,
            i3 + i4 + i5 + i6 + after,
        );
    }
    assert(crate::cbor::content_at(whole, p2 as int, 2) == Some(
        (enrollment.installation_key, p3 as int),
    )) by {
        crate::cbor::content_read_back(
            before + i1 + i2,
            2,
            enrollment.installation_key,
            i4 + i5 + i6 + after,
        );
    }
    assert(crate::cbor::content_at(whole, p3 as int, 2) == Some(
        (enrollment.credential_id, p4 as int),
    )) by {
        crate::cbor::content_read_back(
            before + i1 + i2 + i3,
            2,
            enrollment.credential_id,
            i5 + i6 + after,
        );
    }
    assert(crate::cbor::content_at(whole, p4 as int, 2) == Some(
        (enrollment.prf_salt, p5 as int),
    )) by {
        crate::cbor::content_read_back(
            before + i1 + i2 + i3 + i4,
            2,
            enrollment.prf_salt,
            i6 + after,
        );
    }
    assert(crate::cbor::content_at(whole, p5 as int, 2) == Some(
        (enrollment.protector, (p5 + i6.len()) as int),
    )) by {
        crate::cbor::content_read_back(
            before + i1 + i2 + i3 + i4 + i5,
            2,
            enrollment.protector,
            after,
        );
    }
}

proof fn state_head_read_back(items: nat, version: nat, after: Seq<u8>)
    requires
        items < 24,
        version < 24,
    ensures
        state_head_at(state_head(items, version) + after) == Some(
            (items, version, state_head(items, version).len() as int),
        ),
{
    let i1 = crate::cbor::head(4, items);
    let i2 = crate::cbor::text_item(state_magic());
    let i3 = crate::cbor::uint_item(version);
    let whole = state_head(items, version) + after;
    assert(state_magic().len() == 7) by {
        reveal_strlit("LBR-HLO");
        vstd::utf8::is_ascii_chars_encode_utf8("LBR-HLO"@);
    }
    crate::cbor::head_read_back(Seq::empty(), 4, items, i2 + i3 + after);
    assert(whole =~= Seq::<u8>::empty() + i1 + (i2 + i3 + after));
    crate::cbor::content_read_back(i1, 3, state_magic(), i3 + after);
    assert(whole =~= i1 + i2 + (i3 + after));
    crate::cbor::head_read_back(i1 + i2, 0, version, after);
    assert(whole =~= (i1 + i2) + i3 + after);
}

/// A valid state is read back from its stored form as itself.
#[verifier::spinoff_prover]
#[verifier::rlimit(60)]
pub proof fn stored_state_is_read_back(state: LocalStateModel, limits: HelloLimits)
    requires
        valid_state(state, limits),
    ensures
        readable_state(stored_form(state)) == Some(state),
{
    let stored = stored_form(state);
    match (state.enrollment, state.pending_removal) {
        (Some(enrollment), None) => {
            let before = state_head(8, 1);
            state_head_read_back(8, 1, enrollment_fields(enrollment));
            enrollment_read_back(before, enrollment, Seq::empty());
            assert(stored =~= before + enrollment_fields(enrollment) + Seq::empty());
        },
        (Some(enrollment), Some(pending)) => {
            let before = state_head(9, 2);
            let last = crate::cbor::bytes_item(pending);
            state_head_read_back(9, 2, enrollment_fields(enrollment) + last);
            assert(stored =~= before + (enrollment_fields(enrollment) + last));
            enrollment_read_back(before, enrollment, last);
            crate::cbor::content_read_back(
                before + enrollment_fields(enrollment),
                2,
                pending,
                Seq::empty(),
            );
            assert(stored =~= (before + enrollment_fields(enrollment)) + last + Seq::empty());
        },
        (None, Some(pending)) => {
            let before = state_head(3, 2);
            let last = crate::cbor::bytes_item(pending);
            state_head_read_back(3, 2, last);
            crate::cbor::content_read_back(before, 2, pending, Seq::empty());
            assert(stored =~= before + last + Seq::empty());
        },
        (None, None) => {},
    }
}

/// Two valid states are never stored as the same bytes.
pub proof fn stored_forms_tell_states_apart(
    left: LocalStateModel,
    right: LocalStateModel,
    limits: HelloLimits,
)
    requires
        valid_state(left, limits),
        valid_state(right, limits),
        stored_form(left) == stored_form(right),
    ensures
        left == right,
{
    stored_state_is_read_back(left, limits);
    stored_state_is_read_back(right, limits);
}

impl WindowsHelloLocalState {
    /// An enrollment of a vault with nothing left to remove. The stored
    /// protector, given with what it reads as, must be one that was made for
    /// the same enrollment.
    pub fn new(
        enrollment: HelloEnrollment,
        limits: HelloLimits,
        reads_as: Option<ProtectorBinding>,
    ) -> (created: Result<WindowsHelloLocalState, WindowsHelloStateError>)
        ensures
            created is Ok <==> valid_enrollment(enrollment@, limits) && reads_as is Some
                && protects(reads_as->Some_0, enrollment@),
            created matches Err(error) ==> error == WindowsHelloStateError::Invalid,
            created matches Ok(state) ==> state@ == (LocalStateModel {
                enrollment: Some(enrollment@),
                pending_removal: None,
            }),
    {
        if !enrollment.is_valid(limits) {
            return Err(WindowsHelloStateError::Invalid);
        }
        match reads_as {
            Some(protector) => if enrollment.is_protected_by(&protector) {
                Ok(WindowsHelloLocalState { enrollment: Some(enrollment), pending_removal: None })
            } else {
                Err(WindowsHelloStateError::Invalid)
            },
            None => Err(WindowsHelloStateError::Invalid),
        }
    }

    /// No enrollment, and one credential that waits to be removed.
    pub fn pending_removal(credential_id: &[u8], limits: HelloLimits) -> (created: Result<
        WindowsHelloLocalState,
        WindowsHelloStateError,
    >)
        ensures
            created is Ok <==> is_credential_id(credential_id@, limits),
            created matches Err(error) ==> error == WindowsHelloStateError::Invalid,
            created matches Ok(state) ==> state@ == (LocalStateModel {
                enrollment: None,
                pending_removal: Some(credential_id@),
            }),
    {
        if credential_id.len() == 0 || credential_id.len() > limits.max_credential_id_bytes {
            return Err(WindowsHelloStateError::Invalid);
        }
        Ok(
            WindowsHelloLocalState {
                enrollment: None,
                pending_removal: Some(copy_bytes(credential_id)),
            },
        )
    }

    /// The vault that the enrollment opens.
    pub fn vault_binding(&self) -> (binding: Option<VaultBinding>)
        ensures
            binding is Some <==> self.enrollment is Some,
            binding matches Some(bound) ==> bound.vault_id == self.enrollment->Some_0.vault_id
                && bound.key_epoch == self.enrollment->Some_0.key_epoch,
    {
        match &self.enrollment {
            Some(enrollment) => Some(
                VaultBinding { vault_id: enrollment.vault_id, key_epoch: enrollment.key_epoch },
            ),
            None => None,
        }
    }

    /// The credential of the enrollment.
    pub fn credential_id(&self) -> (id: Option<&Vec<u8>>)
        ensures
            id is Some <==> self.enrollment is Some,
            id matches Some(found) ==> *found == self.enrollment->Some_0.credential_id,
    {
        match &self.enrollment {
            Some(enrollment) => Some(&enrollment.credential_id),
            None => None,
        }
    }

    /// The salt that the platform derives the secret of the enrollment from.
    pub fn prf_salt(&self) -> (salt: Option<[u8; 32]>)
        ensures
            salt is Some <==> self.enrollment is Some,
            salt matches Some(found) ==> found == self.enrollment->Some_0.prf_salt,
    {
        match &self.enrollment {
            Some(enrollment) => Some(enrollment.prf_salt),
            None => None,
        }
    }

    /// The key of this installation.
    pub fn installation_key(&self) -> (key: Option<[u8; 32]>)
        ensures
            key is Some <==> self.enrollment is Some,
            key matches Some(found) ==> found == self.enrollment->Some_0.installation_key,
    {
        match &self.enrollment {
            Some(enrollment) => Some(enrollment.installation_key),
            None => None,
        }
    }

    /// The stored protector of the enrollment.
    pub fn protector(&self) -> (protector: Option<&Vec<u8>>)
        ensures
            protector is Some <==> self.enrollment is Some,
            protector matches Some(found) ==> *found == self.enrollment->Some_0.protector,
    {
        match &self.enrollment {
            Some(enrollment) => Some(&enrollment.protector),
            None => None,
        }
    }

    /// The credential that waits to be removed.
    pub fn pending_removal_credential_id(&self) -> (id: Option<&Vec<u8>>)
        ensures
            id is Some <==> self.pending_removal is Some,
            id matches Some(found) ==> *found == self.pending_removal->Some_0,
    {
        self.pending_removal.as_ref()
    }

    /// Notes a credential that has to be removed, in place of any other.
    pub fn set_pending_removal_credential_id(
        &mut self,
        credential_id: &[u8],
        limits: HelloLimits,
    ) -> (noted: Result<(), WindowsHelloStateError>)
        ensures
            noted is Ok <==> is_credential_id(credential_id@, limits),
            noted matches Err(error) ==> error == WindowsHelloStateError::Invalid && *final(self)
                == *old(self),
            noted is Ok ==> final(self).enrollment == old(self).enrollment && final(self)@ == (
            LocalStateModel {
                enrollment: old(self)@.enrollment,
                pending_removal: Some(credential_id@),
            }),
    {
        if credential_id.len() == 0 || credential_id.len() > limits.max_credential_id_bytes {
            return Err(WindowsHelloStateError::Invalid);
        }
        self.pending_removal = Some(copy_bytes(credential_id));
        Ok(())
    }

    /// Strikes the credential that was to be removed. The result says whether
    /// an enrollment is left, and with it something to store.
    pub fn clear_pending_removal_credential_id(&mut self) -> (enrolled: bool)
        ensures
            enrolled == (old(self).enrollment is Some),
            final(self).enrollment == old(self).enrollment,
            final(self).pending_removal is None,
    {
        self.pending_removal = None;
        self.enrollment.is_some()
    }

    /// A second copy of the state.
    pub fn copy(&self) -> (copy: WindowsHelloLocalState)
        ensures
            copy@ == self@,
    {
        WindowsHelloLocalState {
            enrollment: match &self.enrollment {
                Some(enrollment) => Some(enrollment.copy()),
                None => None,
            },
            pending_removal: match &self.pending_removal {
                Some(pending) => Some(copy_bytes(pending)),
                None => None,
            },
        }
    }

    fn is_valid(&self, limits: HelloLimits) -> (valid: bool)
        ensures
            valid == valid_state(self@, limits),
    {
        let enrollment_valid = match &self.enrollment {
            Some(enrollment) => enrollment.is_valid(limits),
            None => true,
        };
        let pending_valid = match &self.pending_removal {
            Some(pending) => pending.len() > 0 && pending.len() <= limits.max_credential_id_bytes,
            None => true,
        };
        (self.enrollment.is_some() || self.pending_removal.is_some()) && enrollment_valid
            && pending_valid
    }

    /// The bytes that the state is stored as. A state that says nothing, or
    /// whose stored form is too long, is not stored.
    pub fn encode(&self) -> (encoded: Result<Vec<u8>, WindowsHelloStateError>)
        ensures
            encoded is Ok <==> storable(self@),
            encoded matches Err(error) ==> error == WindowsHelloStateError::Invalid,
            encoded matches Ok(bytes) ==> bytes@ == stored_form(self@),
    {
        let bytes = match (&self.enrollment, &self.pending_removal) {
            (Some(enrollment), None) => joined(
                &write_head(8, 1),
                &write_enrollment(enrollment),
            ),
            (Some(enrollment), Some(pending)) => {
                let fields = joined(&write_head(9, 2), &write_enrollment(enrollment));
                joined(&fields, &encode_bytes(pending))
            },
            (None, Some(pending)) => joined(&write_head(3, 2), &encode_bytes(pending)),
            (None, None) => {
                return Err(WindowsHelloStateError::Invalid);
            },
        };
        if bytes.len() > MAXIMUM_LOCAL_STATE_BYTES {
            return Err(WindowsHelloStateError::Invalid);
        }
        Ok(bytes)
    }

    /// Reads a stored state. Only the one form in which a valid state is
    /// stored is accepted, and only with a protector that was made for the
    /// enrollment it stands beside.
    pub fn decode<P>(bytes: &[u8], limits: HelloLimits, read_protector: P) -> (decoded: Result<
        WindowsHelloLocalState,
        WindowsHelloStateError,
    >) where P: FnOnce(&Vec<u8>) -> Option<ProtectorBinding>,
        requires
            forall|protector: &Vec<u8>| call_requires(read_protector, (protector,)),
        ensures
            decoded matches Err(error) ==> error == WindowsHelloStateError::Invalid,
            !is_stored_form(bytes@, limits) ==> decoded is Err,
            decoded matches Ok(state) ==> readable_state(bytes@) == Some(state@) && stored_form(
                state@,
            ) == bytes@,
            is_stored_form(bytes@, limits) ==> {
                let state = readable_state(bytes@)->Some_0;
                match state.enrollment {
                    None => decoded is Ok,
                    Some(enrollment) => exists|protector: Vec<u8>, read: Option<ProtectorBinding>|
                        protector@ == enrollment.protector && #[trigger] call_ensures(
                            read_protector,
                            (&protector,),
                            read,
                        ) && (decoded is Ok <==> (read is Some && protects(
                            read->Some_0,
                            enrollment,
                        ))),
                }
            },
    {
        if bytes.len() == 0 || bytes.len() > MAXIMUM_LOCAL_STATE_BYTES {
            return Err(WindowsHelloStateError::Invalid);
        }
        let state = match read_state(bytes) {
            Some(state) => state,
            None => {
                return Err(WindowsHelloStateError::Invalid);
            },
        };
        if !state.is_valid(limits) {
            return Err(WindowsHelloStateError::Invalid);
        }
        match state.encode() {
            Ok(stored) => {
                if !same_bytes(&stored, bytes) {
                    return Err(WindowsHelloStateError::Invalid);
                }
            },
            Err(_) => {
                return Err(WindowsHelloStateError::Invalid);
            },
        }
        if let Some(enrollment) = &state.enrollment {
            match read_protector(&enrollment.protector) {
                Some(protector) => {
                    if !enrollment.is_protected_by(&protector) {
                        return Err(WindowsHelloStateError::Invalid);
                    }
                },
                None => {
                    return Err(WindowsHelloStateError::Invalid);
                },
            }
        }
        Ok(state)
    }
}

/// Whether a state can be stored: it says something, and not too much.
pub open spec fn storable(state: LocalStateModel) -> bool {
    &&& state.enrollment is Some || state.pending_removal is Some
    &&& stored_form(state).len() <= MAXIMUM_LOCAL_STATE_BYTES
}

/// Whether bytes are the stored form of a valid state.
pub open spec fn is_stored_form(bytes: Seq<u8>, limits: HelloLimits) -> bool {
    &&& 0 < bytes.len() <= MAXIMUM_LOCAL_STATE_BYTES
    &&& readable_state(bytes) is Some
    &&& valid_state(readable_state(bytes)->Some_0, limits)
    &&& stored_form(readable_state(bytes)->Some_0) == bytes
}

/// What is stored of a valid state that is short enough is accepted when it is
/// read, and gives that state.
pub proof fn stored_state_is_accepted(state: LocalStateModel, limits: HelloLimits)
    requires
        valid_state(state, limits),
        storable(state),
    ensures
        is_stored_form(stored_form(state), limits),
        readable_state(stored_form(state)) == Some(state),
{
    stored_state_is_read_back(state, limits);
}

/// An enrollment is accepted exactly where none of its parts is empty or zero,
/// all are within the limits, and its protector was made for just this vault,
/// key, credential and salt.
pub proof fn complete_enrollments_are_accepted(
    enrollment: HelloEnrollment,
    limits: HelloLimits,
    made_for: ProtectorBinding,
    created: Result<WindowsHelloLocalState, WindowsHelloStateError>,
)
    requires
        call_ensures(
            WindowsHelloLocalState::new,
            (enrollment, limits, Some(made_for)),
            created,
        ),
    ensures
        created is Ok <==> {
            &&& enrollment.vault_id@ != crate::bytes::zeros(16) && enrollment.key_epoch != 0
            &&& enrollment.installation_key@ != crate::bytes::zeros(32)
            &&& enrollment.prf_salt@ != crate::bytes::zeros(32)
            &&& 0 < enrollment.credential_id@.len() <= limits.max_credential_id_bytes
            &&& 0 < enrollment.protector@.len() <= limits.max_protector_bytes
            &&& made_for.vault_id@ == enrollment.vault_id@
            &&& made_for.key_epoch == enrollment.key_epoch
            &&& made_for.credential_id@ == enrollment.credential_id@
            &&& made_for.prf_salt@ == enrollment.prf_salt@
        },
        created matches Ok(state) ==> {
            &&& state@.pending_removal is None
            &&& state@.enrollment == Some(enrollment@)
        },
{
}

/// A credential can be noted as one that has to go where it has a name of a
/// length that a credential can have.
pub proof fn named_credentials_can_be_removed(
    credential_id: &[u8],
    limits: HelloLimits,
    created: Result<WindowsHelloLocalState, WindowsHelloStateError>,
)
    requires
        call_ensures(WindowsHelloLocalState::pending_removal, (credential_id, limits), created),
    ensures
        created is Ok <==> 0 < credential_id@.len() <= limits.max_credential_id_bytes,
        created matches Ok(state) ==> state@.enrollment is None && state@.pending_removal == Some(
            credential_id@,
        ),
{
}

} // verus!
