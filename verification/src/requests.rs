//! Request data model: caller-supplied values, the protocol request types
//! built from them, structural validation, and relying-party resolution.

use vstd::prelude::*;

use crate::errors::Error;

verus! {

/// Length, in bytes, of a challenge and of an application identifier: the
/// digest size of the client-data hash.
pub const PARAMETER_SIZE: usize = 32;

/// Longest credential identifier a request may carry.
pub const MAX_KEY_HANDLE_SIZE: usize = 256;

/// A caller-supplied handle for a previously issued credential.
pub struct KeyHandle {
    /// Opaque credential identifier bytes, as the caller presented them.
    pub credential: Vec<u8>,
}

/// A credential descriptor carried inside a protocol request; its identifier
/// has passed the `MAX_KEY_HANDLE_SIZE` check.
pub struct CredentialDescriptor {
    /// Opaque credential identifier bytes.
    pub id: Vec<u8>,
}

/// The relying party a request is scoped to, identified by its
/// already-hashed relying-party identifier.
pub struct RelyingParty {
    /// The relying-party identifier hash, `PARAMETER_SIZE` bytes.
    pub hash: Vec<u8>,
}

/// Which kind of client-data a request carries.
#[derive(Clone, Copy, Debug, PartialEq, Eq, Structural)]
pub enum WebauthnType {
    /// Credential registration.
    Create,
    /// Credential signing.
    Get,
}

/// Client data bound into a request. Origin and token binding are never set
/// by this client, so only the kind and the challenge are carried.
pub struct ClientData {
    /// Whether the request registers or signs.
    pub webauthn_type: WebauthnType,
    /// The caller's challenge, `PARAMETER_SIZE` bytes.
    pub challenge: Vec<u8>,
}

/// Mathematical model of `ClientData`.
#[verifier::ext_equal]
pub struct ClientDataV {
    pub webauthn_type: WebauthnType,
    pub challenge: Seq<u8>,
}

impl View for ClientData {
    type V = ClientDataV;

    open spec fn view(&self) -> ClientDataV {
        ClientDataV { webauthn_type: self.webauthn_type, challenge: self.challenge@ }
    }
}

/// Options for a registration request.
#[derive(Clone, Copy, Debug, PartialEq, Eq, Structural)]
pub struct RegisterFlags {
    /// Ask the authenticator to verify the user before registering.
    pub require_user_verification: bool,
}

/// Options for a signing request. Signing always requests user verification,
/// whatever the caller asked for, so these flags carry nothing.
#[derive(Clone, Copy, Debug, PartialEq, Eq, Structural)]
pub struct SignFlags {
}

/// A capability the session engine can be narrowed to.
#[derive(Clone, Copy, Debug, PartialEq, Eq, Structural)]
pub enum Capability {
    /// Only consider FIDO2-capable authenticators.
    Fido2,
}

/// A credential-registration command for the session engine.
pub struct RegisterRequest {
    /// Client data of kind `Create`.
    pub client_data: ClientData,
    /// The relying party the credential will be scoped to.
    pub relying_party: RelyingParty,
    /// Credentials the authenticator must not register again.
    pub exclude_list: Vec<CredentialDescriptor>,
    /// Whether the authenticator must verify the user.
    pub user_verification: bool,
}

/// Mathematical model of `RegisterRequest`.
#[verifier::ext_equal]
pub struct RegisterRequestV {
    pub client_data: ClientDataV,
    pub relying_party: Seq<u8>,
    pub exclude_list: Seq<Seq<u8>>,
    pub user_verification: bool,
}

impl View for RegisterRequest {
    type V = RegisterRequestV;

    open spec fn view(&self) -> RegisterRequestV {
        RegisterRequestV {
            client_data: self.client_data@,
            relying_party: self.relying_party.hash@,
            exclude_list: descriptors_view(self.exclude_list@),
            user_verification: self.user_verification,
        }
    }
}

/// A credential-signing command for the session engine. Each command allows
/// exactly one credential; a logical signing request becomes one command per
/// (application identifier, key handle) combination.
pub struct SignRequest {
    /// Client data of kind `Get`.
    pub client_data: ClientData,
    /// The relying party derived from one application identifier.
    pub relying_party: RelyingParty,
    /// The single credential this command may sign with.
    pub allow_list: Vec<CredentialDescriptor>,
    /// Whether the authenticator must verify the user; always set.
    pub user_verification: bool,
}

/// Mathematical model of `SignRequest`.
#[verifier::ext_equal]
pub struct SignRequestV {
    pub client_data: ClientDataV,
    pub relying_party: Seq<u8>,
    pub allow_list: Seq<Seq<u8>>,
    pub user_verification: bool,
}

impl View for SignRequest {
    type V = SignRequestV;

    open spec fn view(&self) -> SignRequestV {
        SignRequestV {
            client_data: self.client_data@,
            relying_party: self.relying_party.hash@,
            allow_list: descriptors_view(self.allow_list@),
            user_verification: self.user_verification,
        }
    }
}

/// The identifier bytes of each key handle in a list.
pub open spec fn handles_view(handles: Seq<KeyHandle>) -> Seq<Seq<u8>> {
    handles.map_values(|kh: KeyHandle| kh.credential@)
}

/// The identifier bytes of each descriptor in a list.
pub open spec fn descriptors_view(descriptors: Seq<CredentialDescriptor>) -> Seq<Seq<u8>> {
    descriptors.map_values(|c: CredentialDescriptor| c.id@)
}

/// The byte sequences of a list of byte vectors.
pub open spec fn bytes_view(items: Seq<Vec<u8>>) -> Seq<Seq<u8>> {
    items.map_values(|b: Vec<u8>| b@)
}

/// Every handle in the list fits the credential-identifier bound.
pub open spec fn handles_ok(handles: Seq<Seq<u8>>) -> bool {
    forall|i: int| 0 <= i < handles.len() ==> (#[trigger] handles[i]).len() <= MAX_KEY_HANDLE_SIZE
}

/// Structural validity of the arguments of a registration request.
pub open spec fn register_input_ok(
    challenge: Seq<u8>,
    application: Seq<u8>,
    handles: Seq<Seq<u8>>,
) -> bool {
    &&& challenge.len() == PARAMETER_SIZE
    &&& application.len() == PARAMETER_SIZE
    &&& handles_ok(handles)
}

/// Structural validity of the arguments of a signing request.
pub open spec fn sign_input_ok(
    challenge: Seq<u8>,
    app_ids: Seq<Seq<u8>>,
    handles: Seq<Seq<u8>>,
) -> bool {
    &&& challenge.len() == PARAMETER_SIZE
    &&& app_ids.len() > 0
    &&& forall|i: int| 0 <= i < app_ids.len() ==> (#[trigger] app_ids[i]).len() == PARAMETER_SIZE
    &&& handles_ok(handles)
}

/// An exact copy of a byte vector.
pub fn clone_bytes(bytes: &Vec<u8>) -> (r: Vec<u8>)
    ensures
        r@ == bytes@,
{
    let mut out: Vec<u8> = Vec::new();
    let mut i: usize = 0;
    while i < bytes.len()
        invariant
            i <= bytes.len(),
            out@ == bytes@.take(i as int),
        decreases bytes.len() - i,
    {
        out.push(bytes[i]);
        proof {
            assert(bytes@.take(i + 1 as int) =~= bytes@.take(i as int).push(bytes@[i as int]));
        }
        i = i + 1;
    }
    proof {
        assert(bytes@.take(bytes@.len() as int) =~= bytes@);
    }
    out
}

/// Checks every key handle against the credential-identifier bound.
fn check_handles(key_handles: &Vec<KeyHandle>) -> (r: bool)
    ensures
        r == handles_ok(handles_view(key_handles@)),
{
    let mut i: usize = 0;
    while i < key_handles.len()
        invariant
            i <= key_handles.len(),
            forall|k: int| 0 <= k < i ==> (#[trigger] handles_view(key_handles@)[k]).len()
                <= MAX_KEY_HANDLE_SIZE,
        decreases key_handles.len() - i,
    {
        if key_handles[i].credential.len() > MAX_KEY_HANDLE_SIZE {
            assert(handles_view(key_handles@)[i as int].len() > MAX_KEY_HANDLE_SIZE);
            return false;
        }
        i = i + 1;
    }
    true
}

/// Structural validation of registration arguments: accepts exactly the
/// inputs `register_input_ok` allows, rejecting all others as invalid input
/// before anything is enqueued.
pub fn validate_register(
    challenge: &Vec<u8>,
    application: &Vec<u8>,
    key_handles: &Vec<KeyHandle>,
) -> (r: Result<(), Error>)
    ensures
        r is Ok <==> register_input_ok(challenge@, application@, handles_view(key_handles@)),
        r is Err ==> r == Err::<(), Error>(Error::InvalidInput),
{
    if challenge.len() != PARAMETER_SIZE || application.len() != PARAMETER_SIZE {
        return Err(Error::InvalidInput);
    }
    if !check_handles(key_handles) {
        return Err(Error::InvalidInput);
    }
    Ok(())
}

/// Structural validation of signing arguments: accepts exactly the inputs
/// `sign_input_ok` allows, rejecting all others as invalid input before
/// anything is enqueued.
pub fn validate_sign(
    challenge: &Vec<u8>,
    app_ids: &Vec<Vec<u8>>,
    key_handles: &Vec<KeyHandle>,
) -> (r: Result<(), Error>)
    ensures
        r is Ok <==> sign_input_ok(challenge@, bytes_view(app_ids@), handles_view(key_handles@)),
        r is Err ==> r == Err::<(), Error>(Error::InvalidInput),
{
    if challenge.len() != PARAMETER_SIZE {
        return Err(Error::InvalidInput);
    }
    if app_ids.len() == 0 {
        return Err(Error::InvalidInput);
    }
    let mut i: usize = 0;
    while i < app_ids.len()
        invariant
            i <= app_ids.len(),
            forall|k: int| 0 <= k < i ==> (#[trigger] bytes_view(app_ids@)[k]).len()
                == PARAMETER_SIZE,
        decreases app_ids.len() - i,
    {
        if app_ids[i].len() != PARAMETER_SIZE {
            assert(bytes_view(app_ids@)[i as int].len() != PARAMETER_SIZE);
            return Err(Error::InvalidInput);
        }
        i = i + 1;
    }
    if !check_handles(key_handles) {
        return Err(Error::InvalidInput);
    }
    Ok(())
}

/// Derives the relying-party descriptor from an application identifier by
/// taking the identifier itself as the already-hashed relying-party
/// identifier. Only a digest-sized identifier is a valid hash value.
pub fn resolve_relying_party(application: &Vec<u8>) -> (r: Result<RelyingParty, Error>)
    ensures
        application@.len() == PARAMETER_SIZE ==> (r matches Ok(rp) && rp.hash@ == application@),
        application@.len() != PARAMETER_SIZE ==> r == Err::<RelyingParty, Error>(
            Error::ResolutionFailure,
        ),
{
    if application.len() != PARAMETER_SIZE {
        return Err(Error::ResolutionFailure);
    }
    Ok(RelyingParty { hash: clone_bytes(application) })
}

} // verus!
