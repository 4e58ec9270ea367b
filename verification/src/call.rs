//! Function-call requests: the unsigned call, its canonical bytes, and the
//! signed call that travels over an app interface.

use vstd::prelude::*;
use vstd::std_specs::convert::FromSpecImpl;

verus! {

/// The cell a call is aimed at: the hash of its DNA and the key of the agent
/// that runs it, each as the 36 untyped bytes of a hash.
#[derive(Debug, Clone, Copy)]
pub struct CellId {
    pub dna_hash: [u8; 36],
    pub agent_pub_key: [u8; 36],
}

impl View for CellId {
    type V = (Seq<u8>, Seq<u8>);

    open spec fn view(&self) -> (Seq<u8>, Seq<u8>) {
        (self.dna_hash@, self.agent_pub_key@)
    }
}

impl CellId {
    /// Whether two cell ids name the same cell.
    pub fn same_as(&self, other: &CellId) -> (same: bool)
        ensures
            same == (self@ == other@),
    {
        crate::bytes::bytes_eq(self.dna_hash.as_slice(), other.dna_hash.as_slice())
            && crate::bytes::bytes_eq(
            self.agent_pub_key.as_slice(),
            other.agent_pub_key.as_slice(),
        )
    }
}

/// Exactly what is signed when a call is made: every field of the request but
/// the signature.
#[derive(Debug)]
pub struct ZomeCallUnsigned {
    /// The key of the caller.
    pub provenance: [u8; 36],
    pub cell_id: CellId,
    pub zome_name: String,
    pub fn_name: String,
    pub cap_secret: Option<[u8; 64]>,
    pub payload: Vec<u8>,
    pub nonce: [u8; 32],
    /// Microseconds since the epoch after which the call must not be accepted.
    pub expires_at: i64,
}

/// A call together with the caller's signature over its canonical bytes.
#[derive(Debug)]
pub struct ZomeCall {
    pub cell_id: CellId,
    pub zome_name: String,
    pub fn_name: String,
    pub payload: Vec<u8>,
    pub cap_secret: Option<[u8; 64]>,
    /// The key of the caller; the signature must be by this key.
    pub provenance: [u8; 36],
    pub signature: [u8; 64],
    pub nonce: [u8; 32],
    pub expires_at: i64,
}

/// Mathematical model of a [`ZomeCallUnsigned`].
pub struct UnsignedCallModel {
    pub provenance: Seq<u8>,
    pub cell_id: (Seq<u8>, Seq<u8>),
    pub zome_name: Seq<char>,
    pub fn_name: Seq<char>,
    pub cap_secret: Option<Seq<u8>>,
    pub payload: Seq<u8>,
    pub nonce: Seq<u8>,
    pub expires_at: int,
}

/// Mathematical model of a [`ZomeCall`].
pub struct SignedCallModel {
    pub call: UnsignedCallModel,
    pub signature: Seq<u8>,
}

/// The view of an optional capability secret.
pub open spec fn secret_model(secret: Option<[u8; 64]>) -> Option<Seq<u8>> {
    match secret {
        Some(bytes) => Some(bytes@),
        None => None,
    }
}

impl View for ZomeCallUnsigned {
    type V = UnsignedCallModel;

    open spec fn view(&self) -> UnsignedCallModel {
        UnsignedCallModel {
            provenance: self.provenance@,
            cell_id: self.cell_id@,
            zome_name: self.zome_name@,
            fn_name: self.fn_name@,
            cap_secret: secret_model(self.cap_secret),
            payload: self.payload@,
            nonce: self.nonce@,
            expires_at: self.expires_at as int,
        }
    }
}

impl View for ZomeCall {
    type V = SignedCallModel;

    open spec fn view(&self) -> SignedCallModel {
        SignedCallModel {
            call: UnsignedCallModel {
                provenance: self.provenance@,
                cell_id: self.cell_id@,
                zome_name: self.zome_name@,
                fn_name: self.fn_name@,
                cap_secret: secret_model(self.cap_secret),
                payload: self.payload@,
                nonce: self.nonce@,
                expires_at: self.expires_at as int,
            },
            signature: self.signature@,
        }
    }
}

/// Why a call could not be signed.
#[derive(Debug)]
pub enum SigningError {
    /// The call has no canonical bytes; the serializer's message is kept.
    Serialize(String),
    /// The keystore refused or failed; its message is kept.
    Keystore(String),
}

/// The canonical bytes of a call with these fields, the digest that is
/// signed and verified; or, where the call cannot be serialized, the
/// serializer's message.
pub uninterp spec fn canonical_digest(
    provenance: Seq<u8>,
    dna_hash: Seq<u8>,
    agent_pub_key: Seq<u8>,
    zome_name: Seq<char>,
    fn_name: Seq<char>,
    cap_secret: Option<Seq<u8>>,
    payload: Seq<u8>,
    nonce: Seq<u8>,
    expires_at: int,
) -> Result<Seq<u8>, Seq<char>>;

/// The canonical bytes of a call, as a function of its model.
pub open spec fn digest_of(call: UnsignedCallModel) -> Result<Seq<u8>, Seq<char>> {
    canonical_digest(
        call.provenance,
        call.cell_id.0,
        call.cell_id.1,
        call.zome_name,
        call.fn_name,
        call.cap_secret,
        call.payload,
        call.nonce,
        call.expires_at,
    )
}

/// Calls `holochain_zome_types::zome_io::ZomeCallUnsigned::data_to_sign` on a
/// call with the same fields. That function hashes the serialized call; the
/// contract claims only that what it returns is a function of the fields, and
/// gives that function a name. Its error is given as the text that the error
/// prints.
#[verifier::external_body]
fn outside_data_to_sign(call: &ZomeCallUnsigned) -> (digest: Result<Vec<u8>, String>)
    ensures
        canonical_digest(
            call.provenance@,
            call.cell_id.dna_hash@,
            call.cell_id.agent_pub_key@,
            call.zome_name@,
            call.fn_name@,
            secret_model(call.cap_secret),
            call.payload@,
            call.nonce@,
            call.expires_at as int,
        ) == match digest {
            Ok(bytes) => Ok::<Seq<u8>, Seq<char>>(bytes@),
            Err(message) => Err::<Seq<u8>, Seq<char>>(message@),
        },
{
    let unsigned = holochain_zome_types::zome_io::ZomeCallUnsigned {
        provenance: holo_hash::AgentPubKey::from_raw_36(call.provenance.to_vec()),
        cell_id: holochain_zome_types::cell::CellId::new(
            holo_hash::DnaHash::from_raw_36(call.cell_id.dna_hash.to_vec()),
            holo_hash::AgentPubKey::from_raw_36(call.cell_id.agent_pub_key.to_vec()),
        ),
        zome_name: call.zome_name.clone().into(),
        fn_name: call.fn_name.clone().into(),
        cap_secret: call.cap_secret.map(|secret| secret.into()),
        payload: call.payload.clone().into(),
        nonce: call.nonce.into(),
        expires_at: holochain_zome_types::timestamp::Timestamp::from_micros(call.expires_at),
    };
    unsigned.data_to_sign().map(|bytes| bytes.to_vec()).map_err(|e| e.to_string())
}

impl ZomeCallUnsigned {
    /// The canonical bytes of this call: what a caller signs and what an
    /// authorizer verifies the signature against.
    pub fn data_to_sign(&self) -> (digest: Result<Vec<u8>, SigningError>)
        ensures
            match digest {
                Ok(bytes) => digest_of(self@) == Ok::<Seq<u8>, Seq<char>>(bytes@),
                Err(e) => e@ is Serialize && digest_of(self@) == Err::<Seq<u8>, Seq<char>>(
                    e@->Serialize_0,
                ),
            },
    {
        match outside_data_to_sign(self) {
            Ok(bytes) => Ok(bytes),
            Err(message) => Err(SigningError::Serialize(message)),
        }
    }
}

impl From<ZomeCall> for ZomeCallUnsigned {
    fn from(zome_call: ZomeCall) -> (unsigned: ZomeCallUnsigned)
        ensures
            unsigned@ == zome_call@.call,
    {
        ZomeCallUnsigned {
            cell_id: zome_call.cell_id,
            zome_name: zome_call.zome_name,
            fn_name: zome_call.fn_name,
            payload: zome_call.payload,
            cap_secret: zome_call.cap_secret,
            provenance: zome_call.provenance,
            nonce: zome_call.nonce,
            expires_at: zome_call.expires_at,
        }
    }
}

impl FromSpecImpl<ZomeCall> for ZomeCallUnsigned {
    open spec fn obeys_from_spec() -> bool {
        true
    }

    open spec fn from_spec(zome_call: ZomeCall) -> ZomeCallUnsigned {
        ZomeCallUnsigned {
            cell_id: zome_call.cell_id,
            zome_name: zome_call.zome_name,
            fn_name: zome_call.fn_name,
            payload: zome_call.payload,
            cap_secret: zome_call.cap_secret,
            provenance: zome_call.provenance,
            nonce: zome_call.nonce,
            expires_at: zome_call.expires_at,
        }
    }
}

/// Mathematical model of a [`SigningError`].
pub enum SigningErrorModel {
    Serialize(Seq<char>),
    Keystore(Seq<char>),
}

impl View for SigningError {
    type V = SigningErrorModel;

    open spec fn view(&self) -> SigningErrorModel {
        match self {
            SigningError::Serialize(message) => SigningErrorModel::Serialize(message@),
            SigningError::Keystore(message) => SigningErrorModel::Keystore(message@),
        }
    }
}

/// What [`ZomeCall::try_from_unsigned_zome_call`] returns, given what the
/// keystore answered: where the call has no canonical bytes, the
/// serializer's message, whatever the keystore said.
pub open spec fn signed_from(
    unsigned: UnsignedCallModel,
    signed: Result<Seq<u8>, Seq<char>>,
) -> Result<SignedCallModel, SigningErrorModel> {
    match digest_of(unsigned) {
        Err(message) => Err(SigningErrorModel::Serialize(message)),
        Ok(_) => match signed {
            Ok(signature) => Ok(SignedCallModel { call: unsigned, signature }),
            Err(message) => Err(SigningErrorModel::Keystore(message)),
        },
    }
}

/// The view of a signed call that was made, or of the failure to.
pub open spec fn signing_model(made: Result<ZomeCall, SigningError>) -> Result<
    SignedCallModel,
    SigningErrorModel,
> {
    match made {
        Ok(call) => Ok(call@),
        Err(e) => Err(e@),
    }
}

/// The view of what a keystore answered to a request for a signature.
pub open spec fn keystore_answer_model(signed: Result<[u8; 64], String>) -> Result<
    Seq<u8>,
    Seq<char>,
> {
    match signed {
        Ok(signature) => Ok(signature@),
        Err(message) => Err(message@),
    }
}

/// The call that `call` becomes when `agent_key` takes it over: every field
/// is kept but the provenance.
pub open spec fn with_provenance(call: UnsignedCallModel, agent_key: Seq<u8>)
    -> UnsignedCallModel {
    UnsignedCallModel { provenance: agent_key, ..call }
}

impl ZomeCall {
    /// Makes the signed call from an unsigned one and the keystore's answer to
    /// the request to sign [`ZomeCallUnsigned::data_to_sign`] with the key of
    /// the call's provenance.
    ///
    /// Fails with the serializer's message where the call has no canonical
    /// bytes, whatever the keystore answered, and with the keystore's error
    /// otherwise.
    pub fn try_from_unsigned_zome_call(
        unsigned_zome_call: ZomeCallUnsigned,
        signed: Result<[u8; 64], String>,
    ) -> (zome_call: Result<ZomeCall, SigningError>)
        ensures
            signing_model(zome_call) == signed_from(
                unsigned_zome_call@,
                keystore_answer_model(signed),
            ),
    {
        match unsigned_zome_call.data_to_sign() {
            Err(SigningError::Serialize(message)) => {
                return Err(SigningError::Serialize(message));
            },
            _ => {},
        }
        match signed {
            Err(message) => Err(SigningError::Keystore(message)),
            Ok(signature) => Ok(ZomeCall::with_signature(unsigned_zome_call, signature)),
        }
    }

    /// The canonical bytes against which this call's signature is to be
    /// verified, with the key of its provenance: those of the call without
    /// its signature.
    pub fn data_to_verify(&self) -> (digest: Result<Vec<u8>, SigningError>)
        ensures
            match digest {
                Ok(bytes) => digest_of(self@.call) == Ok::<Seq<u8>, Seq<char>>(bytes@),
                Err(e) => e@ is Serialize && digest_of(self@.call) == Err::<Seq<u8>, Seq<char>>(
                    e@->Serialize_0,
                ),
            },
    {
        let unsigned = ZomeCallUnsigned {
            cell_id: self.cell_id,
            zome_name: self.zome_name.clone(),
            fn_name: self.fn_name.clone(),
            payload: self.payload.clone(),
            cap_secret: self.cap_secret,
            provenance: self.provenance,
            nonce: self.nonce,
            expires_at: self.expires_at,
        };
        unsigned.data_to_sign()
    }

    /// Puts a signature to an unsigned call.
    pub fn with_signature(unsigned: ZomeCallUnsigned, signature: [u8; 64]) -> (zome_call: ZomeCall)
        ensures
            zome_call@ == (SignedCallModel { call: unsigned@, signature: signature@ }),
    {
        ZomeCall {
            cell_id: unsigned.cell_id,
            zome_name: unsigned.zome_name,
            fn_name: unsigned.fn_name,
            payload: unsigned.payload,
            cap_secret: unsigned.cap_secret,
            provenance: unsigned.provenance,
            nonce: unsigned.nonce,
            expires_at: unsigned.expires_at,
            signature,
        }
    }

    /// The unsigned call that has to be signed anew when `agent_key` takes
    /// this call over.
    pub fn unsigned_for(self, agent_key: [u8; 36]) -> (unsigned: ZomeCallUnsigned)
        ensures
            unsigned@ == with_provenance(self@.call, agent_key@),
    {
        ZomeCallUnsigned {
            provenance: agent_key,
            cell_id: self.cell_id,
            zome_name: self.zome_name,
            fn_name: self.fn_name,
            cap_secret: self.cap_secret,
            payload: self.payload,
            nonce: self.nonce,
            expires_at: self.expires_at,
        }
    }

    /// Signs this call anew for `agent_key`: the old signature is dropped, the
    /// provenance replaced, and `signed` is the keystore's answer for the
    /// canonical bytes of [`ZomeCall::unsigned_for`].
    pub fn resign_zome_call(self, agent_key: [u8; 36], signed: Result<[u8; 64], String>) -> (
        zome_call: Result<ZomeCall, SigningError>)
        ensures
            signing_model(zome_call) == signed_from(
                with_provenance(self@.call, agent_key@),
                keystore_answer_model(signed),
            ),
    {
        let zome_call_unsigned = self.unsigned_for(agent_key);
        ZomeCall::try_from_unsigned_zome_call(zome_call_unsigned, signed)
    }
}

/// Signing does not change what is signed. Where the keystore gave a
/// signature, the signed call holds that signature and the fields that were
/// signed, so the canonical bytes that an authorizer recomputes from it are
/// those that were handed to the keystore. Where the call has no canonical
/// bytes, no signed call is made.
pub proof fn signed_call_keeps_digest(unsigned: UnsignedCallModel, signature: Seq<u8>)
    ensures
        match signed_from(unsigned, Ok(signature)) {
            Ok(call) => {
                &&& call.signature == signature
                &&& call.call == unsigned
                &&& digest_of(call.call) == digest_of(unsigned)
                &&& digest_of(unsigned) is Ok
            },
            Err(e) => digest_of(unsigned) == Err::<Seq<u8>, Seq<char>>(e->Serialize_0)
                && e is Serialize,
        },
{
}

} // verus!
