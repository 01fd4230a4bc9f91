//! Encoding of an attestation result into the legacy single-factor
//! registration response format.

use vstd::prelude::*;

verus! {

/// Fixed first byte of a legacy registration response.
pub const RESERVED_BYTE: u8 = 0x05;

/// A legacy-compatible attestation statement. Only this shape can reach the
/// encoder: the type admits no other statement format, so an incompatible
/// statement is unrepresentable rather than detected at run time.
pub struct U2fAttestationStatement {
    /// The attestation certificate chain, leaf first; never empty.
    pub certificates: Vec<Vec<u8>>,
    /// The attestation signature bytes.
    pub signature: Vec<u8>,
}

/// What the session engine delivers after a successful registration.
pub struct AttestationResult {
    /// The credential public key in the legacy fixed-size point encoding.
    pub public_key: Vec<u8>,
    /// The new credential's identifier; its length must fit in one byte.
    pub credential_id: Vec<u8>,
    /// The legacy-compatible attestation statement.
    pub att_statement: U2fAttestationStatement,
}

impl AttestationResult {
    /// Shape the engine owes this path: a credential identifier whose length
    /// fits the one-byte length prefix, and at least one certificate.
    pub open spec fn wf(self) -> bool {
        &&& self.credential_id@.len() <= 255
        &&& self.att_statement.certificates@.len() >= 1
    }
}

/// The exact legacy response layout: the reserved byte, the public key, a
/// one-byte credential-identifier length, the credential identifier, the
/// first attestation certificate, and the signature.
pub open spec fn register_response_bytes(att: AttestationResult) -> Seq<u8> {
    seq![RESERVED_BYTE] + att.public_key@ + seq![att.credential_id@.len() as u8]
        + att.credential_id@ + att.att_statement.certificates@[0]@ + att.att_statement.signature@
}

/// Appends every byte of `src` to `out`.
fn append_bytes(out: &mut Vec<u8>, src: &Vec<u8>)
    ensures
        final(out)@ == old(out)@ + src@,
{
    let mut i: usize = 0;
    while i < src.len()
        invariant
            i <= src.len(),
            out@ == old(out)@ + src@.take(i as int),
        decreases src.len() - i,
    {
        out.push(src[i]);
        proof {
            assert(old(out)@ + src@.take(i + 1 as int) =~= (old(out)@ + src@.take(i as int)).push(
                src@[i as int],
            ));
        }
        i = i + 1;
    }
    proof {
        assert(old(out)@ + src@.take(src@.len() as int) =~= old(out)@ + src@);
    }
}

/// Serializes an attestation result into the legacy registration response,
/// byte for byte as `register_response_bytes` lays it out.
pub fn encode_register_response(att: &AttestationResult) -> (r: Vec<u8>)
    requires
        att.wf(),
    ensures
        r@ == register_response_bytes(*att),
{
    let mut out: Vec<u8> = Vec::new();
    out.push(RESERVED_BYTE);
    append_bytes(&mut out, &att.public_key);
    out.push(att.credential_id.len() as u8);
    append_bytes(&mut out, &att.credential_id);
    append_bytes(&mut out, &att.att_statement.certificates[0]);
    append_bytes(&mut out, &att.att_statement.signature);
    proof {
        assert(out@ =~= register_response_bytes(*att));
    }
    out
}

} // verus!
