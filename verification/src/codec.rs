//! The packet codec: builds the obfuscated wire frame for an outgoing
//! payload and validates the checksum of an incoming one. The direction rule
//! lives here: host-to-device frames are obfuscated with the session key,
//! device-to-host frames arrive in the clear.

use crate::errors::Error;
use crate::utils::{
    checksum, encrypt, lemma_encrypt_involutive, spec_checksum, spec_encrypt,
};
use vstd::prelude::*;

verus! {

/// The wire bytes for an outgoing payload: the payload obfuscated with
/// `key`, followed by the checksum of the plain payload, itself obfuscated
/// with `key`.
pub open spec fn spec_frame(payload: Seq<u8>, key: u8) -> Seq<u8> {
    spec_encrypt(payload, key).push(spec_checksum(payload) ^ key)
}

/// The decoding rule for a frame obfuscated with `key`: strip the
/// obfuscation from the payload and from the trailing checksum byte, and
/// accept the payload only if its checksum matches that byte.
pub open spec fn spec_unframe(wire: Seq<u8>, key: u8) -> Option<Seq<u8>> {
    if wire.len() == 0 {
        None
    } else {
        let payload = spec_encrypt(wire.drop_last(), key);
        if spec_checksum(payload) == (wire.last() ^ key) {
            Some(payload)
        } else {
            None
        }
    }
}

/// Law: a payload framed with a key and then decoded with the same key is
/// recovered unchanged.
pub proof fn lemma_frame_round_trip(payload: Seq<u8>, key: u8)
    requires
        payload.len() <= 12,
    ensures
        spec_unframe(spec_frame(payload, key), key) == Some(payload),
{
    let wire = spec_frame(payload, key);
    assert(wire.drop_last() =~= spec_encrypt(payload, key));
    lemma_encrypt_involutive(payload, key);
    let c = spec_checksum(payload);
    assert((c ^ key) ^ key == c) by (bit_vector);
}

/// Build the wire frame for `data` under `key`: obfuscated payload, then
/// the obfuscated checksum byte.
pub fn encode_packet(data: &[u8], key: u8) -> (r: Vec<u8>)
    ensures
        r@ == spec_frame(data@, key),
{
    let c = checksum(data);
    let mut out = encrypt(data, key);
    out.push(c ^ key);
    out
}

/// Validate a received payload against the checksum byte that followed it.
/// Device responses arrive unobfuscated, so no key takes part.
pub fn check_packet(data: &[u8], received: u8) -> (r: Result<(), Error>)
    ensures
        r == (if spec_checksum(data@) == received {
            Ok::<(), Error>(())
        } else {
            Err::<(), Error>(Error::ChecksumError)
        }),
{
    if checksum(data) == received {
        Ok(())
    } else {
        Err(Error::ChecksumError)
    }
}

} // verus!
