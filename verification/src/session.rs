//! The session: holds the current obfuscation key and exposes each protocol
//! exchange as a pure request/reply pair. The request side returns the exact
//! bytes to write to the transport; the reply side interprets the bytes read
//! back. The caller that owns the byte stream performs the I/O in between.
//!
//! The protocol defines no recovery path after a checksum mismatch or an
//! unexpected response code: the device's state is then unknown, and the
//! caller must repeat the handshake (and, if it was keyed, the key
//! exchange) before further exchanges.

use crate::codec::{encode_packet, spec_frame};
use crate::errors::Error;
use vstd::prelude::*;

verus! {

/// Sync probe written by the host, alone and unobfuscated, to begin the
/// handshake.
pub const SYNC_PROBE: u8 = 0x00;

/// Device acknowledge of the sync probe.
pub const SYNC_ACK: u8 = 0x07;

/// Opcode of a key-exchange request.
pub const KEY_EXCHANGE_REQUEST: u8 = 0x2f;

/// Device acknowledge of a key-exchange request.
pub const KEY_EXCHANGE_ACK: u8 = 0x21;

/// Fixed host key sent in the key-exchange request; a constant keeps the
/// derivation of the negotiated key simple.
pub const HOST_KEY: u8 = 0x00;

/// Constant XORed with the device's key byte to form the negotiated session
/// key.
pub const ENCRYPTION_KEY_XOR: u8 = 0x55;

/// Opcode of a register-read request.
pub const READ_REGISTER: u8 = 0x3c;

/// Device acknowledge of a register read.
pub const READ_ACK: u8 = 0x22;

/// Opcode of a register write; it sits in the low nibble of the length
/// byte, below the payload length in the high nibble.
pub const WRITE_REGISTER: u8 = 0x3d;

/// Device acknowledge of a register write.
pub const ACK: u8 = 0x06;

/// Largest number of data bytes one register write may carry: three header
/// bytes and twelve data bytes fill the fifteen-byte frame ceiling.
pub const MAX_WRITE_LEN: usize = 12;

/// The low byte of a register address, sent first on the wire.
pub open spec fn spec_low_byte(address: u16) -> u8 {
    (address & 0xff) as u8
}

/// The high byte of a register address, sent second on the wire.
pub open spec fn spec_high_byte(address: u16) -> u8 {
    (address >> 8) as u8
}

/// The length byte of a register write: payload length in the high nibble,
/// the write opcode in the low nibble.
pub open spec fn spec_length_byte(len: u8) -> u8 {
    (len << 4) | WRITE_REGISTER
}

/// The payload of a key-exchange request.
pub open spec fn spec_key_exchange_body() -> Seq<u8> {
    seq![KEY_EXCHANGE_REQUEST, HOST_KEY]
}

/// The payload of a register-read request: opcode, then the address
/// little-endian.
pub open spec fn spec_read_body(address: u16) -> Seq<u8> {
    seq![READ_REGISTER, spec_low_byte(address), spec_high_byte(address)]
}

/// The payload of a register-write request: length byte, the address
/// little-endian, then the data bytes.
pub open spec fn spec_write_body(address: u16, values: Seq<u8>) -> Seq<u8>
    recommends
        values.len() <= MAX_WRITE_LEN,
{
    seq![
        spec_length_byte(values.len() as u8),
        spec_low_byte(address),
        spec_high_byte(address),
    ] + values
}

fn low_byte(address: u16) -> (r: u8)
    ensures
        r == spec_low_byte(address),
{
    proof {
        assert(address & 0xff < 256) by (bit_vector);
    }
    (address & 0xff) as u8
}

fn high_byte(address: u16) -> (r: u8)
    ensures
        r == spec_high_byte(address),
{
    proof {
        assert(address >> 8 < 256) by (bit_vector);
    }
    (address >> 8) as u8
}

/// One protocol session: remembers the obfuscation key negotiated for it.
/// The key starts at zero, which leaves outgoing bytes unchanged; only a
/// successful key exchange ever changes it.
pub struct Session {
    encryption_key: u8,
}

impl Session {
    /// The current session key, as specifications see it.
    pub closed spec fn spec_key(&self) -> u8 {
        self.encryption_key
    }

    /// A fresh session with the initial key of zero ("no obfuscation").
    pub fn new() -> (s: Session)
        ensures
            s.spec_key() == 0,
    {
        Session { encryption_key: 0 }
    }

    /// The current session key.
    pub fn key(&self) -> (k: u8)
        ensures
            k == self.spec_key(),
    {
        self.encryption_key
    }

    /// The wire bytes of a packet carrying `data`, obfuscated with the
    /// current session key.
    pub fn packet_bytes(&self, data: &[u8]) -> (r: Vec<u8>)
        ensures
            r@ == spec_frame(data@, self.spec_key()),
    {
        encode_packet(data, self.encryption_key)
    }

    /// Interpret the single byte the device returns after the sync probe:
    /// anything but the sync acknowledge is an unexpected response code.
    pub fn handshake_reply(&self, code: u8) -> (r: Result<(), Error>)
        ensures
            r == (if code == SYNC_ACK {
                Ok::<(), Error>(())
            } else {
                Err::<(), Error>(Error::UnexpectedValue(code))
            }),
    {
        if code == SYNC_ACK {
            Ok(())
        } else {
            Err(Error::UnexpectedValue(code))
        }
    }

    /// The wire bytes of a key-exchange request under the current key.
    pub fn key_exchange_request(&self) -> (r: Vec<u8>)
        ensures
            r@ == spec_frame(spec_key_exchange_body(), self.spec_key()),
    {
        let mut body: Vec<u8> = Vec::new();
        body.push(KEY_EXCHANGE_REQUEST);
        body.push(HOST_KEY);
        proof {
            assert(body@ =~= spec_key_exchange_body());
        }
        encode_packet(body.as_slice(), self.encryption_key)
    }

    /// Interpret a two-byte key-exchange response. On the key-exchange
    /// acknowledge, derive the negotiated key from the second byte and
    /// install it as the session key before returning it; on any other
    /// first byte, leave the key unchanged and report the byte.
    pub fn key_exchange_reply(&mut self, response: &[u8]) -> (r: Result<u8, Error>)
        requires
            response@.len() == 2,
        ensures
            response@[0] == KEY_EXCHANGE_ACK ==> r == Ok::<u8, Error>(
                response@[1] ^ ENCRYPTION_KEY_XOR,
            ) && final(self).spec_key() == response@[1] ^ ENCRYPTION_KEY_XOR,
            response@[0] != KEY_EXCHANGE_ACK ==> r == Err::<u8, Error>(
                Error::UnexpectedValue(response@[0]),
            ) && final(self).spec_key() == old(self).spec_key(),
    {
        let code = response[0];
        if code != KEY_EXCHANGE_ACK {
            return Err(Error::UnexpectedValue(code));
        }
        let negotiated = response[1] ^ ENCRYPTION_KEY_XOR;
        self.encryption_key = negotiated;
        Ok(negotiated)
    }

    /// The wire bytes of a register-read request under the current key.
    pub fn read_address_request(&self, address: u16) -> (r: Vec<u8>)
        ensures
            r@ == spec_frame(spec_read_body(address), self.spec_key()),
    {
        let mut body: Vec<u8> = Vec::new();
        body.push(READ_REGISTER);
        body.push(low_byte(address));
        body.push(high_byte(address));
        proof {
            assert(body@ =~= spec_read_body(address));
        }
        encode_packet(body.as_slice(), self.encryption_key)
    }

    /// Interpret a two-byte register-read response: on the read
    /// acknowledge, the second byte is the register's value.
    pub fn read_address_reply(&self, response: &[u8]) -> (r: Result<u8, Error>)
        requires
            response@.len() == 2,
        ensures
            response@[0] == READ_ACK ==> r == Ok::<u8, Error>(response@[1]),
            response@[0] != READ_ACK ==> r == Err::<u8, Error>(
                Error::UnexpectedValue(response@[0]),
            ),
    {
        let code = response[0];
        if code != READ_ACK {
            return Err(Error::UnexpectedValue(code));
        }
        Ok(response[1])
    }

    /// The wire bytes of a register-write request under the current key, or
    /// `MessageTooLong` if more than twelve data bytes were given; in that
    /// case nothing is to be written to the transport.
    pub fn write_address_request(&self, address: u16, values: &[u8]) -> (r: Result<
        Vec<u8>,
        Error,
    >)
        ensures
            values@.len() > MAX_WRITE_LEN ==> r == Err::<Vec<u8>, Error>(Error::MessageTooLong),
            values@.len() <= MAX_WRITE_LEN ==> (r matches Ok(w) && w@ == spec_frame(
                spec_write_body(address, values@),
                self.spec_key(),
            )),
    {
        if values.len() > MAX_WRITE_LEN {
            return Err(Error::MessageTooLong);
        }
        let length_byte: u8 = ((values.len() as u8) << 4) | WRITE_REGISTER;
        let mut body: Vec<u8> = Vec::new();
        body.push(length_byte);
        body.push(low_byte(address));
        body.push(high_byte(address));
        let mut i: usize = 0;
        while i < values.len()
            invariant
                0 <= i <= values@.len(),
                values@.len() <= MAX_WRITE_LEN,
                length_byte == spec_length_byte(values@.len() as u8),
                body@ =~= seq![
                    spec_length_byte(values@.len() as u8),
                    spec_low_byte(address),
                    spec_high_byte(address),
                ] + values@.take(i as int),
            decreases values@.len() - i,
        {
            body.push(values[i]);
            i = i + 1;
        }
        proof {
            assert(values@.take(values@.len() as int) =~= values@);
            assert(body@ =~= spec_write_body(address, values@));
        }
        Ok(encode_packet(body.as_slice(), self.encryption_key))
    }

    /// Interpret the single-byte register-write response: anything but the
    /// generic acknowledge is an unexpected response code.
    pub fn write_address_reply(&self, response: &[u8]) -> (r: Result<(), Error>)
        requires
            response@.len() == 1,
        ensures
            r == (if response@[0] == ACK {
                Ok::<(), Error>(())
            } else {
                Err::<(), Error>(Error::UnexpectedValue(response@[0]))
            }),
    {
        let code = response[0];
        if code == ACK {
            Ok(())
        } else {
            Err(Error::UnexpectedValue(code))
        }
    }
}

} // verus!
