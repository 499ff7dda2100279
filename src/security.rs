//! Session tokens and a reversible byte obfuscation.
//!
//! The obfuscation is a XOR with one fixed byte: it hides nothing from
//! anyone who looks and is no substitute for encryption.
use vstd::prelude::*;
use crate::ids::{parse_uuid, parsed_uuid};
use crate::model::{SessionError, SessionId};

verus! {

/// The byte every obfuscated byte is XORed with.
pub const OBFUSCATION_KEY: u8 = 0x5A;

/// The obfuscation of a byte sequence: each byte XORed with the key.
pub open spec fn obfuscated(data: Seq<u8>) -> Seq<u8> {
    Seq::new(data.len(), |i: int| data[i] ^ OBFUSCATION_KEY)
}

/// Reads session tokens and obfuscates session data.
pub struct SecurityManager {}

impl SecurityManager {
    pub fn new() -> (r: Self) {
        SecurityManager {}
    }

    /// Reads the session identifier that a token spells; a token that is
    /// no UUID is refused.
    pub fn validate_session_token(&self, token: &str) -> (r: Result<SessionId, SessionError>)
        ensures
            match parsed_uuid(token@) {
                Some(id) => r == Ok::<SessionId, SessionError>(id),
                None => r == Err::<SessionId, SessionError>(SessionError::InvalidToken),
            },
    {
        match parse_uuid(token) {
            Ok(id) => Ok(id),
            Err(_) => Err(SessionError::InvalidToken),
        }
    }

    /// Obfuscates bytes by XOR with the key.
    pub fn encrypt_session_data(&self, data: &[u8]) -> (r: Vec<u8>)
        ensures
            r@ == obfuscated(data@),
    {
        xor_with_key(data)
    }

    /// Undoes `encrypt_session_data`; XOR with the key is its own inverse.
    pub fn decrypt_session_data(&self, data: &[u8]) -> (r: Vec<u8>)
        ensures
            r@ == obfuscated(data@),
    {
        xor_with_key(data)
    }
}

fn xor_with_key(data: &[u8]) -> (r: Vec<u8>)
    ensures
        r@ == obfuscated(data@),
{
    let mut out: Vec<u8> = Vec::with_capacity(data.len());
    let mut i: usize = 0;
    while i < data.len()
        invariant
            i <= data@.len(),
            out@ == obfuscated(data@.take(i as int)),
        decreases data@.len() - i,
    {
        out.push(data[i] ^ OBFUSCATION_KEY);
        i = i + 1;
        assert(out@ =~= obfuscated(data@.take(i as int)));
    }
    assert(data@.take(i as int) =~= data@);
    out
}

/// Obfuscating twice gives back the original bytes, so decrypting what was
/// encrypted restores it.
pub proof fn lemma_obfuscation_round_trip(data: Seq<u8>)
    ensures
        obfuscated(obfuscated(data)) == data,
{
    assert forall|i: int| 0 <= i < data.len() implies #[trigger] obfuscated(obfuscated(data))[i]
        == data[i] by {
        let b = data[i];
        assert((b ^ 0x5Au8) ^ 0x5Au8 == b) by (bit_vector);
    }
    assert(obfuscated(obfuscated(data)) =~= data);
}

} // verus!
