//! A node's secret key, kept on disk as its hexadecimal text in a file named
//! `key`.
use vstd::prelude::*;

use crate::entity::{DecodeError, DiskEntity};
use crate::hex::{lower_hex, parse_hex32};

verus! {

#[verifier::external_type_specification]
#[verifier::external_body]
pub struct ExCryptoError(parity_crypto::publickey::Error);

/// The secret scalar from which a node's identity is derived: 32 bytes,
/// most significant first.
#[derive(Clone, Debug, PartialEq, Eq)]
pub struct Secret {
    bytes: [u8; 32],
}

impl View for Secret {
    type V = Seq<u8>;

    closed spec fn view(&self) -> Seq<u8> {
        self.bytes@
    }
}

/// Relies on parity_crypto's `Secret::from([u8; 32])`, which keeps the bytes
/// as they are, and `Secret::to_hex`, which writes them with fixed-hash's
/// `LowerHex`: two lowercase digits per byte, high nibble first, no prefix.
#[verifier::external_body]
fn crypto_secret_hex(bytes: &[u8; 32]) -> (r: String)
    ensures
        r@ == lower_hex(bytes@),
{
    parity_crypto::publickey::Secret::from(*bytes).to_hex()
}

/// Relies on parity_crypto's `Secret::copy_from_str`, which parses with
/// fixed-hash's `H256::from_str`: an optional `0x`, then 64 hexadecimal
/// digits of either case, with spaces, tabs and line breaks passed over.
#[verifier::external_body]
fn crypto_secret_from_hex(s: &str) -> (r: Result<[u8; 32], parity_crypto::publickey::Error>)
    ensures
        match parse_hex32(s@) {
            Some(b) => r is Ok && r->Ok_0@ == b,
            None => r is Err,
        },
{
    parity_crypto::publickey::Secret::copy_from_str(s).map(|k| k.0)
}

impl Secret {
    /// The secret with the given bytes.
    pub fn from_bytes(bytes: [u8; 32]) -> (r: Secret)
        ensures
            r@ == bytes@,
    {
        Secret { bytes }
    }

    /// The bytes of the secret.
    pub fn to_bytes(&self) -> (r: [u8; 32])
        ensures
            r@ == self@,
    {
        self.bytes
    }

    /// The secret as 64 lowercase hexadecimal digits.
    pub fn to_hex(&self) -> (r: String)
        ensures
            r@ == lower_hex(self@),
    {
        crypto_secret_hex(&self.bytes)
    }

    /// The secret that `s` spells in hexadecimal, if any.
    pub fn from_hex(s: &str) -> (r: Result<Secret, DecodeError>)
        ensures
            match parse_hex32(s@) {
                Some(b) => r is Ok && r->Ok_0@ == b,
                None => r == Err::<Secret, DecodeError>(DecodeError::Malformed),
            },
    {
        match crypto_secret_from_hex(s) {
            Ok(bytes) => Ok(Secret { bytes }),
            Err(_) => Err(DecodeError::Malformed),
        }
    }
}

impl DiskEntity for Secret {
    const FILENAME: &'static str = "key";

    const DESCRIPTION: &'static str = "key file";

    open spec fn repr_of(&self) -> Seq<char> {
        lower_hex(self@)
    }

    open spec fn parse_repr(s: Seq<char>) -> Option<Secret> {
        match parse_hex32(s) {
            Some(b) => Some(choose|k: Secret| k@ == b),
            None => None,
        }
    }

    fn to_repr(&self) -> (r: String) {
        self.to_hex()
    }

    fn from_repr(s: &str) -> (r: Result<Secret, DecodeError>) {
        let r = Secret::from_hex(s);
        proof {
            if r is Ok {
                let k = r->Ok_0;
                let b = parse_hex32(s@)->Some_0;
                assert(exists|c: Secret| c@ == b) by {
                    assert(k@ == b);
                }
                let c = choose|c: Secret| c@ == b;
                assert(c.bytes =~= k.bytes);
            }
        }
        r
    }

    proof fn lemma_repr_round_trip(&self) {
        crate::hex::lemma_parse_lower_hex(self@);
        let b = self@;
        assert(exists|k: Secret| k@ == b);
        let c = choose|k: Secret| k@ == b;
        assert(c.bytes =~= self.bytes);
    }
}

} // verus!
