//! Textual account addresses and transaction signatures.
//!
//! Both are written in base 58 over the Bitcoin alphabet. An address stands
//! for 32 bytes and a signature for 64.

use std::str::FromStr;
use vstd::prelude::*;

use crate::error::{AddressRole, GatewayError};

verus! {

/// Number of bytes in an account address.
pub const ADDRESS_BYTES: usize = 32;

/// Number of bytes in a transaction signature.
pub const SIGNATURE_BYTES: usize = 64;

/// Largest number of base-58 digits that 32 bytes are written with.
pub const MAX_ADDRESS_DIGITS: usize = 44;

/// Largest number of base-58 digits that 64 bytes are written with.
pub const MAX_SIGNATURE_DIGITS: usize = 88;

/// An account on the ledger, identified by 32 bytes.
#[derive(Clone, Copy, Debug, PartialEq, Eq)]
pub struct AccountAddress {
    pub bytes: [u8; 32],
}

/// One submitted transaction, identified by the 64 bytes of its signature.
#[derive(Clone, Copy, Debug, PartialEq, Eq)]
pub struct TransactionSignature {
    pub bytes: [u8; 64],
}

impl View for AccountAddress {
    type V = Seq<u8>;

    open spec fn view(&self) -> Seq<u8> {
        self.bytes@
    }
}

impl View for TransactionSignature {
    type V = Seq<u8>;

    open spec fn view(&self) -> Seq<u8> {
        self.bytes@
    }
}

/// The digits of base 58: the decimal digits but `0`, and the letters but
/// `I`, `O` and `l`.
pub open spec fn is_base58_digit(c: char) -> bool {
    ||| '1' <= c <= '9'
    ||| 'A' <= c <= 'H'
    ||| 'J' <= c <= 'N'
    ||| 'P' <= c <= 'Z'
    ||| 'a' <= c <= 'k'
    ||| 'm' <= c <= 'z'
}

/// A text of `least` to `most` base-58 digits.
pub open spec fn is_base58_text(text: Seq<char>, least: int, most: int) -> bool {
    &&& least <= text.len() <= most
    &&& forall|i: int| 0 <= i < text.len() ==> is_base58_digit(#[trigger] text[i])
}

/// The shape of every text that stands for 32 bytes: a digit carries less
/// than a byte, so 32 bytes take at least 32 digits, and they take at most
/// 44.
pub open spec fn has_address_shape(text: Seq<char>) -> bool {
    is_base58_text(text, ADDRESS_BYTES as int, MAX_ADDRESS_DIGITS as int)
}

/// The shape of every text that stands for 64 bytes: at least 64 digits and
/// at most 88.
pub open spec fn has_signature_shape(text: Seq<char>) -> bool {
    is_base58_text(text, SIGNATURE_BYTES as int, MAX_SIGNATURE_DIGITS as int)
}

/// The bytes that `solana_sdk::pubkey::Pubkey::from_str` reads from a text,
/// or `None` where it reports an error.
pub uninterp spec fn decoded_address(text: Seq<char>) -> Option<Seq<u8>>;

/// The bytes that `solana_sdk::signature::Signature::from_str` reads from a
/// text, or `None` where it reports an error.
pub uninterp spec fn decoded_signature(text: Seq<char>) -> Option<Seq<u8>>;

/// The address that a text stands for, if it stands for one.
pub open spec fn parsed_address(text: Seq<char>) -> Option<Seq<u8>> {
    if has_address_shape(text) {
        decoded_address(text)
    } else {
        None
    }
}

/// The signature that a text stands for, if it stands for one.
pub open spec fn parsed_signature(text: Seq<char>) -> Option<Seq<u8>> {
    if has_signature_shape(text) {
        decoded_signature(text)
    } else {
        None
    }
}

/// Calls `solana_sdk::pubkey::Pubkey::from_str`, which decodes base 58 and
/// accepts exactly the texts that decode to 32 bytes. The contract only
/// names the outcome: the same text always gives the same bytes or the same
/// refusal.
#[verifier::external_body]
fn pubkey_from_str(text: &str) -> (bytes: Option<[u8; 32]>)
    ensures
        match bytes {
            Some(b) => decoded_address(text@) == Some(b@),
            None => decoded_address(text@) is None,
        },
{
    match solana_sdk::pubkey::Pubkey::from_str(text) {
        Ok(key) => Some(key.to_bytes()),
        Err(_) => None,
    }
}

/// Calls `solana_sdk::signature::Signature::from_str`, which decodes base 58
/// and accepts exactly the texts that decode to 64 bytes. The contract only
/// names the outcome.
#[verifier::external_body]
fn signature_from_str(text: &str) -> (bytes: Option<[u8; 64]>)
    ensures
        match bytes {
            Some(b) => decoded_signature(text@) == Some(b@),
            None => decoded_signature(text@) is None,
        },
{
    match solana_sdk::signature::Signature::from_str(text) {
        Ok(signature) => Some(signature.into()),
        Err(_) => None,
    }
}

/// Whether `c` is a digit of base 58.
pub fn base58_digit(c: char) -> (r: bool)
    ensures
        r == is_base58_digit(c),
{
    ('1' <= c && c <= '9') || ('A' <= c && c <= 'H') || ('J' <= c && c <= 'N') || ('P' <= c && c
        <= 'Z') || ('a' <= c && c <= 'k') || ('m' <= c && c <= 'z')
}

/// Whether `text` consists of `least` to `most` base-58 digits.
pub fn base58_text(text: &str, least: usize, most: usize) -> (r: bool)
    ensures
        r == is_base58_text(text@, least as int, most as int),
{
    let n = text.unicode_len();
    if n < least || n > most {
        return false;
    }
    let mut i: usize = 0;
    while i < n
        invariant
            n == text@.len(),
            i <= n,
            forall|k: int| 0 <= k < i ==> is_base58_digit(#[trigger] text@[k]),
        decreases n - i,
    {
        if !base58_digit(text.get_char(i)) {
            return false;
        }
        i += 1;
    }
    true
}

impl AccountAddress {
    /// The address that an outcome of decoding stands for: the bytes that
    /// were decoded, or a refusal in the given role where there are none.
    pub fn from_decoded(decoded: Option<[u8; 32]>, role: AddressRole) -> (r: Result<
        Self,
        GatewayError,
    >)
        ensures
            match decoded {
                Some(bytes) => r == Ok::<Self, GatewayError>((AccountAddress { bytes })),
                None => r == Err::<Self, GatewayError>(GatewayError::InvalidAddress(role)),
            },
    {
        match decoded {
            Some(bytes) => Ok(AccountAddress { bytes }),
            None => Err(GatewayError::InvalidAddress(role)),
        }
    }

    /// Reads an address from its base-58 text. A text that has not the shape
    /// of an address, or that does not decode to 32 bytes, is refused with
    /// `InvalidAddress(role)`.
    pub fn parse(input: &str, role: AddressRole) -> (r: Result<Self, GatewayError>)
        ensures
            match r {
                Ok(address) => parsed_address(input@) == Some(address@),
                Err(e) => parsed_address(input@) is None && e == GatewayError::InvalidAddress(
                    role,
                ),
            },
            r matches Ok(address) ==> address@.len() == ADDRESS_BYTES,
            !has_address_shape(input@) ==> r is Err,
    {
        if !base58_text(input, ADDRESS_BYTES, MAX_ADDRESS_DIGITS) {
            return Err(GatewayError::InvalidAddress(role));
        }
        AccountAddress::from_decoded(pubkey_from_str(input), role)
    }
}

impl TransactionSignature {
    /// The signature that an outcome of decoding stands for: the bytes that
    /// were decoded, or a refusal where there are none.
    pub fn from_decoded(decoded: Option<[u8; 64]>) -> (r: Result<Self, GatewayError>)
        ensures
            match decoded {
                Some(bytes) => r == Ok::<Self, GatewayError>((TransactionSignature { bytes })),
                None => r == Err::<Self, GatewayError>(GatewayError::InvalidSignature),
            },
    {
        match decoded {
            Some(bytes) => Ok(TransactionSignature { bytes }),
            None => Err(GatewayError::InvalidSignature),
        }
    }

    /// Reads a signature from its base-58 text. A text that has not the
    /// shape of a signature, or that does not decode to 64 bytes, is refused
    /// with `InvalidSignature`.
    pub fn parse(input: &str) -> (r: Result<Self, GatewayError>)
        ensures
            match r {
                Ok(signature) => parsed_signature(input@) == Some(signature@),
                Err(e) => parsed_signature(input@) is None && e == GatewayError::InvalidSignature,
            },
            r matches Ok(signature) ==> signature@.len() == SIGNATURE_BYTES,
            !has_signature_shape(input@) ==> r is Err,
    {
        if !base58_text(input, SIGNATURE_BYTES, MAX_SIGNATURE_DIGITS) {
            return Err(GatewayError::InvalidSignature);
        }
        TransactionSignature::from_decoded(signature_from_str(input))
    }
}

} // verus!
