//! From an address to the script that pays to it.
//!
//! A legacy address is base58 text. Decoded, its first byte tells its
//! version and the 20 bytes that follow are the hash of a public key or of a
//! script. The script that pays to the address is assembled around that hash.
//!
//! Each `1` that the text begins with stands for a zero byte. They are
//! counted here, and the digits after them are decoded by the crate `base58`.

use crate::error::ChainhookError;
use vstd::prelude::*;
use vstd::slice::slice_subrange;
use vstd::slice::slice_to_vec;
use vstd::std_specs::iter::IteratorSpec;

verus! {

/// Makes `base58::FromBase58Error` known as a type. Nothing is said of its
/// values.
#[verifier::external_type_specification]
#[verifier::external_body]
pub struct ExFromBase58Error(base58::FromBase58Error);

/// Makes the script builder of `bitcoincore_rpc::bitcoin` known as a type.
/// What a builder has gathered is `script_bytes`.
#[verifier::external_type_specification]
#[verifier::external_body]
pub struct ExScriptBuilder(bitcoincore_rpc::bitcoin::blockdata::script::Builder);

/// The opcode that duplicates the top of the stack.
pub const OP_DUP: u8 = 0x76;

/// The opcode that replaces the top of the stack by its 160-bit hash.
pub const OP_HASH160: u8 = 0xa9;

/// The opcode that compares the two top items.
pub const OP_EQUAL: u8 = 0x87;

/// `OP_EQUAL`, failing the script where the items differ.
pub const OP_EQUALVERIFY: u8 = 0x88;

/// The opcode that checks a signature against a public key.
pub const OP_CHECKSIG: u8 = 0xac;

/// The length of the hash in an address.
pub const HASH_LENGTH: usize = 20;

/// What `base58::FromBase58::from_base58` gives for a text that does not
/// begin with `1`: the decoded bytes, or nothing where it reports an error.
pub uninterp spec fn base58_decoding(text: Seq<char>) -> Option<Seq<u8>>;

/// The bytes of the script that a
/// `bitcoincore_rpc::bitcoin::blockdata::script::Builder` has gathered.
pub uninterp spec fn script_bytes(
    builder: bitcoincore_rpc::bitcoin::blockdata::script::Builder,
) -> Seq<u8>;

/// Calls `from_base58` of the crate `base58` on `text`. The result is
/// `base58_decoding(text)`, with the crate's error in place of `None`.
///
/// At its end the crate subtracts the count of leading `1`s from a count of
/// zero bytes, which can fall below zero where the text begins with `1`;
/// such a text is left out. On any other text it subtracts nothing.
#[verifier::external_body]
fn decode_base58(text: &str) -> (decoded: Result<Vec<u8>, base58::FromBase58Error>)
    requires
        !begins_with_one(text@),
    ensures
        match decoded {
            Ok(bytes) => base58_decoding(text@) == Some(bytes@),
            Err(_) => base58_decoding(text@) is None,
        },
{
    base58::FromBase58::from_base58(text)
}

/// `Builder::new`: a builder that has gathered nothing.
#[verifier::external_body]
fn script_builder() -> (builder: bitcoincore_rpc::bitcoin::blockdata::script::Builder)
    ensures
        script_bytes(builder) == Seq::<u8>::empty(),
{
    bitcoincore_rpc::bitcoin::blockdata::script::Builder::new()
}

/// `Builder::push_opcode` with the opcode whose byte is `code`: the byte is
/// appended.
#[verifier::external_body]
fn push_opcode(
    builder: bitcoincore_rpc::bitcoin::blockdata::script::Builder,
    code: u8,
) -> (extended: bitcoincore_rpc::bitcoin::blockdata::script::Builder)
    ensures
        script_bytes(extended) == script_bytes(builder).push(code),
{
    builder.push_opcode(bitcoincore_rpc::bitcoin::blockdata::opcodes::All::from(code))
}

/// `Builder::push_slice` for data of fewer than 76 bytes: the length is
/// appended as one byte, then the data.
#[verifier::external_body]
fn push_slice(
    builder: bitcoincore_rpc::bitcoin::blockdata::script::Builder,
    data: &[u8],
) -> (extended: bitcoincore_rpc::bitcoin::blockdata::script::Builder)
    requires
        data@.len() < 76,
    ensures
        script_bytes(extended) == script_bytes(builder).push(data@.len() as u8) + data@,
{
    builder.push_slice(data)
}

/// `Builder::into_script`, then `Script::into_bytes`: the bytes gathered.
#[verifier::external_body]
fn into_script_bytes(builder: bitcoincore_rpc::bitcoin::blockdata::script::Builder) -> (bytes: Vec<
    u8,
>)
    ensures
        bytes@ == script_bytes(builder),
{
    builder.into_script().into_bytes()
}

/// The script that pays to the public key with hash `hash`.
pub open spec fn p2pkh_script(hash: Seq<u8>) -> Seq<u8> {
    seq![OP_DUP, OP_HASH160, HASH_LENGTH as u8] + hash + seq![OP_EQUALVERIFY, OP_CHECKSIG]
}

/// The script that pays to the script with hash `hash`.
pub open spec fn p2sh_script(hash: Seq<u8>) -> Seq<u8> {
    seq![OP_HASH160, HASH_LENGTH as u8] + hash + seq![OP_EQUAL]
}

/// The hash in the decoded bytes of an address: the 20 bytes after the
/// first. There is none in fewer than 21 bytes.
pub open spec fn hash_of_decoded(decoded: Seq<u8>) -> Option<Seq<u8>> {
    if decoded.len() >= 1 + HASH_LENGTH {
        Some(decoded.subrange(1, 1 + HASH_LENGTH as int))
    } else {
        None
    }
}

/// Whether `text` begins with the digit `1`, which stands for a zero byte.
pub open spec fn begins_with_one(text: Seq<char>) -> bool {
    text.len() > 0 && text[0] == '1'
}

/// The number of `1`s that `text` begins with.
pub open spec fn leading_ones(text: Seq<char>) -> nat
    decreases text.len(),
{
    if begins_with_one(text) {
        1 + leading_ones(text.drop_first())
    } else {
        0
    }
}

/// `count` zero bytes.
pub open spec fn zero_bytes(count: nat) -> Seq<u8> {
    Seq::new(count, |i: int| 0u8)
}

/// The bytes that the base58 text `address` stands for: a zero byte for each
/// `1` that it begins with, then what the rest decodes to. There are none
/// where the rest cannot be decoded.
pub open spec fn address_bytes(address: Seq<char>) -> Option<Seq<u8>> {
    let ones = leading_ones(address);
    match base58_decoding(address.skip(ones as int)) {
        Some(digits) => Some(zero_bytes(ones) + digits),
        None => None,
    }
}

/// The hash in `address`, if `address` is base58 text that stands for at
/// least 21 bytes.
pub open spec fn address_hash(address: Seq<char>) -> Option<Seq<u8>> {
    match address_bytes(address) {
        Some(decoded) => hash_of_decoded(decoded),
        None => None,
    }
}

/// Assembles the script `OP_DUP OP_HASH160 <hash> OP_EQUALVERIFY
/// OP_CHECKSIG`.
pub fn build_p2pkh_script(hash: &[u8]) -> (script: Vec<u8>)
    requires
        hash@.len() == HASH_LENGTH,
    ensures
        script@ == p2pkh_script(hash@),
{
    let builder = script_builder();
    let builder = push_opcode(builder, OP_DUP);
    let builder = push_opcode(builder, OP_HASH160);
    let builder = push_slice(builder, hash);
    let builder = push_opcode(builder, OP_EQUALVERIFY);
    let builder = push_opcode(builder, OP_CHECKSIG);
    let script = into_script_bytes(builder);
    script
}

/// Assembles the script `OP_HASH160 <hash> OP_EQUAL`.
pub fn build_p2sh_script(hash: &[u8]) -> (script: Vec<u8>)
    requires
        hash@.len() == HASH_LENGTH,
    ensures
        script@ == p2sh_script(hash@),
{
    let builder = script_builder();
    let builder = push_opcode(builder, OP_HASH160);
    let builder = push_slice(builder, hash);
    let builder = push_opcode(builder, OP_EQUAL);
    let script = into_script_bytes(builder);
    script
}

/// Takes the hash out of the decoded bytes of an address.
pub fn extract_hash(decoded: &[u8]) -> (hash: Result<&[u8], ChainhookError>)
    ensures
        match hash {
            Ok(bytes) => hash_of_decoded(decoded@) == Some(bytes@),
            Err(error) => error == ChainhookError::InvalidAddressEncoding && hash_of_decoded(
                decoded@,
            ) is None,
        },
{
    if decoded.len() >= 1 + HASH_LENGTH {
        Ok(slice_subrange(decoded, 1, 1 + HASH_LENGTH))
    } else {
        Err(ChainhookError::InvalidAddressEncoding)
    }
}

/// The `1`s that a text begins with lie within the text, and what follows
/// them does not begin with `1`.
pub proof fn lemma_leading_ones_end(text: Seq<char>)
    ensures
        leading_ones(text) <= text.len(),
        !begins_with_one(text.skip(leading_ones(text) as int)),
    decreases text.len(),
{
    if begins_with_one(text) {
        lemma_leading_ones_end(text.drop_first());
        assert(text.drop_first().skip(leading_ones(text.drop_first()) as int) =~= text.skip(
            leading_ones(text) as int,
        ));
    } else {
        assert(text.skip(0) =~= text);
    }
}

/// Counts the `1`s that `text` begins with.
pub fn count_leading_ones(text: &str) -> (ones: usize)
    ensures
        ones == leading_ones(text@),
{
    broadcast use vstd::string::group_string_axioms;

    let length = text.unicode_len();
    let mut chars = text.chars();
    let mut ones: usize = 0;
    loop
        invariant
            ones + chars.remaining().len() == length,
            length == text@.len(),
            chars.remaining() == text@.skip(ones as int),
            leading_ones(text@) == ones + leading_ones(chars.remaining()),
        decreases length - ones,
    {
        match chars.next() {
            Some(digit) => {
                if digit != '1' {
                    return ones;
                }
                ones += 1;
            },
            None => {
                return ones;
            },
        }
    }
}

/// Decodes the base58 text `address`.
pub fn decode_address(address: &str) -> (decoded: Result<Vec<u8>, ChainhookError>)
    ensures
        match decoded {
            Ok(bytes) => address_bytes(address@) == Some(bytes@),
            Err(error) => error == ChainhookError::InvalidAddressEncoding && address_bytes(
                address@,
            ) is None,
        },
{
    let ones = count_leading_ones(address);
    proof {
        lemma_leading_ones_end(address@);
    }
    let rest = address.substring_char(ones, address.unicode_len());
    match decode_base58(rest) {
        Ok(digits) => {
            let mut bytes: Vec<u8> = Vec::new();
            let mut i: usize = 0;
            while i < ones
                invariant
                    i <= ones,
                    bytes@ == zero_bytes(i as nat),
                decreases ones - i,
            {
                bytes.push(0u8);
                i += 1;
            }
            let mut digits = digits;
            bytes.append(&mut digits);
            Ok(bytes)
        },
        Err(_) => Err(ChainhookError::InvalidAddressEncoding),
    }
}

/// Decodes `address` and takes the hash out of it.
pub fn decode_address_hash(address: &str) -> (hash: Result<Vec<u8>, ChainhookError>)
    ensures
        match hash {
            Ok(bytes) => address_hash(address@) == Some(bytes@),
            Err(error) => error == ChainhookError::InvalidAddressEncoding && address_hash(
                address@,
            ) is None,
        },
{
    match decode_address(address) {
        Ok(decoded) => match extract_hash(decoded.as_slice()) {
            Ok(bytes) => Ok(slice_to_vec(bytes)),
            Err(error) => Err(error),
        },
        Err(error) => Err(error),
    }
}

} // verus!
