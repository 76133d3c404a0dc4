//! Reading the token id argument of an application call, ABI-encoded as one `uint256`.
use vstd::prelude::*;

verus! {

#[verifier::external_type_specification]
#[verifier::external_body]
pub struct ExAbiError(ethers_core::abi::Error);

/// Big-endian value of a byte sequence.
pub open spec fn be_value(bytes: Seq<u8>) -> nat
    decreases bytes.len(),
{
    if bytes.len() == 0 {
        0
    } else {
        be_value(bytes.drop_last()) * 256 + bytes.last() as nat
    }
}

/// `256` to the power `n`.
pub open spec fn pow256(n: nat) -> nat
    decreases n,
{
    if n == 0 {
        1
    } else {
        256 * pow256((n - 1) as nat)
    }
}

/// Calls `ethers_core::abi::decode` with the single parameter type
/// `uint256`. The decoder reads the first 32-byte word of `data` as a
/// big-endian number and ignores what follows; it fails on fewer than 32
/// bytes. The word is handed back as its 32 big-endian bytes, through
/// `U256::to_big_endian`.
#[verifier::external_body]
fn abi_decode_uint256(data: &[u8]) -> (r: Result<Option<Vec<u8>>, ethers_core::abi::Error>)
    ensures
        r is Ok <==> data@.len() >= 32,
        r matches Ok(w) ==> (w matches Some(word) && word@ == data@.subrange(0, 32)),
{
    let tokens = ethers_core::abi::decode(&[ethers_core::abi::ParamType::Uint(256)], data)?;
    match tokens.first() {
        Some(ethers_core::abi::Token::Uint(v)) => {
            let mut word = [0u8; 32];
            v.to_big_endian(&mut word);
            Ok(Some(word.to_vec()))
        },
        _ => Ok(None),
    }
}

/// Why the arguments of a purchase call could not be read.
#[derive(Debug, Clone, Copy, PartialEq, Eq)]
pub enum ArgsError {
    /// The ABI decoder refused the bytes (fewer than one 32-byte word).
    AbiDecode,
    /// The decoded value is not an unsigned integer.
    NotUint,
}

/// The token id argument fits in 128 bits: where it is present, the high
/// half of its word is zero.
pub open spec fn token_id_fits(args: Seq<u8>) -> bool {
    args.len() >= 32 ==> forall|i: int| 0 <= i < 16 ==> args[i] == 0
}

proof fn lemma_be_value_leading_zeros(bytes: Seq<u8>, zeros: int)
    requires
        0 <= zeros <= bytes.len(),
        forall|i: int| 0 <= i < zeros ==> bytes[i] == 0,
    ensures
        be_value(bytes) == be_value(bytes.subrange(zeros, bytes.len() as int)),
    decreases bytes.len(),
{
    if bytes.len() == zeros {
        assert(bytes.subrange(zeros, bytes.len() as int) =~= Seq::<u8>::empty());
        if bytes.len() > 0 {
            lemma_be_value_leading_zeros(bytes.drop_last(), zeros - 1);
            assert(bytes.drop_last().subrange(zeros - 1, bytes.len() - 1) =~= Seq::<u8>::empty());
        }
    } else {
        let tail = bytes.subrange(zeros, bytes.len() as int);
        lemma_be_value_leading_zeros(bytes.drop_last(), zeros);
        assert(bytes.drop_last().subrange(zeros, bytes.len() - 1) =~= tail.drop_last());
    }
}

/// The value of a 32-byte big-endian word whose high half is zero.
fn word_as_u128(word: &Vec<u8>) -> (r: u128)
    requires
        word@.len() == 32,
        forall|i: int| 0 <= i < 16 ==> word@[i] == 0,
    ensures
        r == be_value(word@),
{
    let mut acc: u128 = 0;
    let mut i: usize = 16;
    proof {
        reveal_with_fuel(pow256, 17);
        assert(word@.subrange(16, 16) =~= Seq::<u8>::empty());
    }
    while i < 32
        invariant
            16 <= i <= 32,
            word@.len() == 32,
            acc == be_value(word@.subrange(16, i as int)),
            acc < pow256((i - 16) as nat),
            pow256(16) == 0x1_0000_0000_0000_0000_0000_0000_0000_0000,
        decreases 32 - i,
    {
        let b = word[i];
        let ghost k = (i - 16) as nat;
        assert(pow256(k + 1) <= pow256(16)) by {
            lemma_pow256_monotone(k + 1, 16);
        }
        assert(acc * 256 + b < pow256(k) * 256) by (nonlinear_arith)
            requires
                acc < pow256(k),
                b < 256,
        ;
        assert(pow256(k + 1) == 256 * pow256(k));
        acc = acc * 256 + b as u128;
        assert(word@.subrange(16, i + 1).drop_last() =~= word@.subrange(16, i as int));
        i = i + 1;
    }
    proof {
        assert(word@.subrange(16, 32) =~= word@.subrange(16, word@.len() as int));
        lemma_be_value_leading_zeros(word@, 16);
    }
    acc
}

proof fn lemma_pow256_monotone(a: nat, b: nat)
    requires
        a <= b,
    ensures
        pow256(a) <= pow256(b),
    decreases b,
{
    if a < b {
        lemma_pow256_monotone(a, (b - 1) as nat);
    }
}

proof fn lemma_be_value_bound(bytes: Seq<u8>)
    ensures
        be_value(bytes) < pow256(bytes.len()),
    decreases bytes.len(),
{
    if bytes.len() > 0 {
        let rest = bytes.drop_last();
        lemma_be_value_bound(rest);
        let v = be_value(rest);
        let p = pow256(rest.len());
        let b = bytes.last();
        assert(v * 256 + b < p * 256) by (nonlinear_arith)
            requires
                v < p,
                b < 256,
        ;
    }
}

/// The token id argument, where it fits, is below 2^128: its value is a
/// `u128` exactly.
pub proof fn lemma_fitting_token_id(args: Seq<u8>)
    requires
        token_id_fits(args),
        args.len() >= 32,
    ensures
        be_value(args.subrange(0, 32)) < 0x1_0000_0000_0000_0000_0000_0000_0000_0000,
{
    let word = args.subrange(0, 32);
    lemma_be_value_leading_zeros(word, 16);
    lemma_be_value_bound(word.subrange(16, 32));
    reveal_with_fuel(pow256, 17);
}

/// Reads the token id of a purchase call: the first 32-byte word of the
/// arguments as a big-endian number.
pub fn decode_token_id(args: &[u8]) -> (r: Result<u128, ArgsError>)
    requires
        token_id_fits(args@),
    ensures
        args@.len() >= 32 ==> (r matches Ok(id) && id == be_value(args@.subrange(0, 32))),
        args@.len() < 32 ==> r == Err::<u128, ArgsError>(ArgsError::AbiDecode),
{
    match abi_decode_uint256(args) {
        Err(_) => Err(ArgsError::AbiDecode),
        Ok(None) => Err(ArgsError::NotUint),
        Ok(Some(word)) => {
            assert(forall|i: int| 0 <= i < 16 ==> word@[i] == args@[i]);
            Ok(word_as_u128(&word))
        },
    }
}

} // verus!
