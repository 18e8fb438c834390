//! The contract ABI: values as they cross the call boundary, and the two
//! calls into the codec that turn them into bytes and back.

use vstd::prelude::*;
use vstd::utf8::{decode_utf8, valid_utf8};
use ethabi::ethereum_types::{H160, U256};
use ethabi::{ParamType, Token};
use crate::bytes::zeros;
use crate::lifecycle::Revert;
use crate::records::Address;

verus! {

/// `2^64`.
pub const LIMB: u128 = 0x1_0000_0000_0000_0000;

/// A 256-bit word as four 64-bit limbs, the least significant first.
#[derive(Clone, Copy, Debug, PartialEq, Eq)]
pub struct Word {
    pub w0: u64,
    pub w1: u64,
    pub w2: u64,
    pub w3: u64,
}

impl View for Word {
    type V = nat;

    /// The number that the word stands for.
    open spec fn view(&self) -> nat {
        (self.w0 + self.w1 * 0x1_0000_0000_0000_0000 + self.w2
            * 0x1_0000_0000_0000_0000_0000_0000_0000_0000 + self.w3
            * 0x1_0000_0000_0000_0000_0000_0000_0000_0000_0000_0000_0000_0000) as nat
    }
}

impl Word {
    /// The word with the limbs `limbs`, the least significant first.
    pub fn from_limbs(limbs: [u64; 4]) -> (w: Word)
        ensures
            w == (Word { w0: limbs@[0], w1: limbs@[1], w2: limbs@[2], w3: limbs@[3] }),
    {
        Word { w0: limbs[0], w1: limbs[1], w2: limbs[2], w3: limbs[3] }
    }

    /// The limbs of the word, the least significant first.
    pub fn limbs(&self) -> (r: [u64; 4])
        ensures
            r@ == seq![self.w0, self.w1, self.w2, self.w3],
    {
        let r = [self.w0, self.w1, self.w2, self.w3];
        assert(r@ =~= seq![self.w0, self.w1, self.w2, self.w3]);
        r
    }

    /// The word that stands for `v`.
    pub fn from_u64(v: u64) -> (w: Word)
        ensures
            w@ == v,
    {
        Word { w0: v, w1: 0, w2: 0, w3: 0 }
    }

    /// The number that the word stands for, where it has 64 bits.
    pub fn to_u64(&self) -> (r: Option<u64>)
        ensures
            r == if self@ <= u64::MAX {
                Some(self@ as u64)
            } else {
                None::<u64>
            },
    {
        if self.w1 == 0 && self.w2 == 0 && self.w3 == 0 {
            Some(self.w0)
        } else {
            None
        }
    }

    /// The two's complement of `v` in 256 bits.
    pub fn from_i64(v: i64) -> (w: Word)
        ensures
            w@ == twos_complement(v as int),
    {
        if v >= 0 {
            Word { w0: v as u64, w1: 0, w2: 0, w3: 0 }
        } else {
            let magnitude_less_one: u64 = (-(v + 1)) as u64;
            Word { w0: u64::MAX - magnitude_less_one, w1: u64::MAX, w2: u64::MAX, w3: u64::MAX }
        }
    }
}

/// `v` as an unsigned 256-bit number: itself, or `2^256 + v` where negative.
pub open spec fn twos_complement(v: int) -> nat {
    if v >= 0 {
        v as nat
    } else {
        (0x1_0000_0000_0000_0000_0000_0000_0000_0000_0000_0000_0000_0000_0000_0000_0000_0000 + v) as nat
    }
}

/// A value as a call takes or gives it.
#[derive(Clone, Debug, PartialEq, Eq)]
pub enum AbiValue {
    /// A 256-bit integer; a signed one stands in two's complement.
    Uint(Word),
    Address(Address),
    Bool(bool),
    Text(String),
    UintArray(Vec<Word>),
}

/// What an `AbiValue` stands for.
pub enum AbiTerm {
    Uint(nat),
    Address(Seq<u8>),
    Bool(bool),
    Text(Seq<char>),
    UintArray(Seq<nat>),
}

impl View for AbiValue {
    type V = AbiTerm;

    open spec fn view(&self) -> AbiTerm {
        match self {
            AbiValue::Uint(w) => AbiTerm::Uint(w@),
            AbiValue::Address(a) => AbiTerm::Address(a@),
            AbiValue::Bool(b) => AbiTerm::Bool(*b),
            AbiValue::Text(s) => AbiTerm::Text(s@),
            AbiValue::UintArray(ws) => AbiTerm::UintArray(ws@.map_values(|w: Word| w@)),
        }
    }
}

/// The kinds of value that a call can carry in.
#[derive(Clone, Copy, Debug, PartialEq, Eq, Structural)]
pub enum AbiKind {
    Uint,
    Address,
    Text,
}

/// What a list of values stands for.
pub open spec fn terms_of(values: Seq<AbiValue>) -> Seq<AbiTerm> {
    values.map_values(|v: AbiValue| v@)
}

/// The `len` big-endian bytes of `n`.
pub open spec fn be_bytes(n: nat, len: nat) -> Seq<u8>
    decreases len,
{
    if len == 0 {
        Seq::empty()
    } else {
        be_bytes(n / 256, (len - 1) as nat).push((n % 256) as u8)
    }
}

/// The number that big-endian bytes stand for.
pub open spec fn be_value(bytes: Seq<u8>) -> nat
    decreases bytes.len(),
{
    if bytes.len() == 0 {
        0
    } else {
        be_value(bytes.drop_last()) * 256 + bytes.last() as nat
    }
}

/// The value takes one word in place.
pub open spec fn is_static(t: AbiTerm) -> bool {
    t is Uint || t is Address || t is Bool
}

/// The word of a value that takes one: a number big-endian, an address
/// behind twelve zero bytes, a truth value as one or zero.
pub open spec fn static_word(t: AbiTerm) -> Seq<u8> {
    match t {
        AbiTerm::Uint(n) => be_bytes(n, 32),
        AbiTerm::Address(a) => zeros(12) + a,
        AbiTerm::Bool(b) => zeros(31) + seq![
            if b {
                1u8
            } else {
                0u8
            },
        ],
        _ => Seq::empty(),
    }
}

/// The words of a list of values that take one word each, one after another.
pub open spec fn static_encoding(terms: Seq<AbiTerm>) -> Seq<u8>
    decreases terms.len(),
{
    if terms.len() == 0 {
        Seq::empty()
    } else {
        static_encoding(terms.drop_last()) + static_word(terms.last())
    }
}

/// The value that a word holds for a kind that takes one word.
pub open spec fn word_term(kind: AbiKind, word: Seq<u8>) -> AbiTerm {
    match kind {
        AbiKind::Address => AbiTerm::Address(word.subrange(12, 32)),
        _ => AbiTerm::Uint(be_value(word)),
    }
}

/// What a list of kinds that take one word each reads from `data`: nothing
/// where `data` is shorter than the words, else each word in its place.
pub open spec fn static_decoding(kinds: Seq<AbiKind>, data: Seq<u8>) -> Option<Seq<AbiTerm>> {
    if data.len() < 32 * kinds.len() {
        None
    } else {
        Some(
            Seq::new(
                kinds.len(),
                |i: int| word_term(kinds[i], data.subrange(32 * i, 32 * i + 32)),
            ),
        )
    }
}

/// The ABI encoding of a list of values, as the codec produces it.
pub uninterp spec fn abi_encoding(terms: Seq<AbiTerm>) -> Seq<u8>;

/// What the codec reads from `data` for a list of kinds, and nothing where
/// it refuses `data`.
pub uninterp spec fn abi_decoding(kinds: Seq<AbiKind>, data: Seq<u8>) -> Option<Seq<AbiTerm>>;

/// What reading gave, as what it stands for.
pub open spec fn decoded_terms(r: Option<Vec<AbiValue>>) -> Option<Seq<AbiTerm>> {
    match r {
        Some(values) => Some(terms_of(values@)),
        None => None,
    }
}

/// `ethabi::encode` on the tokens that stand for `values`. The result is
/// the encoding of what the values stand for; of values that take one word
/// each it is those words, one after another.
#[verifier::external_body]
pub(crate) fn abi_encode(values: &Vec<AbiValue>) -> (r: Vec<u8>)
    ensures
        r@ == abi_encoding(terms_of(values@)),
        (forall|i: int| 0 <= i < values@.len() ==> is_static(#[trigger] values@[i]@)) ==> r@
            == static_encoding(terms_of(values@)),
{
    let word = |w: &Word| Token::Uint(U256(w.limbs()));
    let tokens: Vec<Token> = values.iter().map(|v| match v {
        AbiValue::Uint(w) => word(w),
        AbiValue::Address(a) => Token::Address(H160(*a)),
        AbiValue::Bool(b) => Token::Bool(*b),
        AbiValue::Text(s) => Token::String(s.clone()),
        AbiValue::UintArray(ws) => Token::Array(ws.iter().map(word).collect()),
    }).collect();
    ethabi::encode(&tokens)
}

/// `ethabi::decode` for the parameter types that stand for `kinds`. The
/// result is what the codec reads, nothing where it fails; for kinds that
/// take one word each it is the words of `data` in their places, nothing
/// where `data` is too short.
#[verifier::external_body]
pub(crate) fn abi_decode(kinds: &Vec<AbiKind>, data: &[u8]) -> (r: Option<Vec<AbiValue>>)
    ensures
        decoded_terms(r) == abi_decoding(kinds@, data@),
        (forall|i: int| 0 <= i < kinds@.len() ==> #[trigger] kinds@[i] != AbiKind::Text)
            ==> decoded_terms(r) == static_decoding(kinds@, data@),
        r matches Some(values) ==> values@.len() == kinds@.len(),
{
    let types: Vec<ParamType> = kinds.iter().map(|k| match k {
        AbiKind::Uint => ParamType::Uint(64),
        AbiKind::Address => ParamType::Address,
        AbiKind::Text => ParamType::String,
    }).collect();
    ethabi::decode(&types, data).ok()?.into_iter().map(|t| match t {
        Token::Uint(u) => Some(AbiValue::Uint(Word::from_limbs(u.0))),
        Token::Address(a) => Some(AbiValue::Address(a.0)),
        Token::String(s) => Some(AbiValue::Text(s)),
        _ => None,
    }).collect()
}

/// The text that `bytes` hold in UTF-8, and the empty text where they hold
/// none.
pub open spec fn text_of(bytes: Seq<u8>) -> Seq<char> {
    if valid_utf8(bytes) {
        decode_utf8(bytes)
    } else {
        Seq::empty()
    }
}

/// `core::str::from_utf8`: the text that `bytes` hold where they are valid
/// UTF-8, and nothing where they are not.
#[verifier::external_body]
pub(crate) fn utf8_text(bytes: &[u8]) -> (r: Option<String>)
    ensures
        r matches Some(s) ==> valid_utf8(bytes@) && s@ == decode_utf8(bytes@),
        r is None ==> !valid_utf8(bytes@),
{
    core::str::from_utf8(bytes).ok().map(|s| s.to_owned())
}

/// The value that stands for the number `v`.
pub fn unsigned(v: u64) -> (r: AbiValue)
    ensures
        r@ == AbiTerm::Uint(v as nat),
{
    AbiValue::Uint(Word::from_u64(v))
}

/// The value that stands for the signed number `v`, in two's complement.
pub fn signed(v: i64) -> (r: AbiValue)
    ensures
        r@ == AbiTerm::Uint(twos_complement(v as int)),
{
    AbiValue::Uint(Word::from_i64(v))
}

/// The value that stands for the text that `bytes` hold; bytes that are
/// no UTF-8 stand for the empty text.
pub fn text(bytes: &[u8]) -> (r: AbiValue)
    ensures
        r@ == AbiTerm::Text(text_of(bytes@)),
{
    match utf8_text(bytes) {
        Some(s) => AbiValue::Text(s),
        None => AbiValue::Text(String::new()),
    }
}

/// The four bytes that open every refusal.
pub open spec fn revert_prefix() -> Seq<u8> {
    seq![0x08u8, 0xc3, 0x79, 0xa0]
}

/// The answer that refuses a call: the prefix, then the reason as an
/// encoded text.
pub open spec fn revert_bytes(message: Seq<char>) -> Seq<u8> {
    revert_prefix() + abi_encoding(seq![AbiTerm::Text(message)])
}

/// The answer that refuses a call for the reason `message`.
pub fn encode_revert(message: &str) -> (r: Vec<u8>)
    ensures
        r@ == revert_bytes(message@),
        r@.len() >= 4,
{
    let mut values: Vec<AbiValue> = Vec::new();
    values.push(AbiValue::Text(message.to_owned()));
    assert(terms_of(values@) =~= seq![AbiTerm::Text(message@)]);
    let body = abi_encode(&values);
    let mut result: Vec<u8> = vec![0x08u8, 0xc3, 0x79, 0xa0];
    crate::bytes::append_bytes(&mut result, body.as_slice());
    assert(result@ =~= revert_bytes(message@));
    result
}

/// The answer that refuses a call for `reason`.
pub fn encode_refusal(reason: &Revert) -> (r: Vec<u8>)
    ensures
        r@ == revert_bytes(reason.reason_text()),
{
    encode_revert(reason.reason())
}

/// The terms that stand for a list of numbers.
pub open spec fn uint_terms(values: Seq<u64>) -> Seq<AbiTerm> {
    values.map_values(|v: u64| AbiTerm::Uint(v as nat))
}

/// The answer that carries `values`: one big-endian word for each.
pub fn encode_uints(values: &Vec<u64>) -> (r: Vec<u8>)
    ensures
        r@ == static_encoding(uint_terms(values@)),
        r@ == abi_encoding(uint_terms(values@)),
{
    let mut tokens: Vec<AbiValue> = Vec::new();
    let mut i: usize = 0;
    while i < values.len()
        invariant
            i <= values@.len(),
            tokens@.len() == i,
            forall|j: int| 0 <= j < i ==> #[trigger] tokens@[j]@ == AbiTerm::Uint(values@[j] as nat),
        decreases values@.len() - i,
    {
        tokens.push(AbiValue::Uint(Word::from_u64(values[i])));
        i += 1;
    }
    assert(terms_of(tokens@) =~= uint_terms(values@));
    abi_encode(&tokens)
}

/// The answer that carries one truth value.
pub fn encode_bool(value: bool) -> (r: Vec<u8>)
    ensures
        r@ == static_encoding(seq![AbiTerm::Bool(value)]),
        r@ == abi_encoding(seq![AbiTerm::Bool(value)]),
{
    let mut tokens: Vec<AbiValue> = Vec::new();
    tokens.push(AbiValue::Bool(value));
    assert(terms_of(tokens@) =~= seq![AbiTerm::Bool(value)]);
    abi_encode(&tokens)
}

/// The answer that carries any list of values.
pub fn encode_values(values: &Vec<AbiValue>) -> (r: Vec<u8>)
    ensures
        r@ == abi_encoding(terms_of(values@)),
        (forall|i: int| 0 <= i < values@.len() ==> is_static(#[trigger] values@[i]@)) ==> r@
            == static_encoding(terms_of(values@)),
{
    abi_encode(values)
}

/// What `count` numbers read from `data`: the numbers that its first
/// `count` words stand for, where there are that many words and each
/// stands for a number of 64 bits.
pub open spec fn decode_uints_spec(data: Seq<u8>, count: nat) -> Result<Seq<u64>, Revert> {
    if data.len() < 32 * count || exists|i: int|
        0 <= i < count && be_value(#[trigger] data.subrange(32 * i, 32 * i + 32)) > u64::MAX {
        Err(Revert::InvalidParameters)
    } else {
        Ok(Seq::new(count, |i: int| be_value(data.subrange(32 * i, 32 * i + 32)) as u64))
    }
}

/// Reads `count` numbers of 64 bits from the words of `data`.
pub fn decode_uints(data: &[u8], count: usize) -> (r: Result<Vec<u64>, Revert>)
    ensures
        r matches Ok(v) ==> decode_uints_spec(data@, count as nat) == Ok::<Seq<u64>, Revert>(v@),
        r matches Err(e) ==> decode_uints_spec(data@, count as nat) == Err::<
            Seq<u64>,
            Revert,
        >(e),
{
    let mut kinds: Vec<AbiKind> = Vec::new();
    let mut k: usize = 0;
    while k < count
        invariant
            k <= count,
            kinds@.len() == k,
            forall|j: int| 0 <= j < k ==> #[trigger] kinds@[j] == AbiKind::Uint,
        decreases count - k,
    {
        kinds.push(AbiKind::Uint);
        k += 1;
    }
    let values = match abi_decode(&kinds, data) {
        Some(v) => v,
        None => {
            return Err(Revert::InvalidParameters);
        },
    };
    let ghost terms = static_decoding(kinds@, data@)->Some_0;
    assert(terms_of(values@) == terms);
    let mut out: Vec<u64> = Vec::new();
    let mut i: usize = 0;
    while i < count
        invariant
            i <= count,
            values@.len() == count,
            kinds@.len() == count,
            data@.len() >= 32 * count,
            terms_of(values@) == terms,
            terms == static_decoding(kinds@, data@)->Some_0,
            forall|j: int| 0 <= j < count ==> #[trigger] kinds@[j] == AbiKind::Uint,
            out@.len() == i,
            forall|j: int|
                0 <= j < i ==> be_value(#[trigger] data@.subrange(32 * j, 32 * j + 32))
                    == out@[j],
        decreases count - i,
    {
        assert(terms_of(values@)[i as int] == values@[i as int]@);
        assert(terms[i as int] == word_term(
            kinds@[i as int],
            data@.subrange(32 * i, 32 * i + 32),
        ));
        let v = match &values[i] {
            AbiValue::Uint(w) => match w.to_u64() {
                Some(v) => v,
                None => {
                    return Err(Revert::InvalidParameters);
                },
            },
            _ => {
                return Err(Revert::InvalidParameters);
            },
        };
        out.push(v);
        i += 1;
    }
    assert(out@ =~= Seq::new(
        count as nat,
        |i: int| be_value(data@.subrange(32 * i, 32 * i + 32)) as u64,
    ));
    Ok(out)
}

} // verus!
