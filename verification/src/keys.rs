//! Storage keys and the metadata record. Every namespace has a prefix and a
//! length of its own, so that no two kinds of key can meet.

use vstd::prelude::*;
use vstd::bytes::{lemma_auto_spec_u64_to_from_le_bytes, spec_u64_to_le_bytes};
use crate::bytes::{append_bytes, append_u64, byte_at, read_window, window};
use crate::records::Address;

verus! {

/// Longest value that the store takes.
pub const MAX_STORAGE_VALUE: usize = 512;

/// Longest text that a metadata record keeps, in bytes.
pub const MAX_TEXT_LEN: usize = 255;

/// `market_`
pub open spec fn market_prefix() -> Seq<u8> {
    seq![109u8, 97, 114, 107, 101, 116, 95]
}

/// `lp_`
pub open spec fn lp_prefix() -> Seq<u8> {
    seq![108u8, 112, 95]
}

/// `meta_`
pub open spec fn metadata_prefix() -> Seq<u8> {
    seq![109u8, 101, 116, 97, 95]
}

/// `pos_id_`
pub open spec fn position_prefix() -> Seq<u8> {
    seq![112u8, 111, 115, 95, 105, 100, 95]
}

/// `trader_pos_`
pub open spec fn trader_positions_prefix() -> Seq<u8> {
    seq![116u8, 114, 97, 100, 101, 114, 95, 112, 111, 115, 95]
}

/// `trader_cnt_`
pub open spec fn trader_count_prefix() -> Seq<u8> {
    seq![116u8, 114, 97, 100, 101, 114, 95, 99, 110, 116, 95]
}

/// `owner`
pub open spec fn owner_key_spec() -> Seq<u8> {
    seq![111u8, 119, 110, 101, 114]
}

/// `initialized`
pub open spec fn initialized_key_spec() -> Seq<u8> {
    seq![105u8, 110, 105, 116, 105, 97, 108, 105, 122, 101, 100]
}

/// `market_count`
pub open spec fn market_count_key_spec() -> Seq<u8> {
    seq![109u8, 97, 114, 107, 101, 116, 95, 99, 111, 117, 110, 116]
}

/// `position_count`
pub open spec fn position_count_key_spec() -> Seq<u8> {
    seq![112u8, 111, 115, 105, 116, 105, 111, 110, 95, 99, 111, 117, 110, 116]
}

/// `block_number`
pub open spec fn block_number_key_spec() -> Seq<u8> {
    seq![98u8, 108, 111, 99, 107, 95, 110, 117, 109, 98, 101, 114]
}

pub open spec fn market_key_spec(market_id: u64) -> Seq<u8> {
    market_prefix() + spec_u64_to_le_bytes(market_id)
}

pub open spec fn lp_balance_key_spec(market_id: u64, holder: Address) -> Seq<u8> {
    lp_prefix() + spec_u64_to_le_bytes(market_id) + holder@
}

pub open spec fn metadata_key_spec(market_id: u64) -> Seq<u8> {
    metadata_prefix() + spec_u64_to_le_bytes(market_id)
}

pub open spec fn position_key_spec(position_id: u64) -> Seq<u8> {
    position_prefix() + spec_u64_to_le_bytes(position_id)
}

pub open spec fn trader_positions_key_spec(trader: Address, index: u64) -> Seq<u8> {
    trader_positions_prefix() + trader@ + spec_u64_to_le_bytes(index)
}

pub open spec fn trader_position_count_key_spec(trader: Address) -> Seq<u8> {
    trader_count_prefix() + trader@
}

/// The array that holds exactly the bytes of `v`.
fn to_array<const N: usize>(v: &Vec<u8>) -> (r: [u8; N])
    requires
        v@.len() == N,
    ensures
        r@ == v@,
{
    let mut out = [0u8; N];
    let mut i: usize = 0;
    while i < N
        invariant
            i <= N,
            v@.len() == N,
            forall|j: int| 0 <= j < i ==> out@[j] == v@[j],
        decreases N - i,
    {
        out[i] = v[i];
        i += 1;
    }
    assert(out@ =~= v@);
    out
}

/// Different markets have different metadata keys.
pub proof fn lemma_metadata_key_injective(a: u64, b: u64)
    requires
        metadata_key_spec(a) == metadata_key_spec(b),
    ensures
        a == b,
{
    lemma_auto_spec_u64_to_from_le_bytes();
    assert(metadata_key_spec(a).subrange(5, 13) =~= spec_u64_to_le_bytes(a));
    assert(metadata_key_spec(b).subrange(5, 13) =~= spec_u64_to_le_bytes(b));
}

/// Different traders have different count keys.
pub proof fn lemma_trader_count_key_injective(a: Address, b: Address)
    requires
        trader_position_count_key_spec(a) == trader_position_count_key_spec(b),
    ensures
        a == b,
{
    assert(trader_position_count_key_spec(a).subrange(11, 31) =~= a@);
    assert(trader_position_count_key_spec(b).subrange(11, 31) =~= b@);
    assert(a =~= b);
}

/// The key of the singleton that holds the owner.
pub fn owner_key() -> (key: Vec<u8>)
    ensures
        key@ == owner_key_spec(),
{
    vec![111u8, 119, 110, 101, 114]
}

/// The key of the singleton that says whether the owner has been set.
pub fn initialized_key() -> (key: Vec<u8>)
    ensures
        key@ == initialized_key_spec(),
{
    vec![105u8, 110, 105, 116, 105, 97, 108, 105, 122, 101, 100]
}

/// The key of the market counter.
pub fn market_count_key() -> (key: Vec<u8>)
    ensures
        key@ == market_count_key_spec(),
{
    vec![109u8, 97, 114, 107, 101, 116, 95, 99, 111, 117, 110, 116]
}

/// The key of the position counter.
pub fn position_count_key() -> (key: Vec<u8>)
    ensures
        key@ == position_count_key_spec(),
{
    vec![112u8, 111, 115, 105, 116, 105, 111, 110, 95, 99, 111, 117, 110, 116]
}

/// The key of the block counter.
pub fn block_number_key() -> (key: Vec<u8>)
    ensures
        key@ == block_number_key_spec(),
{
    vec![98u8, 108, 111, 99, 107, 95, 110, 117, 109, 98, 101, 114]
}

/// The key of market `market_id`.
pub fn get_market_key(market_id: u64) -> (key: [u8; 15])
    ensures
        key@ == market_key_spec(market_id),
{
    let mut v: Vec<u8> = vec![109u8, 97, 114, 107, 101, 116, 95];
    assert(v@ =~= market_prefix());
    append_u64(&mut v, market_id);
    proof {
        lemma_auto_spec_u64_to_from_le_bytes();
    }
    to_array(&v)
}

/// The key of the share balance that `address` holds in market `market_id`.
pub fn get_lp_balance_key(market_id: u64, address: &Address) -> (key: [u8; 31])
    ensures
        key@ == lp_balance_key_spec(market_id, *address),
{
    let mut v: Vec<u8> = vec![108u8, 112, 95];
    assert(v@ =~= lp_prefix());
    append_u64(&mut v, market_id);
    append_bytes(&mut v, address.as_slice());
    proof {
        lemma_auto_spec_u64_to_from_le_bytes();
        assert(v@ =~= lp_balance_key_spec(market_id, *address));
    }
    to_array(&v)
}

/// The key of the metadata of market `market_id`.
pub fn get_metadata_key(market_id: u64) -> (key: [u8; 13])
    ensures
        key@ == metadata_key_spec(market_id),
{
    let mut v: Vec<u8> = vec![109u8, 101, 116, 97, 95];
    assert(v@ =~= metadata_prefix());
    append_u64(&mut v, market_id);
    proof {
        lemma_auto_spec_u64_to_from_le_bytes();
    }
    to_array(&v)
}

/// The key of position `position_id`.
pub fn get_position_key(position_id: u64) -> (key: [u8; 15])
    ensures
        key@ == position_key_spec(position_id),
{
    let mut v: Vec<u8> = vec![112u8, 111, 115, 95, 105, 100, 95];
    assert(v@ =~= position_prefix());
    append_u64(&mut v, position_id);
    proof {
        lemma_auto_spec_u64_to_from_le_bytes();
    }
    to_array(&v)
}

/// The key of the `index`-th entry of the positions that `trader` opened.
pub fn get_trader_positions_key(trader: &Address, index: u64) -> (key: [u8; 39])
    ensures
        key@ == trader_positions_key_spec(*trader, index),
{
    let mut v: Vec<u8> = vec![116u8, 114, 97, 100, 101, 114, 95, 112, 111, 115, 95];
    assert(v@ =~= trader_positions_prefix());
    append_bytes(&mut v, trader.as_slice());
    append_u64(&mut v, index);
    proof {
        lemma_auto_spec_u64_to_from_le_bytes();
    }
    to_array(&v)
}

/// The key of the number of positions that `trader` opened.
pub fn get_trader_position_count_key(trader: &Address) -> (key: [u8; 31])
    ensures
        key@ == trader_position_count_key_spec(*trader),
{
    let mut v: Vec<u8> = vec![116u8, 114, 97, 100, 101, 114, 95, 99, 110, 116, 95];
    assert(v@ =~= trader_count_prefix());
    append_bytes(&mut v, trader.as_slice());
    to_array(&v)
}

/// The namespace of a key: its first byte, together with its length.
pub open spec fn key_namespace(key: Seq<u8>) -> (u8, nat) {
    (key[0], key.len())
}

/// No key of one namespace is a key of another: the six keyed namespaces
/// and the five singletons differ, pair by pair, in their length or in the
/// first byte of their prefix.
pub proof fn lemma_namespaces_apart(
    id: u64,
    other_id: u64,
    holder: Address,
    other_holder: Address,
    index: u64,
)
    ensures
        key_namespace(market_key_spec(id)) == (109u8, 15nat),
        key_namespace(position_key_spec(id)) == (112u8, 15nat),
        key_namespace(metadata_key_spec(id)) == (109u8, 13nat),
        key_namespace(lp_balance_key_spec(id, holder)) == (108u8, 31nat),
        key_namespace(trader_position_count_key_spec(holder)) == (116u8, 31nat),
        key_namespace(trader_positions_key_spec(holder, index)) == (116u8, 39nat),
        key_namespace(owner_key_spec()) == (111u8, 5nat),
        key_namespace(initialized_key_spec()) == (105u8, 11nat),
        key_namespace(market_count_key_spec()) == (109u8, 12nat),
        key_namespace(block_number_key_spec()) == (98u8, 12nat),
        key_namespace(position_count_key_spec()) == (112u8, 14nat),
        market_key_spec(id) != position_key_spec(other_id),
        market_key_spec(id) != metadata_key_spec(other_id),
        metadata_key_spec(id) != position_key_spec(other_id),
        lp_balance_key_spec(id, holder) != trader_position_count_key_spec(other_holder),
        market_count_key_spec() != block_number_key_spec(),
{
    lemma_auto_spec_u64_to_from_le_bytes();
    assert(key_namespace(position_key_spec(other_id)) == (112u8, 15nat));
    assert(key_namespace(metadata_key_spec(other_id)) == (109u8, 13nat));
    assert(key_namespace(trader_position_count_key_spec(other_holder)) == (116u8, 31nat));
}

/// Different markets have different keys.
pub proof fn lemma_market_key_injective(a: u64, b: u64)
    requires
        market_key_spec(a) == market_key_spec(b),
    ensures
        a == b,
{
    lemma_auto_spec_u64_to_from_le_bytes();
    assert(market_key_spec(a).subrange(7, 15) =~= spec_u64_to_le_bytes(a));
    assert(market_key_spec(b).subrange(7, 15) =~= spec_u64_to_le_bytes(b));
}

/// Different positions have different keys.
pub proof fn lemma_position_key_injective(a: u64, b: u64)
    requires
        position_key_spec(a) == position_key_spec(b),
    ensures
        a == b,
{
    lemma_auto_spec_u64_to_from_le_bytes();
    assert(position_key_spec(a).subrange(7, 15) =~= spec_u64_to_le_bytes(a));
    assert(position_key_spec(b).subrange(7, 15) =~= spec_u64_to_le_bytes(b));
}

/// Different holders, or different markets, have different balance keys.
pub proof fn lemma_lp_balance_key_injective(m1: u64, h1: Address, m2: u64, h2: Address)
    requires
        lp_balance_key_spec(m1, h1) == lp_balance_key_spec(m2, h2),
    ensures
        m1 == m2,
        h1 == h2,
{
    lemma_auto_spec_u64_to_from_le_bytes();
    assert(lp_balance_key_spec(m1, h1).subrange(3, 11) =~= spec_u64_to_le_bytes(m1));
    assert(lp_balance_key_spec(m2, h2).subrange(3, 11) =~= spec_u64_to_le_bytes(m2));
    assert(lp_balance_key_spec(m1, h1).subrange(11, 31) =~= h1@);
    assert(lp_balance_key_spec(m2, h2).subrange(11, 31) =~= h2@);
    assert(h1 =~= h2);
}

/// Different traders, or different indexes, have different entry keys.
pub proof fn lemma_trader_positions_key_injective(t1: Address, i1: u64, t2: Address, i2: u64)
    requires
        trader_positions_key_spec(t1, i1) == trader_positions_key_spec(t2, i2),
    ensures
        t1 == t2,
        i1 == i2,
{
    lemma_auto_spec_u64_to_from_le_bytes();
    assert(trader_positions_key_spec(t1, i1).subrange(11, 31) =~= t1@);
    assert(trader_positions_key_spec(t2, i2).subrange(11, 31) =~= t2@);
    assert(trader_positions_key_spec(t1, i1).subrange(31, 39) =~= spec_u64_to_le_bytes(i1));
    assert(trader_positions_key_spec(t2, i2).subrange(31, 39) =~= spec_u64_to_le_bytes(i2));
    assert(t1 =~= t2);
}

// ---------------------------------------------------------------------------
// Metadata
// ---------------------------------------------------------------------------

/// `text`, cut to the longest length that a metadata record keeps.
pub open spec fn kept_text(text: Seq<u8>) -> Seq<u8> {
    if text.len() > MAX_TEXT_LEN {
        text.subrange(0, MAX_TEXT_LEN as int)
    } else {
        text
    }
}

/// The metadata record: the three lengths, one byte each, then the three
/// texts.
pub open spec fn metadata_bytes(title: Seq<u8>, description: Seq<u8>, criteria: Seq<u8>) -> Seq<
    u8,
> {
    seq![
        kept_text(title).len() as u8,
        kept_text(description).len() as u8,
        kept_text(criteria).len() as u8,
    ] + kept_text(title) + kept_text(description) + kept_text(criteria)
}

pub open spec fn encode_metadata_spec(title: Seq<u8>, description: Seq<u8>, criteria: Seq<u8>)
    -> Option<Seq<u8>> {
    if metadata_bytes(title, description, criteria).len() > MAX_STORAGE_VALUE {
        None
    } else {
        Some(metadata_bytes(title, description, criteria))
    }
}

fn kept_len(text: &[u8]) -> (n: usize)
    ensures
        n == kept_text(text@).len(),
        n <= MAX_TEXT_LEN,
        kept_text(text@) == text@.subrange(0, n as int),
{
    if text.len() > MAX_TEXT_LEN {
        MAX_TEXT_LEN
    } else {
        assert(text@.subrange(0, text@.len() as int) =~= text@);
        text.len()
    }
}

fn append_prefix(out: &mut Vec<u8>, text: &[u8], n: usize)
    requires
        n <= text@.len(),
    ensures
        final(out)@ == old(out)@ + text@.subrange(0, n as int),
{
    let mut i: usize = 0;
    while i < n
        invariant
            i <= n <= text@.len(),
            out@ == old(out)@ + text@.subrange(0, i as int),
        decreases n - i,
    {
        out.push(text[i]);
        i += 1;
        assert(out@ =~= old(out)@ + text@.subrange(0, i as int));
    }
}

/// The metadata record of a market, each text cut to 255 bytes; nothing
/// where the record would be longer than the store takes.
pub fn encode_metadata(title: &[u8], description: &[u8], criteria: &[u8]) -> (r: Option<Vec<u8>>)
    ensures
        r matches Some(v) ==> encode_metadata_spec(title@, description@, criteria@) == Some(v@),
        r is None ==> encode_metadata_spec(title@, description@, criteria@) is None,
{
    let title_len = kept_len(title);
    let desc_len = kept_len(description);
    let criteria_len = kept_len(criteria);
    let total_len = 3 + title_len + desc_len + criteria_len;
    if total_len > MAX_STORAGE_VALUE {
        return None;
    }
    let mut out: Vec<u8> = Vec::new();
    out.push(title_len as u8);
    out.push(desc_len as u8);
    out.push(criteria_len as u8);
    assert(out@ =~= seq![title_len as u8, desc_len as u8, criteria_len as u8]);
    append_prefix(&mut out, title, title_len);
    append_prefix(&mut out, description, desc_len);
    append_prefix(&mut out, criteria, criteria_len);
    Some(out)
}

/// The three texts that a metadata record holds; three empty texts where
/// all three lengths are zero. Bytes past the end of `data` read as zero.
pub open spec fn decode_metadata_spec(data: Seq<u8>) -> (Seq<u8>, Seq<u8>, Seq<u8>) {
    let title_len = window(data, 0, 1)[0] as nat;
    let desc_len = window(data, 1, 1)[0] as nat;
    let criteria_len = window(data, 2, 1)[0] as nat;
    (
        window(data, 3, title_len),
        window(data, (3 + title_len) as int, desc_len),
        window(data, (3 + title_len + desc_len) as int, criteria_len),
    )
}

/// Reads the title, the description and the resolution criteria from a
/// metadata record.
pub fn decode_metadata(data: &[u8]) -> (r: (Vec<u8>, Vec<u8>, Vec<u8>))
    ensures
        (r.0@, r.1@, r.2@) == decode_metadata_spec(data@),
{
    let title_len = byte_at(data, 0) as usize;
    let desc_len = byte_at(data, 1) as usize;
    let criteria_len = byte_at(data, 2) as usize;
    let title = read_window(data, 3, title_len);
    let description = read_window(data, 3 + title_len, desc_len);
    let criteria = read_window(data, 3 + title_len + desc_len, criteria_len);
    (title, description, criteria)
}

/// A metadata record reads back as the three texts it was made from, each
/// cut to the length that a record keeps.
pub proof fn lemma_metadata_roundtrip(title: Seq<u8>, description: Seq<u8>, criteria: Seq<u8>)
    ensures
        decode_metadata_spec(metadata_bytes(title, description, criteria)) == (
            kept_text(title),
            kept_text(description),
            kept_text(criteria),
        ),
{
    let t = kept_text(title);
    let d = kept_text(description);
    let c = kept_text(criteria);
    let b = metadata_bytes(title, description, criteria);
    assert(b[0] == t.len() as u8 && b[1] == d.len() as u8 && b[2] == c.len() as u8);
    assert(window(b, 3, t.len()) =~= t);
    assert(window(b, (3 + t.len()) as int, d.len()) =~= d);
    assert(window(b, (3 + t.len() + d.len()) as int, c.len()) =~= c);
}

} // verus!
