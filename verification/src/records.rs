//! The two persistent records, markets and positions.

use vstd::prelude::*;
use vstd::bytes::{lemma_auto_spec_u64_to_from_le_bytes, spec_u64_to_le_bytes};
use crate::bytes::{
    all_zero, append_bytes, append_u64, byte_at, lemma_i64_bits_roundtrip,
    lemma_u64_bits_roundtrip, padded, read_address, read_u64, spec_i64_to_le_bytes, window, zeros,
};

verus! {

/// A 20-byte principal.
pub type Address = [u8; 20];

pub const MARKET_STATUS_OPEN: u8 = 0;

pub const MARKET_STATUS_CLOSED: u8 = 1;

pub const MARKET_STATUS_RESOLVED: u8 = 2;

/// One market: its belief, its backing and its share accounting.
#[derive(Clone, Copy, Debug, PartialEq, Eq)]
pub struct Market {
    pub creator: Address,
    pub creation_time: u64,
    pub close_time: u64,
    pub k_norm: u64,
    pub b_backing: u64,
    pub current_mean: u64,
    pub current_variance: u64,
    pub total_lp_shares: u64,
    pub total_backing: u64,
    pub accumulated_fees: u64,
    pub next_position_id: u64,
    pub total_volume: u64,
    pub status: u8,
    pub resolution_mean: u64,
    pub resolution_variance: u64,
}

/// One trade: the move from one belief to another, at a size.
#[derive(Clone, Copy, Debug, PartialEq, Eq)]
pub struct Position {
    pub position_id: u64,
    pub trader: Address,
    pub market_id: u64,
    pub from_mean: u64,
    pub from_variance: u64,
    pub to_mean: u64,
    pub to_variance: u64,
    pub size: u64,
    pub collateral_locked: u64,
    pub cost_basis: u64,
    pub is_open: u8,
    pub opened_at: u64,
    pub closed_at: u64,
    pub exit_value: u64,
    pub fees_paid: u64,
    pub realized_pnl: i64,
    pub claimed: u8,
}

/// Length of a stored market.
pub const MARKET_RECORD_LEN: usize = 125;

/// Length of a stored position.
pub const POSITION_RECORD_LEN: usize = 134;

/// The stored form of a market: its fields in order, integers little-endian,
/// nothing between them.
pub open spec fn market_bytes(m: Market) -> Seq<u8> {
    m.creator@ + spec_u64_to_le_bytes(m.creation_time) + spec_u64_to_le_bytes(m.close_time)
        + spec_u64_to_le_bytes(m.k_norm) + spec_u64_to_le_bytes(m.b_backing)
        + spec_u64_to_le_bytes(m.current_mean) + spec_u64_to_le_bytes(m.current_variance)
        + spec_u64_to_le_bytes(m.total_lp_shares) + spec_u64_to_le_bytes(m.total_backing)
        + spec_u64_to_le_bytes(m.accumulated_fees) + spec_u64_to_le_bytes(m.next_position_id)
        + spec_u64_to_le_bytes(m.total_volume) + seq![m.status] + spec_u64_to_le_bytes(
        m.resolution_mean,
    ) + spec_u64_to_le_bytes(m.resolution_variance)
}

/// The stored form of a position: its fields in order, integers
/// little-endian, the signed profit in two's complement.
pub open spec fn position_bytes(p: Position) -> Seq<u8> {
    spec_u64_to_le_bytes(p.position_id) + p.trader@ + spec_u64_to_le_bytes(p.market_id)
        + spec_u64_to_le_bytes(p.from_mean) + spec_u64_to_le_bytes(p.from_variance)
        + spec_u64_to_le_bytes(p.to_mean) + spec_u64_to_le_bytes(p.to_variance)
        + spec_u64_to_le_bytes(p.size) + spec_u64_to_le_bytes(p.collateral_locked)
        + spec_u64_to_le_bytes(p.cost_basis) + seq![p.is_open] + spec_u64_to_le_bytes(p.opened_at)
        + spec_u64_to_le_bytes(p.closed_at) + spec_u64_to_le_bytes(p.exit_value)
        + spec_u64_to_le_bytes(p.fees_paid) + spec_i64_to_le_bytes(p.realized_pnl) + seq![
        p.claimed,
    ]
}

/// Where each field of a market lies in its stored form.
pub proof fn lemma_market_layout(m: Market)
    ensures
        market_bytes(m).len() == MARKET_RECORD_LEN,
        market_bytes(m).subrange(0, 20) == m.creator@,
        market_bytes(m).subrange(20, 28) == spec_u64_to_le_bytes(m.creation_time),
        market_bytes(m).subrange(28, 36) == spec_u64_to_le_bytes(m.close_time),
        market_bytes(m).subrange(36, 44) == spec_u64_to_le_bytes(m.k_norm),
        market_bytes(m).subrange(44, 52) == spec_u64_to_le_bytes(m.b_backing),
        market_bytes(m).subrange(52, 60) == spec_u64_to_le_bytes(m.current_mean),
        market_bytes(m).subrange(60, 68) == spec_u64_to_le_bytes(m.current_variance),
        market_bytes(m).subrange(68, 76) == spec_u64_to_le_bytes(m.total_lp_shares),
        market_bytes(m).subrange(76, 84) == spec_u64_to_le_bytes(m.total_backing),
        market_bytes(m).subrange(84, 92) == spec_u64_to_le_bytes(m.accumulated_fees),
        market_bytes(m).subrange(92, 100) == spec_u64_to_le_bytes(m.next_position_id),
        market_bytes(m).subrange(100, 108) == spec_u64_to_le_bytes(m.total_volume),
        market_bytes(m)[108] == m.status,
        market_bytes(m).subrange(109, 117) == spec_u64_to_le_bytes(m.resolution_mean),
        market_bytes(m).subrange(117, 125) == spec_u64_to_le_bytes(m.resolution_variance),
{
    lemma_auto_spec_u64_to_from_le_bytes();
    let b = market_bytes(m);
    assert(b.subrange(0, 20) =~= m.creator@);
    assert(b.subrange(20, 28) =~= spec_u64_to_le_bytes(m.creation_time));
    assert(b.subrange(28, 36) =~= spec_u64_to_le_bytes(m.close_time));
    assert(b.subrange(36, 44) =~= spec_u64_to_le_bytes(m.k_norm));
    assert(b.subrange(44, 52) =~= spec_u64_to_le_bytes(m.b_backing));
    assert(b.subrange(52, 60) =~= spec_u64_to_le_bytes(m.current_mean));
    assert(b.subrange(60, 68) =~= spec_u64_to_le_bytes(m.current_variance));
    assert(b.subrange(68, 76) =~= spec_u64_to_le_bytes(m.total_lp_shares));
    assert(b.subrange(76, 84) =~= spec_u64_to_le_bytes(m.total_backing));
    assert(b.subrange(84, 92) =~= spec_u64_to_le_bytes(m.accumulated_fees));
    assert(b.subrange(92, 100) =~= spec_u64_to_le_bytes(m.next_position_id));
    assert(b.subrange(100, 108) =~= spec_u64_to_le_bytes(m.total_volume));
    assert(b.subrange(109, 117) =~= spec_u64_to_le_bytes(m.resolution_mean));
    assert(b.subrange(117, 125) =~= spec_u64_to_le_bytes(m.resolution_variance));
}

/// Where each field of a position lies in its stored form.
pub proof fn lemma_position_layout(p: Position)
    ensures
        position_bytes(p).len() == POSITION_RECORD_LEN,
        position_bytes(p).subrange(0, 8) == spec_u64_to_le_bytes(p.position_id),
        position_bytes(p).subrange(8, 28) == p.trader@,
        position_bytes(p).subrange(28, 36) == spec_u64_to_le_bytes(p.market_id),
        position_bytes(p).subrange(36, 44) == spec_u64_to_le_bytes(p.from_mean),
        position_bytes(p).subrange(44, 52) == spec_u64_to_le_bytes(p.from_variance),
        position_bytes(p).subrange(52, 60) == spec_u64_to_le_bytes(p.to_mean),
        position_bytes(p).subrange(60, 68) == spec_u64_to_le_bytes(p.to_variance),
        position_bytes(p).subrange(68, 76) == spec_u64_to_le_bytes(p.size),
        position_bytes(p).subrange(76, 84) == spec_u64_to_le_bytes(p.collateral_locked),
        position_bytes(p).subrange(84, 92) == spec_u64_to_le_bytes(p.cost_basis),
        position_bytes(p)[92] == p.is_open,
        position_bytes(p).subrange(93, 101) == spec_u64_to_le_bytes(p.opened_at),
        position_bytes(p).subrange(101, 109) == spec_u64_to_le_bytes(p.closed_at),
        position_bytes(p).subrange(109, 117) == spec_u64_to_le_bytes(p.exit_value),
        position_bytes(p).subrange(117, 125) == spec_u64_to_le_bytes(p.fees_paid),
        position_bytes(p).subrange(125, 133) == spec_i64_to_le_bytes(p.realized_pnl),
        position_bytes(p)[133] == p.claimed,
{
    lemma_auto_spec_u64_to_from_le_bytes();
    let b = position_bytes(p);
    assert(b.subrange(0, 8) =~= spec_u64_to_le_bytes(p.position_id));
    assert(b.subrange(8, 28) =~= p.trader@);
    assert(b.subrange(28, 36) =~= spec_u64_to_le_bytes(p.market_id));
    assert(b.subrange(36, 44) =~= spec_u64_to_le_bytes(p.from_mean));
    assert(b.subrange(44, 52) =~= spec_u64_to_le_bytes(p.from_variance));
    assert(b.subrange(52, 60) =~= spec_u64_to_le_bytes(p.to_mean));
    assert(b.subrange(60, 68) =~= spec_u64_to_le_bytes(p.to_variance));
    assert(b.subrange(68, 76) =~= spec_u64_to_le_bytes(p.size));
    assert(b.subrange(76, 84) =~= spec_u64_to_le_bytes(p.collateral_locked));
    assert(b.subrange(84, 92) =~= spec_u64_to_le_bytes(p.cost_basis));
    assert(b.subrange(93, 101) =~= spec_u64_to_le_bytes(p.opened_at));
    assert(b.subrange(101, 109) =~= spec_u64_to_le_bytes(p.closed_at));
    assert(b.subrange(109, 117) =~= spec_u64_to_le_bytes(p.exit_value));
    assert(b.subrange(117, 125) =~= spec_u64_to_le_bytes(p.fees_paid));
    assert(b.subrange(125, 133) =~= spec_i64_to_le_bytes(p.realized_pnl));
}

/// Two markets with the same stored form are the same market.
pub proof fn lemma_market_bytes_injective(a: Market, b: Market)
    requires
        market_bytes(a) == market_bytes(b),
    ensures
        a == b,
{
    lemma_market_layout(a);
    lemma_market_layout(b);
    lemma_auto_spec_u64_to_from_le_bytes();
    assert(a.creator =~= b.creator);
}

/// Two positions with the same stored form are the same position.
pub proof fn lemma_position_bytes_injective(a: Position, b: Position)
    requires
        position_bytes(a) == position_bytes(b),
    ensures
        a == b,
{
    lemma_position_layout(a);
    lemma_position_layout(b);
    lemma_auto_spec_u64_to_from_le_bytes();
    assert(a.trader =~= b.trader);
    lemma_i64_bits_roundtrip(a.realized_pnl);
    lemma_i64_bits_roundtrip(b.realized_pnl);
}

/// The stored form of `market`.
pub fn encode_market(market: &Market) -> (r: Vec<u8>)
    ensures
        r@ == market_bytes(*market),
        r@.len() == MARKET_RECORD_LEN,
{
    let mut out: Vec<u8> = Vec::new();
    append_bytes(&mut out, market.creator.as_slice());
    append_u64(&mut out, market.creation_time);
    append_u64(&mut out, market.close_time);
    append_u64(&mut out, market.k_norm);
    append_u64(&mut out, market.b_backing);
    append_u64(&mut out, market.current_mean);
    append_u64(&mut out, market.current_variance);
    append_u64(&mut out, market.total_lp_shares);
    append_u64(&mut out, market.total_backing);
    append_u64(&mut out, market.accumulated_fees);
    append_u64(&mut out, market.next_position_id);
    append_u64(&mut out, market.total_volume);
    out.push(market.status);
    append_u64(&mut out, market.resolution_mean);
    append_u64(&mut out, market.resolution_variance);
    proof {
        lemma_market_layout(*market);
        assert(out@ =~= market_bytes(*market));
    }
    out
}

/// The stored form of `position`.
pub fn encode_position(position: &Position) -> (r: Vec<u8>)
    ensures
        r@ == position_bytes(*position),
        r@.len() == POSITION_RECORD_LEN,
{
    let mut out: Vec<u8> = Vec::new();
    append_u64(&mut out, position.position_id);
    append_bytes(&mut out, position.trader.as_slice());
    append_u64(&mut out, position.market_id);
    append_u64(&mut out, position.from_mean);
    append_u64(&mut out, position.from_variance);
    append_u64(&mut out, position.to_mean);
    append_u64(&mut out, position.to_variance);
    append_u64(&mut out, position.size);
    append_u64(&mut out, position.collateral_locked);
    append_u64(&mut out, position.cost_basis);
    out.push(position.is_open);
    append_u64(&mut out, position.opened_at);
    append_u64(&mut out, position.closed_at);
    append_u64(&mut out, position.exit_value);
    append_u64(&mut out, position.fees_paid);
    append_u64(&mut out, #[verifier::truncate] (position.realized_pnl as u64));
    out.push(position.claimed);
    proof {
        lemma_position_layout(*position);
        assert(out@ =~= position_bytes(*position));
    }
    out
}

/// What reading a market from `data` yields: nothing where the creator's
/// bytes are all zero, else the market whose stored form is `data`, cut or
/// filled with zeros to the length of a record.
pub open spec fn decodes_market(data: Seq<u8>, r: Option<Market>) -> bool {
    &&& r is None <==> window(data, 0, 20) == zeros(20)
    &&& r matches Some(m) ==> market_bytes(m) == padded(data, MARKET_RECORD_LEN as nat)
}

/// What reading a position from `data` yields: nothing where the trader's
/// bytes are all zero, else the position whose stored form is `data`, cut
/// or filled with zeros to the length of a record.
pub open spec fn decodes_position(data: Seq<u8>, r: Option<Position>) -> bool {
    &&& r is None <==> window(data, 8, 20) == zeros(20)
    &&& r matches Some(p) ==> position_bytes(p) == padded(data, POSITION_RECORD_LEN as nat)
}

/// Reads a market from its stored form. A value shorter than a record reads
/// as if filled with zeros; one whose creator is all zero is no market.
pub fn decode_market(data: &[u8]) -> (r: Option<Market>)
    ensures
        decodes_market(data@, r),
{
    let creator = read_address(data, 0);
    if all_zero(creator.as_slice()) {
        return None;
    }
    let market = Market {
        creator,
        creation_time: read_u64(data, 20),
        close_time: read_u64(data, 28),
        k_norm: read_u64(data, 36),
        b_backing: read_u64(data, 44),
        current_mean: read_u64(data, 52),
        current_variance: read_u64(data, 60),
        total_lp_shares: read_u64(data, 68),
        total_backing: read_u64(data, 76),
        accumulated_fees: read_u64(data, 84),
        next_position_id: read_u64(data, 92),
        total_volume: read_u64(data, 100),
        status: byte_at(data, 108),
        resolution_mean: read_u64(data, 109),
        resolution_variance: read_u64(data, 117),
    };
    proof {
        let d = data@;
        let p0 = market.creator@;
        assert(p0 =~= padded(d, 20));
        let p1 = p0 + spec_u64_to_le_bytes(market.creation_time);
        lemma_extend_padded(p0, spec_u64_to_le_bytes(market.creation_time), d, 20, 8);
        let p2 = p1 + spec_u64_to_le_bytes(market.close_time);
        lemma_extend_padded(p1, spec_u64_to_le_bytes(market.close_time), d, 28, 8);
        let p3 = p2 + spec_u64_to_le_bytes(market.k_norm);
        lemma_extend_padded(p2, spec_u64_to_le_bytes(market.k_norm), d, 36, 8);
        let p4 = p3 + spec_u64_to_le_bytes(market.b_backing);
        lemma_extend_padded(p3, spec_u64_to_le_bytes(market.b_backing), d, 44, 8);
        let p5 = p4 + spec_u64_to_le_bytes(market.current_mean);
        lemma_extend_padded(p4, spec_u64_to_le_bytes(market.current_mean), d, 52, 8);
        let p6 = p5 + spec_u64_to_le_bytes(market.current_variance);
        lemma_extend_padded(p5, spec_u64_to_le_bytes(market.current_variance), d, 60, 8);
        let p7 = p6 + spec_u64_to_le_bytes(market.total_lp_shares);
        lemma_extend_padded(p6, spec_u64_to_le_bytes(market.total_lp_shares), d, 68, 8);
        let p8 = p7 + spec_u64_to_le_bytes(market.total_backing);
        lemma_extend_padded(p7, spec_u64_to_le_bytes(market.total_backing), d, 76, 8);
        let p9 = p8 + spec_u64_to_le_bytes(market.accumulated_fees);
        lemma_extend_padded(p8, spec_u64_to_le_bytes(market.accumulated_fees), d, 84, 8);
        let p10 = p9 + spec_u64_to_le_bytes(market.next_position_id);
        lemma_extend_padded(p9, spec_u64_to_le_bytes(market.next_position_id), d, 92, 8);
        let p11 = p10 + spec_u64_to_le_bytes(market.total_volume);
        lemma_extend_padded(p10, spec_u64_to_le_bytes(market.total_volume), d, 100, 8);
        let p12 = p11 + seq![market.status];
        assert(seq![market.status] =~= window(d, 108, 1));
        lemma_extend_padded(p11, seq![market.status], d, 108, 1);
        let p13 = p12 + spec_u64_to_le_bytes(market.resolution_mean);
        lemma_extend_padded(p12, spec_u64_to_le_bytes(market.resolution_mean), d, 109, 8);
        lemma_extend_padded(p13, spec_u64_to_le_bytes(market.resolution_variance), d, 117, 8);
    }
    Some(market)
}

/// A zero-filled prefix of `data`, extended by the next bytes of `data`, is
/// the longer zero-filled prefix.
proof fn lemma_extend_padded(prefix: Seq<u8>, piece: Seq<u8>, data: Seq<u8>, at: nat, len: nat)
    requires
        prefix == padded(data, at),
        piece == window(data, at as int, len),
    ensures
        prefix + piece == padded(data, at + len),
{
    assert(prefix + piece =~= padded(data, at + len));
}

/// Reads a position from its stored form. A value shorter than a record
/// reads as if filled with zeros; one whose trader is all zero is no
/// position.
pub fn decode_position(data: &[u8]) -> (r: Option<Position>)
    ensures
        decodes_position(data@, r),
{
    let trader = read_address(data, 8);
    if all_zero(trader.as_slice()) {
        return None;
    }
    let pnl_bits = read_u64(data, 125);
    let position = Position {
        position_id: read_u64(data, 0),
        trader,
        market_id: read_u64(data, 28),
        from_mean: read_u64(data, 36),
        from_variance: read_u64(data, 44),
        to_mean: read_u64(data, 52),
        to_variance: read_u64(data, 60),
        size: read_u64(data, 68),
        collateral_locked: read_u64(data, 76),
        cost_basis: read_u64(data, 84),
        is_open: byte_at(data, 92),
        opened_at: read_u64(data, 93),
        closed_at: read_u64(data, 101),
        exit_value: read_u64(data, 109),
        fees_paid: read_u64(data, 117),
        realized_pnl: #[verifier::truncate] (pnl_bits as i64),
        claimed: byte_at(data, 133),
    };
    proof {
        lemma_u64_bits_roundtrip(pnl_bits);
        let d = data@;
        let p0 = spec_u64_to_le_bytes(position.position_id);
        assert(p0 =~= padded(d, 8));
        let p1 = p0 + position.trader@;
        lemma_extend_padded(p0, position.trader@, d, 8, 20);
        let p2 = p1 + spec_u64_to_le_bytes(position.market_id);
        lemma_extend_padded(p1, spec_u64_to_le_bytes(position.market_id), d, 28, 8);
        let p3 = p2 + spec_u64_to_le_bytes(position.from_mean);
        lemma_extend_padded(p2, spec_u64_to_le_bytes(position.from_mean), d, 36, 8);
        let p4 = p3 + spec_u64_to_le_bytes(position.from_variance);
        lemma_extend_padded(p3, spec_u64_to_le_bytes(position.from_variance), d, 44, 8);
        let p5 = p4 + spec_u64_to_le_bytes(position.to_mean);
        lemma_extend_padded(p4, spec_u64_to_le_bytes(position.to_mean), d, 52, 8);
        let p6 = p5 + spec_u64_to_le_bytes(position.to_variance);
        lemma_extend_padded(p5, spec_u64_to_le_bytes(position.to_variance), d, 60, 8);
        let p7 = p6 + spec_u64_to_le_bytes(position.size);
        lemma_extend_padded(p6, spec_u64_to_le_bytes(position.size), d, 68, 8);
        let p8 = p7 + spec_u64_to_le_bytes(position.collateral_locked);
        lemma_extend_padded(p7, spec_u64_to_le_bytes(position.collateral_locked), d, 76, 8);
        let p9 = p8 + spec_u64_to_le_bytes(position.cost_basis);
        lemma_extend_padded(p8, spec_u64_to_le_bytes(position.cost_basis), d, 84, 8);
        let p10 = p9 + seq![position.is_open];
        assert(seq![position.is_open] =~= window(d, 92, 1));
        lemma_extend_padded(p9, seq![position.is_open], d, 92, 1);
        let p11 = p10 + spec_u64_to_le_bytes(position.opened_at);
        lemma_extend_padded(p10, spec_u64_to_le_bytes(position.opened_at), d, 93, 8);
        let p12 = p11 + spec_u64_to_le_bytes(position.closed_at);
        lemma_extend_padded(p11, spec_u64_to_le_bytes(position.closed_at), d, 101, 8);
        let p13 = p12 + spec_u64_to_le_bytes(position.exit_value);
        lemma_extend_padded(p12, spec_u64_to_le_bytes(position.exit_value), d, 109, 8);
        let p14 = p13 + spec_u64_to_le_bytes(position.fees_paid);
        lemma_extend_padded(p13, spec_u64_to_le_bytes(position.fees_paid), d, 117, 8);
        let p15 = p14 + spec_i64_to_le_bytes(position.realized_pnl);
        lemma_extend_padded(p14, spec_i64_to_le_bytes(position.realized_pnl), d, 125, 8);
        assert(seq![position.claimed] =~= window(d, 133, 1));
        lemma_extend_padded(p15, seq![position.claimed], d, 133, 1);
    }
    Some(position)
}

/// A stored market reads back as itself, and a market without a creator
/// reads back as no market.
pub proof fn lemma_market_roundtrip(m: Market, r: Option<Market>)
    requires
        decodes_market(market_bytes(m), r),
    ensures
        m.creator@ != zeros(20) ==> r == Some(m),
        m.creator@ == zeros(20) ==> r is None,
{
    lemma_market_layout(m);
    let b = market_bytes(m);
    assert(window(b, 0, 20) =~= b.subrange(0, 20));
    assert(padded(b, MARKET_RECORD_LEN as nat) =~= b);
    if r is Some {
        lemma_market_bytes_injective(r->Some_0, m);
    }
}

/// A stored position reads back as itself, and a position without a trader
/// reads back as no position.
pub proof fn lemma_position_roundtrip(p: Position, r: Option<Position>)
    requires
        decodes_position(position_bytes(p), r),
    ensures
        p.trader@ != zeros(20) ==> r == Some(p),
        p.trader@ == zeros(20) ==> r is None,
{
    lemma_position_layout(p);
    let b = position_bytes(p);
    assert(window(b, 8, 20) =~= b.subrange(8, 28));
    assert(padded(b, POSITION_RECORD_LEN as nat) =~= b);
    if r is Some {
        lemma_position_bytes_injective(r->Some_0, p);
    }
}

/// A record of full length that holds a market is, byte for byte, the
/// stored form of the market read from it.
pub proof fn lemma_market_bytes_roundtrip(data: Seq<u8>, r: Option<Market>)
    requires
        data.len() == MARKET_RECORD_LEN,
        decodes_market(data, r),
        r is Some,
    ensures
        market_bytes(r->Some_0) == data,
{
    assert(padded(data, MARKET_RECORD_LEN as nat) =~= data);
}

/// A record of full length that holds a position is, byte for byte, the
/// stored form of the position read from it.
pub proof fn lemma_position_bytes_roundtrip(data: Seq<u8>, r: Option<Position>)
    requires
        data.len() == POSITION_RECORD_LEN,
        decodes_position(data, r),
        r is Some,
    ensures
        position_bytes(r->Some_0) == data,
{
    assert(padded(data, POSITION_RECORD_LEN as nat) =~= data);
}

} // verus!
