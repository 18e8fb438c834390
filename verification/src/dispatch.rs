//! Call dispatch: which operation a selector names, what its call data
//! holds, and the bytes of each answer.

use vstd::prelude::*;
use crate::abi::{
    abi_decode, abi_decoding, abi_encoding, be_value, decode_uints, decode_uints_spec,
    encode_uints, encode_values, revert_prefix, signed, static_decoding,
    static_encoding, terms_of, text, text_of, twos_complement, uint_terms, unsigned, word_term,
    AbiKind, AbiTerm, AbiValue, Word,
};
use crate::fixed::value_or;
use crate::gaussian::{
    amm_holdings_spec, calculate_amm_holdings, calculate_expected_value, calculate_lambda,
    calculate_min_variance, capped_density, capped_density_spec, distribution_bounds_spec,
    get_distribution_bounds, lambda_spec, min_variance_spec, normal_cdf, normal_cdf_spec,
    normal_pdf, normal_pdf_spec,
};
use crate::lifecycle::{total_value_locked, NewMarket, Revert, TradeRequest};
use crate::records::{Address, Market, Position};

verus! {

/// Longest call data that is looked at, selector apart.
pub const MAX_INPUT: usize = 1000;

/// The operations of the contract.
#[derive(Clone, Copy, Debug, PartialEq, Eq, Structural)]
pub enum Operation {
    Initialize,
    CreateMarket,
    TradeDistribution,
    AddLiquidity,
    RemoveLiquidity,
    GetMarketState,
    GetConsensus,
    GetMetadata,
    GetMarketCount,
    ClosePosition,
    GetPosition,
    GetTraderPositions,
    ResolveMarket,
    ClaimWinnings,
    CalculateTrade,
    GetLpBalance,
    GetAmmHoldings,
    EvaluateAt,
    GetCdf,
    GetExpectedValue,
    GetBounds,
    GetMarketInfo,
    GetPositionValue,
    GetTvl,
}

/// The four bytes that name an operation.
pub open spec fn selector_spec(op: Operation) -> Seq<u8> {
    match op {
        Operation::Initialize => seq![0x81u8, 0x29, 0xfc, 0x1c],
        Operation::CreateMarket => seq![0x44u8, 0xb8, 0x5a, 0x62],
        Operation::TradeDistribution => seq![0x5eu8, 0xa5, 0xec, 0xce],
        Operation::AddLiquidity => seq![0x72u8, 0x26, 0x13, 0x33],
        Operation::RemoveLiquidity => seq![0x88u8, 0xb2, 0x26, 0x37],
        Operation::GetMarketState => seq![0x20u8, 0x1d, 0x2f, 0x2b],
        Operation::GetConsensus => seq![0xb9u8, 0xf2, 0xf5, 0xbb],
        Operation::GetMetadata => seq![0x99u8, 0x8e, 0x84, 0xa3],
        Operation::GetMarketCount => seq![0xfdu8, 0x69, 0xf3, 0xc2],
        Operation::ClosePosition => seq![0x38u8, 0x4c, 0x07, 0xe6],
        Operation::GetPosition => seq![0x0fu8, 0x85, 0xfc, 0x5a],
        Operation::GetTraderPositions => seq![0x5fu8, 0xbb, 0xb2, 0xff],
        Operation::ResolveMarket => seq![0x6du8, 0x22, 0x83, 0xa4],
        Operation::ClaimWinnings => seq![0x08u8, 0xf7, 0xed, 0x50],
        Operation::CalculateTrade => seq![0x6cu8, 0xfa, 0x49, 0x1b],
        Operation::GetLpBalance => seq![0x0eu8, 0x3e, 0x56, 0xf8],
        Operation::GetAmmHoldings => seq![0x82u8, 0x51, 0xa2, 0x82],
        Operation::EvaluateAt => seq![0x3bu8, 0x51, 0x07, 0x6f],
        Operation::GetCdf => seq![0xd8u8, 0xff, 0xb3, 0x5a],
        Operation::GetExpectedValue => seq![0x92u8, 0xac, 0xfd, 0xf9],
        Operation::GetBounds => seq![0x35u8, 0x24, 0xad, 0x0d],
        Operation::GetMarketInfo => seq![0x3cu8, 0xc4, 0xfc, 0x4a],
        Operation::GetPositionValue => seq![0xe6u8, 0x95, 0x16, 0x61],
        Operation::GetTvl => seq![0xeeu8, 0x4c, 0xc8, 0x4c],
    }
}

/// The operation that `selector` names, if it names one.
pub fn operation_of(selector: &[u8; 4]) -> (r: Option<Operation>)
    ensures
        r matches Some(op) ==> selector_spec(op) == selector@,
        r is None ==> forall|op: Operation| selector_spec(op) != selector@,
{
    let r = match (selector[0], selector[1], selector[2], selector[3]) {
        (0x81, 0x29, 0xfc, 0x1c) => Some(Operation::Initialize),
        (0x44, 0xb8, 0x5a, 0x62) => Some(Operation::CreateMarket),
        (0x5e, 0xa5, 0xec, 0xce) => Some(Operation::TradeDistribution),
        (0x72, 0x26, 0x13, 0x33) => Some(Operation::AddLiquidity),
        (0x88, 0xb2, 0x26, 0x37) => Some(Operation::RemoveLiquidity),
        (0x20, 0x1d, 0x2f, 0x2b) => Some(Operation::GetMarketState),
        (0xb9, 0xf2, 0xf5, 0xbb) => Some(Operation::GetConsensus),
        (0x99, 0x8e, 0x84, 0xa3) => Some(Operation::GetMetadata),
        (0xfd, 0x69, 0xf3, 0xc2) => Some(Operation::GetMarketCount),
        (0x38, 0x4c, 0x07, 0xe6) => Some(Operation::ClosePosition),
        (0x0f, 0x85, 0xfc, 0x5a) => Some(Operation::GetPosition),
        (0x5f, 0xbb, 0xb2, 0xff) => Some(Operation::GetTraderPositions),
        (0x6d, 0x22, 0x83, 0xa4) => Some(Operation::ResolveMarket),
        (0x08, 0xf7, 0xed, 0x50) => Some(Operation::ClaimWinnings),
        (0x6c, 0xfa, 0x49, 0x1b) => Some(Operation::CalculateTrade),
        (0x0e, 0x3e, 0x56, 0xf8) => Some(Operation::GetLpBalance),
        (0x82, 0x51, 0xa2, 0x82) => Some(Operation::GetAmmHoldings),
        (0x3b, 0x51, 0x07, 0x6f) => Some(Operation::EvaluateAt),
        (0xd8, 0xff, 0xb3, 0x5a) => Some(Operation::GetCdf),
        (0x92, 0xac, 0xfd, 0xf9) => Some(Operation::GetExpectedValue),
        (0x35, 0x24, 0xad, 0x0d) => Some(Operation::GetBounds),
        (0x3c, 0xc4, 0xfc, 0x4a) => Some(Operation::GetMarketInfo),
        (0xe6, 0x95, 0x16, 0x61) => Some(Operation::GetPositionValue),
        (0xee, 0x4c, 0xc8, 0x4c) => Some(Operation::GetTvl),
        _ => None,
    };
    proof {
        match r {
            Some(op) => {
                assert(selector_spec(op) =~= selector@);
            },
            None => {
                assert forall|op: Operation| selector_spec(op) != selector@ by {
                    let s = selector_spec(op);
                    if s == selector@ {
                        assert(s[0] == selector@[0] && s[1] == selector@[1] && s[2] == selector@[2]
                            && s[3] == selector@[3]);
                    }
                }
            },
        }
    }
    r
}

/// What is done with a call, by the length of its data.
#[derive(Clone, Copy, Debug, PartialEq, Eq, Structural)]
pub enum Entry {
    /// No data: the answer is empty.
    Empty,
    /// Less than a selector: refused as invalid input.
    TooShort,
    /// A selector, and `data_len` bytes of arguments to look at.
    Dispatch { data_len: usize },
}

/// What is done with a call whose data is `length` bytes long.
pub fn classify_call(length: usize) -> (r: Entry)
    ensures
        r == if length == 0 {
            Entry::Empty
        } else if length < 4 {
            Entry::TooShort
        } else if length - 4 > MAX_INPUT {
            Entry::Dispatch { data_len: MAX_INPUT }
        } else {
            Entry::Dispatch { data_len: (length - 4) as usize }
        },
{
    if length == 0 {
        Entry::Empty
    } else if length < 4 {
        Entry::TooShort
    } else if length - 4 > MAX_INPUT {
        Entry::Dispatch { data_len: MAX_INPUT }
    } else {
        Entry::Dispatch { data_len: length - 4 }
    }
}

/// Whether an operation is taken up: before `initialize` has run, no
/// operation but `initialize` is.
pub fn take_up(operation: Operation, initialized: bool) -> (r: Result<(), Revert>)
    ensures
        r == if initialized || operation == Operation::Initialize {
            Ok::<(), Revert>(())
        } else {
            Err::<(), Revert>(Revert::NotInitialized)
        },
{
    if initialized {
        return Ok(());
    }
    match operation {
        Operation::Initialize => Ok(()),
        _ => Err(Revert::NotInitialized),
    }
}

/// `Invalid input`
pub open spec fn invalid_input_text() -> Seq<u8> {
    seq![73u8, 110, 118, 97, 108, 105, 100, 32, 105, 110, 112, 117, 116]
}

/// What a call that is not dispatched is answered: nothing where it has no
/// data, and the bare words `Invalid input` where it is shorter than a
/// selector.
pub open spec fn undispatched_answer(entry: Entry) -> Option<Seq<u8>> {
    match entry {
        Entry::Empty => Some(Seq::empty()),
        Entry::TooShort => Some(invalid_input_text()),
        Entry::Dispatch { .. } => None,
    }
}

/// The answer of a call that is not dispatched; the answer to a call that is
/// too short goes out as a revert.
pub fn answer_undispatched(entry: &Entry) -> (r: Option<Vec<u8>>)
    ensures
        r matches Some(bytes) ==> undispatched_answer(*entry) == Some(bytes@),
        r is None ==> undispatched_answer(*entry) is None,
{
    match entry {
        Entry::Empty => Some(Vec::new()),
        Entry::TooShort => Some(
            vec![73u8, 110, 118, 97, 108, 105, 100, 32, 105, 110, 112, 117, 116],
        ),
        Entry::Dispatch { .. } => None,
    }
}

/// Whether an answer ends its call well or reverts it.
#[derive(Clone, Copy, Debug, PartialEq, Eq, Structural)]
pub enum ReplyFlag {
    Success,
    Revert,
}

/// An answer reverts its call exactly when it opens with the refusal prefix.
pub fn reply_flag(answer: &[u8]) -> (r: ReplyFlag)
    ensures
        r == if answer@.len() >= 4 && answer@.subrange(0, 4) == revert_prefix() {
            ReplyFlag::Revert
        } else {
            ReplyFlag::Success
        },
{
    if answer.len() >= 4 && answer[0] == 0x08 && answer[1] == 0xc3 && answer[2] == 0x79
        && answer[3] == 0xa0 {
        assert(answer@.subrange(0, 4) =~= revert_prefix());
        ReplyFlag::Revert
    } else {
        proof {
            if answer@.len() >= 4 {
                assert(answer@.subrange(0, 4)[0] == answer@[0]);
                assert(answer@.subrange(0, 4)[1] == answer@[1]);
                assert(answer@.subrange(0, 4)[2] == answer@[2]);
                assert(answer@.subrange(0, 4)[3] == answer@[3]);
            }
        }
        ReplyFlag::Success
    }
}

// ---------------------------------------------------------------------------
// Call data
// ---------------------------------------------------------------------------

/// A call with its arguments read. The texts and numbers of a new market
/// are read by `decode_create_market`.
#[derive(Clone, Copy, Debug, PartialEq, Eq)]
pub enum Call {
    Initialize,
    CreateMarket,
    GetMarketCount,
    Trade(TradeRequest),
    AddLiquidity { market_id: u64 },
    RemoveLiquidity { market_id: u64, shares: u64 },
    CalculateTrade { market_id: u64, new_mean: u64, new_variance: u64, size: u64 },
    ClosePosition { position_id: u64 },
    ResolveMarket { market_id: u64, final_mean: u64, final_variance: u64 },
    ClaimWinnings { position_id: u64 },
    /// One of the operations that read a market.
    MarketQuery { operation: Operation, market_id: u64 },
    /// One of the operations that read a market at a point.
    PointQuery { operation: Operation, market_id: u64, x: u64 },
    GetPosition { position_id: u64 },
    GetPositionValue { position_id: u64 },
    GetLpBalance { market_id: u64, holder: Address },
    GetTraderPositions { trader: Address },
}

/// The number that the `i`-th word of `data` stands for.
pub open spec fn word_value(data: Seq<u8>, i: int) -> nat {
    be_value(data.subrange(32 * i, 32 * i + 32))
}

/// The call data holds `count` words, each a number of 64 bits.
pub open spec fn has_uints(data: Seq<u8>, count: nat) -> bool {
    decode_uints_spec(data, count) is Ok
}

/// What reading the arguments of `op` from `data` yields.
pub open spec fn parses_to(op: Operation, data: Seq<u8>, r: Result<Call, Revert>) -> bool {
    let invalid = Err::<Call, Revert>(Revert::InvalidParameters);
    let w = |i: int| word_value(data, i) as u64;
    match op {
        Operation::Initialize => r == Ok::<Call, Revert>(Call::Initialize),
        Operation::CreateMarket => r == Ok::<Call, Revert>(Call::CreateMarket),
        Operation::GetMarketCount => r == Ok::<Call, Revert>(Call::GetMarketCount),
        Operation::TradeDistribution => r == if has_uints(data, 5) {
            Ok(
                Call::Trade(
                    TradeRequest {
                        market_id: w(0),
                        new_mean: w(1),
                        new_variance: w(2),
                        size: w(3),
                        max_cost: w(4),
                    },
                ),
            )
        } else {
            invalid
        },
        Operation::AddLiquidity => r == if has_uints(data, 1) {
            Ok(Call::AddLiquidity { market_id: w(0) })
        } else {
            invalid
        },
        Operation::RemoveLiquidity => r == if has_uints(data, 2) {
            Ok(Call::RemoveLiquidity { market_id: w(0), shares: w(1) })
        } else {
            invalid
        },
        Operation::CalculateTrade => r == if has_uints(data, 4) {
            Ok(
                Call::CalculateTrade {
                    market_id: w(0),
                    new_mean: w(1),
                    new_variance: w(2),
                    size: w(3),
                },
            )
        } else {
            invalid
        },
        Operation::ClosePosition => r == if has_uints(data, 1) {
            Ok(Call::ClosePosition { position_id: w(0) })
        } else {
            Err(Revert::CloseInvalidParameters)
        },
        Operation::ResolveMarket => r == if has_uints(data, 3) {
            Ok(Call::ResolveMarket { market_id: w(0), final_mean: w(1), final_variance: w(2) })
        } else {
            invalid
        },
        Operation::ClaimWinnings => r == if has_uints(data, 1) {
            Ok(Call::ClaimWinnings { position_id: w(0) })
        } else {
            invalid
        },
        Operation::GetPosition => r == if has_uints(data, 1) {
            Ok(Call::GetPosition { position_id: w(0) })
        } else {
            invalid
        },
        Operation::GetPositionValue => r == if has_uints(data, 1) {
            Ok(Call::GetPositionValue { position_id: w(0) })
        } else {
            invalid
        },
        Operation::GetMarketState
        | Operation::GetMetadata
        | Operation::GetExpectedValue
        | Operation::GetBounds
        | Operation::GetMarketInfo
        | Operation::GetTvl => r == if has_uints(data, 1) {
            Ok(Call::MarketQuery { operation: op, market_id: w(0) })
        } else {
            invalid
        },
        Operation::GetConsensus
        | Operation::GetAmmHoldings
        | Operation::EvaluateAt
        | Operation::GetCdf => r == if has_uints(data, 2) {
            Ok(Call::PointQuery { operation: op, market_id: w(0), x: w(1) })
        } else {
            invalid
        },
        Operation::GetLpBalance => if data.len() >= 64 && word_value(data, 0) <= u64::MAX {
            r matches Ok(Call::GetLpBalance { market_id, holder }) && market_id == w(0) && holder@
                == data.subrange(44, 64)
        } else {
            r == invalid
        },
        Operation::GetTraderPositions => if data.len() >= 32 {
            r matches Ok(Call::GetTraderPositions { trader }) && trader@ == data.subrange(12, 32)
        } else {
            r == invalid
        },
    }
}

fn first_uint(data: &[u8]) -> (r: Option<u64>)
    ensures
        r == if has_uints(data@, 1) {
            Some(word_value(data@, 0) as u64)
        } else {
            None::<u64>
        },
{
    match decode_uints(data, 1) {
        Ok(v) => Some(v[0]),
        Err(_) => None,
    }
}

fn uint_and_address(data: &[u8]) -> (r: Option<(u64, Address)>)
    ensures
        data@.len() >= 64 && word_value(data@, 0) <= u64::MAX <==> r is Some,
        r matches Some((v, a)) ==> v == word_value(data@, 0) && a@ == data@.subrange(44, 64),
{
    let mut kinds: Vec<AbiKind> = Vec::new();
    kinds.push(AbiKind::Uint);
    kinds.push(AbiKind::Address);
    let values = match abi_decode(&kinds, data) {
        Some(v) => v,
        None => {
            return None;
        },
    };
    proof {
        let terms = static_decoding(kinds@, data@)->Some_0;
        assert(terms_of(values@)[0] == values@[0]@);
        assert(terms_of(values@)[1] == values@[1]@);
        assert(terms[0] == word_term(kinds@[0], data@.subrange(0, 32)));
        assert(terms[1] == word_term(kinds@[1], data@.subrange(32, 64)));
        assert(data@.subrange(32, 64).subrange(12, 32) =~= data@.subrange(44, 64));
    }
    let v = match &values[0] {
        AbiValue::Uint(w) => match w.to_u64() {
            Some(v) => v,
            None => {
                return None;
            },
        },
        _ => {
            return None;
        },
    };
    match &values[1] {
        AbiValue::Address(a) => Some((v, *a)),
        _ => None,
    }
}

fn one_address(data: &[u8]) -> (r: Option<Address>)
    ensures
        data@.len() >= 32 <==> r is Some,
        r matches Some(a) ==> a@ == data@.subrange(12, 32),
{
    let mut kinds: Vec<AbiKind> = Vec::new();
    kinds.push(AbiKind::Address);
    let values = match abi_decode(&kinds, data) {
        Some(v) => v,
        None => {
            return None;
        },
    };
    proof {
        let terms = static_decoding(kinds@, data@)->Some_0;
        assert(terms_of(values@)[0] == values@[0]@);
        assert(terms[0] == word_term(kinds@[0], data@.subrange(0, 32)));
        assert(data@.subrange(0, 32).subrange(12, 32) =~= data@.subrange(12, 32));
    }
    match &values[0] {
        AbiValue::Address(a) => Some(*a),
        _ => None,
    }
}

/// Reads the arguments of `op` from `data`. Numbers are words of 64 bits,
/// an address is the last twenty bytes of its word; what is shorter than
/// its words, or holds a larger number, is refused.
pub fn parse_call(op: Operation, data: &[u8]) -> (r: Result<Call, Revert>)
    ensures
        parses_to(op, data@, r),
{
    match op {
        Operation::Initialize => Ok(Call::Initialize),
        Operation::CreateMarket => Ok(Call::CreateMarket),
        Operation::GetMarketCount => Ok(Call::GetMarketCount),
        Operation::TradeDistribution => match decode_uints(data, 5) {
            Err(e) => Err(e),
            Ok(v) => Ok(
                Call::Trade(
                    TradeRequest {
                        market_id: v[0],
                        new_mean: v[1],
                        new_variance: v[2],
                        size: v[3],
                        max_cost: v[4],
                    },
                ),
            ),
        },
        Operation::AddLiquidity => match first_uint(data) {
            None => Err(Revert::InvalidParameters),
            Some(market_id) => Ok(Call::AddLiquidity { market_id }),
        },
        Operation::RemoveLiquidity => match decode_uints(data, 2) {
            Err(e) => Err(e),
            Ok(v) => Ok(Call::RemoveLiquidity { market_id: v[0], shares: v[1] }),
        },
        Operation::CalculateTrade => match decode_uints(data, 4) {
            Err(e) => Err(e),
            Ok(v) => Ok(
                Call::CalculateTrade {
                    market_id: v[0],
                    new_mean: v[1],
                    new_variance: v[2],
                    size: v[3],
                },
            ),
        },
        Operation::ClosePosition => match first_uint(data) {
            None => Err(Revert::CloseInvalidParameters),
            Some(position_id) => Ok(Call::ClosePosition { position_id }),
        },
        Operation::ResolveMarket => match decode_uints(data, 3) {
            Err(e) => Err(e),
            Ok(v) => Ok(
                Call::ResolveMarket { market_id: v[0], final_mean: v[1], final_variance: v[2] },
            ),
        },
        Operation::ClaimWinnings => match first_uint(data) {
            None => Err(Revert::InvalidParameters),
            Some(position_id) => Ok(Call::ClaimWinnings { position_id }),
        },
        Operation::GetPosition => match first_uint(data) {
            None => Err(Revert::InvalidParameters),
            Some(position_id) => Ok(Call::GetPosition { position_id }),
        },
        Operation::GetPositionValue => match first_uint(data) {
            None => Err(Revert::InvalidParameters),
            Some(position_id) => Ok(Call::GetPositionValue { position_id }),
        },
        Operation::GetMarketState
        | Operation::GetMetadata
        | Operation::GetExpectedValue
        | Operation::GetBounds
        | Operation::GetMarketInfo
        | Operation::GetTvl => match first_uint(data) {
            None => Err(Revert::InvalidParameters),
            Some(market_id) => Ok(Call::MarketQuery { operation: op, market_id }),
        },
        Operation::GetConsensus
        | Operation::GetAmmHoldings
        | Operation::EvaluateAt
        | Operation::GetCdf => match decode_uints(data, 2) {
            Err(e) => Err(e),
            Ok(v) => Ok(Call::PointQuery { operation: op, market_id: v[0], x: v[1] }),
        },
        Operation::GetLpBalance => match uint_and_address(data) {
            None => Err(Revert::InvalidParameters),
            Some((market_id, holder)) => Ok(Call::GetLpBalance { market_id, holder }),
        },
        Operation::GetTraderPositions => match one_address(data) {
            None => Err(Revert::InvalidParameters),
            Some(trader) => Ok(Call::GetTraderPositions { trader }),
        },
    }
}

/// What a call brings to open a market: three texts and four numbers.
#[derive(Clone, Debug, PartialEq, Eq)]
pub struct CreateMarketArgs {
    pub title: String,
    pub description: String,
    pub criteria: String,
    pub new: NewMarket,
}

/// The kinds of the arguments of `create_market`.
pub open spec fn create_market_kinds() -> Seq<AbiKind> {
    seq![
        AbiKind::Text,
        AbiKind::Text,
        AbiKind::Text,
        AbiKind::Uint,
        AbiKind::Uint,
        AbiKind::Uint,
        AbiKind::Uint,
    ]
}

/// The values are three texts and then four numbers of 64 bits.
pub open spec fn is_create_market_terms(terms: Seq<AbiTerm>) -> bool {
    &&& terms.len() == 7
    &&& terms[0] is Text
    &&& terms[1] is Text
    &&& terms[2] is Text
    &&& terms[3] matches AbiTerm::Uint(a) && a <= u64::MAX
    &&& terms[4] matches AbiTerm::Uint(b) && b <= u64::MAX
    &&& terms[5] matches AbiTerm::Uint(c) && c <= u64::MAX
    &&& terms[6] matches AbiTerm::Uint(d) && d <= u64::MAX
}

/// `args` is what `terms` hold.
pub open spec fn holds_create_market(terms: Seq<AbiTerm>, args: CreateMarketArgs) -> bool {
    &&& terms[0] == AbiTerm::Text(args.title@)
    &&& terms[1] == AbiTerm::Text(args.description@)
    &&& terms[2] == AbiTerm::Text(args.criteria@)
    &&& terms[3] == AbiTerm::Uint(args.new.close_time as nat)
    &&& terms[4] == AbiTerm::Uint(args.new.k_norm as nat)
    &&& terms[5] == AbiTerm::Uint(args.new.initial_mean as nat)
    &&& terms[6] == AbiTerm::Uint(args.new.initial_variance as nat)
}

fn uint_value(v: &AbiValue) -> (r: Option<u64>)
    ensures
        r matches Some(n) ==> v@ == AbiTerm::Uint(n as nat),
        r is None ==> !(v@ matches AbiTerm::Uint(n) && n <= u64::MAX),
{
    match v {
        AbiValue::Uint(w) => w.to_u64(),
        _ => None,
    }
}

fn text_value(v: &AbiValue) -> (r: Option<String>)
    ensures
        r matches Some(s) ==> v@ == AbiTerm::Text(s@),
        r is None ==> !(v@ is Text),
{
    match v {
        AbiValue::Text(s) => Some(s.clone()),
        _ => None,
    }
}

/// The arguments of `create_market` out of the values read from a call:
/// three texts and four numbers of 64 bits, and nothing else.
pub fn create_market_args(values: &Vec<AbiValue>) -> (r: Result<CreateMarketArgs, Revert>)
    ensures
        is_create_market_terms(terms_of(values@)) <==> r is Ok,
        r matches Ok(args) ==> holds_create_market(terms_of(values@), args),
        r matches Err(e) ==> e == Revert::InvalidParameters,
{
    if values.len() != 7 {
        return Err(Revert::InvalidParameters);
    }
    proof {
        assert(terms_of(values@)[0] == values@[0]@);
        assert(terms_of(values@)[1] == values@[1]@);
        assert(terms_of(values@)[2] == values@[2]@);
        assert(terms_of(values@)[3] == values@[3]@);
        assert(terms_of(values@)[4] == values@[4]@);
        assert(terms_of(values@)[5] == values@[5]@);
        assert(terms_of(values@)[6] == values@[6]@);
    }
    let title = match text_value(&values[0]) {
        Some(v) => v,
        None => {
            return Err(Revert::InvalidParameters);
        },
    };
    let description = match text_value(&values[1]) {
        Some(v) => v,
        None => {
            return Err(Revert::InvalidParameters);
        },
    };
    let criteria = match text_value(&values[2]) {
        Some(v) => v,
        None => {
            return Err(Revert::InvalidParameters);
        },
    };
    let close_time = match uint_value(&values[3]) {
        Some(v) => v,
        None => {
            return Err(Revert::InvalidParameters);
        },
    };
    let k_norm = match uint_value(&values[4]) {
        Some(v) => v,
        None => {
            return Err(Revert::InvalidParameters);
        },
    };
    let initial_mean = match uint_value(&values[5]) {
        Some(v) => v,
        None => {
            return Err(Revert::InvalidParameters);
        },
    };
    let initial_variance = match uint_value(&values[6]) {
        Some(v) => v,
        None => {
            return Err(Revert::InvalidParameters);
        },
    };
    Ok(
        CreateMarketArgs {
            title,
            description,
            criteria,
            new: NewMarket { close_time, k_norm, initial_mean, initial_variance },
        },
    )
}

/// Reads the arguments of `create_market` from call data: refused where the
/// codec refuses the data, and where a number has more than 64 bits.
pub fn decode_create_market(data: &[u8]) -> (r: Result<CreateMarketArgs, Revert>)
    ensures
        r is Ok <==> (abi_decoding(create_market_kinds(), data@) matches Some(terms)
            && is_create_market_terms(terms)),
        r matches Ok(args) ==> holds_create_market(
            abi_decoding(create_market_kinds(), data@)->Some_0,
            args,
        ),
        r matches Err(e) ==> e == Revert::InvalidParameters,
{
    let kinds: Vec<AbiKind> = vec![
        AbiKind::Text,
        AbiKind::Text,
        AbiKind::Text,
        AbiKind::Uint,
        AbiKind::Uint,
        AbiKind::Uint,
        AbiKind::Uint,
    ];
    assert(kinds@ =~= create_market_kinds());
    match abi_decode(&kinds, data) {
        None => Err(Revert::InvalidParameters),
        Some(values) => create_market_args(&values),
    }
}

// ---------------------------------------------------------------------------
// Answers
// ---------------------------------------------------------------------------

/// What `get_market_state` answers: mean, variance, `K`, backing, shares,
/// peak, status, fees and scale.
pub open spec fn market_state_terms(m: Market) -> Seq<AbiTerm> {
    seq![
        AbiTerm::Uint(m.current_mean as nat),
        AbiTerm::Uint(m.current_variance as nat),
        AbiTerm::Uint(m.k_norm as nat),
        AbiTerm::Uint(m.b_backing as nat),
        AbiTerm::Uint(m.total_lp_shares as nat),
        AbiTerm::Uint(m.k_norm as nat),
        AbiTerm::Uint(m.status as nat),
        AbiTerm::Uint(m.accumulated_fees as nat),
        AbiTerm::Uint(value_or(lambda_spec(m.k_norm, m.current_variance), 0) as nat),
    ]
}

fn lambda_or_zero(m: &Market) -> (r: u64)
    ensures
        r == value_or(lambda_spec(m.k_norm, m.current_variance), 0),
{
    match calculate_lambda(m.k_norm, m.current_variance) {
        Ok(v) => v,
        Err(_) => 0,
    }
}

/// The answer of `get_market_state`.
pub fn encode_market_state(m: &Market) -> (r: Vec<u8>)
    ensures
        r@ == static_encoding(market_state_terms(*m)),
{
    let values: Vec<AbiValue> = vec![
        unsigned(m.current_mean),
        unsigned(m.current_variance),
        unsigned(m.k_norm),
        unsigned(m.b_backing),
        unsigned(m.total_lp_shares),
        unsigned(m.k_norm),
        unsigned(m.status as u64),
        unsigned(m.accumulated_fees),
        unsigned(lambda_or_zero(m)),
    ];
    assert(terms_of(values@) =~= market_state_terms(*m));
    encode_values(&values)
}

/// What `get_market_info` answers, in eighteen fields.
pub open spec fn market_info_terms(m: Market) -> Seq<AbiTerm> {
    seq![
        AbiTerm::Address(m.creator@),
        AbiTerm::Uint(m.creation_time as nat),
        AbiTerm::Uint(m.close_time as nat),
        AbiTerm::Uint(m.k_norm as nat),
        AbiTerm::Uint(m.b_backing as nat),
        AbiTerm::Uint(m.current_mean as nat),
        AbiTerm::Uint(m.current_variance as nat),
        AbiTerm::Uint(value_or(lambda_spec(m.k_norm, m.current_variance), 0) as nat),
        AbiTerm::Uint(m.total_lp_shares as nat),
        AbiTerm::Uint(m.total_backing as nat),
        AbiTerm::Uint(m.accumulated_fees as nat),
        AbiTerm::Uint(m.k_norm as nat),
        AbiTerm::Uint(value_or(min_variance_spec(m.k_norm, m.b_backing), 0) as nat),
        AbiTerm::Uint(m.total_volume as nat),
        AbiTerm::Uint(m.status as nat),
        AbiTerm::Uint(m.current_mean as nat),
        AbiTerm::Uint(distribution_bounds_spec(m.current_mean, m.current_variance).0 as nat),
        AbiTerm::Uint(distribution_bounds_spec(m.current_mean, m.current_variance).1 as nat),
    ]
}

/// The answer of `get_market_info`.
pub fn encode_market_info(m: &Market) -> (r: Vec<u8>)
    ensures
        r@ == static_encoding(market_info_terms(*m)),
{
    let min_variance = match calculate_min_variance(m.k_norm, m.b_backing) {
        Ok(v) => v,
        Err(_) => 0,
    };
    let expected_value = calculate_expected_value(m.current_mean, m.current_variance);
    let (lower_bound, upper_bound) = get_distribution_bounds(m.current_mean, m.current_variance);
    let values: Vec<AbiValue> = vec![
        AbiValue::Address(m.creator),
        unsigned(m.creation_time),
        unsigned(m.close_time),
        unsigned(m.k_norm),
        unsigned(m.b_backing),
        unsigned(m.current_mean),
        unsigned(m.current_variance),
        unsigned(lambda_or_zero(m)),
        unsigned(m.total_lp_shares),
        unsigned(m.total_backing),
        unsigned(m.accumulated_fees),
        unsigned(m.k_norm),
        unsigned(min_variance),
        unsigned(m.total_volume),
        unsigned(m.status as u64),
        unsigned(expected_value),
        unsigned(lower_bound),
        unsigned(upper_bound),
    ];
    assert(terms_of(values@) =~= market_info_terms(*m));
    encode_values(&values)
}

/// What `get_position` answers, in seventeen fields; the profit stands in
/// two's complement.
pub open spec fn position_terms(p: Position) -> Seq<AbiTerm> {
    seq![
        AbiTerm::Uint(p.position_id as nat),
        AbiTerm::Address(p.trader@),
        AbiTerm::Uint(p.market_id as nat),
        AbiTerm::Uint(p.from_mean as nat),
        AbiTerm::Uint(p.from_variance as nat),
        AbiTerm::Uint(p.to_mean as nat),
        AbiTerm::Uint(p.to_variance as nat),
        AbiTerm::Uint(p.size as nat),
        AbiTerm::Uint(p.collateral_locked as nat),
        AbiTerm::Uint(p.cost_basis as nat),
        AbiTerm::Uint(p.opened_at as nat),
        AbiTerm::Uint(p.is_open as nat),
        AbiTerm::Uint(p.closed_at as nat),
        AbiTerm::Uint(p.exit_value as nat),
        AbiTerm::Uint(p.fees_paid as nat),
        AbiTerm::Uint(twos_complement(p.realized_pnl as int)),
        AbiTerm::Uint(p.claimed as nat),
    ]
}

/// The answer of `get_position`.
pub fn encode_position_answer(p: &Position) -> (r: Vec<u8>)
    ensures
        r@ == static_encoding(position_terms(*p)),
{
    let values: Vec<AbiValue> = vec![
        unsigned(p.position_id),
        AbiValue::Address(p.trader),
        unsigned(p.market_id),
        unsigned(p.from_mean),
        unsigned(p.from_variance),
        unsigned(p.to_mean),
        unsigned(p.to_variance),
        unsigned(p.size),
        unsigned(p.collateral_locked),
        unsigned(p.cost_basis),
        unsigned(p.opened_at),
        unsigned(p.is_open as u64),
        unsigned(p.closed_at),
        unsigned(p.exit_value),
        unsigned(p.fees_paid),
        signed(p.realized_pnl),
        unsigned(p.claimed as u64),
    ];
    assert(terms_of(values@) =~= position_terms(*p));
    encode_values(&values)
}

/// The answer of `close_position`: the value paid, and the profit in two's
/// complement.
pub fn encode_close_answer(value: u64, realized_pnl: i64) -> (r: Vec<u8>)
    ensures
        r@ == static_encoding(
            seq![
                AbiTerm::Uint(value as nat),
                AbiTerm::Uint(twos_complement(realized_pnl as int)),
            ],
        ),
{
    let values: Vec<AbiValue> = vec![unsigned(value), signed(realized_pnl)];
    assert(terms_of(values@) =~= seq![
        AbiTerm::Uint(value as nat),
        AbiTerm::Uint(twos_complement(realized_pnl as int)),
    ]);
    encode_values(&values)
}

/// The answer of `get_metadata`: the three texts of a metadata record, each
/// empty where its bytes are no UTF-8.
pub fn encode_metadata_answer(title: &[u8], description: &[u8], criteria: &[u8]) -> (r: Vec<u8>)
    ensures
        r@ == abi_encoding(
            seq![
                AbiTerm::Text(text_of(title@)),
                AbiTerm::Text(text_of(description@)),
                AbiTerm::Text(text_of(criteria@)),
            ],
        ),
{
    let values: Vec<AbiValue> = vec![text(title), text(description), text(criteria)];
    assert(terms_of(values@) =~= seq![
        AbiTerm::Text(text_of(title@)),
        AbiTerm::Text(text_of(description@)),
        AbiTerm::Text(text_of(criteria@)),
    ]);
    encode_values(&values)
}

/// The answer of `get_trader_positions`: the ids as one array.
pub fn encode_trader_positions(ids: &Vec<u64>) -> (r: Vec<u8>)
    ensures
        r@ == abi_encoding(seq![AbiTerm::UintArray(ids@.map_values(|v: u64| v as nat))]),
{
    let mut words: Vec<Word> = Vec::new();
    let mut i: usize = 0;
    while i < ids.len()
        invariant
            i <= ids@.len(),
            words@.len() == i,
            forall|j: int| 0 <= j < i ==> (#[trigger] words@[j])@ == ids@[j] as nat,
        decreases ids@.len() - i,
    {
        words.push(Word::from_u64(ids[i]));
        i += 1;
    }
    let values: Vec<AbiValue> = vec![AbiValue::UintArray(words)];
    assert(words@.map_values(|w: Word| w@) =~= ids@.map_values(|v: u64| v as nat));
    assert(terms_of(values@) =~= seq![
        AbiTerm::UintArray(ids@.map_values(|v: u64| v as nat)),
    ]);
    encode_values(&values)
}

/// The numbers that an operation answers for a market at the point `x`:
/// capped density and holdings for `GetConsensus`, density and capped
/// density for `EvaluateAt`, the distribution function for `GetCdf`, the
/// holdings for `GetAmmHoldings`; none for any other operation.
pub open spec fn point_answer(op: Operation, m: Market, x: u64) -> Seq<u64> {
    match op {
        Operation::GetConsensus => seq![capped_density_spec(x, m), amm_holdings_spec(x, m)],
        Operation::EvaluateAt => seq![
            normal_pdf_spec(x, m.current_mean, m.current_variance),
            capped_density_spec(x, m),
        ],
        Operation::GetCdf => seq![normal_cdf_spec(x, m.current_mean, m.current_variance)],
        Operation::GetAmmHoldings => seq![amm_holdings_spec(x, m)],
        _ => Seq::empty(),
    }
}

/// The answer of an operation that reads a market at a point.
pub fn answer_point_query(op: Operation, m: &Market, x: u64) -> (r: Vec<u8>)
    ensures
        r@ == static_encoding(uint_terms(point_answer(op, *m, x))),
{
    let values: Vec<u64> = match op {
        Operation::GetConsensus => vec![capped_density(x, m), calculate_amm_holdings(x, m)],
        Operation::EvaluateAt => vec![
            normal_pdf(x, m.current_mean, m.current_variance),
            capped_density(x, m),
        ],
        Operation::GetCdf => vec![normal_cdf(x, m.current_mean, m.current_variance)],
        Operation::GetAmmHoldings => vec![calculate_amm_holdings(x, m)],
        _ => Vec::new(),
    };
    assert(values@ =~= point_answer(op, *m, x));
    encode_uints(&values)
}

/// What an operation that reads a market answers: the state, the expected
/// value, the bounds, the eighteen fields, or the value locked; nothing for
/// any other operation.
pub open spec fn market_answer(op: Operation, m: Market) -> Result<Seq<AbiTerm>, Revert> {
    match op {
        Operation::GetMarketState => Ok(market_state_terms(m)),
        Operation::GetExpectedValue => Ok(uint_terms(seq![m.current_mean])),
        Operation::GetBounds => Ok(
            uint_terms(
                seq![
                    distribution_bounds_spec(m.current_mean, m.current_variance).0,
                    distribution_bounds_spec(m.current_mean, m.current_variance).1,
                ],
            ),
        ),
        Operation::GetMarketInfo => Ok(market_info_terms(m)),
        Operation::GetTvl => if m.total_backing + m.accumulated_fees > u64::MAX {
            Err(Revert::ArithmeticOverflow)
        } else {
            Ok(uint_terms(seq![(m.total_backing + m.accumulated_fees) as u64]))
        },
        _ => Ok(Seq::empty()),
    }
}

/// The answer of an operation that reads a market.
pub fn answer_market_query(op: Operation, m: &Market) -> (r: Result<Vec<u8>, Revert>)
    ensures
        r matches Ok(bytes) ==> market_answer(op, *m) matches Ok(terms) && bytes@
            == static_encoding(terms),
        r matches Err(e) ==> market_answer(op, *m) == Err::<Seq<AbiTerm>, Revert>(e),
{
    match op {
        Operation::GetMarketState => Ok(encode_market_state(m)),
        Operation::GetExpectedValue => {
            let values: Vec<u64> = vec![
                calculate_expected_value(m.current_mean, m.current_variance),
            ];
            assert(values@ =~= seq![m.current_mean]);
            Ok(encode_uints(&values))
        },
        Operation::GetBounds => {
            let (lower, upper) = get_distribution_bounds(m.current_mean, m.current_variance);
            let values: Vec<u64> = vec![lower, upper];
            assert(values@ =~= seq![
                distribution_bounds_spec(m.current_mean, m.current_variance).0,
                distribution_bounds_spec(m.current_mean, m.current_variance).1,
            ]);
            Ok(encode_uints(&values))
        },
        Operation::GetMarketInfo => Ok(encode_market_info(m)),
        Operation::GetTvl => match total_value_locked(m) {
            Err(e) => Err(e),
            Ok(tvl) => {
                let values: Vec<u64> = vec![tvl];
                assert(values@ =~= seq![tvl]);
                Ok(encode_uints(&values))
            },
        },
        _ => {
            let values: Vec<u64> = Vec::new();
            assert(uint_terms(values@) =~= Seq::<AbiTerm>::empty());
            Ok(encode_uints(&values))
        },
    }
}

} // verus!
