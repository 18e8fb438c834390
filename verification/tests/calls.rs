use distribution_market::abi::{
    decode_uints, encode_bool, encode_refusal, encode_revert, encode_uints, encode_values,
    AbiValue, Word,
};
use distribution_market::dispatch::{
    answer_market_query, answer_point_query, answer_undispatched, classify_call, create_market_args, decode_create_market, encode_close_answer,
    encode_market_info, encode_market_state, encode_metadata_answer, encode_position_answer,
    encode_trader_positions, operation_of, parse_call, reply_flag, take_up, Call, CreateMarketArgs, Entry,
    Operation, ReplyFlag,
};
use distribution_market::fixed::DECIMALS;
use distribution_market::lifecycle::{NewMarket, Revert, TradeRequest};
use distribution_market::records::{Market, Position};
use ethabi::ethereum_types::U256;
use ethabi::Token;

const D: u64 = DECIMALS;

fn word(v: u64) -> Vec<u8> {
    let mut w = vec![0u8; 24];
    w.extend_from_slice(&v.to_be_bytes());
    w
}

fn words(values: &[u64]) -> Vec<u8> {
    let mut out = Vec::new();
    for v in values {
        out.extend_from_slice(&word(*v));
    }
    out
}

fn address_word(a: [u8; 20]) -> Vec<u8> {
    let mut w = vec![0u8; 12];
    w.extend_from_slice(&a);
    w
}

fn padded_text(text: &[u8]) -> Vec<u8> {
    let mut out = word(text.len() as u64);
    out.extend_from_slice(text);
    while out.len() % 32 != 0 {
        out.push(0);
    }
    out
}

fn sample_market() -> Market {
    Market {
        creator: [0xc1; 20],
        creation_time: 11,
        close_time: 2_000_000,
        k_norm: 10 * D,
        b_backing: 10 * D,
        current_mean: 50 * D,
        current_variance: 4 * D,
        total_lp_shares: 10 * D,
        total_backing: 10 * D + 1,
        accumulated_fees: 5,
        next_position_id: 1,
        total_volume: 77,
        status: 1,
        resolution_mean: 0,
        resolution_variance: 0,
    }
}

#[test]
fn revert_is_the_prefix_and_the_encoded_reason() {
    let bytes = encode_revert("Already claimed");
    let mut expected = vec![0x08, 0xc3, 0x79, 0xa0];
    expected.extend_from_slice(&word(32));
    expected.extend_from_slice(&padded_text(b"Already claimed"));
    assert_eq!(bytes, expected);
    assert_eq!(bytes.len(), 4 + 96);
    assert_eq!(encode_refusal(&Revert::AlreadyClaimed), expected);
}

#[test]
fn revert_of_the_empty_and_of_a_long_reason() {
    let mut expected = vec![0x08, 0xc3, 0x79, 0xa0];
    expected.extend_from_slice(&word(32));
    expected.extend_from_slice(&word(0));
    assert_eq!(encode_revert(""), expected);
    let long = "Market variance would violate constraint";
    let bytes = encode_revert(long);
    assert_eq!(bytes.len(), 4 + 32 + 32 + 64);
    assert_eq!(&bytes[68..68 + long.len()], long.as_bytes());
    assert_eq!(encode_refusal(&Revert::VarianceConstraint), bytes);
}

#[test]
fn uints_are_big_endian_words() {
    assert_eq!(encode_uints(&vec![]), Vec::<u8>::new());
    assert_eq!(encode_uints(&vec![0]), vec![0u8; 32]);
    assert_eq!(encode_uints(&vec![1, 0x0102, u64::MAX]), words(&[1, 0x0102, u64::MAX]));
    let one = encode_uints(&vec![0x0102_0304_0506_0708]);
    assert_eq!(&one[0..24], &[0u8; 24]);
    assert_eq!(&one[24..32], &[1, 2, 3, 4, 5, 6, 7, 8]);
}

#[test]
fn bool_is_one_word() {
    assert_eq!(encode_bool(true), word(1));
    assert_eq!(encode_bool(false), word(0));
}

#[test]
fn values_of_every_kind_encode_as_the_codec_does() {
    let values = vec![
        AbiValue::Uint(Word { w0: 1, w1: 2, w2: 3, w3: 4 }),
        AbiValue::Address([0xaa; 20]),
        AbiValue::Bool(true),
        AbiValue::Text("T".to_string()),
        AbiValue::UintArray(vec![Word { w0: 9, w1: 0, w2: 0, w3: 0 }]),
    ];
    let tokens = vec![
        Token::Uint(U256([1, 2, 3, 4])),
        Token::Address([0xaa; 20].into()),
        Token::Bool(true),
        Token::String("T".to_string()),
        Token::Array(vec![Token::Uint(U256::from(9u64))]),
    ];
    assert_eq!(encode_values(&values), ethabi::encode(&tokens));
    let bytes = encode_values(&values[0..3].to_vec());
    let mut expected = Vec::new();
    expected.extend_from_slice(&4u64.to_be_bytes());
    expected.extend_from_slice(&3u64.to_be_bytes());
    expected.extend_from_slice(&2u64.to_be_bytes());
    expected.extend_from_slice(&1u64.to_be_bytes());
    expected.extend_from_slice(&address_word([0xaa; 20]));
    expected.extend_from_slice(&word(1));
    assert_eq!(bytes, expected);
}

#[test]
fn word_conversions() {
    assert_eq!(Word::from_u64(7), Word { w0: 7, w1: 0, w2: 0, w3: 0 });
    assert_eq!(Word::from_u64(7).to_u64(), Some(7));
    assert_eq!(Word { w0: u64::MAX, w1: 0, w2: 0, w3: 0 }.to_u64(), Some(u64::MAX));
    assert_eq!(Word { w0: 0, w1: 1, w2: 0, w3: 0 }.to_u64(), None);
    assert_eq!(Word { w0: 0, w1: 0, w2: 1, w3: 0 }.to_u64(), None);
    assert_eq!(Word { w0: 5, w1: 0, w2: 0, w3: 1 }.to_u64(), None);
    assert_eq!(Word::from_i64(5), Word { w0: 5, w1: 0, w2: 0, w3: 0 });
    assert_eq!(Word::from_i64(-1), Word { w0: u64::MAX, w1: u64::MAX, w2: u64::MAX, w3: u64::MAX });
    assert_eq!(Word::from_i64(-2), Word { w0: u64::MAX - 1, w1: u64::MAX, w2: u64::MAX, w3: u64::MAX });
    assert_eq!(
        Word::from_i64(i64::MIN),
        Word { w0: 1 << 63, w1: u64::MAX, w2: u64::MAX, w3: u64::MAX }
    );
    assert_eq!(Word::from_i64(i64::MAX), Word { w0: i64::MAX as u64, w1: 0, w2: 0, w3: 0 });
}

#[test]
fn uints_decode_from_full_words() {
    assert_eq!(decode_uints(&words(&[5, 6, 7]), 3), Ok(vec![5, 6, 7]));
    assert_eq!(decode_uints(&words(&[5, 6, 7]), 2), Ok(vec![5, 6]));
    assert_eq!(decode_uints(&words(&[u64::MAX]), 1), Ok(vec![u64::MAX]));
    assert_eq!(decode_uints(&[], 0), Ok(vec![]));
}

#[test]
fn uints_that_are_short_or_too_large_are_refused() {
    assert_eq!(decode_uints(&[], 1), Err(Revert::InvalidParameters));
    assert_eq!(decode_uints(&words(&[5])[..31], 1), Err(Revert::InvalidParameters));
    assert_eq!(decode_uints(&words(&[5, 6]), 3), Err(Revert::InvalidParameters));
    let mut large = word(1);
    large[23] = 1;
    assert_eq!(decode_uints(&large, 1), Err(Revert::InvalidParameters));
    let mut second_large = words(&[1, 2]);
    second_large[32] = 0x80;
    assert_eq!(decode_uints(&second_large, 2), Err(Revert::InvalidParameters));
    assert_eq!(decode_uints(&second_large, 1), Ok(vec![1]));
}

#[test]
fn selectors_name_their_operations() {
    assert_eq!(operation_of(&[0x81, 0x29, 0xfc, 0x1c]), Some(Operation::Initialize));
    assert_eq!(operation_of(&[0x44, 0xb8, 0x5a, 0x62]), Some(Operation::CreateMarket));
    assert_eq!(operation_of(&[0x72, 0x26, 0x13, 0x33]), Some(Operation::AddLiquidity));
    assert_eq!(operation_of(&[0x88, 0xb2, 0x26, 0x37]), Some(Operation::RemoveLiquidity));
    assert_eq!(operation_of(&[0x6c, 0xfa, 0x49, 0x1b]), Some(Operation::CalculateTrade));
    assert_eq!(operation_of(&[0x5e, 0xa5, 0xec, 0xce]), Some(Operation::TradeDistribution));
    assert_eq!(operation_of(&[0x38, 0x4c, 0x07, 0xe6]), Some(Operation::ClosePosition));
    assert_eq!(operation_of(&[0x6d, 0x22, 0x83, 0xa4]), Some(Operation::ResolveMarket));
    assert_eq!(operation_of(&[0x08, 0xf7, 0xed, 0x50]), Some(Operation::ClaimWinnings));
    assert_eq!(operation_of(&[0x20, 0x1d, 0x2f, 0x2b]), Some(Operation::GetMarketState));
    assert_eq!(operation_of(&[0xb9, 0xf2, 0xf5, 0xbb]), Some(Operation::GetConsensus));
    assert_eq!(operation_of(&[0x3b, 0x51, 0x07, 0x6f]), Some(Operation::EvaluateAt));
    assert_eq!(operation_of(&[0xd8, 0xff, 0xb3, 0x5a]), Some(Operation::GetCdf));
    assert_eq!(operation_of(&[0x92, 0xac, 0xfd, 0xf9]), Some(Operation::GetExpectedValue));
    assert_eq!(operation_of(&[0x35, 0x24, 0xad, 0x0d]), Some(Operation::GetBounds));
    assert_eq!(operation_of(&[0x3c, 0xc4, 0xfc, 0x4a]), Some(Operation::GetMarketInfo));
    assert_eq!(operation_of(&[0x0f, 0x85, 0xfc, 0x5a]), Some(Operation::GetPosition));
    assert_eq!(operation_of(&[0xe6, 0x95, 0x16, 0x61]), Some(Operation::GetPositionValue));
    assert_eq!(operation_of(&[0xee, 0x4c, 0xc8, 0x4c]), Some(Operation::GetTvl));
    assert_eq!(operation_of(&[0x0e, 0x3e, 0x56, 0xf8]), Some(Operation::GetLpBalance));
    assert_eq!(operation_of(&[0x82, 0x51, 0xa2, 0x82]), Some(Operation::GetAmmHoldings));
    assert_eq!(operation_of(&[0x5f, 0xbb, 0xb2, 0xff]), Some(Operation::GetTraderPositions));
    assert_eq!(operation_of(&[0x99, 0x8e, 0x84, 0xa3]), Some(Operation::GetMetadata));
    assert_eq!(operation_of(&[0xfd, 0x69, 0xf3, 0xc2]), Some(Operation::GetMarketCount));
    assert_eq!(operation_of(&[0, 0, 0, 0]), None);
    assert_eq!(operation_of(&[0x81, 0x29, 0xfc, 0x1d]), None);
    assert_eq!(operation_of(&[0x12, 0x34, 0x56, 0x78]), None);
}

#[test]
fn calls_are_sorted_by_their_length() {
    assert_eq!(classify_call(0), Entry::Empty);
    assert_eq!(classify_call(1), Entry::TooShort);
    assert_eq!(classify_call(3), Entry::TooShort);
    assert_eq!(classify_call(4), Entry::Dispatch { data_len: 0 });
    assert_eq!(classify_call(36), Entry::Dispatch { data_len: 32 });
    assert_eq!(classify_call(1004), Entry::Dispatch { data_len: 1000 });
    assert_eq!(classify_call(1005), Entry::Dispatch { data_len: 1000 });
    assert_eq!(classify_call(usize::MAX), Entry::Dispatch { data_len: 1000 });
}

#[test]
fn an_answer_reverts_by_its_prefix() {
    assert_eq!(reply_flag(&[]), ReplyFlag::Success);
    assert_eq!(reply_flag(&[0x08, 0xc3, 0x79]), ReplyFlag::Success);
    assert_eq!(reply_flag(&[0x08, 0xc3, 0x79, 0xa0]), ReplyFlag::Revert);
    assert_eq!(reply_flag(&[0x08, 0xc3, 0x79, 0xa1, 0]), ReplyFlag::Success);
    assert_eq!(reply_flag(&encode_revert("Transfer failed")), ReplyFlag::Revert);
    assert_eq!(reply_flag(&encode_uints(&vec![1])), ReplyFlag::Success);
    assert_eq!(reply_flag(&encode_bool(true)), ReplyFlag::Success);
}

#[test]
fn calls_parse_into_their_arguments() {
    assert_eq!(parse_call(Operation::Initialize, &[]), Ok(Call::Initialize));
    assert_eq!(parse_call(Operation::GetMarketCount, &[1, 2]), Ok(Call::GetMarketCount));
    assert_eq!(parse_call(Operation::CreateMarket, &[]), Ok(Call::CreateMarket));
    assert_eq!(
        parse_call(Operation::TradeDistribution, &words(&[1, 52 * D, 4 * D, D, 13 * D])),
        Ok(Call::Trade(TradeRequest {
            market_id: 1,
            new_mean: 52 * D,
            new_variance: 4 * D,
            size: D,
            max_cost: 13 * D
        }))
    );
    assert_eq!(
        parse_call(Operation::CalculateTrade, &words(&[1, 2, 3, 4])),
        Ok(Call::CalculateTrade { market_id: 1, new_mean: 2, new_variance: 3, size: 4 })
    );
    assert_eq!(parse_call(Operation::AddLiquidity, &words(&[8])), Ok(Call::AddLiquidity { market_id: 8 }));
    assert_eq!(
        parse_call(Operation::RemoveLiquidity, &words(&[8, 9])),
        Ok(Call::RemoveLiquidity { market_id: 8, shares: 9 })
    );
    assert_eq!(parse_call(Operation::ClosePosition, &words(&[3])), Ok(Call::ClosePosition { position_id: 3 }));
    assert_eq!(
        parse_call(Operation::ResolveMarket, &words(&[0, 52 * D, 4 * D])),
        Ok(Call::ResolveMarket { market_id: 0, final_mean: 52 * D, final_variance: 4 * D })
    );
    assert_eq!(parse_call(Operation::ClaimWinnings, &words(&[3])), Ok(Call::ClaimWinnings { position_id: 3 }));
    assert_eq!(parse_call(Operation::GetPosition, &words(&[3])), Ok(Call::GetPosition { position_id: 3 }));
    assert_eq!(
        parse_call(Operation::GetPositionValue, &words(&[3])),
        Ok(Call::GetPositionValue { position_id: 3 })
    );
    assert_eq!(
        parse_call(Operation::GetTvl, &words(&[6])),
        Ok(Call::MarketQuery { operation: Operation::GetTvl, market_id: 6 })
    );
    assert_eq!(
        parse_call(Operation::GetMetadata, &words(&[6])),
        Ok(Call::MarketQuery { operation: Operation::GetMetadata, market_id: 6 })
    );
    assert_eq!(
        parse_call(Operation::GetCdf, &words(&[6, 50 * D])),
        Ok(Call::PointQuery { operation: Operation::GetCdf, market_id: 6, x: 50 * D })
    );
}

#[test]
fn calls_with_addresses_take_the_last_twenty_bytes() {
    let mut data = word(6);
    let mut holder_word = vec![0xffu8; 12];
    holder_word.extend_from_slice(&[0x42; 20]);
    data.extend_from_slice(&holder_word);
    assert_eq!(
        parse_call(Operation::GetLpBalance, &data),
        Ok(Call::GetLpBalance { market_id: 6, holder: [0x42; 20] })
    );
    assert_eq!(
        parse_call(Operation::GetTraderPositions, &address_word([0x17; 20])),
        Ok(Call::GetTraderPositions { trader: [0x17; 20] })
    );
    assert_eq!(parse_call(Operation::GetLpBalance, &data[..63]), Err(Revert::InvalidParameters));
    assert_eq!(parse_call(Operation::GetTraderPositions, &[0u8; 31]), Err(Revert::InvalidParameters));
    let mut large = data.clone();
    large[0] = 1;
    assert_eq!(parse_call(Operation::GetLpBalance, &large), Err(Revert::InvalidParameters));
}

#[test]
fn calls_with_short_data_are_refused() {
    assert_eq!(parse_call(Operation::TradeDistribution, &words(&[1, 2, 3, 4])), Err(Revert::InvalidParameters));
    assert_eq!(parse_call(Operation::AddLiquidity, &[]), Err(Revert::InvalidParameters));
    assert_eq!(parse_call(Operation::GetCdf, &words(&[1])), Err(Revert::InvalidParameters));
    assert_eq!(parse_call(Operation::ClosePosition, &[]), Err(Revert::CloseInvalidParameters));
    assert_eq!(Revert::CloseInvalidParameters.reason(), "DEBUG1: Invalid parameters");
}

#[test]
fn create_market_arguments_decode() {
    let data = ethabi::encode(&[
        Token::String("T".to_string()),
        Token::String("D".to_string()),
        Token::String("C".to_string()),
        Token::Uint(U256::from(2_000_000u64)),
        Token::Uint(U256::from(10 * D)),
        Token::Uint(U256::from(50 * D)),
        Token::Uint(U256::from(4 * D)),
    ]);
    assert_eq!(
        decode_create_market(&data),
        Ok(CreateMarketArgs {
            title: "T".to_string(),
            description: "D".to_string(),
            criteria: "C".to_string(),
            new: NewMarket {
                close_time: 2_000_000,
                k_norm: 10 * D,
                initial_mean: 50 * D,
                initial_variance: 4 * D
            },
        })
    );
}

#[test]
fn create_market_arguments_that_do_not_decode() {
    assert_eq!(decode_create_market(&[]), Err(Revert::InvalidParameters));
    assert_eq!(decode_create_market(&words(&[1, 2, 3, 4, 5, 6, 7])), Err(Revert::InvalidParameters));
    let too_large = ethabi::encode(&[
        Token::String("T".to_string()),
        Token::String("D".to_string()),
        Token::String("C".to_string()),
        Token::Uint(U256::from(2_000_000u64)),
        Token::Uint(U256([0, 1, 0, 0])),
        Token::Uint(U256::from(50 * D)),
        Token::Uint(U256::from(4 * D)),
    ]);
    assert_eq!(decode_create_market(&too_large), Err(Revert::InvalidParameters));
}

#[test]
fn create_market_arguments_from_values() {
    let uint = |v: u64| AbiValue::Uint(Word::from_u64(v));
    let text = |s: &str| AbiValue::Text(s.to_string());
    let good = vec![text("a"), text("b"), text("c"), uint(1), uint(2), uint(3), uint(4)];
    assert_eq!(
        create_market_args(&good),
        Ok(CreateMarketArgs {
            title: "a".to_string(),
            description: "b".to_string(),
            criteria: "c".to_string(),
            new: NewMarket { close_time: 1, k_norm: 2, initial_mean: 3, initial_variance: 4 },
        })
    );
    assert_eq!(create_market_args(&good[..6].to_vec()), Err(Revert::InvalidParameters));
    let mut swapped = good.clone();
    swapped.swap(2, 3);
    assert_eq!(create_market_args(&swapped), Err(Revert::InvalidParameters));
    let mut large = good.clone();
    large[6] = AbiValue::Uint(Word { w0: 0, w1: 0, w2: 0, w3: 1 });
    assert_eq!(create_market_args(&large), Err(Revert::InvalidParameters));
    let mut extra = good.clone();
    extra.push(uint(5));
    assert_eq!(create_market_args(&extra), Err(Revert::InvalidParameters));
}

#[test]
fn market_state_answer() {
    let m = sample_market();
    assert_eq!(
        encode_market_state(&m),
        words(&[50 * D, 4 * D, 10 * D, 10 * D, 10 * D, 10 * D, 1, 5, 50_132_481_150])
    );
    let unscaled = Market { current_variance: 1, ..m };
    assert_eq!(encode_market_state(&unscaled), words(&[50 * D, 1, 10 * D, 10 * D, 10 * D, 10 * D, 1, 5, 0]));
}

#[test]
fn market_info_answer() {
    let m = sample_market();
    let mut expected = address_word([0xc1; 20]);
    expected.extend_from_slice(&words(&[
        11,
        2_000_000,
        10 * D,
        10 * D,
        50 * D,
        4 * D,
        50_132_481_150,
        10 * D,
        10 * D + 1,
        5,
        10 * D,
        1_000_000,
        77,
        1,
        50 * D,
        44_000_010_095,
        55_999_989_905,
    ]));
    assert_eq!(encode_market_info(&m), expected);
    assert_eq!(expected.len(), 18 * 32);
}

#[test]
fn position_answer_holds_the_profit_in_twos_complement() {
    let p = Position {
        position_id: 3,
        trader: [0x22; 20],
        market_id: 1,
        from_mean: 50 * D,
        from_variance: 4 * D,
        to_mean: 52 * D,
        to_variance: 4 * D,
        size: D,
        collateral_locked: 9,
        cost_basis: 100,
        is_open: 0,
        opened_at: 1,
        closed_at: 2,
        exit_value: 60,
        fees_paid: 4,
        realized_pnl: -40,
        claimed: 1,
    };
    let mut expected = word(3);
    expected.extend_from_slice(&address_word([0x22; 20]));
    expected.extend_from_slice(&words(&[1, 50 * D, 4 * D, 52 * D, 4 * D, D, 9, 100, 1, 0, 2, 60, 4]));
    let mut pnl = vec![0xffu8; 32];
    pnl[31] = 0xd8;
    expected.extend_from_slice(&pnl);
    expected.extend_from_slice(&word(1));
    assert_eq!(encode_position_answer(&p), expected);
    assert_eq!(expected.len(), 17 * 32);
}

#[test]
fn close_answer_is_the_value_and_the_signed_profit() {
    let mut expected = word(60);
    expected.extend_from_slice(&word(7));
    assert_eq!(encode_close_answer(60, 7), expected);
    let mut expected = word(0);
    expected.extend_from_slice(&[0xffu8; 32]);
    assert_eq!(encode_close_answer(0, -1), expected);
    let mut expected = word(0);
    let mut min = vec![0xffu8; 24];
    min.extend_from_slice(&[0x80, 0, 0, 0, 0, 0, 0, 0]);
    expected.extend_from_slice(&min);
    assert_eq!(encode_close_answer(0, i64::MIN), expected);
}

#[test]
fn metadata_answer_is_three_texts() {
    let bytes = encode_metadata_answer(b"T", b"D", b"C");
    let expected = ethabi::encode(&[
        Token::String("T".to_string()),
        Token::String("D".to_string()),
        Token::String("C".to_string()),
    ]);
    assert_eq!(bytes, expected);
    let mut by_hand = words(&[96, 160, 224]);
    by_hand.extend_from_slice(&padded_text(b"T"));
    by_hand.extend_from_slice(&padded_text(b"D"));
    by_hand.extend_from_slice(&padded_text(b"C"));
    assert_eq!(bytes, by_hand);
}

#[test]
fn metadata_that_is_no_utf8_answers_as_empty() {
    let bytes = encode_metadata_answer(&[0xff, 0xfe], "né".as_bytes(), &[]);
    let expected = ethabi::encode(&[
        Token::String(String::new()),
        Token::String("né".to_string()),
        Token::String(String::new()),
    ]);
    assert_eq!(bytes, expected);
}

#[test]
fn trader_positions_answer_is_one_array() {
    let bytes = encode_trader_positions(&vec![4, 9, u64::MAX]);
    assert_eq!(bytes, words(&[32, 3, 4, 9, u64::MAX]));
    assert_eq!(encode_trader_positions(&vec![]), words(&[32, 0]));
}

#[test]
fn calls_that_are_not_dispatched() {
    assert_eq!(answer_undispatched(&Entry::Empty), Some(vec![]));
    assert_eq!(answer_undispatched(&Entry::TooShort), Some(b"Invalid input".to_vec()));
    assert_eq!(answer_undispatched(&Entry::Dispatch { data_len: 0 }), None);
    assert_eq!(answer_undispatched(&classify_call(2)), Some(b"Invalid input".to_vec()));
}

#[test]
fn answers_at_a_point() {
    let m = Market { status: 0, ..sample_market() };
    assert_eq!(
        answer_point_query(Operation::GetConsensus, &m, 52 * D),
        words(&[6_065_306_556, 3_934_693_444])
    );
    assert_eq!(
        answer_point_query(Operation::EvaluateAt, &m, 52 * D),
        words(&[120_985_565, 6_065_306_556])
    );
    assert_eq!(answer_point_query(Operation::GetCdf, &m, 52 * D), words(&[841_345_143]));
    assert_eq!(answer_point_query(Operation::GetAmmHoldings, &m, 50 * D), words(&[40]));
    assert_eq!(answer_point_query(Operation::GetTvl, &m, 50 * D), Vec::<u8>::new());
}

#[test]
fn answers_about_a_market() {
    let m = sample_market();
    assert_eq!(answer_market_query(Operation::GetMarketState, &m), Ok(encode_market_state(&m)));
    assert_eq!(answer_market_query(Operation::GetMarketInfo, &m), Ok(encode_market_info(&m)));
    assert_eq!(answer_market_query(Operation::GetExpectedValue, &m), Ok(words(&[50 * D])));
    assert_eq!(
        answer_market_query(Operation::GetBounds, &m),
        Ok(words(&[44_000_010_095, 55_999_989_905]))
    );
    assert_eq!(answer_market_query(Operation::GetTvl, &m), Ok(words(&[10 * D + 6])));
    assert_eq!(
        answer_market_query(Operation::GetTvl, &Market { accumulated_fees: u64::MAX, ..m }),
        Err(Revert::ArithmeticOverflow)
    );
    assert_eq!(answer_market_query(Operation::GetCdf, &m), Ok(vec![]));
}

#[test]
fn only_initialize_is_taken_up_before_initialize() {
    assert_eq!(take_up(Operation::Initialize, false), Ok(()));
    assert_eq!(take_up(Operation::Initialize, true), Ok(()));
    assert_eq!(take_up(Operation::CreateMarket, false), Err(Revert::NotInitialized));
    assert_eq!(take_up(Operation::GetMarketCount, false), Err(Revert::NotInitialized));
    assert_eq!(take_up(Operation::GetCdf, false), Err(Revert::NotInitialized));
    assert_eq!(take_up(Operation::CreateMarket, true), Ok(()));
    assert_eq!(take_up(Operation::GetCdf, true), Ok(()));
}
