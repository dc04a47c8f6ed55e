use surf::liquidity_math::{
    get_amount_delta_a_wrapped, get_amount_delta_b_wrapped, get_whirlpool_input_tokens_deltas,
};
use surf::errors::SurfError;
use surf::liquidity_math::{get_liquidity_from_base_token, get_liquidity_from_quote_token};

#[test]
fn test_valid_get_liquidity_from_base_token() {
    let upper_sqrt_price = 2857757303569098241_u128;
    let lower_sqrt_price = 2608763565066556442_u128;
    assert_eq!(
        get_liquidity_from_base_token(1_000_000_000, lower_sqrt_price, upper_sqrt_price, false)
            .unwrap(),
        1623124806_u128,
    )
}

#[test]
fn test_valid_get_liquidity_from_quote_token() {
    let upper_sqrt_price = 2857757303569098241_u128;
    let lower_sqrt_price = 2608763565066556442_u128;
    assert_eq!(
        get_liquidity_from_quote_token(1_000_000_000, lower_sqrt_price, upper_sqrt_price, false),
        74085172521_u128,
    )
}

#[test]
fn quote_liquidity_rounds_up_on_remainder() {
    let upper_sqrt_price = 2857757303569098241_u128;
    let lower_sqrt_price = 2608763565066556442_u128;
    assert_eq!(
        get_liquidity_from_quote_token(1_000_000_000, lower_sqrt_price, upper_sqrt_price, true),
        74085172522_u128,
    );
    // 1 << 64 divided by 2 leaves no remainder.
    assert_eq!(get_liquidity_from_quote_token(1, 1, 3, true), 1u128 << 63);
}

#[test]
fn base_liquidity_rounds_up_on_remainder() {
    let upper_sqrt_price = 2857757303569098241_u128;
    let lower_sqrt_price = 2608763565066556442_u128;
    assert_eq!(
        get_liquidity_from_base_token(1_000_000_000, lower_sqrt_price, upper_sqrt_price, true)
            .unwrap(),
        1623124807_u128,
    );
}

#[test]
fn base_liquidity_overflow() {
    let r = get_liquidity_from_base_token(u64::MAX, u128::MAX - 1, u128::MAX, false);
    assert_eq!(r, Err(SurfError::BaseTokenOverflow));
}

#[test]
fn amount_deltas_from_range_math() {
    let one = 1u128 << 64;
    assert_eq!(get_amount_delta_a_wrapped(one, 2 * one, one, false), Ok(1u64 << 63));
    assert_eq!(get_amount_delta_a_wrapped(2 * one, one, 3, false), Ok(1));
    assert_eq!(get_amount_delta_a_wrapped(2 * one, one, 3, true), Ok(2));
    assert_eq!(get_amount_delta_b_wrapped(one, 2 * one, 10, false), Ok(10));
    assert_eq!(get_amount_delta_b_wrapped(0, 3, 1, false), Ok(0));
    assert_eq!(get_amount_delta_b_wrapped(0, 3, 1, true), Ok(1));
    assert_eq!(
        get_amount_delta_b_wrapped(0, u128::MAX, u128::MAX, false),
        Err(SurfError::TokenMaxExceeded)
    );
    assert_eq!(get_whirlpool_input_tokens_deltas(1000, one, 2 * one, one / 2), Ok((500, 500)));
    assert_eq!(
        get_whirlpool_input_tokens_deltas(u128::MAX, one, u128::MAX, one / 2),
        Err(SurfError::TokenMaxExceeded)
    );
}
