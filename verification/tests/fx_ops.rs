use wirecube::fx::{div_trunc, fx_div, fx_mul, fx_round, FP};

#[test]
fn div_trunc_rounds_toward_zero() {
    assert_eq!(div_trunc(7, 2), 3);
    assert_eq!(div_trunc(-7, 2), -3);
    assert_eq!(div_trunc(0, 5), 0);
    assert_eq!(div_trunc(-1, 65536), 0);
}

#[test]
fn fx_mul_exact_products() {
    // 3.0 * 0.5 == 1.5
    assert_eq!(fx_mul(3 * FP, FP / 2), 98304);
    // -3.0 * 0.5 == -1.5, truncation stays symmetric
    assert_eq!(fx_mul(-3 * FP, FP / 2), -98304);
    // 1.0 * -1.0 == -1.0
    assert_eq!(fx_mul(FP, -FP), -FP);
    // multiplying by one is exact
    assert_eq!(fx_mul(12345, FP), 12345);
}

#[test]
fn fx_div_exact_quotients() {
    // 2.0 / 1.0 == 2.0
    assert_eq!(fx_div(2 * FP, FP), 2 * FP);
    // 1.0 / 3 (a raw integer divisor) truncates toward zero
    assert_eq!(fx_div(FP, 3), 1431655765);
    // -1.0 / 2.0 == -0.5
    assert_eq!(fx_div(-FP, 2 * FP), -32768);
}

#[test]
fn fx_round_halves_away_from_zero() {
    assert_eq!(fx_round(0), 0);
    assert_eq!(fx_round(32767), 0);
    assert_eq!(fx_round(32768), 1);
    assert_eq!(fx_round(-32767), 0);
    assert_eq!(fx_round(-32768), -1);
    assert_eq!(fx_round(98304), 2);
    assert_eq!(fx_round(-98304), -2);
    assert_eq!(fx_round(340 * FP + 32928 - 32768), 340);
}
