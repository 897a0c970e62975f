use api_gateway::text::render_decimal;

#[test]
fn render_decimal_matches_the_usual_notation() {
    assert_eq!(render_decimal(0), "0");
    assert_eq!(render_decimal(7), "7");
    assert_eq!(render_decimal(9), "9");
    assert_eq!(render_decimal(10), "10");
    assert_eq!(render_decimal(101), "101");
    assert_eq!(render_decimal(3000), "3000");
    assert_eq!(render_decimal(65535), "65535");
    assert_eq!(render_decimal(300000), "300000");
    assert_eq!(render_decimal(u64::MAX), "18446744073709551615");
}

#[test]
fn render_decimal_agrees_with_the_standard_library() {
    let mut n: u64 = 1;
    for _ in 0..64 {
        assert_eq!(render_decimal(n), n.to_string());
        assert_eq!(render_decimal(n - 1), (n - 1).to_string());
        n = n.wrapping_mul(3).wrapping_add(7);
    }
}
