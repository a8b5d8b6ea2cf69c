use slados::decimal::decimal_string;

#[test]
fn renders_like_display() {
    for n in [0u32, 1, 9, 10, 42, 99, 100, 7645, 65535, 1_000_000, u32::MAX] {
        assert_eq!(decimal_string(n), n.to_string());
    }
}
