use folder_agent::text::{u64_to_text, usize_to_text};

#[test]
fn decimal_rendering_matches_display() {
    for n in [0u64, 7, 10, 99, 100, 1234567890, u64::MAX] {
        assert_eq!(u64_to_text(n), n.to_string());
    }
    assert_eq!(usize_to_text(42), "42");
}
