use task_store::ident::TaskId;

#[test]
fn id_text_is_hyphenated_lower_case_hex() {
    let id = TaskId(0x67e5504410b1426f9247bb680e5fe0c8);
    assert_eq!(id.to_string(), "67e55044-10b1-426f-9247-bb680e5fe0c8");
}

#[test]
fn id_text_keeps_leading_zeros() {
    assert_eq!(TaskId(0).to_string(), "00000000-0000-0000-0000-000000000000");
    assert_eq!(TaskId(0x1f).to_string(), "00000000-0000-0000-0000-00000000001f");
}

#[test]
fn id_text_of_the_largest_id() {
    assert_eq!(TaskId(u128::MAX).to_string(), "ffffffff-ffff-ffff-ffff-ffffffffffff");
}

#[test]
fn id_text_starts_with_the_most_significant_digit() {
    let text = TaskId(0xa1a2a3a4b1b2c1c2d1d2d3d4d5d6d7d8).to_string();
    assert_eq!(text, "a1a2a3a4-b1b2-c1c2-d1d2-d3d4d5d6d7d8");
}

#[test]
fn id_text_has_thirty_six_characters() {
    for bits in [0u128, 1, 0xdeadbeef, u128::MAX / 3, u128::MAX] {
        let text = TaskId(bits).to_string();
        assert_eq!(text.chars().count(), 36);
        assert_ne!(text, "");
    }
}

#[test]
fn id_text_has_hyphens_at_four_places() {
    let text: Vec<char> = TaskId(0x0123456789abcdef0123456789abcdef).to_string().chars().collect();
    for (at, c) in text.iter().enumerate() {
        assert_eq!(*c == '-', at == 8 || at == 13 || at == 18 || at == 23);
    }
}

#[test]
fn ids_compare_by_their_bits() {
    assert_eq!(TaskId(7), TaskId(7));
    assert_ne!(TaskId(7), TaskId(8));
    assert_ne!(TaskId(7).to_string(), TaskId(8).to_string());
}
