use ethers::types::U256;
use neco_stake::uint256::Uint256;

#[test]
fn zero_has_four_zero_words() {
    assert_eq!(Uint256::zero().limbs, [0, 0, 0, 0]);
    assert_eq!(Uint256::zero().limbs, U256::zero().0);
}

#[test]
fn zero_is_written_as_one_digit() {
    assert_eq!(Uint256::zero().to_decimal(), "0");
}

#[test]
fn small_values_are_written_without_padding() {
    assert_eq!(Uint256 { limbs: [7, 0, 0, 0] }.to_decimal(), "7");
    assert_eq!(Uint256 { limbs: [9, 0, 0, 0] }.to_decimal(), "9");
    assert_eq!(Uint256 { limbs: [10, 0, 0, 0] }.to_decimal(), "10");
    assert_eq!(Uint256 { limbs: [100, 0, 0, 0] }.to_decimal(), "100");
    assert_eq!(Uint256 { limbs: [1700000000, 0, 0, 0] }.to_decimal(), "1700000000");
}

#[test]
fn words_are_weighted_least_significant_first() {
    assert_eq!(Uint256 { limbs: [u64::MAX, 0, 0, 0] }.to_decimal(), "18446744073709551615");
    assert_eq!(Uint256 { limbs: [0, 1, 0, 0] }.to_decimal(), "18446744073709551616");
    assert_eq!(
        Uint256 { limbs: [0, 0, 1, 0] }.to_decimal(),
        "340282366920938463463374607431768211456"
    );
    assert_eq!(
        Uint256 { limbs: [0, 0, 0, 1] }.to_decimal(),
        "6277101735386680763835789423207666416102355444464034512896"
    );
}

#[test]
fn largest_value_is_written_in_full() {
    assert_eq!(
        Uint256 { limbs: [u64::MAX; 4] }.to_decimal(),
        "115792089237316195423570985008687907853269984665640564039457584007913129639935"
    );
}

#[test]
fn value_beyond_64_bits_is_written_in_full() {
    let amount = Uint256 { limbs: [14083847773837265618, 6692605942, 0, 0] };
    assert_eq!(amount.to_decimal(), "123456789012345678901234567890");
}

#[test]
fn power_of_ten_keeps_its_zeros() {
    let amount = Uint256 {
        limbs: [0, 12292710897160462336, 5327493063679123134, 15930919111324522770],
    };
    let mut expected = String::from("1");
    for _ in 0..77 {
        expected.push('0');
    }
    assert_eq!(amount.to_decimal(), expected);
}

#[test]
fn notation_agrees_with_the_chain_library() {
    for text in ["0", "1", "99", "1000000000000000000", "123456789012345678901234567890"] {
        let read = U256::from_dec_str(text).unwrap();
        assert_eq!(Uint256 { limbs: read.0 }.to_decimal(), text);
    }
}

#[test]
fn notation_is_canonical() {
    for limbs in [[0, 0, 0, 0], [5, 0, 0, 0], [0, 0, 0, 1], [u64::MAX; 4]] {
        let text = Uint256 { limbs }.to_decimal();
        assert!(!text.is_empty());
        assert!(text.chars().all(|c| c.is_ascii_digit()));
        assert!(text == "0" || !text.starts_with('0'));
    }
}
