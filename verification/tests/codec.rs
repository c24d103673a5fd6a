use steamworksjs::bigint::{decode, encode, BigInt};

fn big(sign_bit: bool, words: &[u64]) -> BigInt {
    BigInt { sign_bit, words: words.to_vec() }
}

#[test]
fn decode_gives_one_unsigned_word() {
    let id = decode(2892196504);
    assert_eq!(id, big(false, &[2892196504]));
}

#[test]
fn round_trip_of_identifiers_that_fit() {
    for id in [0u64, 1, 480, 2892196504, 1 << 63, u64::MAX - 1, u64::MAX] {
        let outside = decode(id);
        assert!(outside.fits_u64());
        assert_eq!(encode(&outside), id);
        assert_eq!(decode(encode(&outside)), outside);
    }
}

#[test]
fn round_trip_of_a_value_written_with_spare_words() {
    // 77 written with two leading zero words still fits, and comes back as 77.
    let padded = big(false, &[77, 0, 0]);
    assert!(padded.fits_u64());
    assert_eq!(encode(&padded), 77);
    assert_eq!(decode(encode(&padded)), big(false, &[77]));
}

#[test]
fn encode_keeps_the_low_word_only() {
    // 5 + 1 * 2^64 does not fit: the second word is dropped.
    let wide = big(false, &[5, 1]);
    assert!(!wide.fits_u64());
    assert_eq!(encode(&wide), 5);
    // 2^64 itself encodes to 0.
    assert!(!big(false, &[0, 1]).fits_u64());
    assert_eq!(encode(&big(false, &[0, 1])), 0);
    // 2^128 + u64::MAX
    assert!(!big(false, &[u64::MAX, 0, 1]).fits_u64());
    assert_eq!(encode(&big(false, &[u64::MAX, 0, 1])), u64::MAX);
}

#[test]
fn encode_drops_the_sign() {
    let negative = big(true, &[9]);
    assert!(!negative.fits_u64());
    assert_eq!(encode(&negative), 9);
    assert_eq!(encode(&negative), encode(&big(false, &[9])));
}

#[test]
fn zero_fits_however_it_is_written() {
    for zero in [big(false, &[]), big(false, &[0]), big(true, &[0, 0]), big(true, &[])] {
        assert!(zero.fits_u64());
        assert_eq!(encode(&zero), 0);
    }
}
