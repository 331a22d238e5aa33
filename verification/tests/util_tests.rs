use gbcore::util::get_bit;
use gbcore::util::pack_bytes_into_double;
use gbcore::util::set_bit;
use gbcore::util::set_lower;
use gbcore::util::set_upper;
use gbcore::util::unpack_bytes_from_double;

#[test]
fn get_bit_works() {
    // .          fedc ba98 7654 3210
    let input = 0b0110_1001_0000_0000;
    let expected = [
        false, false, false, false, false, false, false, false, true, false, false, true, false,
        true, true, false,
    ];

    for i in 0..=0xF {
        assert_eq!(get_bit(input, i), expected[i as usize]);
    }
}

#[test]
fn pack_then_unpack_returns_the_bytes() {
    let (upper, lower) = unpack_bytes_from_double(pack_bytes_into_double(0xAB, 0xCD));
    assert_eq!((upper, lower), (0xAB, 0xCD));
}

#[test]
fn unpack_then_pack_returns_the_double() {
    let (upper, lower) = unpack_bytes_from_double(0x1234);
    assert_eq!((upper, lower), (0x12, 0x34));
    assert_eq!(pack_bytes_into_double(upper, lower), 0x1234);
}

#[test]
fn set_upper_replaces_only_the_upper_byte() {
    let val = set_upper(0x1234, 0xAB);
    assert_eq!(val, 0xAB34);
    let (sampled, lower) = unpack_bytes_from_double(val);
    assert_eq!(sampled, 0xAB);
    assert_eq!(lower, 0x34);
}

#[test]
fn set_lower_replaces_only_the_lower_byte() {
    let val = set_lower(0x1234, 0xAB);
    assert_eq!(val, 0x12AB);
    let (upper, sampled) = unpack_bytes_from_double(val);
    assert_eq!(upper, 0x12);
    assert_eq!(sampled, 0xAB);
}

#[test]
fn set_bit_sets_and_clears_one_bit() {
    let set = set_bit(0b0000_0000_0000_0000, 9, true);
    assert_eq!(set, 0b0000_0010_0000_0000);
    assert!(get_bit(set, 9));
    let cleared = set_bit(0b1111_1111_1111_1111, 9, false);
    assert_eq!(cleared, 0b1111_1101_1111_1111);
    assert!(!get_bit(cleared, 9));
}

#[test]
fn set_bit_leaves_other_bits_alone() {
    let input: u16 = 0b0110_1001_1100_0011;
    let output = set_bit(input, 4, true);
    for i in 0..=0xF {
        if i != 4 {
            assert_eq!(get_bit(output, i), get_bit(input, i));
        }
    }
    assert!(get_bit(output, 4));
}
