use phistar_radio::i2c_write_bits;

#[test]
fn low_nibble_is_replaced_and_high_nibble_kept() {
    assert_eq!(i2c_write_bits(0xab, 0x05, 3, 0), 0xa5);
}

#[test]
fn field_in_the_middle_is_shifted_into_place() {
    // bits 7..=5 take the value 0b100, bits 4..=0 stay
    assert_eq!(i2c_write_bits(0b0001_1111, 0b100, 7, 5), 0b1001_1111);
    assert_eq!(i2c_write_bits(0b1111_1111, 0b001, 7, 5), 0b0011_1111);
    // bits 7..=4 take the value 0b1001
    assert_eq!(i2c_write_bits(0x0f, 0b1001, 7, 4), 0x9f);
}

#[test]
fn full_byte_is_replaced_whatever_was_there() {
    assert_eq!(i2c_write_bits(0x00, 0xe3, 7, 0), 0xe3);
    assert_eq!(i2c_write_bits(0xff, 0x80, 7, 0), 0x80);
    assert_eq!(i2c_write_bits(0x5a, 0x00, 7, 0), 0x00);
}

#[test]
fn single_bit_is_set_and_cleared() {
    assert_eq!(i2c_write_bits(0x01, 1, 7, 7), 0x81);
    assert_eq!(i2c_write_bits(0xff, 0, 7, 7), 0x7f);
    assert_eq!(i2c_write_bits(0x00, 1, 0, 0), 0x01);
    assert_eq!(i2c_write_bits(0xff, 0, 0, 0), 0xfe);
}

#[test]
fn bits_of_the_value_that_do_not_fit_are_dropped() {
    // a three-bit field takes the low three bits of 0xff
    assert_eq!(i2c_write_bits(0x00, 0xff, 2, 0), 0x07);
    assert_eq!(i2c_write_bits(0x00, 0xff, 7, 5), 0xe0);
    assert_eq!(i2c_write_bits(0xf0, 0x1b, 2, 0), 0xf3);
}

#[test]
fn every_field_takes_its_bits_from_the_value_and_the_rest_from_the_register() {
    for low in 0..8usize {
        for high in low..8usize {
            for &(current, value) in &[(0x00u8, 0xffu8), (0xff, 0x00), (0xa5, 0x3c), (0x5a, 0xc3)] {
                let byte = i2c_write_bits(current, value, high, low);
                for bit in 0..8usize {
                    let got = (byte >> bit) & 1;
                    let expected = if low <= bit && bit <= high {
                        (value >> (bit - low)) & 1
                    } else {
                        (current >> bit) & 1
                    };
                    assert_eq!(got, expected);
                }
            }
        }
    }
}
