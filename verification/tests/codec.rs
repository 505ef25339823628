use bitfield::read_bits;
use bitfield::write_bits;

#[test]
fn read_whole_one_byte() {
    let data = vec![11_u8, 22, 33, 44, 55];
    assert_eq!(read_bits(&data, 0, 8), 11);
    assert_eq!(read_bits(&data, 8, 8), 22);
    assert_eq!(read_bits(&data, 16, 8), 33);
    assert_eq!(read_bits(&data, 24, 8), 44);
}

#[test]
fn write_whole_one_byte() {
    let mut data = vec![0u8; 8];
    write_bits(&mut data, 0, 8, 11);
    assert_eq!(read_bits(&data, 0, 8), 11);

    write_bits(&mut data, 8, 8, 22);
    assert_eq!(read_bits(&data, 8, 8), 22);

    write_bits(&mut data, 16, 8, 33);
    assert_eq!(read_bits(&data, 16, 8), 33);

    write_bits(&mut data, 24, 8, 44);
    assert_eq!(read_bits(&data, 24, 8), 44);
}

#[test]
fn read_whole_mutiple_bytes() {
    let data = vec![0x11_u8, 0x22, 0x33, 0x44, 0x55];
    assert_eq!(read_bits(&data, 0, 16), 0x1122);
    assert_eq!(read_bits(&data, 8, 24), 0x223344);
}

#[test]
fn write_whole_mutiple_bytes() {
    let mut data = vec![0u8; 4];
    write_bits(&mut data, 0, 16, 0x1122);
    assert_eq!(read_bits(&data, 0, 16), 0x1122);
    write_bits(&mut data, 8, 24, 0x223344);
    assert_eq!(read_bits(&data, 8, 24), 0x223344);
}

#[test]
fn read_cross_byte_boundary() {
    let data = vec![0x11_u8, 0x22, 0x33, 0x44, 0x55];
    assert_eq!(read_bits(&data, 0, 12), 0x112);
    assert_eq!(read_bits(&data, 12, 12), 0x233);
}

#[test]
fn write_cross_byte_boundary() {
    let mut data = vec![0u8; 4];
    write_bits(&mut data, 0, 12, 0x112);
    assert_eq!(read_bits(&data, 0, 12), 0x112);

    write_bits(&mut data, 7, 16, 0x3344);
    assert_eq!(read_bits(&data, 7, 16), 0x3344);
}

#[test]
fn round_trip_many_widths_and_starts() {
    // Writing a w-bit value at any offset reads back the same value,
    // whatever the buffer held before.
    for w in 1usize..=64 {
        for start in [0usize, 1, 3, 7, 8, 13] {
            let max: u64 = if w == 64 { u64::MAX } else { (1u64 << w) - 1 };
            for v in [0u64, 1, max / 2, max] {
                let mut data = vec![0xA5u8; 16];
                write_bits(&mut data, start, w, v);
                assert_eq!(read_bits(&data, start, w), v);
            }
        }
    }
}

#[test]
fn round_trip_full_width_value() {
    let mut data = vec![0u8; 9];
    write_bits(&mut data, 3, 64, u64::MAX);
    assert_eq!(read_bits(&data, 3, 64), u64::MAX);
    write_bits(&mut data, 3, 64, 0x0123_4567_89AB_CDEF);
    assert_eq!(read_bits(&data, 3, 64), 0x0123_4567_89AB_CDEF);
}

#[test]
fn write_does_not_disturb_neighbours() {
    // Sentinel fill: writing one field alters no bit of any other field.
    let mut data = vec![0xFFu8; 4];
    write_bits(&mut data, 10, 7, 0);
    // Bits 0..10 and 17..32 are still all ones.
    assert_eq!(read_bits(&data, 0, 10), 0x3FF);
    assert_eq!(read_bits(&data, 17, 15), 0x7FFF);
    assert_eq!(read_bits(&data, 10, 7), 0);

    let mut zeros = vec![0u8; 4];
    write_bits(&mut zeros, 10, 7, 0x7F);
    // Bits outside [10, 17) are still all zeros.
    assert_eq!(read_bits(&zeros, 0, 10), 0);
    assert_eq!(read_bits(&zeros, 17, 15), 0);
    assert_eq!(read_bits(&zeros, 10, 7), 0x7F);
}

#[test]
fn write_truncates_wide_value_to_field() {
    // A value wider than the field keeps only its low bits.
    let mut data = vec![0u8; 2];
    write_bits(&mut data, 4, 4, 0xABu64);
    assert_eq!(read_bits(&data, 4, 4), 0xB);
    assert_eq!(read_bits(&data, 0, 4), 0);
    assert_eq!(read_bits(&data, 8, 8), 0);
}
