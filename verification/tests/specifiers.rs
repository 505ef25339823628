use bitfield::allocate_buffer;
use bitfield::build_layout;
use bitfield::get_field;
use bitfield::set_field;
use bitfield::FieldSpec;
use bitfield::Specifier;
use bitfield::B12;
use bitfield::B20;
use bitfield::B3;
use bitfield::B64;

#[test]
fn bool_specifier_encodes_losslessly() {
    assert_eq!(<bool as Specifier>::bits(), 1);
    assert_eq!(<bool as Specifier>::to_u64(true), 1);
    assert_eq!(<bool as Specifier>::to_u64(false), 0);
    assert_eq!(<bool as Specifier>::from_u64(1), true);
    assert_eq!(<bool as Specifier>::from_u64(0), false);
}

#[test]
fn widths_map_to_smallest_container() {
    assert_eq!(<B3 as Specifier>::bits(), 3);
    assert_eq!(<B12 as Specifier>::bits(), 12);
    assert_eq!(<B20 as Specifier>::bits(), 20);
    assert_eq!(<B64 as Specifier>::bits(), 64);
    let small: u8 = <B3 as Specifier>::from_u64(5);
    assert_eq!(small, 5u8);
    assert_eq!(<B3 as Specifier>::to_u64(5u8), 5);
    let wide: u64 = <B64 as Specifier>::from_u64(u64::MAX);
    assert_eq!(wide, u64::MAX);
    assert_eq!(<B64 as Specifier>::to_u64(u64::MAX), u64::MAX);
    let mid: u16 = <B12 as Specifier>::from_u64(0xFFF);
    assert_eq!(mid, 0xFFFu16);
    assert_eq!(<B12 as Specifier>::to_u64(0xFFFu16), 0xFFF);
}

#[test]
fn typed_field_access_round_trips() {
    // Schema: a: B3, b: B12, c: bool, d: B12, padding to 32 bits with B4.
    let fields = vec![
        FieldSpec { name: String::from("a"), width: 3, width_override: None },
        FieldSpec { name: String::from("b"), width: 12, width_override: None },
        FieldSpec { name: String::from("c"), width: 1, width_override: None },
        FieldSpec { name: String::from("d"), width: 12, width_override: None },
        FieldSpec { name: String::from("pad"), width: 4, width_override: None },
    ];
    let layout = match build_layout(&fields) {
        Ok(l) => l,
        Err(_) => panic!("layout was rejected"),
    };
    assert_eq!(layout.total_bits, 32);
    let mut buf = allocate_buffer(layout.total_bits);

    set_field::<B3>(&mut buf, layout.fields[0].offset, 0b101u8);
    set_field::<B12>(&mut buf, layout.fields[1].offset, 0xABCu16);
    set_field::<bool>(&mut buf, layout.fields[2].offset, true);
    set_field::<B12>(&mut buf, layout.fields[3].offset, 0x123u16);

    assert_eq!(get_field::<B3>(&buf, layout.fields[0].offset), 0b101u8);
    assert_eq!(get_field::<B12>(&buf, layout.fields[1].offset), 0xABCu16);
    assert_eq!(get_field::<bool>(&buf, layout.fields[2].offset), true);
    assert_eq!(get_field::<B12>(&buf, layout.fields[3].offset), 0x123u16);

    // Overwriting one field leaves the others as they were.
    set_field::<B12>(&mut buf, layout.fields[1].offset, 0x0F0u16);
    assert_eq!(get_field::<B3>(&buf, layout.fields[0].offset), 0b101u8);
    assert_eq!(get_field::<B12>(&buf, layout.fields[1].offset), 0x0F0u16);
    assert_eq!(get_field::<bool>(&buf, layout.fields[2].offset), true);
    assert_eq!(get_field::<B12>(&buf, layout.fields[3].offset), 0x123u16);
}
