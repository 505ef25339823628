use bitfield::bits_to_hold_val;
use bitfield::validate_enum_specifier;
use bitfield::EnumVariant;
use bitfield::SpecifierError;

fn variant(name: &str, discriminant: u64) -> EnumVariant {
    EnumVariant { name: String::from(name), discriminant }
}

#[test]
fn bit_length_exact_values() {
    assert_eq!(bits_to_hold_val(0), 0);
    assert_eq!(bits_to_hold_val(1), 1);
    assert_eq!(bits_to_hold_val(2), 2);
    assert_eq!(bits_to_hold_val(3), 2);
    assert_eq!(bits_to_hold_val(4), 3);
    assert_eq!(bits_to_hold_val(7), 3);
    assert_eq!(bits_to_hold_val(8), 4);
    assert_eq!(bits_to_hold_val(255), 8);
    assert_eq!(bits_to_hold_val(256), 9);
    assert_eq!(bits_to_hold_val(u64::MAX), 64);
}

#[test]
fn three_variants_are_rejected() {
    let variants = vec![variant("a", 0), variant("b", 1), variant("c", 2)];
    match validate_enum_specifier(&variants) {
        Ok(_) => panic!("three variants are not a power of two"),
        Err(SpecifierError::NotPowerOfTwo(n)) => assert_eq!(n, 3),
        Err(SpecifierError::DiscriminantOutOfRange(_, _, _)) => panic!("wrong error"),
    }
}

#[test]
fn out_of_range_discriminant_is_rejected() {
    let variants = vec![variant("a", 0), variant("b", 1), variant("c", 2), variant("d", 7)];
    match validate_enum_specifier(&variants) {
        Ok(_) => panic!("discriminant 7 does not fit in two bits"),
        Err(SpecifierError::DiscriminantOutOfRange(name, value, max)) => {
            assert_eq!(name, "d");
            assert_eq!(value, 7);
            assert_eq!(max, 3);
        }
        Err(SpecifierError::NotPowerOfTwo(_)) => panic!("wrong error"),
    }
}

#[test]
fn four_variants_in_range_pass() {
    let variants = vec![variant("a", 3), variant("b", 2), variant("c", 1), variant("d", 0)];
    match validate_enum_specifier(&variants) {
        Ok(width) => assert_eq!(width, 2),
        Err(_) => panic!("a valid enumeration was rejected"),
    }
}

#[test]
fn duplicate_discriminants_are_tolerated() {
    let variants = vec![variant("a", 1), variant("b", 1)];
    match validate_enum_specifier(&variants) {
        Ok(width) => assert_eq!(width, 1),
        Err(_) => panic!("duplicates are deliberately not rejected"),
    }
}

#[test]
fn single_variant_needs_no_bits() {
    let variants = vec![variant("only", 0)];
    match validate_enum_specifier(&variants) {
        Ok(width) => assert_eq!(width, 0),
        Err(_) => panic!("one variant is a power of two"),
    }
}
