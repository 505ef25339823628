use bitfield::allocate_buffer;
use bitfield::build_layout;
use bitfield::FieldSpec;
use bitfield::LayoutError;

fn field(name: &str, width: usize) -> FieldSpec {
    FieldSpec { name: String::from(name), width, width_override: None }
}

#[test]
fn offsets_are_prefix_sums() {
    let fields = vec![field("a", 3), field("b", 5), field("c", 8)];
    let layout = match build_layout(&fields) {
        Ok(l) => l,
        Err(_) => panic!("layout was rejected"),
    };
    assert_eq!(layout.total_bits, 16);
    assert_eq!(layout.fields.len(), 3);
    assert_eq!(layout.fields[0].offset, 0);
    assert_eq!(layout.fields[1].offset, 3);
    assert_eq!(layout.fields[2].offset, 8);
    assert_eq!(layout.fields[0].width, 3);
    assert_eq!(layout.fields[1].width, 5);
    assert_eq!(layout.fields[2].width, 8);
    assert_eq!(layout.fields[0].name, "a");
    assert_eq!(layout.fields[1].name, "b");
    assert_eq!(layout.fields[2].name, "c");
}

#[test]
fn unaligned_total_is_rejected() {
    let fields = vec![field("a", 9), field("b", 8)];
    match build_layout(&fields) {
        Ok(_) => panic!("a 17-bit schema must not build"),
        Err(LayoutError::NotByteAligned(t)) => assert_eq!(t, 17),
        Err(LayoutError::WidthMismatch(_, _, _)) => panic!("wrong error"),
    }
}

#[test]
fn width_annotation_must_match() {
    let fields = vec![
        field("a", 3),
        FieldSpec { name: String::from("b"), width: 5, width_override: Some(4) },
    ];
    match build_layout(&fields) {
        Ok(_) => panic!("a contradicted annotation must not build"),
        Err(LayoutError::WidthMismatch(name, declared, actual)) => {
            assert_eq!(name, "b");
            assert_eq!(declared, 4);
            assert_eq!(actual, 5);
        }
        Err(LayoutError::NotByteAligned(_)) => panic!("wrong error"),
    }
}

#[test]
fn matching_width_annotation_is_accepted() {
    let fields = vec![
        FieldSpec { name: String::from("a"), width: 4, width_override: Some(4) },
        field("b", 4),
    ];
    let layout = match build_layout(&fields) {
        Ok(l) => l,
        Err(_) => panic!("layout was rejected"),
    };
    assert_eq!(layout.total_bits, 8);
}

#[test]
fn empty_schema_builds() {
    let fields: Vec<FieldSpec> = vec![];
    let layout = match build_layout(&fields) {
        Ok(l) => l,
        Err(_) => panic!("layout was rejected"),
    };
    assert_eq!(layout.total_bits, 0);
    assert_eq!(layout.fields.len(), 0);
}

#[test]
fn buffer_is_minimal_and_zeroed() {
    let buf = allocate_buffer(16);
    assert_eq!(buf.len(), 2);
    assert!(buf.iter().all(|b| *b == 0));
    let none = allocate_buffer(0);
    assert_eq!(none.len(), 0);
}
