//! The layout calculator.
//!
//! Given an ordered list of fields, each carrying a specifier width and an
//! optional explicit width annotation, it computes prefix-sum bit offsets and
//! the total size, rejecting an annotation that contradicts the specifier's
//! width and a total that is not byte-aligned.  All validation happens before
//! any buffer is allocated; a layout is immutable once built.

use vstd::prelude::*;

verus! {

/// One field of a schema as handed to the layout calculator: its name, the
/// bit width of its specifier, and an optional explicit width annotation
/// that must match the specifier's width.
pub struct FieldSpec {
    pub name: String,
    pub width: usize,
    pub width_override: Option<usize>,
}

/// One field of a built layout: its name, its bit width, and the absolute
/// bit offset of its most significant bit.
pub struct FieldLayout {
    pub name: String,
    pub width: usize,
    pub offset: usize,
}

/// A built layout: the fields in declaration order, each with its computed
/// offset, and the total size in bits, always a multiple of eight.
pub struct Layout {
    pub fields: Vec<FieldLayout>,
    pub total_bits: usize,
}

/// Why a schema cannot be laid out.
pub enum LayoutError {
    /// The total size in bits, which is not a multiple of eight.
    NotByteAligned(usize),
    /// A field whose explicit width annotation contradicts its specifier:
    /// its name, the declared width, and the specifier's actual width.
    WidthMismatch(String, usize, usize),
}

/// The sum of the field widths of `fs`.
pub open spec fn total_width(fs: Seq<FieldSpec>) -> nat
    decreases fs.len(),
{
    if fs.len() == 0 {
        0
    } else {
        total_width(fs.drop_last()) + fs.last().width as nat
    }
}

/// Whether a field's explicit width annotation, if any, matches its width.
pub open spec fn width_matches(f: FieldSpec) -> bool {
    match f.width_override {
        Some(w) => w == f.width,
        None => true,
    }
}

/// Extending a prefix by one field adds that field's width.
pub proof fn lemma_total_width_take_step(fs: Seq<FieldSpec>, k: int)
    requires
        0 <= k < fs.len(),
    ensures
        total_width(fs.take(k + 1)) == total_width(fs.take(k)) + fs[k].width,
{
    assert(fs.take(k + 1).drop_last() =~= fs.take(k));
    assert(fs.take(k + 1).last() == fs[k]);
}

/// A prefix never weighs more than the whole.
pub proof fn lemma_total_width_take_le(fs: Seq<FieldSpec>, k: int)
    requires
        0 <= k <= fs.len(),
    ensures
        total_width(fs.take(k)) <= total_width(fs),
    decreases fs.len() - k,
{
    if k == fs.len() {
        assert(fs.take(k) =~= fs);
    } else {
        lemma_total_width_take_step(fs, k);
        lemma_total_width_take_le(fs, k + 1);
    }
}

/// Builds the layout of an ordered field list: per-field offsets are prefix
/// sums of the widths, every explicit width annotation must equal the
/// field's width, and the total must be byte-aligned.  Fields are examined
/// in order and the first contradicted annotation is reported; the
/// alignment of the total is checked after all fields.
pub fn build_layout(fields: &Vec<FieldSpec>) -> (r: Result<Layout, LayoutError>)
    requires
        total_width(fields@) <= usize::MAX,
    ensures
        match r {
            Ok(l) => {
                &&& forall|i: int| 0 <= i < fields@.len() ==> width_matches(#[trigger] fields@[i])
                &&& l.total_bits == total_width(fields@)
                &&& l.total_bits % 8 == 0
                &&& l.fields@.len() == fields@.len()
                &&& forall|i: int|
                    0 <= i < fields@.len() ==> (#[trigger] l.fields@[i]).offset == total_width(
                        fields@.take(i),
                    ) && l.fields@[i].width == fields@[i].width && l.fields@[i].name@
                        == fields@[i].name@
            },
            Err(LayoutError::NotByteAligned(t)) => {
                &&& forall|i: int| 0 <= i < fields@.len() ==> width_matches(#[trigger] fields@[i])
                &&& t == total_width(fields@)
                &&& t % 8 != 0
            },
            Err(LayoutError::WidthMismatch(name, declared, actual)) => {
                exists|i: int|
                    0 <= i < fields@.len() && !width_matches(#[trigger] fields@[i])
                        && fields@[i].width_override == Some(declared) && actual
                        == fields@[i].width && name@ == fields@[i].name@ && (forall|j: int|
                        0 <= j < i ==> width_matches(#[trigger] fields@[j]))
            },
        },
{
    let mut out: Vec<FieldLayout> = Vec::new();
    let mut acc: usize = 0;
    let mut i: usize = 0;
    proof {
        assert(fields@.take(0) =~= Seq::<FieldSpec>::empty());
    }
    while i < fields.len()
        invariant
            total_width(fields@) <= usize::MAX,
            i <= fields@.len(),
            acc == total_width(fields@.take(i as int)),
            out@.len() == i,
            forall|j: int|
                0 <= j < i ==> (#[trigger] out@[j]).offset == total_width(fields@.take(j))
                    && out@[j].width == fields@[j].width && out@[j].name@ == fields@[j].name@,
            forall|j: int| 0 <= j < i ==> width_matches(#[trigger] fields@[j]),
        decreases fields@.len() - i,
    {
        let f = &fields[i];
        if let Some(w) = f.width_override {
            if w != f.width {
                return Err(LayoutError::WidthMismatch(f.name.clone(), w, f.width));
            }
        }
        proof {
            lemma_total_width_take_step(fields@, i as int);
            lemma_total_width_take_le(fields@, i + 1);
        }
        out.push(
            FieldLayout {
                name: f.name.clone(),
                width: f.width,
                offset: acc,
            },
        );
        acc = acc + f.width;
        i = i + 1;
    }
    proof {
        assert(fields@.take(i as int) =~= fields@);
    }
    if acc % 8 != 0 {
        return Err(LayoutError::NotByteAligned(acc));
    }
    Ok(Layout { fields: out, total_bits: acc })
}

/// Allocates the backing buffer of a layout: `total_bits / 8` bytes, all
/// zero.
pub fn allocate_buffer(total_bits: usize) -> (r: Vec<u8>)
    requires
        total_bits % 8 == 0,
    ensures
        r@.len() == total_bits / 8,
        forall|i: int| 0 <= i < r@.len() ==> r@[i] == 0u8,
{
    let n: usize = total_bits / 8;
    let mut buf: Vec<u8> = Vec::new();
    let mut i: usize = 0;
    while i < n
        invariant
            buf@.len() == i,
            i <= n,
            forall|j: int| 0 <= j < i ==> buf@[j] == 0u8,
        decreases n - i,
    {
        buf.push(0u8);
        i = i + 1;
    }
    buf
}

} // verus!
