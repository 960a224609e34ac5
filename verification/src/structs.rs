//! Mirrored structs: a Rust struct that stands for a C struct must have the
//! same size and alignment, and each mapped field the same offset.

use vstd::prelude::*;

verus! {

/// Size and alignment of a type, in bytes.
#[derive(Clone, Copy, Debug, PartialEq, Eq, Structural)]
pub struct TypeLayout {
    pub size: usize,
    pub align: usize,
}

/// The first way a mirror differs from the C struct it stands for.
#[derive(Clone, Copy, Debug, PartialEq, Eq, Structural)]
pub enum LayoutMismatch {
    Size,
    Align,
    /// The field pair at `index` (the first such) has different offsets.
    FieldOffset { index: usize },
}

/// For each field pair, whether its offsets differ.
pub open spec fn offset_differs(fields: Seq<(usize, usize)>) -> Seq<bool> {
    fields.map_values(|p: (usize, usize)| p.0 != p.1)
}

/// What checking a mirror against its C struct gives; `fields` pairs the
/// offset of each mapped mirror field with that of its C field.
pub open spec fn spec_check_mirror(mirror: TypeLayout, raw: TypeLayout, fields: Seq<(usize, usize)>) -> Result<(), LayoutMismatch> {
    if mirror.size != raw.size {
        Err(LayoutMismatch::Size)
    } else if mirror.align != raw.align {
        Err(LayoutMismatch::Align)
    } else {
        match offset_differs(fields).index_of_first(true) {
            Some(i) => Err(LayoutMismatch::FieldOffset { index: i as usize }),
            None => Ok(()),
        }
    }
}

/// Checks a mirror struct against the C struct it stands for: size, then
/// alignment, then each mapped field's offset in order.
pub fn check_mirror(mirror: TypeLayout, raw: TypeLayout, fields: &Vec<(usize, usize)>) -> (r: Result<(), LayoutMismatch>)
    ensures
        r == spec_check_mirror(mirror, raw, fields@),
{
    if mirror.size != raw.size {
        return Err(LayoutMismatch::Size);
    }
    if mirror.align != raw.align {
        return Err(LayoutMismatch::Align);
    }
    let mut i: usize = 0;
    while i < fields.len()
        invariant
            i <= fields@.len(),
            mirror.size == raw.size,
            mirror.align == raw.align,
            forall|j: int| 0 <= j < i ==> fields@[j].0 == fields@[j].1,
        decreases fields@.len() - i,
    {
        let (a, b) = fields[i];
        assert(offset_differs(fields@)[i as int] == (a != b));
        if a != b {
            proof {
                let d = offset_differs(fields@);
                d.index_of_first_ensures(true);
                assert(d[i as int]);
                match d.index_of_first(true) {
                    Some(k) => {
                        if k < i {
                            assert(d[k] == (fields@[k].0 != fields@[k].1));
                        } else if k > i {
                        }
                    },
                    None => {
                        assert(d.contains(true));
                    },
                }
            }
            return Err(LayoutMismatch::FieldOffset { index: i });
        }
        i = i + 1;
    }
    proof {
        let d = offset_differs(fields@);
        d.index_of_first_ensures(true);
        if let Some(k) = d.index_of_first(true) {
            assert(d[k] == (fields@[k].0 != fields@[k].1));
        }
    }
    Ok(())
}

/// A mirror whose size and alignment agree with its C struct passes exactly
/// when every mapped field pair, the last one included, has equal offsets; a
/// failing check names the first pair whose offsets differ. A size or
/// alignment disagreement is reported before any field.
pub proof fn lemma_check_mirror_fields(mirror: TypeLayout, raw: TypeLayout, fields: Seq<(usize, usize)>)
    ensures
        mirror.size != raw.size ==> spec_check_mirror(mirror, raw, fields) == Err::<(), LayoutMismatch>(
            LayoutMismatch::Size,
        ),
        mirror.size == raw.size && mirror.align != raw.align ==> spec_check_mirror(mirror, raw, fields)
            == Err::<(), LayoutMismatch>(LayoutMismatch::Align),
        mirror.size == raw.size && mirror.align == raw.align ==> (spec_check_mirror(
            mirror,
            raw,
            fields,
        ) is Ok <==> (forall|k: int| 0 <= k < fields.len() ==> fields[k].0 == fields[k].1)),
        forall|i: int|
            0 <= i < fields.len() && mirror.size == raw.size && mirror.align == raw.align
                && fields[i].0 != fields[i].1 && (forall|k: int| 0 <= k < i ==> fields[k].0
                == fields[k].1) ==> spec_check_mirror(mirror, raw, fields) == Err::<
                (),
                LayoutMismatch,
            >(LayoutMismatch::FieldOffset { index: i as usize }),
{
    let d = offset_differs(fields);
    d.index_of_first_ensures(true);
    assert(d.len() == fields.len());
    if mirror.size == raw.size && mirror.align == raw.align {
        if forall|k: int| 0 <= k < fields.len() ==> fields[k].0 == fields[k].1 {
            if let Some(j) = d.index_of_first(true) {
                assert(d[j] == (fields[j].0 != fields[j].1));
            }
        } else {
            let w = choose|k: int| 0 <= k < fields.len() && fields[k].0 != fields[k].1;
            assert(d[w]);
            assert(d.contains(true));
        }
    }
    assert forall|i: int|
        0 <= i < fields.len() && mirror.size == raw.size && mirror.align == raw.align
            && fields[i].0 != fields[i].1 && (forall|k: int| 0 <= k < i ==> fields[k].0
            == fields[k].1) implies spec_check_mirror(mirror, raw, fields) == Err::<
        (),
        LayoutMismatch,
    >(LayoutMismatch::FieldOffset { index: i as usize }) by {
        assert(d[i]);
        assert(d.contains(true));
        let j = d.index_of_first(true).unwrap();
        if j < i {
            assert(d[j] == (fields[j].0 != fields[j].1));
        } else if j > i {
            assert(!d[i]);
        }
    }
}

} // verus!
