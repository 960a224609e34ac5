//! Strict enums: FMOD enumerations whose raw `i32` values form one contiguous
//! range `[min, max)`, with exactly one variant per value in that range.
//!
//! A definition is checked once, as the enum-defining macro checks it at
//! compile time; the checked definition then converts raw values to variants
//! and back.

use vstd::prelude::*;
use vstd::string::StringExecFns;

verus! {

/// The error FMOD reports for a parameter outside the accepted values.
#[derive(Clone, Copy, Debug, PartialEq, Eq, Structural)]
pub enum FmodError {
    InvalidParam,
}

/// The bound clause written after `where` in an enum definition.
///
/// `raw_max` is the value of the raw C type's `_MAX` sentinel, which bounds the
/// enum from above when no explicit upper bound is written.
#[derive(Clone, Copy, Debug, PartialEq, Eq, Structural)]
pub enum BoundsClause {
    /// No clause: `0 <= self < raw_max`.
    Unbounded { raw_max: i32 },
    /// `self <= max`, with `0 <= self`.
    AtMost { max: i32 },
    /// `self < max`, with `0 <= self`.
    Below { max: i32 },
    /// `self >= min`, with `self < raw_max`.
    AtLeast { min: i32, raw_max: i32 },
    /// `self <= max, self >= min`.
    AtMostAtLeast { max: i32, min: i32 },
    /// `self < max, self >= min`.
    BelowAtLeast { max: i32, min: i32 },
}

/// Why an enum definition is rejected.
#[derive(Clone, Copy, Debug, PartialEq, Eq, Structural)]
pub enum DefinitionError {
    /// An inclusive upper bound of `i32::MAX` cannot be made exclusive.
    BoundOverflow,
    /// The variant at `index` (the first such) lies outside `[min, max)`.
    VariantOutOfRange { index: usize },
    /// Zero lies outside `[min, max)`, so no zeroed value would exist.
    ZeroOutOfRange,
    /// `max - min` does not fit in `i32`.
    CountOverflow,
    /// Fewer variants than values in `[min, max)`.
    MissingVariants,
    /// More variants than values in `[min, max)`.
    ExtraneousVariants,
    /// Two variants share a raw value; `index` is the first variant whose
    /// value already occurs before it.
    DuplicateValue { index: usize },
}

/// One named variant of an enum definition.
pub struct EnumVariant {
    pub name: String,
    pub value: i32,
}

/// The exclusive range `(min, max)` a bounds clause denotes, if it has one.
pub open spec fn clause_range(c: BoundsClause) -> Option<(int, int)> {
    match c {
        BoundsClause::Unbounded { raw_max } => Some((0, raw_max as int)),
        BoundsClause::AtMost { max } => if max == i32::MAX {
            None
        } else {
            Some((0, max + 1))
        },
        BoundsClause::Below { max } => Some((0, max as int)),
        BoundsClause::AtLeast { min, raw_max } => Some((min as int, raw_max as int)),
        BoundsClause::AtMostAtLeast { max, min } => if max == i32::MAX {
            None
        } else {
            Some((min as int, max + 1))
        },
        BoundsClause::BelowAtLeast { max, min } => Some((min as int, max as int)),
    }
}

/// The raw values of a list of variants, in order.
pub open spec fn values_of(vs: Seq<EnumVariant>) -> Seq<int> {
    vs.map_values(|v: EnumVariant| v.value as int)
}

/// The names of a list of variants, in order.
pub open spec fn names_of(vs: Seq<EnumVariant>) -> Seq<Seq<char>> {
    vs.map_values(|v: EnumVariant| v.name@)
}

/// The value at `j` already occurs at an earlier position.
pub open spec fn repeats_earlier(values: Seq<int>, j: int) -> bool {
    exists|i: int| 0 <= i < j && values[i] == values[j]
}

/// No value occurs twice.
pub open spec fn all_distinct(values: Seq<int>) -> bool {
    forall|i: int, j: int| 0 <= i < j < values.len() ==> values[i] != values[j]
}

/// Every value lies in `[lo, hi)`.
pub open spec fn all_in_range(values: Seq<int>, lo: int, hi: int) -> bool {
    forall|i: int| 0 <= i < values.len() ==> lo <= #[trigger] values[i] < hi
}

/// A definition with these values and range is accepted: distinct values, all in
/// range, zero in range, a width that fits in `i32`, one variant per value of
/// the range.
pub open spec fn well_formed_values(values: Seq<int>, lo: int, hi: int) -> bool {
    &&& all_distinct(values)
    &&& all_in_range(values, lo, hi)
    &&& lo <= 0 < hi
    &&& hi - lo <= i32::MAX
    &&& values.len() == hi - lo
}

/// Distinct values, all inside `[lo, hi)`, as many as the range has: then every
/// value of the range is one of them.
pub proof fn lemma_values_cover_range(values: Seq<int>, lo: int, hi: int)
    requires
        all_distinct(values),
        all_in_range(values, lo, hi),
        values.len() == hi - lo,
    ensures
        forall|r: int| lo <= r < hi ==> values.contains(r),
{
    assert(values.no_duplicates());
    values.unique_seq_to_set();
    vstd::set_lib::lemma_int_range(lo, hi);
    let range = vstd::set_lib::set_int_range(lo, hi);
    assert(values.to_set().subset_of(range));
    vstd::set_lib::lemma_len_subset(values.to_set(), range);
    vstd::set_lib::lemma_subset_equality(values.to_set(), range);
    assert forall|r: int| lo <= r < hi implies values.contains(r) by {
        assert(range.contains(r));
        assert(values.to_set().contains(r));
    }
}

/// A checked enum definition.
pub struct StrictEnum {
    name: String,
    min: i32,
    max: i32,
    variants: Vec<EnumVariant>,
}

impl StrictEnum {
    /// The definition rules hold of the kept definition.
    pub closed spec fn wf(self) -> bool {
        &&& well_formed_values(values_of(self.variants@), self.min as int, self.max as int)
    }

    /// Lowest raw value (inclusive).
    pub closed spec fn spec_min(self) -> int {
        self.min as int
    }

    /// Upper raw bound (exclusive).
    pub closed spec fn spec_max(self) -> int {
        self.max as int
    }

    /// The raw value of each variant, in declaration order.
    pub closed spec fn spec_values(self) -> Seq<int> {
        values_of(self.variants@)
    }

    /// The name of each variant, in declaration order.
    pub closed spec fn spec_names(self) -> Seq<Seq<char>> {
        names_of(self.variants@)
    }

    /// The enum's own name.
    pub closed spec fn spec_name(self) -> Seq<char> {
        self.name@
    }

    /// A checked definition satisfies the definition rules.
    pub proof fn lemma_well_formed(self)
        requires
            self.wf(),
        ensures
            well_formed_values(self.spec_values(), self.spec_min(), self.spec_max()),
            self.spec_names().len() == self.spec_values().len(),
    {
    }

    /// Checks an enum definition the way the compile-time checks do (bounds,
    /// each variant in range, zero in range, the variant count, then distinct
    /// values), and keeps it if it passes.
    pub fn define(name: String, clause: BoundsClause, variants: Vec<EnumVariant>) -> (r: Result<
        StrictEnum,
        DefinitionError,
    >)
        ensures
            ({
                let values = values_of(variants@);
                let range = clause_range(clause);
                let lo = range.unwrap().0;
                let hi = range.unwrap().1;
                match r {
                    Ok(e) => {
                        &&& e.wf()
                        &&& range is Some
                        &&& well_formed_values(values, lo, hi)
                        &&& e.spec_min() == lo && e.spec_max() == hi
                        &&& e.spec_values() == values
                        &&& e.spec_names() == names_of(variants@)
                        &&& e.spec_name() == name@
                    },
                    Err(DefinitionError::BoundOverflow) => range is None,
                    Err(DefinitionError::VariantOutOfRange { index }) => {
                        &&& range is Some
                        &&& index < values.len()
                        &&& !(lo <= values[index as int] < hi)
                        &&& all_in_range(values.take(index as int), lo, hi)
                    },
                    Err(DefinitionError::ZeroOutOfRange) => {
                        &&& range is Some
                        &&& all_in_range(values, lo, hi)
                        &&& !(lo <= 0 < hi)
                    },
                    Err(DefinitionError::CountOverflow) => {
                        &&& range is Some
                        &&& all_in_range(values, lo, hi)
                        &&& lo <= 0 < hi
                        &&& hi - lo > i32::MAX
                    },
                    Err(DefinitionError::MissingVariants) => {
                        &&& range is Some
                        &&& all_in_range(values, lo, hi)
                        &&& lo <= 0 < hi
                        &&& hi - lo <= i32::MAX
                        &&& values.len() < hi - lo
                    },
                    Err(DefinitionError::ExtraneousVariants) => {
                        &&& range is Some
                        &&& all_in_range(values, lo, hi)
                        &&& lo <= 0 < hi
                        &&& hi - lo <= i32::MAX
                        &&& values.len() > hi - lo
                    },
                    Err(DefinitionError::DuplicateValue { index }) => {
                        &&& range is Some
                        &&& all_in_range(values, lo, hi)
                        &&& lo <= 0 < hi
                        &&& hi - lo <= i32::MAX
                        &&& values.len() == hi - lo
                        &&& index < values.len()
                        &&& repeats_earlier(values, index as int)
                        &&& forall|j: int| 0 <= j < index ==> !repeats_earlier(values, j)
                    },
                }
            }),
            r is Ok <==> (clause_range(clause) is Some && well_formed_values(
                values_of(variants@),
                clause_range(clause).unwrap().0,
                clause_range(clause).unwrap().1,
            )),
    {
        let ghost values = values_of(variants@);
        let n = variants.len();
        assert(values.len() == n);
        // The range the clause denotes.
        let (lo, hi): (i32, i32) = match clause {
            BoundsClause::Unbounded { raw_max } => (0, raw_max),
            BoundsClause::AtMost { max } => {
                if max == i32::MAX {
                    return Err(DefinitionError::BoundOverflow);
                }
                (0, max + 1)
            },
            BoundsClause::Below { max } => (0, max),
            BoundsClause::AtLeast { min, raw_max } => (min, raw_max),
            BoundsClause::AtMostAtLeast { max, min } => {
                if max == i32::MAX {
                    return Err(DefinitionError::BoundOverflow);
                }
                (min, max + 1)
            },
            BoundsClause::BelowAtLeast { max, min } => (min, max),
        };
        assert(clause_range(clause) == Some((lo as int, hi as int)));
        // Every variant in range.
        let mut k: usize = 0;
        while k < n
            invariant
                n == variants@.len(),
                values == values_of(variants@),
                k <= n,
                clause_range(clause) == Some((lo as int, hi as int)),
                all_in_range(values.take(k as int), lo as int, hi as int),
            decreases n - k,
        {
            let v = variants[k].value;
            assert(values[k as int] == v as int);
            if !(lo <= v && v < hi) {
                return Err(DefinitionError::VariantOutOfRange { index: k });
            }
            assert(values.take(k + 1) == values.take(k as int).push(values[k as int]));
            k = k + 1;
        }
        assert(values.take(n as int) == values);
        if !(lo <= 0 && 0 < hi) {
            return Err(DefinitionError::ZeroOutOfRange);
        }
        let width: i64 = (hi as i64) - (lo as i64);
        if width > i32::MAX as i64 {
            return Err(DefinitionError::CountOverflow);
        }
        let count: usize = width as usize;
        if n < count {
            return Err(DefinitionError::MissingVariants);
        }
        if n > count {
            return Err(DefinitionError::ExtraneousVariants);
        }
        // Duplicate raw values.
        let mut j: usize = 0;
        while j < n
            invariant
                n == variants@.len(),
                values == values_of(variants@),
                j <= n,
                clause_range(clause) == Some((lo as int, hi as int)),
                all_in_range(values, lo as int, hi as int),
                lo <= 0 < hi,
                hi - lo <= i32::MAX,
                values.len() == hi - lo,
                forall|k: int| 0 <= k < j ==> !repeats_earlier(values, k),
            decreases n - j,
        {
            let mut i: usize = 0;
            while i < j
                invariant
                    n == variants@.len(),
                    values == values_of(variants@),
                    i <= j < n,
                    clause_range(clause) == Some((lo as int, hi as int)),
                    all_in_range(values, lo as int, hi as int),
                    lo <= 0 < hi,
                    hi - lo <= i32::MAX,
                    values.len() == hi - lo,
                    forall|k: int| 0 <= k < j ==> !repeats_earlier(values, k),
                    forall|k: int| 0 <= k < i ==> values[k] != values[j as int],
                decreases j - i,
            {
                if variants[i].value == variants[j].value {
                    assert(values[i as int] == variants@[i as int].value as int);
                    assert(values[j as int] == variants@[j as int].value as int);
                    assert(repeats_earlier(values, j as int));
                    return Err(DefinitionError::DuplicateValue { index: j });
                }
                i = i + 1;
            }
            assert(!repeats_earlier(values, j as int));
            j = j + 1;
        }
        assert(all_distinct(values)) by {
            assert forall|a: int, b: int| 0 <= a < b < values.len() implies values[a]
                != values[b] by {
                assert(!repeats_earlier(values, b));
            }
        }
        let e = StrictEnum { name, min: lo, max: hi, variants };
        Ok(e)
    }
}


impl StrictEnum {
    /// Lowest raw value (inclusive).
    pub fn min(&self) -> (r: i32)
        ensures
            r == self.spec_min(),
    {
        self.min
    }

    /// Upper raw bound (exclusive).
    pub fn max(&self) -> (r: i32)
        ensures
            r == self.spec_max(),
    {
        self.max
    }

    /// Number of variants.
    pub fn variant_count(&self) -> (r: usize)
        requires
            self.wf(),
        ensures
            r == self.spec_values().len(),
            r == self.spec_max() - self.spec_min(),
    {
        self.variants.len()
    }

    /// The enum's name.
    pub fn name(&self) -> (r: &str)
        ensures
            r@ == self.spec_name(),
    {
        self.name.as_str()
    }

    /// The name of the variant at `index`, which is what its `Debug` prints.
    pub fn variant_name(&self, index: usize) -> (r: &str)
        requires
            index < self.spec_values().len(),
        ensures
            r@ == self.spec_names()[index as int],
    {
        self.variants[index].name.as_str()
    }

    /// The raw value of the variant at `index`.
    pub fn into_raw(&self, index: usize) -> (r: i32)
        requires
            index < self.spec_values().len(),
        ensures
            r as int == self.spec_values()[index as int],
    {
        self.variants[index].value
    }

    /// The variant whose raw value is `raw`, which must lie in `[min, max)`.
    pub fn from_raw(&self, raw: i32) -> (r: usize)
        requires
            self.wf(),
            self.spec_min() <= raw < self.spec_max(),
        ensures
            r < self.spec_values().len(),
            self.spec_values()[r as int] == raw as int,
    {
        let ghost values = self.spec_values();
        proof {
            lemma_values_cover_range(values, self.min as int, self.max as int);
            assert(values.contains(raw as int));
        }
        let n = self.variants.len();
        let mut i: usize = 0;
        while i < n
            invariant
                n == values.len(),
                values == self.spec_values(),
                values.contains(raw as int),
                i <= n,
                forall|k: int| 0 <= k < i ==> values[k] != raw as int,
            decreases n - i,
        {
            assert(values[i as int] == self.variants@[i as int].value as int);
            if self.variants[i].value == raw {
                return i;
            }
            i = i + 1;
        }
        proof {
            let k = choose|k: int| 0 <= k < values.len() && values[k] == raw as int;
            assert(values[k] != raw as int);
        }
        0
    }

    /// The variant whose raw value is `raw`, or `InvalidParam` when `raw` lies
    /// outside `[min, max)`.
    pub fn try_from_raw(&self, raw: i32) -> (r: Result<usize, FmodError>)
        requires
            self.wf(),
        ensures
            r is Ok <==> self.spec_min() <= raw < self.spec_max(),
            match r {
                Ok(i) => i < self.spec_values().len() && self.spec_values()[i as int] == raw as int,
                Err(e) => e == FmodError::InvalidParam,
            },
    {
        if self.min <= raw && raw < self.max {
            Ok(self.from_raw(raw))
        } else {
            Err(FmodError::InvalidParam)
        }
    }

    /// The variant with raw value zero.
    pub fn zeroed(&self) -> (r: usize)
        requires
            self.wf(),
        ensures
            r < self.spec_values().len(),
            self.spec_values()[r as int] == 0,
    {
        self.from_raw(0)
    }
}

/// Every raw value in `[min, max)` names exactly one variant of a checked
/// definition: some variant has it, and no two variants share it.
pub proof fn lemma_each_raw_value_names_one_variant(e: StrictEnum, raw: int)
    requires
        e.wf(),
        e.spec_min() <= raw < e.spec_max(),
    ensures
        exists|i: int| 0 <= i < e.spec_values().len() && e.spec_values()[i] == raw,
        forall|i: int, j: int|
            0 <= i < e.spec_values().len() && 0 <= j < e.spec_values().len()
                && e.spec_values()[i] == raw && e.spec_values()[j] == raw ==> i == j,
{
    lemma_values_cover_range(e.spec_values(), e.spec_min(), e.spec_max());
    assert(e.spec_values().contains(raw));
    assert forall|i: int, j: int|
        0 <= i < e.spec_values().len() && 0 <= j < e.spec_values().len()
            && e.spec_values()[i] == raw && e.spec_values()[j] == raw implies i == j by {
        if i < j {
            assert(e.spec_values()[i] != e.spec_values()[j]);
        } else if j < i {
            assert(e.spec_values()[j] != e.spec_values()[i]);
        }
    }
}

/// Converting a variant to its raw value and back gives the same variant.
pub proof fn lemma_into_raw_then_from_raw(e: StrictEnum, index: int)
    requires
        e.wf(),
        0 <= index < e.spec_values().len(),
    ensures
        e.spec_min() <= e.spec_values()[index] < e.spec_max(),
        forall|j: int|
            0 <= j < e.spec_values().len() && e.spec_values()[j] == e.spec_values()[index]
                ==> j == index,
{
    lemma_each_raw_value_names_one_variant(e, e.spec_values()[index]);
}

} // verus!
