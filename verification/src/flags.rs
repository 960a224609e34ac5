//! Flag sets: a transparent wrapper over a raw `u32` bit mask, combined with
//! the bitwise operators.

use vstd::prelude::*;
use crate::constants::ConstantSet;

verus! {

/// A set of FMOD flags, held as its raw bit mask.
#[derive(Clone, Copy, Debug, PartialEq, Eq, Hash, Structural)]
pub struct Flags {
    raw: u32,
}

impl View for Flags {
    type V = u32;

    closed spec fn view(&self) -> u32 {
        self.raw
    }
}

impl Flags {
    /// The empty set: no bit set.
    pub fn zeroed() -> (r: Flags)
        ensures
            r@ == 0,
    {
        Flags { raw: 0 }
    }

    /// The flag set with bit mask `raw`.
    pub closed spec fn from_raw_spec(raw: u32) -> Flags {
        Flags { raw }
    }

    /// The flags set in either operand (`|`).
    pub open spec fn spec_union(a: Flags, b: Flags) -> Flags {
        Flags::from_raw_spec(a@ | b@)
    }

    /// The flags set in both operands (`&`).
    pub open spec fn spec_intersection(a: Flags, b: Flags) -> Flags {
        Flags::from_raw_spec(a@ & b@)
    }

    /// The flags set in exactly one operand (`^`).
    pub open spec fn spec_toggle(a: Flags, b: Flags) -> Flags {
        Flags::from_raw_spec(a@ ^ b@)
    }

    /// The flags not set (`!`).
    pub open spec fn spec_complement(a: Flags) -> Flags {
        Flags::from_raw_spec(!a@)
    }

    /// The flag set with bit mask `raw`.
    pub fn from_raw(raw: u32) -> (r: Flags)
        ensures
            r == Flags::from_raw_spec(raw),
            r@ == raw,
    {
        Flags { raw }
    }

    /// The bit mask.
    pub fn into_raw(self) -> (r: u32)
        ensures
            r == self@,
    {
        self.raw
    }

    /// A shared view of the bit mask.
    pub fn as_raw(&self) -> (r: &u32)
        ensures
            *r == self@,
    {
        &self.raw
    }

    /// A mutable view of the bit mask: what is written through it becomes the
    /// set's mask.
    pub fn as_raw_mut(&mut self) -> (r: &mut u32)
        ensures
            *r == old(self)@,
            final(self)@ == *final(r),
    {
        &mut self.raw
    }

    /// Whether *all* flags of `variant` are set in `self`.
    pub open spec fn spec_is_set(self, variant: Flags) -> bool {
        self@ & variant@ == variant@
    }

    /// Whether *all* flags of `variant` are set in `self`.
    pub fn is_set(self, variant: Flags) -> (r: bool)
        ensures
            r == self.spec_is_set(variant),
    {
        (self & variant) == variant
    }

    /// What `Debug` prints for this set, given the type's named constants: the
    /// name of the first constant equal to it, else the type name and raw mask.
    pub fn debug_string(self, constants: &ConstantSet) -> (r: String)
        ensures
            r@ == constants.spec_debug(self@ as int),
    {
        constants.debug_string(self.raw as i64)
    }

    /// The value `Default` gives: the constant marked `#[default]`, when there
    /// is one and its value is a `u32` mask.
    pub fn default_in(constants: &ConstantSet) -> (r: Option<Flags>)
        ensures
            match constants.spec_default() {
                Some(v) => if 0 <= v <= u32::MAX {
                    r matches Some(f) && f@ == v
                } else {
                    r is None
                },
                None => r is None,
            },
    {
        match constants.default_value() {
            Some(v) => {
                if 0 <= v && v <= u32::MAX as i64 {
                    Some(Flags { raw: v as u32 })
                } else {
                    None
                }
            },
            None => None,
        }
    }
}

/// Turning a mask into a flag set and back gives the mask; turning a flag set
/// into its mask and back gives the same set.
pub proof fn lemma_raw_round_trip(f: Flags, raw: u32)
    ensures
        Flags::from_raw_spec(raw)@ == raw,
        Flags::from_raw_spec(f@) == f,
{
}

/// Bit `i` of `x` is set.
pub open spec fn has_bit(x: u32, i: u32) -> bool {
    (x >> i) & 1u32 == 1u32
}

/// The low `n` bits of `x` (all of them when `n` is 32).
pub open spec fn low_bits(x: u32, n: u32) -> u64 {
    (x as u64) & ((((1u64 << (n as u64)) - 1) as u64))
}

/// When every bit of `y` below `n` is also set in `x`, `x & y` and `y` agree
/// on their low `n` bits.
proof fn lemma_low_bits_held(x: u32, y: u32, n: u32)
    requires
        n <= 32,
        forall|i: u32| #![trigger has_bit(y, i)] i < n ==> (has_bit(y, i) ==> has_bit(x, i)),
    ensures
        low_bits(x & y, n) == low_bits(y, n),
    decreases n,
{
    if n == 0 {
        assert(low_bits(x & y, 0) == low_bits(y, 0)) by (bit_vector);
    } else {
        let m = (n - 1) as u32;
        lemma_low_bits_held(x, y, m);
        assert(has_bit(y, m) ==> has_bit(x, m));
        assert(low_bits(x & y, n) == low_bits(y, n)) by (bit_vector)
            requires
                m < 32,
                n == m + 1,
                low_bits(x & y, m) == low_bits(y, m),
                (y >> m) & 1u32 == 1u32 ==> (x >> m) & 1u32 == 1u32,
        ;
    }
}

/// `is_set` holds exactly when every flag bit of `variant` is also set in
/// `self`.
pub proof fn lemma_is_set_means_every_bit(a: Flags, variant: Flags)
    ensures
        a.spec_is_set(variant) <==> forall|i: u32|
            #![trigger has_bit(variant@, i)]
            i < 32 ==> (has_bit(variant@, i) ==> has_bit(a@, i)),
{
    let (x, y) = (a@, variant@);
    if x & y == y {
        assert forall|i: u32| #![trigger has_bit(y, i)] i < 32 && has_bit(y, i) implies has_bit(x, i) by {
            assert((x & y == y && i < 32u32 && (y >> i) & 1u32 == 1u32) ==> (x >> i) & 1u32
                == 1u32) by (bit_vector);
        }
    }
    if forall|i: u32| #![trigger has_bit(y, i)] i < 32 ==> (has_bit(y, i) ==> has_bit(x, i)) {
        lemma_low_bits_held(x, y, 32);
        assert(low_bits(x & y, 32) == low_bits(y, 32) ==> x & y == y) by (bit_vector);
    }
}

/// A union holds all flags of each operand, and an intersection's flags are
/// held by each operand.
pub proof fn lemma_union_and_intersection(a: Flags, b: Flags)
    ensures
        Flags::spec_union(a, b).spec_is_set(a),
        Flags::spec_union(a, b).spec_is_set(b),
        a.spec_is_set(Flags::spec_intersection(a, b)),
        b.spec_is_set(Flags::spec_intersection(a, b)),
{
    let (x, y) = (a@, b@);
    assert((x | y) & x == x && (x | y) & y == y) by (bit_vector);
    assert(x & (x & y) == (x & y) && y & (x & y) == (x & y)) by (bit_vector);
}

/// `is_set` orders flag sets: every set holds itself and the empty set, holding
/// is transitive, and two sets that hold each other are equal.
pub proof fn lemma_is_set_is_an_order(a: Flags, b: Flags, c: Flags)
    ensures
        a.spec_is_set(a),
        a.spec_is_set(Flags::from_raw_spec(0)),
        a.spec_is_set(b) && b.spec_is_set(c) ==> a.spec_is_set(c),
        a.spec_is_set(b) && b.spec_is_set(a) ==> a == b,
{
    let (x, y, z) = (a@, b@, c@);
    assert(x & x == x && x & 0 == 0) by (bit_vector);
    assert((x & y == y && y & z == z) ==> x & z == z) by (bit_vector);
    assert((x & y == y && y & x == x) ==> x == y) by (bit_vector);
}

/// A set holds `b` exactly when adding `b` to it changes nothing; the empty set
/// holds only the empty set.
pub proof fn lemma_is_set_as_union(a: Flags, b: Flags)
    ensures
        a.spec_is_set(b) <==> Flags::spec_union(a, b) == a,
        Flags::from_raw_spec(0).spec_is_set(b) <==> b@ == 0,
{
    let (x, y) = (a@, b@);
    assert((x & y == y) <==> (x | y) == x) by (bit_vector);
    assert(((0u32 & y) == y) <==> y == 0) by (bit_vector);
}

/// Complement: a set and its complement share no flag, together they hold
/// every flag, and complementing twice gives the set back. Toggling the same
/// flags twice gives the set back.
pub proof fn lemma_complement_and_toggle(a: Flags, b: Flags)
    ensures
        Flags::spec_intersection(a, Flags::spec_complement(a))@ == 0,
        Flags::spec_union(a, Flags::spec_complement(a))@ == u32::MAX,
        Flags::spec_complement(Flags::spec_complement(a)) == a,
        Flags::spec_toggle(Flags::spec_toggle(a, b), b) == a,
{
    let (x, y) = (a@, b@);
    assert(x & !x == 0 && x | !x == 0xffff_ffffu32 && !(!x) == x) by (bit_vector);
    assert((x ^ y) ^ y == x) by (bit_vector);
}

impl core::ops::BitAnd for Flags {
    type Output = Flags;

    fn bitand(self, rhs: Flags) -> (r: Flags)
        ensures
            r == Flags::from_raw_spec(self@ & rhs@),
            r@ == self@ & rhs@,
    {
        Flags { raw: self.raw & rhs.raw }
    }
}

impl vstd::std_specs::ops::BitAndSpecImpl for Flags {
    open spec fn obeys_bitand_spec() -> bool {
        true
    }

    open spec fn bitand_req(self, rhs: Flags) -> bool {
        true
    }

    closed spec fn bitand_spec(self, rhs: Flags) -> Flags {
        Flags { raw: self.raw & rhs.raw }
    }
}

impl<'a> vstd::std_specs::ops::BitAndSpecImpl<&'a Flags> for Flags {
    open spec fn obeys_bitand_spec() -> bool {
        true
    }

    open spec fn bitand_req(self, rhs: &'a Flags) -> bool {
        true
    }

    closed spec fn bitand_spec(self, rhs: &'a Flags) -> Flags {
        Flags { raw: self.raw & rhs.raw }
    }
}

impl<'a> core::ops::BitAnd<&'a Flags> for Flags {
    type Output = Flags;

    fn bitand(self, rhs: &'a Flags) -> (r: Flags)
        ensures
            r == Flags::from_raw_spec(self@ & rhs@),
            r@ == self@ & rhs@,
    {
        Flags { raw: self.raw & rhs.raw }
    }
}

impl<'a> vstd::std_specs::ops::BitAndSpecImpl<Flags> for &'a Flags {
    open spec fn obeys_bitand_spec() -> bool {
        true
    }

    open spec fn bitand_req(self, rhs: Flags) -> bool {
        true
    }

    closed spec fn bitand_spec(self, rhs: Flags) -> Flags {
        Flags { raw: self.raw & rhs.raw }
    }
}

impl<'a> core::ops::BitAnd<Flags> for &'a Flags {
    type Output = Flags;

    fn bitand(self, rhs: Flags) -> (r: Flags)
        ensures
            r == Flags::from_raw_spec(self@ & rhs@),
            r@ == self@ & rhs@,
    {
        Flags { raw: self.raw & rhs.raw }
    }
}

impl<'a, 'b> vstd::std_specs::ops::BitAndSpecImpl<&'b Flags> for &'a Flags {
    open spec fn obeys_bitand_spec() -> bool {
        true
    }

    open spec fn bitand_req(self, rhs: &'b Flags) -> bool {
        true
    }

    closed spec fn bitand_spec(self, rhs: &'b Flags) -> Flags {
        Flags { raw: self.raw & rhs.raw }
    }
}

impl<'a, 'b> core::ops::BitAnd<&'b Flags> for &'a Flags {
    type Output = Flags;

    fn bitand(self, rhs: &'b Flags) -> (r: Flags)
        ensures
            r == Flags::from_raw_spec(self@ & rhs@),
            r@ == self@ & rhs@,
    {
        Flags { raw: self.raw & rhs.raw }
    }
}

impl core::ops::BitAndAssign for Flags {
    fn bitand_assign(&mut self, rhs: Flags)
        ensures
            *final(self) == Flags::from_raw_spec(old(self)@ & rhs@),
            final(self)@ == old(self)@ & rhs@,
    {
        self.raw = self.raw & rhs.raw;
    }
}

impl<'a> core::ops::BitAndAssign<&'a Flags> for Flags {
    fn bitand_assign(&mut self, rhs: &'a Flags)
        ensures
            *final(self) == Flags::from_raw_spec(old(self)@ & rhs@),
            final(self)@ == old(self)@ & rhs@,
    {
        self.raw = self.raw & rhs.raw;
    }
}

impl core::ops::BitOr for Flags {
    type Output = Flags;

    fn bitor(self, rhs: Flags) -> (r: Flags)
        ensures
            r == Flags::from_raw_spec(self@ | rhs@),
            r@ == self@ | rhs@,
    {
        Flags { raw: self.raw | rhs.raw }
    }
}

impl vstd::std_specs::ops::BitOrSpecImpl for Flags {
    open spec fn obeys_bitor_spec() -> bool {
        true
    }

    open spec fn bitor_req(self, rhs: Flags) -> bool {
        true
    }

    closed spec fn bitor_spec(self, rhs: Flags) -> Flags {
        Flags { raw: self.raw | rhs.raw }
    }
}

impl<'a> vstd::std_specs::ops::BitOrSpecImpl<&'a Flags> for Flags {
    open spec fn obeys_bitor_spec() -> bool {
        true
    }

    open spec fn bitor_req(self, rhs: &'a Flags) -> bool {
        true
    }

    closed spec fn bitor_spec(self, rhs: &'a Flags) -> Flags {
        Flags { raw: self.raw | rhs.raw }
    }
}

impl<'a> core::ops::BitOr<&'a Flags> for Flags {
    type Output = Flags;

    fn bitor(self, rhs: &'a Flags) -> (r: Flags)
        ensures
            r == Flags::from_raw_spec(self@ | rhs@),
            r@ == self@ | rhs@,
    {
        Flags { raw: self.raw | rhs.raw }
    }
}

impl<'a> vstd::std_specs::ops::BitOrSpecImpl<Flags> for &'a Flags {
    open spec fn obeys_bitor_spec() -> bool {
        true
    }

    open spec fn bitor_req(self, rhs: Flags) -> bool {
        true
    }

    closed spec fn bitor_spec(self, rhs: Flags) -> Flags {
        Flags { raw: self.raw | rhs.raw }
    }
}

impl<'a> core::ops::BitOr<Flags> for &'a Flags {
    type Output = Flags;

    fn bitor(self, rhs: Flags) -> (r: Flags)
        ensures
            r == Flags::from_raw_spec(self@ | rhs@),
            r@ == self@ | rhs@,
    {
        Flags { raw: self.raw | rhs.raw }
    }
}

impl<'a, 'b> vstd::std_specs::ops::BitOrSpecImpl<&'b Flags> for &'a Flags {
    open spec fn obeys_bitor_spec() -> bool {
        true
    }

    open spec fn bitor_req(self, rhs: &'b Flags) -> bool {
        true
    }

    closed spec fn bitor_spec(self, rhs: &'b Flags) -> Flags {
        Flags { raw: self.raw | rhs.raw }
    }
}

impl<'a, 'b> core::ops::BitOr<&'b Flags> for &'a Flags {
    type Output = Flags;

    fn bitor(self, rhs: &'b Flags) -> (r: Flags)
        ensures
            r == Flags::from_raw_spec(self@ | rhs@),
            r@ == self@ | rhs@,
    {
        Flags { raw: self.raw | rhs.raw }
    }
}

impl core::ops::BitOrAssign for Flags {
    fn bitor_assign(&mut self, rhs: Flags)
        ensures
            *final(self) == Flags::from_raw_spec(old(self)@ | rhs@),
            final(self)@ == old(self)@ | rhs@,
    {
        self.raw = self.raw | rhs.raw;
    }
}

impl<'a> core::ops::BitOrAssign<&'a Flags> for Flags {
    fn bitor_assign(&mut self, rhs: &'a Flags)
        ensures
            *final(self) == Flags::from_raw_spec(old(self)@ | rhs@),
            final(self)@ == old(self)@ | rhs@,
    {
        self.raw = self.raw | rhs.raw;
    }
}

impl core::ops::BitXor for Flags {
    type Output = Flags;

    fn bitxor(self, rhs: Flags) -> (r: Flags)
        ensures
            r == Flags::from_raw_spec(self@ ^ rhs@),
            r@ == self@ ^ rhs@,
    {
        Flags { raw: self.raw ^ rhs.raw }
    }
}

impl vstd::std_specs::ops::BitXorSpecImpl for Flags {
    open spec fn obeys_bitxor_spec() -> bool {
        true
    }

    open spec fn bitxor_req(self, rhs: Flags) -> bool {
        true
    }

    closed spec fn bitxor_spec(self, rhs: Flags) -> Flags {
        Flags { raw: self.raw ^ rhs.raw }
    }
}

impl<'a> vstd::std_specs::ops::BitXorSpecImpl<&'a Flags> for Flags {
    open spec fn obeys_bitxor_spec() -> bool {
        true
    }

    open spec fn bitxor_req(self, rhs: &'a Flags) -> bool {
        true
    }

    closed spec fn bitxor_spec(self, rhs: &'a Flags) -> Flags {
        Flags { raw: self.raw ^ rhs.raw }
    }
}

impl<'a> core::ops::BitXor<&'a Flags> for Flags {
    type Output = Flags;

    fn bitxor(self, rhs: &'a Flags) -> (r: Flags)
        ensures
            r == Flags::from_raw_spec(self@ ^ rhs@),
            r@ == self@ ^ rhs@,
    {
        Flags { raw: self.raw ^ rhs.raw }
    }
}

impl<'a> vstd::std_specs::ops::BitXorSpecImpl<Flags> for &'a Flags {
    open spec fn obeys_bitxor_spec() -> bool {
        true
    }

    open spec fn bitxor_req(self, rhs: Flags) -> bool {
        true
    }

    closed spec fn bitxor_spec(self, rhs: Flags) -> Flags {
        Flags { raw: self.raw ^ rhs.raw }
    }
}

impl<'a> core::ops::BitXor<Flags> for &'a Flags {
    type Output = Flags;

    fn bitxor(self, rhs: Flags) -> (r: Flags)
        ensures
            r == Flags::from_raw_spec(self@ ^ rhs@),
            r@ == self@ ^ rhs@,
    {
        Flags { raw: self.raw ^ rhs.raw }
    }
}

impl<'a, 'b> vstd::std_specs::ops::BitXorSpecImpl<&'b Flags> for &'a Flags {
    open spec fn obeys_bitxor_spec() -> bool {
        true
    }

    open spec fn bitxor_req(self, rhs: &'b Flags) -> bool {
        true
    }

    closed spec fn bitxor_spec(self, rhs: &'b Flags) -> Flags {
        Flags { raw: self.raw ^ rhs.raw }
    }
}

impl<'a, 'b> core::ops::BitXor<&'b Flags> for &'a Flags {
    type Output = Flags;

    fn bitxor(self, rhs: &'b Flags) -> (r: Flags)
        ensures
            r == Flags::from_raw_spec(self@ ^ rhs@),
            r@ == self@ ^ rhs@,
    {
        Flags { raw: self.raw ^ rhs.raw }
    }
}

impl core::ops::BitXorAssign for Flags {
    fn bitxor_assign(&mut self, rhs: Flags)
        ensures
            *final(self) == Flags::from_raw_spec(old(self)@ ^ rhs@),
            final(self)@ == old(self)@ ^ rhs@,
    {
        self.raw = self.raw ^ rhs.raw;
    }
}

impl<'a> core::ops::BitXorAssign<&'a Flags> for Flags {
    fn bitxor_assign(&mut self, rhs: &'a Flags)
        ensures
            *final(self) == Flags::from_raw_spec(old(self)@ ^ rhs@),
            final(self)@ == old(self)@ ^ rhs@,
    {
        self.raw = self.raw ^ rhs.raw;
    }
}

impl core::ops::Not for Flags {
    type Output = Flags;

    fn not(self) -> (r: Flags)
        ensures
            r == Flags::from_raw_spec(!self@),
            r@ == !self@,
    {
        Flags { raw: !self.raw }
    }
}

impl vstd::std_specs::ops::NotSpecImpl for Flags {
    open spec fn obeys_not_spec() -> bool {
        true
    }

    open spec fn not_req(self) -> bool {
        true
    }

    closed spec fn not_spec(self) -> Flags {
        Flags { raw: !self.raw }
    }
}

impl<'a> vstd::std_specs::ops::NotSpecImpl for &'a Flags {
    open spec fn obeys_not_spec() -> bool {
        true
    }

    open spec fn not_req(self) -> bool {
        true
    }

    closed spec fn not_spec(self) -> Flags {
        Flags { raw: !self.raw }
    }
}

impl<'a> core::ops::Not for &'a Flags {
    type Output = Flags;

    fn not(self) -> (r: Flags)
        ensures
            r == Flags::from_raw_spec(!self@),
            r@ == !self@,
    {
        Flags { raw: !self.raw }
    }
}

} // verus!
