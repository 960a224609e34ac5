//! Named constants of a raw-valued type (flag sets and open enums): the names
//! their `Debug` prints and the constant their `Default` picks.

use vstd::prelude::*;
use vstd::string::StringExecFns;
use crate::text::{push_signed_decimal, push_str, signed_decimal};

verus! {

/// One named constant: `name = value`, possibly marked `#[default]`.
pub struct NamedConstant {
    pub name: String,
    pub value: i64,
    pub is_default: bool,
}

/// Why a list of named constants is rejected.
#[derive(Clone, Copy, Debug, PartialEq, Eq, Structural)]
pub enum ConstantSetError {
    /// The constant at `index` (the first such) reuses an earlier name.
    DuplicateName { index: usize },
    /// The constant at `index` (the first such) is a second `#[default]`.
    MultipleDefaults { index: usize },
}

/// What `Debug` prints for `value`: the name of the first constant with that
/// value, else the type's name with the raw field.
pub open spec fn debug_text(
    type_ident: Seq<char>,
    names: Seq<Seq<char>>,
    values: Seq<int>,
    value: int,
) -> Seq<char> {
    match values.index_of_first(value) {
        Some(i) => names[i],
        None => type_ident + " { raw: "@ + signed_decimal(value) + " }"@,
    }
}

/// The name at `j` already occurs at an earlier position.
pub open spec fn name_repeats_earlier(names: Seq<Seq<char>>, j: int) -> bool {
    exists|i: int| 0 <= i < j && names[i] == names[j]
}

/// The default mark at `j` is not the first one.
pub open spec fn default_repeats_earlier(defaults: Seq<bool>, j: int) -> bool {
    defaults[j] && exists|i: int| 0 <= i < j && defaults[i]
}

/// Names are distinct and at most one constant is marked default.
pub open spec fn well_formed_constants(names: Seq<Seq<char>>, defaults: Seq<bool>) -> bool {
    &&& forall|i: int, j: int| 0 <= i < j < names.len() ==> names[i] != names[j]
    &&& forall|i: int, j: int| 0 <= i < j < defaults.len() ==> !(defaults[i] && defaults[j])
}

pub open spec fn names_of(cs: Seq<NamedConstant>) -> Seq<Seq<char>> {
    cs.map_values(|c: NamedConstant| c.name@)
}

pub open spec fn values_of(cs: Seq<NamedConstant>) -> Seq<int> {
    cs.map_values(|c: NamedConstant| c.value as int)
}

pub open spec fn defaults_of(cs: Seq<NamedConstant>) -> Seq<bool> {
    cs.map_values(|c: NamedConstant| c.is_default)
}

/// The named constants of one raw-valued type.
pub struct ConstantSet {
    type_ident: String,
    constants: Vec<NamedConstant>,
}

impl ConstantSet {
    pub closed spec fn spec_type_ident(self) -> Seq<char> {
        self.type_ident@
    }

    pub closed spec fn spec_names(self) -> Seq<Seq<char>> {
        names_of(self.constants@)
    }

    pub closed spec fn spec_values(self) -> Seq<int> {
        values_of(self.constants@)
    }

    pub closed spec fn spec_defaults(self) -> Seq<bool> {
        defaults_of(self.constants@)
    }

    /// Names distinct, at most one default.
    pub open spec fn wf(self) -> bool {
        well_formed_constants(self.spec_names(), self.spec_defaults())
    }

    /// What `Debug` prints for a value of this type.
    pub open spec fn spec_debug(self, value: int) -> Seq<char> {
        debug_text(self.spec_type_ident(), self.spec_names(), self.spec_values(), value)
    }

    /// The value of the constant marked default, if one is.
    pub open spec fn spec_default(self) -> Option<int> {
        match self.spec_defaults().index_of_first(true) {
            Some(i) => Some(self.spec_values()[i]),
            None => None,
        }
    }

    /// Checks the constants as the compiler would (one name per constant, one
    /// `Default` impl at most) and keeps them.
    pub fn define(type_ident: String, constants: Vec<NamedConstant>) -> (r: Result<
        ConstantSet,
        ConstantSetError,
    >)
        ensures
            r is Ok <==> well_formed_constants(names_of(constants@), defaults_of(constants@)),
            match r {
                Ok(set) => {
                    &&& set.wf()
                    &&& set.spec_type_ident() == type_ident@
                    &&& set.spec_names() == names_of(constants@)
                    &&& set.spec_values() == values_of(constants@)
                    &&& set.spec_defaults() == defaults_of(constants@)
                },
                Err(ConstantSetError::DuplicateName { index }) => {
                    &&& index < constants@.len()
                    &&& name_repeats_earlier(names_of(constants@), index as int)
                    &&& forall|j: int|
                        0 <= j < index ==> !name_repeats_earlier(names_of(constants@), j)
                },
                Err(ConstantSetError::MultipleDefaults { index }) => {
                    &&& forall|a: int, b: int|
                        0 <= a < b < constants@.len() ==> names_of(constants@)[a] != names_of(
                            constants@,
                        )[b]
                    &&& index < constants@.len()
                    &&& default_repeats_earlier(defaults_of(constants@), index as int)
                    &&& forall|j: int|
                        0 <= j < index ==> !default_repeats_earlier(defaults_of(constants@), j)
                },
            },
    {
        let ghost names = names_of(constants@);
        let ghost defaults = defaults_of(constants@);
        let n = constants.len();
        assert(names.len() == n && defaults.len() == n);
        let mut j: usize = 0;
        while j < n
            invariant
                n == constants@.len(),
                names == names_of(constants@),
                names.len() == n,
                j <= n,
                forall|k: int| 0 <= k < j ==> !name_repeats_earlier(names, k),
            decreases n - j,
        {
            let mut i: usize = 0;
            while i < j
                invariant
                    n == constants@.len(),
                    names == names_of(constants@),
                    names.len() == n,
                    i <= j < n,
                    forall|k: int| 0 <= k < j ==> !name_repeats_earlier(names, k),
                    forall|k: int| 0 <= k < i ==> names[k] != names[j as int],
                decreases j - i,
            {
                assert(names[i as int] == constants@[i as int].name@);
                assert(names[j as int] == constants@[j as int].name@);
                if constants[i].name == constants[j].name {
                    assert(name_repeats_earlier(names, j as int));
                    return Err(ConstantSetError::DuplicateName { index: j });
                }
                i = i + 1;
            }
            assert(!name_repeats_earlier(names, j as int));
            j = j + 1;
        }
        assert forall|a: int, b: int| 0 <= a < b < names.len() implies names[a] != names[b] by {
            assert(!name_repeats_earlier(names, b));
        }
        let mut seen: bool = false;
        let mut k: usize = 0;
        while k < n
            invariant
                n == constants@.len(),
                defaults == defaults_of(constants@),
                defaults.len() == n,
                k <= n,
                seen <==> exists|i: int| 0 <= i < k && defaults[i],
                forall|a: int, b: int|
                    0 <= a < b < constants@.len() ==> names_of(constants@)[a] != names_of(
                        constants@,
                    )[b],
                forall|m: int| 0 <= m < k ==> !default_repeats_earlier(defaults, m),
            decreases n - k,
        {
            assert(defaults[k as int] == constants@[k as int].is_default);
            if constants[k].is_default {
                if seen {
                    assert(default_repeats_earlier(defaults, k as int));
                    return Err(ConstantSetError::MultipleDefaults { index: k });
                }
                seen = true;
            }
            assert(!default_repeats_earlier(defaults, k as int));
            k = k + 1;
        }
        assert forall|a: int, b: int| 0 <= a < b < defaults.len() implies !(defaults[a]
            && defaults[b]) by {
            assert(!default_repeats_earlier(defaults, b));
        }
        Ok(ConstantSet { type_ident, constants })
    }

    /// The type's name.
    pub fn type_ident(&self) -> (r: &str)
        ensures
            r@ == self.spec_type_ident(),
    {
        self.type_ident.as_str()
    }

    /// The position of the first constant whose value is `value`.
    pub fn first_with_value(&self, value: i64) -> (r: Option<usize>)
        ensures
            r matches Some(i) ==> self.spec_values().index_of_first(value as int) == Some(
                i as int,
            ),
            r is None ==> self.spec_values().index_of_first(value as int) is None,
    {
        let ghost values = self.spec_values();
        proof {
            values.index_of_first_ensures(value as int);
        }
        let n = self.constants.len();
        let mut i: usize = 0;
        while i < n
            invariant
                n == self.constants@.len(),
                values == self.spec_values(),
                values.len() == n,
                i <= n,
                forall|k: int| 0 <= k < i ==> values[k] != value as int,
                match values.index_of_first(value as int) {
                    Some(index) => {
                        &&& values.contains(value as int)
                        &&& 0 <= index < values.len()
                        &&& values[index] == value as int
                        &&& forall|j: int| 0 <= j < index < values.len() ==> values[j] != value as int
                    },
                    None => !values.contains(value as int),
                },
            decreases n - i,
        {
            assert(values[i as int] == self.constants@[i as int].value as int);
            if self.constants[i].value == value {
                proof {
                    if let Some(index) = values.index_of_first(value as int) {
                        if index < i {
                            assert(values[index] != value as int);
                        } else if index > i {
                            assert(values[i as int] != value as int);
                        }
                    } else {
                        assert(values.contains(value as int));
                    }
                }
                return Some(i);
            }
            i = i + 1;
        }
        proof {
            if let Some(index) = values.index_of_first(value as int) {
                assert(values[index] == value as int);
                assert(false);
            }
        }
        None
    }

    /// What `Debug` prints for `value`.
    pub fn debug_string(&self, value: i64) -> (r: String)
        ensures
            r@ == self.spec_debug(value as int),
    {
        proof {
            self.spec_values().index_of_first_ensures(value as int);
            assert(self.spec_values().len() == self.constants@.len());
        }
        match self.first_with_value(value) {
            Some(i) => {
                let r = self.constants[i].name.clone();
                assert(r@ == self.spec_names()[i as int]);
                r
            },
            None => {
                let mut s = self.type_ident.clone();
                push_str(&mut s, " { raw: ");
                push_signed_decimal(&mut s, value as i128);
                push_str(&mut s, " }");
                assert(s@ =~= self.spec_type_ident() + " { raw: "@ + signed_decimal(value as int)
                    + " }"@);
                s
            },
        }
    }

    /// The value of the constant marked default, if one is.
    pub fn default_value(&self) -> (r: Option<i64>)
        ensures
            r matches Some(v) ==> self.spec_default() == Some(v as int),
            r is None ==> self.spec_default() is None,
    {
        let ghost defaults = self.spec_defaults();
        proof {
            defaults.index_of_first_ensures(true);
        }
        let n = self.constants.len();
        let mut i: usize = 0;
        while i < n
            invariant
                n == self.constants@.len(),
                defaults == self.spec_defaults(),
                defaults.len() == n,
                i <= n,
                forall|k: int| 0 <= k < i ==> !defaults[k],
                match defaults.index_of_first(true) {
                    Some(index) => {
                        &&& 0 <= index < defaults.len()
                        &&& defaults[index]
                        &&& forall|j: int| 0 <= j < index < defaults.len() ==> !defaults[j]
                    },
                    None => !defaults.contains(true),
                },
            decreases n - i,
        {
            assert(defaults[i as int] == self.constants@[i as int].is_default);
            if self.constants[i].is_default {
                let ghost index = defaults.index_of_first(true);
                assert(index == Some(i as int));
                assert(self.spec_values()[i as int] == self.constants@[i as int].value as int);
                return Some(self.constants[i].value);
            }
            i = i + 1;
        }
        proof {
            if let Some(index) = defaults.index_of_first(true) {
                assert(defaults[index]);
                assert(false);
            }
        }
        None
    }
}

/// `Debug` of a named constant's value prints that constant's name, unless an
/// earlier constant has the same value, whose name it prints instead; a value
/// no constant has prints the type name and raw value.
pub proof fn lemma_debug_of_constant(set: ConstantSet, i: int, value: int)
    requires
        0 <= i < set.spec_values().len(),
    ensures
        (forall|j: int| 0 <= j < i ==> set.spec_values()[j] != set.spec_values()[i])
            ==> set.spec_debug(set.spec_values()[i]) == set.spec_names()[i],
        !set.spec_values().contains(value) ==> set.spec_debug(value) == set.spec_type_ident()
            + " { raw: "@ + signed_decimal(value) + " }"@,
{
    let values = set.spec_values();
    values.index_of_first_ensures(values[i]);
    values.index_of_first_ensures(value);
    if forall|j: int| 0 <= j < i ==> values[j] != values[i] {
        assert(values.contains(values[i]));
        let k = values.index_of_first(values[i]).unwrap();
        if k < i {
            assert(values[k] != values[i]);
        } else if k > i {
            assert(values[i] != values[i]);
        }
    }
}

/// A checked set has at most one constant marked default, so `Default` is
/// well defined: the marked constant, if any, is the first marked one.
pub proof fn lemma_default_is_the_marked_constant(set: ConstantSet, i: int)
    requires
        set.wf(),
        0 <= i < set.spec_defaults().len(),
        set.spec_defaults()[i],
    ensures
        set.spec_default() == Some(set.spec_values()[i]),
{
    let d = set.spec_defaults();
    d.index_of_first_ensures(true);
    assert(d.contains(true));
    let k = d.index_of_first(true).unwrap();
    if k < i {
        assert(!(d[k] && d[i]));
    } else if k > i {
        assert(!d[i]);
    }
}

} // verus!
