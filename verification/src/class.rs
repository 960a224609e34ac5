//! Resource classes: the `Debug` text of a handle, the module a class's methods
//! live in, and which classes release their handle.

use vstd::prelude::*;
use vstd::string::StrSliceExecFns;
use crate::text::{hex, hex_value, is_lower_hex, lemma_hex_reads_back, push_char, push_hex, push_str};

verus! {

/// Which API a class belongs to; it decides the path its `Debug` prints.
#[derive(Clone, Copy, Debug, PartialEq, Eq, Structural)]
pub enum ClassApi {
    Core,
    Studio,
}

/// The path prefix a class of this API prints.
pub open spec fn api_prefix(api: ClassApi) -> Seq<char> {
    match api {
        ClassApi::Core => "fmod::"@,
        ClassApi::Studio => "fmod::studio::"@,
    }
}

/// The path prefix a class of this API prints.
pub fn class_prefix(api: ClassApi) -> (r: &'static str)
    ensures
        r@ == api_prefix(api),
{
    match api {
        ClassApi::Core => "fmod::",
        ClassApi::Studio => "fmod::studio::",
    }
}

/// What `Debug` prints for a handle at `address`: the class path and the
/// pointer in `{:p}` form.
pub open spec fn handle_debug_text(prefix: Seq<char>, name: Seq<char>, address: nat) -> Seq<char> {
    prefix + name + "(0x"@ + hex(address) + ")"@
}

/// What `Debug` prints for a handle of class `name` at `address`.
pub fn handle_debug_string(prefix: &str, name: &str, address: usize) -> (r: String)
    ensures
        r@ == handle_debug_text(prefix@, name@, address as nat),
{
    let mut s = String::new();
    push_str(&mut s, prefix);
    push_str(&mut s, name);
    push_str(&mut s, "(0x");
    push_hex(&mut s, address as u128);
    push_str(&mut s, ")");
    assert(s@ =~= handle_debug_text(prefix@, name@, address as nat));
    s
}

/// The handle text is the class path, `(0x`, a run of lower-case hex digits
/// and `)`; the digits read back as the whole address, whatever its size.
pub proof fn lemma_handle_debug_shows_address(prefix: Seq<char>, name: Seq<char>, address: nat)
    ensures
        ({
            let t = handle_debug_text(prefix, name, address);
            let start = (prefix.len() + name.len() + 3) as int;
            let digits = t.subrange(start, t.len() - 1);
            &&& t.len() > start + 1
            &&& t.subrange(0, start) == prefix + name + "(0x"@
            &&& t.last() == ')'
            &&& digits.len() > 0
            &&& is_lower_hex(digits)
            &&& hex_value(digits) == address
        }),
{
    reveal_strlit("(0x");
    reveal_strlit(")");
    lemma_hex_reads_back(address);
    let head = prefix + name + "(0x"@;
    let t = handle_debug_text(prefix, name, address);
    assert(t == head + hex(address) + ")"@);
    let start = (prefix.len() + name.len() + 3) as int;
    assert(head.len() == start);
    assert(t.subrange(0, start) =~= head);
    assert(t.subrange(start, t.len() - 1) =~= hex(address));
    assert(t.last() == ')');
}

/// Whether `char::is_uppercase` holds of `c` (the Unicode `Uppercase`
/// property).
pub uninterp spec fn char_is_uppercase(c: char) -> bool;

/// What `str::to_lowercase` gives for `s` (the Unicode lower-case mapping of
/// the whole text).
pub uninterp spec fn str_to_lowercase(s: Seq<char>) -> Seq<char>;

/// Calls `char::is_uppercase`. Claims: the result is the named property of
/// `c`.
#[verifier::external_body]
fn is_uppercase(c: char) -> (r: bool)
    ensures
        r == char_is_uppercase(c),
{
    c.is_uppercase()
}

/// Calls `str::to_lowercase`. Claims: the result is the named mapping of `s`.
#[verifier::external_body]
fn to_lowercase(s: &str) -> (r: String)
    ensures
        r@ == str_to_lowercase(s@),
{
    s.to_lowercase()
}

/// An identifier with an underscore put before each upper-case character
/// that neither starts it nor follows an underscore.
pub open spec fn mark_words(name: Seq<char>) -> Seq<char>
    decreases name.len(),
{
    if name.len() == 0 {
        Seq::empty()
    } else {
        let prev = if name.len() >= 2 {
            name[name.len() - 2]
        } else {
            '_'
        };
        let c = name.last();
        mark_words(name.drop_last()) + (if char_is_uppercase(c) && prev != '_' {
            seq!['_', c]
        } else {
            seq![c]
        })
    }
}

/// The snake-case name of an identifier: its words marked with underscores,
/// then the whole text lower-cased.
pub open spec fn snake_case(name: Seq<char>) -> Seq<char> {
    str_to_lowercase(mark_words(name))
}

/// How many times `c` occurs in `s`.
pub open spec fn occurrences(s: Seq<char>, c: char) -> nat
    decreases s.len(),
{
    if s.len() == 0 {
        0
    } else {
        occurrences(s.drop_last(), c) + (if s.last() == c {
            1nat
        } else {
            0nat
        })
    }
}

/// How many characters of `name` start a new word: upper-case characters that
/// are not the first character and do not follow an underscore (whatever
/// else they follow, digits included).
pub open spec fn word_starts(name: Seq<char>) -> nat
    decreases name.len(),
{
    if name.len() == 0 {
        0
    } else {
        word_starts(name.drop_last()) + (if name.len() >= 2 && char_is_uppercase(name.last())
            && name[name.len() - 2] != '_' {
            1nat
        } else {
            0nat
        })
    }
}

proof fn lemma_occurrences_concat(a: Seq<char>, b: Seq<char>, c: char)
    ensures
        occurrences(a + b, c) == occurrences(a, c) + occurrences(b, c),
    decreases b.len(),
{
    if b.len() == 0 {
        assert(a + b =~= a);
    } else {
        lemma_occurrences_concat(a, b.drop_last(), c);
        assert((a + b).drop_last() =~= a + b.drop_last());
        assert((a + b).last() == b.last());
    }
}

/// Marking words adds one underscore before each word start and changes
/// nothing else: the marked text is longer than the name by the number of
/// word starts, and has that many more underscores.
pub proof fn lemma_mark_words_inserts_one_underscore_per_word(name: Seq<char>)
    ensures
        mark_words(name).len() == name.len() + word_starts(name),
        occurrences(mark_words(name), '_') == occurrences(name, '_') + word_starts(name),
        name.len() > 0 ==> mark_words(name).last() == name.last(),
    decreases name.len(),
{
    if name.len() > 0 {
        let rest = name.drop_last();
        lemma_mark_words_inserts_one_underscore_per_word(rest);
        let c = name.last();
        let prev = if name.len() >= 2 {
            name[name.len() - 2]
        } else {
            '_'
        };
        let tail = if char_is_uppercase(c) && prev != '_' {
            seq!['_', c]
        } else {
            seq![c]
        };
        assert(mark_words(name) == mark_words(rest) + tail);
        lemma_occurrences_concat(mark_words(rest), tail, '_');
        assert(seq!['_', c].drop_last() =~= seq!['_']);
        assert(seq!['_'].drop_last() =~= Seq::<char>::empty());
        assert(seq![c].drop_last() =~= Seq::<char>::empty());
        assert(occurrences(Seq::<char>::empty(), '_') == 0);
        assert(occurrences(seq!['_'], '_') == 1);
        assert(occurrences(name, '_') == occurrences(rest, '_') + occurrences(seq![c], '_'));
    }
}

/// The name of the module that holds a class's methods: the class name in
/// snake case (`ChannelGroup` gives `channel_group`).
pub fn module_name(name: &str) -> (r: String)
    ensures
        r@ == snake_case(name@),
{
    let n = name.unicode_len();
    let mut s = String::new();
    let mut prev: char = '_';
    let mut i: usize = 0;
    assert(name@.take(0) =~= Seq::<char>::empty());
    while i < n
        invariant
            n == name@.len(),
            i <= n,
            s@ == mark_words(name@.take(i as int)),
            prev == (if i >= 1 {
                name@[i - 1]
            } else {
                '_'
            }),
        decreases n - i,
    {
        let c = name.get_char(i);
        if is_uppercase(c) && prev != '_' {
            push_char(&mut s, '_');
        }
        push_char(&mut s, c);
        let ghost t = name@.take(i + 1);
        assert(t.drop_last() =~= name@.take(i as int));
        assert(t.last() == c);
        assert(t.len() >= 2 ==> t[t.len() - 2] == name@[i - 1]);
        assert(s@ =~= mark_words(t));
        prev = c;
        i = i + 1;
    }
    assert(name@.take(n as int) =~= name@);
    to_lowercase(s.as_str())
}

/// How a class gives its handle back when dropped.
#[derive(Clone, Copy, Debug, PartialEq, Eq, Structural)]
pub enum ReleaseKind {
    /// The handle is released through the class's release call.
    Owned,
    /// The handle is borrowed from FMOD; dropping it reports success and
    /// calls nothing.
    Weak,
}

/// Whether dropping a handle of this kind calls FMOD's release function.
pub fn calls_release(kind: ReleaseKind) -> (r: bool)
    ensures
        r == (kind == ReleaseKind::Owned),
{
    match kind {
        ReleaseKind::Owned => true,
        ReleaseKind::Weak => false,
    }
}

} // verus!
