//! Helpers behind the crate's internal macros: index conversion with its
//! panic message, the debug-only "whoops" policy, documentation callouts, the
//! message of a violated unsafe precondition, and a type-equality check.

use vstd::prelude::*;
use crate::text::{push_signed_decimal, push_str, signed_decimal};

verus! {

/// The message of the panic on an index that does not fit in `usize`.
pub open spec fn index_out_of_bounds_text(ix: int) -> Seq<char> {
    "index out of bounds: "@ + signed_decimal(ix) + " is not a valid index"@
}

/// The message of the panic on an index that does not fit in `usize`; the
/// caller panics with it.
pub fn index_out_of_bounds(ix: i128) -> (r: String)
    ensures
        r@ == index_out_of_bounds_text(ix as int),
{
    let mut s = String::new();
    push_str(&mut s, "index out of bounds: ");
    push_signed_decimal(&mut s, ix);
    push_str(&mut s, " is not a valid index");
    assert(s@ =~= index_out_of_bounds_text(ix as int));
    s
}

/// Converts an integer index to `usize`; an index that does not fit (negative
/// or too large) gives the out-of-bounds panic message instead.
pub fn ix(index: i128) -> (r: Result<usize, String>)
    ensures
        r is Ok <==> 0 <= index <= usize::MAX,
        match r {
            Ok(i) => i as int == index as int,
            Err(msg) => msg@ == index_out_of_bounds_text(index as int),
        },
{
    if 0 <= index && index <= usize::MAX as i128 {
        Ok(index as usize)
    } else {
        Err(index_out_of_bounds(index))
    }
}

/// What a "whoops" (an unexpected but survivable condition) does.
#[derive(Clone, Copy, Debug, PartialEq, Eq, Structural)]
pub enum WhoopsAction {
    /// Panic with the message (debug builds, when not already panicking).
    Panic,
    /// Log the message as an error and go on.
    Log,
}

/// The policy for an unexpected condition: with `no_panic` always log; else
/// panic in debug builds unless a panic is already unwinding, and log
/// otherwise.
pub fn whoops_action(no_panic: bool, debug_assertions: bool, panicking: bool) -> (r: WhoopsAction)
    ensures
        r == (if !no_panic && debug_assertions && !panicking {
            WhoopsAction::Panic
        } else {
            WhoopsAction::Log
        }),
{
    if !no_panic && debug_assertions && !panicking {
        WhoopsAction::Panic
    } else {
        WhoopsAction::Log
    }
}

/// The text of a documentation callout box around the given words.
pub open spec fn callout_text(first: Seq<char>, rest: Seq<Seq<char>>) -> Seq<char> {
    "<div class=\"warning fmod-rs-callout\">\n\n"@ + first + joined_with_spaces(rest)
        + "\n\n</div>"@
}

/// Each piece preceded by a space.
pub open spec fn joined_with_spaces(rest: Seq<Seq<char>>) -> Seq<char>
    decreases rest.len(),
{
    if rest.len() == 0 {
        Seq::empty()
    } else {
        joined_with_spaces(rest.drop_last()) + " "@ + rest.last()
    }
}

/// The documentation callout box: an HTML warning block holding `first` and
/// each of `rest`, separated by spaces.
pub fn doc_callout(first: &str, rest: &Vec<&str>) -> (r: String)
    ensures
        r@ == callout_text(first@, rest@.map_values(|t: &str| t@)),
{
    let ghost pieces = rest@.map_values(|t: &str| t@);
    let mut s = String::new();
    push_str(&mut s, "<div class=\"warning fmod-rs-callout\">\n\n");
    push_str(&mut s, first);
    let ghost head = s@;
    let mut i: usize = 0;
    assert(pieces.take(0) =~= Seq::<Seq<char>>::empty());
    assert(s@ =~= head + joined_with_spaces(pieces.take(0)));
    while i < rest.len()
        invariant
            i <= rest@.len(),
            pieces == rest@.map_values(|t: &str| t@),
            s@ == head + joined_with_spaces(pieces.take(i as int)),
        decreases rest@.len() - i,
    {
        push_str(&mut s, " ");
        push_str(&mut s, rest[i]);
        assert(pieces.take(i + 1).drop_last() =~= pieces.take(i as int));
        assert(pieces.take(i + 1).last() == rest@[i as int]@);
        assert(s@ =~= head + joined_with_spaces(pieces.take(i + 1)));
        i = i + 1;
    }
    assert(pieces.take(i as int) =~= pieces);
    push_str(&mut s, "\n\n</div>");
    assert(s@ =~= callout_text(first@, pieces));
    s
}

/// The message of a violated unsafe precondition.
pub open spec fn precondition_violation_text(message: Seq<char>) -> Seq<char> {
    "unsafe precondition(s) violated: "@ + message
        + "\n\nThis indicates a bug in the program. This Undefined Behavior check is optional, and cannot be relied on for safety."@
}

/// The panic message when the debug check of an unsafe function's
/// precondition fails.
pub fn precondition_violation_message(message: &str) -> (r: String)
    ensures
        r@ == precondition_violation_text(message@),
{
    let mut s = String::new();
    push_str(&mut s, "unsafe precondition(s) violated: ");
    push_str(&mut s, message);
    push_str(
        &mut s,
        "\n\nThis indicates a bug in the program. This Undefined Behavior check is optional, and cannot be relied on for safety.",
    );
    assert(s@ =~= precondition_violation_text(message@));
    s
}

/// Implemented by a type for exactly the type it equals. Private to the
/// crate, so no other impl can exist.
pub(crate) trait TEq<U> {
}

impl<T> TEq<T> for T {
}

/// Compiles only when `A` and `B` are the same type; does nothing.
#[allow(private_bounds)]
pub fn assert_type_eq<A: TEq<B>, B>() {
}

} // verus!
