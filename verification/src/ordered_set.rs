//! Trusted interface to the insertion-ordered string set of the
//! `linked_hash_set` crate, which backs the argument sets of the bot
//! state.
//!
//! The contents of a set are modelled by [`elems`]: the items it holds, in
//! insertion order.  Each wrapper below states over that model what the
//! crate's source shows of the one method it calls.

use vstd::prelude::*;
use linked_hash_set::LinkedHashSet;
use crate::command::views_of;

verus! {

#[verifier::external_type_specification]
#[verifier::external_body]
#[verifier::reject_recursive_types(T)]
#[verifier::reject_recursive_types(S)]
pub struct ExLinkedHashSet<T, S>(LinkedHashSet<T, S>);

/// The items a set holds, in insertion order, as character sequences.
pub uninterp spec fn elems(s: LinkedHashSet<String>) -> Seq<Seq<char>>;

/// Relies on `LinkedHashSet::new`: the new set is empty.
#[verifier::external_body]
pub(crate) fn set_new() -> (s: LinkedHashSet<String>)
    ensures
        elems(s) == Seq::<Seq<char>>::empty(),
{
    LinkedHashSet::new()
}

/// Relies on `LinkedHashSet::insert`: the value is always placed at the
/// end of the insertion order — a value already present is moved there
/// from its old position — and the other items keep their order.  Returns
/// whether the value was absent.
#[verifier::external_body]
pub(crate) fn set_insert(s: &mut LinkedHashSet<String>, value: String) -> (absent: bool)
    ensures
        absent == !elems(*old(s)).contains(value@),
        elems(*final(s)) == elems(*old(s)).remove_value(value@).push(value@),
{
    s.insert(value)
}

/// Relies on `LinkedHashSet::remove`: the value leaves the set and the
/// order of the remaining items is unaffected.  Returns whether the value
/// was present.
#[verifier::external_body]
pub(crate) fn set_remove(s: &mut LinkedHashSet<String>, value: &str) -> (present: bool)
    ensures
        present == elems(*old(s)).contains(value@),
        elems(*final(s)) == elems(*old(s)).remove_value(value@),
{
    s.remove(value)
}

/// Relies on `LinkedHashSet::clear`: all values leave the set.
#[verifier::external_body]
pub(crate) fn set_clear(s: &mut LinkedHashSet<String>)
    ensures
        elems(*final(s)) == Seq::<Seq<char>>::empty(),
{
    s.clear()
}

/// Relies on `LinkedHashSet::iter`: the items in insertion order, cloned
/// into plain strings.
#[verifier::external_body]
pub(crate) fn set_to_vec(s: &LinkedHashSet<String>) -> (v: Vec<String>)
    ensures
        views_of(v@) == elems(*s),
{
    s.iter().cloned().collect()
}

} // verus!
