//! Rules out of rules: one after the other, or one in place of the other.

use vstd::prelude::*;
use crate::buffer::{is_suffix, Cursor};
use crate::error::{Error, PResult};
use crate::token::Tree;

verus! {

/// What two alternatives give that both ran on one input: the result of the
/// first that succeeded; where both failed, the failure that got further
/// into the input, the first one if neither did.
pub open spec fn choice<'a, T>(first: PResult<'a, T>, second: PResult<'a, T>) -> PResult<'a, T> {
    match first {
        Ok(_) => first,
        Err(a) => match second {
            Ok(_) => second,
            Err(b) => if b.span.further_than(a.span) {
                second
            } else {
                first
            },
        },
    }
}

/// What two rules give that ran one after the other: the first failure, or
/// both nodes with what the second rule left.
pub open spec fn sequel<'a, T, U>(first: PResult<'a, T>, second: PResult<'a, U>) -> PResult<
    'a,
    (T, U),
> {
    match first {
        Err(e) => Err(e),
        Ok((left, _)) => match second {
            Err(e) => Err(e),
            Ok((right, rest)) => Ok(((left, right), rest)),
        },
    }
}

/// Tries `a`; where it fails, tries `b` from the same place.
pub fn alt<'a, T, A, B>(input: Cursor<'a>, a: A, b: B) -> (r: PResult<'a, T>) where
    A: FnOnce(Cursor<'a>) -> PResult<'a, T>,
    B: FnOnce(Cursor<'a>) -> PResult<'a, T>,

    requires
        call_requires(a, (input,)),
        call_requires(b, (input,)),
    ensures
        exists|first: PResult<'a, T>| #[trigger]
            call_ensures(a, (input,), first) && if first is Ok {
                r == first
            } else {
                exists|second: PResult<'a, T>| #[trigger]
                    call_ensures(b, (input,), second) && r == choice(first, second)
            },
{
    match a(input) {
        Ok(found) => Ok(found),
        Err(ea) => match b(input) {
            Ok(found) => Ok(found),
            Err(eb) => if eb.span.lo > ea.span.lo {
                Err(eb)
            } else {
                Err(ea)
            },
        },
    }
}

/// Runs `a`, then `b` from where `a` stopped.
pub fn then<'a, T, U, A, B>(input: Cursor<'a>, a: A, b: B) -> (r: PResult<'a, (T, U)>) where
    A: FnOnce(Cursor<'a>) -> PResult<'a, T>,
    B: FnOnce(Cursor<'a>) -> PResult<'a, U>,

    requires
        call_requires(a, (input,)),
        forall|node: T, rest: Cursor<'a>| #[trigger]
            call_ensures(a, (input,), Ok((node, rest))) ==> call_requires(b, (rest,)),
    ensures
        exists|first: PResult<'a, T>| #[trigger]
            call_ensures(a, (input,), first) && match first {
                Err(e) => r == Err::<((T, U), Cursor<'a>), Error>(e),
                Ok((_, middle)) => exists|second: PResult<'a, U>| #[trigger]
                    call_ensures(b, (middle,), second) && r == sequel(first, second),
            },
{
    match a(input) {
        Err(e) => Err(e),
        Ok((left, middle)) => match b(middle) {
            Err(e) => Err(e),
            Ok((right, rest)) => Ok(((left, right), rest)),
        },
    }
}

/// Where the first alternative fails and the second succeeds, the choice is
/// the result of the second.
pub proof fn lemma_choice_falls_back<T>(first: PResult<T>, second: PResult<T>)
    requires
        first is Err,
        second is Ok,
    ensures
        choice(first, second) == second,
{
}

/// Where the first alternative succeeds, the choice is its result, whatever
/// the second would give.
pub proof fn lemma_choice_prefers_first<T>(first: PResult<T>, second: PResult<T>)
    requires
        first is Ok,
    ensures
        choice(first, second) == first,
{
}

/// Where both alternatives fail, the choice is one of the two failures, and
/// neither of them got further into the input than it.
pub proof fn lemma_choice_reports_furthest<T>(first: PResult<T>, second: PResult<T>)
    requires
        first is Err,
        second is Err,
    ensures
        choice(first, second) == first || choice(first, second) == second,
        choice(first, second) matches Err(e) && !first->Err_0.span.further_than(e.span)
            && !second->Err_0.span.further_than(e.span),
{
}

/// What is left of what is left of an input is left of that input.
pub proof fn lemma_suffix_transitive(rest: Seq<Tree>, middle: Seq<Tree>, whole: Seq<Tree>)
    requires
        is_suffix(rest, middle),
        is_suffix(middle, whole),
    ensures
        is_suffix(rest, whole),
{
    assert(rest =~= whole.skip(whole.len() - rest.len()));
}

/// Every input is left of itself, and so is the empty rest.
pub proof fn lemma_suffix_bounds(whole: Seq<Tree>)
    ensures
        is_suffix(whole, whole),
        is_suffix(Seq::<Tree>::empty(), whole),
{
    assert(whole =~= whole.skip(0));
    assert(Seq::<Tree>::empty() =~= whole.skip(whole.len() as int));
}

/// Two rules that each leave a later place of their input leave, one after
/// the other, a later place of the first one's input.
pub proof fn lemma_sequel_is_suffix<T, U>(
    input: Seq<Tree>,
    first: PResult<T>,
    second: PResult<U>,
)
    requires
        first matches Ok((_, middle)) && is_suffix(middle@, input) && (second matches Ok((_, rest))
            ==> is_suffix(rest@, middle@)),
    ensures
        sequel(first, second) matches Ok((_, rest)) ==> is_suffix(rest@, input),
{
    if let Ok((_, rest)) = second {
        lemma_suffix_transitive(rest@, first->Ok_0.1@, input);
    }
}

} // verus!
