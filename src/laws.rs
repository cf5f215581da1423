use vstd::prelude::*;

use crate::destroyer::{DefaultDelete, Destroyer};
use crate::owner::{held_seq, UniquePtr};

verus! {

/// An owner hands its strategy at most one value when it ends, and exactly the
/// value it holds, if it holds one: ending an owner never destroys twice and
/// never skips the held value.
pub proof fn lemma_single_destruction<T, D: Destroyer<T>>(p: UniquePtr<T, D>)
    ensures
        p.destroyed_at_exit().len() <= p.strategy().destroyed().len() + 1,
        p.held() is Some ==> p.destroyed_at_exit() == p.strategy().destroyed().push(
            *p.held().unwrap(),
        ),
        p.held() is None ==> p.destroyed_at_exit() == p.strategy().destroyed(),
{
    match p.held() {
        Some(b) => {
            assert(held_seq(p.held()) =~= seq![*b]);
            assert(p.destroyed_at_exit() =~= p.strategy().destroyed().push(*b));
        },
        None => {
            assert(p.destroyed_at_exit() =~= p.strategy().destroyed());
        },
    }
}

/// After `release`, ending the owner destroys nothing beyond what its strategy
/// had destroyed already, and the caller holds the released value.
pub proof fn lemma_release_suppresses_destruction<T, D: Destroyer<T>>(
    before: UniquePtr<T, D>,
    after: UniquePtr<T, D>,
    released: Option<Box<T>>,
)
    requires
        released == before.held(),
        after.held() is None,
        after.strategy() == before.strategy(),
    ensures
        after.destroyed_at_exit() == before.strategy().destroyed(),
        released == before.held(),
{
    assert(after.destroyed_at_exit() =~= before.strategy().destroyed());
}

/// `reset(new)` on an owner holding `old` destroys `old` once, right away, and
/// ending the owner afterwards destroys `new` once.
pub proof fn lemma_reset_destroys_old<T, D: Destroyer<T>>(
    before: UniquePtr<T, D>,
    after: UniquePtr<T, D>,
    old_value: Box<T>,
    new_value: Box<T>,
)
    requires
        before.held() == Some(old_value),
        after.held() == Some(new_value),
        after.strategy().destroyed() == before.destroyed_at_exit(),
    ensures
        after.strategy().destroyed() == before.strategy().destroyed().push(*old_value),
        after.destroyed_at_exit() == before.strategy().destroyed().push(*old_value).push(
            *new_value,
        ),
{
    assert(held_seq(before.held()) =~= seq![*old_value]);
    assert(after.strategy().destroyed() =~= before.strategy().destroyed().push(*old_value));
    assert(held_seq(after.held()) =~= seq![*new_value]);
    assert(after.destroyed_at_exit() =~= before.strategy().destroyed().push(*old_value).push(
        *new_value,
    ));
}

/// After `a.swap(b)` each owner holds what the other held, and each will
/// destroy, at its end, what the other would have. Two owners that each hold
/// one value and have destroyed nothing yet destroy two values in all.
pub proof fn lemma_swap_preserves_exclusivity<T, D: Destroyer<T>>(
    a_before: UniquePtr<T, D>,
    b_before: UniquePtr<T, D>,
    a_after: UniquePtr<T, D>,
    b_after: UniquePtr<T, D>,
)
    requires
        a_after.held() == b_before.held(),
        a_after.strategy() == b_before.strategy(),
        b_after.held() == a_before.held(),
        b_after.strategy() == a_before.strategy(),
    ensures
        a_after.destroyed_at_exit() == b_before.destroyed_at_exit(),
        b_after.destroyed_at_exit() == a_before.destroyed_at_exit(),
        a_before.held() is Some && b_before.held() is Some && a_before.strategy().destroyed().len()
            == 0 && b_before.strategy().destroyed().len() == 0 ==> a_after.destroyed_at_exit().len()
            + b_after.destroyed_at_exit().len() == 2,
{
}

/// `from_raw(p.into_raw())` owns what `p` owned, under the default strategy,
/// and destroys it exactly once at its end, as `p` would have.
pub proof fn lemma_raw_round_trip<T>(
    p: UniquePtr<T, DefaultDelete<T>>,
    raw: Option<Box<T>>,
    q: UniquePtr<T, DefaultDelete<T>>,
)
    requires
        raw == p.held(),
        q.held() == raw,
        q.strategy().destroyed() == Seq::<T>::empty(),
    ensures
        q.held() == p.held(),
        q.destroyed_at_exit() == held_seq(p.held()),
        p.destroyed_at_exit() == p.strategy().destroyed() + q.destroyed_at_exit(),
{
    assert(q.destroyed_at_exit() =~= held_seq(p.held()));
}

/// An owner that holds nothing destroys nothing at its end; in particular one
/// made by `new` destroys nothing at all.
pub proof fn lemma_empty_is_inert<T, D: Destroyer<T>>(p: UniquePtr<T, D>)
    requires
        p.held() is None,
    ensures
        p.destroyed_at_exit() == p.strategy().destroyed(),
        p.strategy().destroyed().len() == 0 ==> p.destroyed_at_exit().len() == 0,
{
    assert(p.destroyed_at_exit() =~= p.strategy().destroyed());
}

} // verus!
