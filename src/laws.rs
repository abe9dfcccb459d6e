use vstd::prelude::*;

use crate::list::{popped, pushed};

verus! {

/// The contents after pushing the elements of `es` onto `s`, first to last.
pub open spec fn pushed_all(s: Seq<i32>, es: Seq<i32>) -> Seq<i32>
    decreases es.len(),
{
    if es.len() == 0 {
        s
    } else {
        pushed(pushed_all(s, es.drop_last()), es.last())
    }
}

/// The values returned by `n` successive pops on contents `s`, in the order
/// they came, and the contents left after them.
pub open spec fn popped_n(s: Seq<i32>, n: nat) -> (Seq<Option<i32>>, Seq<i32>)
    decreases n,
{
    if n == 0 {
        (Seq::empty(), s)
    } else {
        let rest = popped_n(popped(s).1, (n - 1) as nat);
        (seq![popped(s).0] + rest.0, rest.1)
    }
}

/// A pop right after a push of `e` returns `e` and restores the contents
/// that were there before the push, whatever they were.
pub proof fn lemma_push_then_pop(s: Seq<i32>, e: i32)
    ensures
        popped(pushed(s, e)) == (Some(e), s),
{
    assert(pushed(s, e).drop_first() =~= s);
}

/// Pushing `e1, ..., en` onto any contents and then popping `n` times yields
/// `en, ..., e1` and leaves the contents as they were before the pushes.
pub proof fn lemma_pushes_then_pops(s: Seq<i32>, es: Seq<i32>)
    ensures
        popped_n(pushed_all(s, es), es.len()).0.len() == es.len(),
        forall|i: int|
            0 <= i < es.len() ==> #[trigger] popped_n(pushed_all(s, es), es.len()).0[i] == Some(
                es[es.len() - 1 - i],
            ),
        popped_n(pushed_all(s, es), es.len()).1 == s,
{
    lemma_some_pops(s, es, es.len());
    assert(es.subrange(0, 0) =~= Seq::<i32>::empty());
}

/// After pushing `e1, ..., en` onto any contents, `k <= n` pops yield
/// `en, ..., e(n-k+1)` and leave the contents as if only `e1, ..., e(n-k)`
/// had been pushed, so pushes and pops that follow work on exactly those.
pub proof fn lemma_some_pops(s: Seq<i32>, es: Seq<i32>, k: nat)
    requires
        k <= es.len(),
    ensures
        popped_n(pushed_all(s, es), k).0.len() == k,
        forall|i: int|
            0 <= i < k ==> #[trigger] popped_n(pushed_all(s, es), k).0[i] == Some(
                es[es.len() - 1 - i],
            ),
        popped_n(pushed_all(s, es), k).1 == pushed_all(s, es.subrange(0, es.len() - k)),
    decreases k,
{
    assert(es.subrange(0, es.len() as int) =~= es);
    if k > 0 {
        let n = es.len();
        let init = es.drop_last();
        lemma_push_then_pop(pushed_all(s, init), es.last());
        lemma_some_pops(s, init, (k - 1) as nat);
        assert(init.subrange(0, init.len() - (k - 1)) =~= es.subrange(0, n - k));
        let outs = popped_n(pushed_all(s, es), k).0;
        let rest = popped_n(pushed_all(s, init), (k - 1) as nat).0;
        assert forall|i: int| 0 <= i < k implies #[trigger] outs[i] == Some(es[n - 1 - i]) by {
            if i > 0 {
                assert(outs[i] == rest[i - 1]);
                assert(init[n - 2 - (i - 1)] == es[n - 1 - i]);
            }
        }
    }
}

/// Pushing `n` elements onto an empty stack and popping `n` times leaves it
/// empty, as a stack that was just made.
pub proof fn lemma_round_trip(es: Seq<i32>)
    ensures
        popped_n(pushed_all(Seq::empty(), es), es.len()).1 == Seq::<i32>::empty(),
{
    lemma_pushes_then_pops(Seq::empty(), es);
}

/// Popping an empty stack returns no value and leaves it empty, however many
/// times it is done.
pub proof fn lemma_pop_empty(k: nat)
    ensures
        popped(Seq::empty()) == (None::<i32>, Seq::<i32>::empty()),
        popped_n(Seq::empty(), k).0.len() == k,
        forall|i: int| 0 <= i < k ==> #[trigger] popped_n(Seq::empty(), k).0[i] is None,
        popped_n(Seq::empty(), k).1 == Seq::<i32>::empty(),
    decreases k,
{
    if k > 0 {
        lemma_pop_empty((k - 1) as nat);
        let outs = popped_n(Seq::empty(), k).0;
        let rest = popped_n(Seq::empty(), (k - 1) as nat).0;
        assert forall|i: int| 0 <= i < k implies #[trigger] outs[i] is None by {
            if i > 0 {
                assert(outs[i] == rest[i - 1]);
            }
        }
    }
}

} // verus!
