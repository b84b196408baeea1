//! Fixed-capacity buffers that evict their oldest element on overflow.
use vstd::prelude::*;

verus! {

/// Capacity of the market-cap trend buffer.
pub const MAX_HISTORY: usize = 60;

/// Capacity of the log buffer.
pub const MAX_LOG: usize = 100;

/// `s` with `x` appended, its first element dropped where that exceeds `cap`.
pub open spec fn bounded_push<T>(s: Seq<T>, x: T, cap: nat) -> Seq<T> {
    let t = s.push(x);
    if t.len() > cap {
        t.drop_first()
    } else {
        t
    }
}

/// The last `n` elements of `s` (all of them where it has fewer).
pub open spec fn last_n<T>(s: Seq<T>, n: nat) -> Seq<T> {
    if s.len() > n {
        s.skip(s.len() - n)
    } else {
        s
    }
}

/// Appends `x` to `v` and, where `v` then holds more than `cap` elements,
/// removes the oldest.
pub fn push_bounded<T>(v: &mut Vec<T>, x: T, cap: usize)
    ensures
        final(v)@ == bounded_push(old(v)@, x, cap as nat),
{
    v.push(x);
    if v.len() > cap {
        v.remove(0);
        assert(final(v)@ =~= old(v)@.push(x).drop_first());
    }
}

/// One more element pushed onto the window of the last `cap` elements of `s`
/// gives the window of `s` with that element.
pub proof fn lemma_bounded_push_window<T>(s: Seq<T>, x: T, cap: nat)
    requires
        cap > 0,
    ensures
        bounded_push(last_n(s, cap), x, cap) == last_n(s.push(x), cap),
{
    if s.len() > cap {
        assert(last_n(s, cap).push(x).drop_first() =~= s.push(x).skip(s.push(x).len() - cap));
    } else if s.len() == cap {
        assert(s.push(x).drop_first() =~= s.push(x).skip(1));
    }
}

/// A run of buffer states `bufs`, each the one before with the next element of
/// `xs` pushed, starting within capacity, ends holding the last `cap`
/// elements of the first state followed by `xs`.
pub proof fn lemma_bounded_run<T>(bufs: Seq<Seq<T>>, xs: Seq<T>, cap: nat)
    requires
        cap > 0,
        bufs.len() == xs.len() + 1,
        bufs[0].len() <= cap,
        forall|i: int| 0 <= i < xs.len() ==> #[trigger] bufs[i + 1] == bounded_push(bufs[i], xs[i], cap),
    ensures
        bufs.last() == last_n(bufs[0] + xs, cap),
        bufs.last().len() == if bufs[0].len() + xs.len() < cap { bufs[0].len() + xs.len() } else { cap },
    decreases xs.len(),
{
    if xs.len() == 0 {
        assert(bufs[0] + xs =~= bufs[0]);
    } else {
        let n = xs.len() - 1;
        let pre = bufs.take(n + 1);
        assert forall|i: int| 0 <= i < xs.take(n).len() implies #[trigger] pre[i + 1] == bounded_push(
            pre[i],
            xs.take(n)[i],
            cap,
        ) by {
            assert(bufs[i + 1] == bounded_push(bufs[i], xs[i], cap));
        }
        lemma_bounded_run(pre, xs.take(n), cap);
        assert(bufs[n + 1] == bounded_push(bufs[n], xs[n], cap));
        lemma_bounded_push_window(bufs[0] + xs.take(n), xs[n], cap);
        assert((bufs[0] + xs.take(n)).push(xs[n]) =~= bufs[0] + xs);
    }
}

} // verus!
