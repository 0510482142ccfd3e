//! Laws about whole event streams.
//!
//! A session decodes each native event into a block of portable events
//! and delivers the blocks in order; in grab mode some native events are
//! suppressed and their blocks vanish from the surviving stream.  This
//! module states what that does to the delivered sequences: the
//! surviving stream — and its cooked projection — is a subsequence of the
//! full stream.

use crate::rdev::EventView;
use vstd::prelude::*;

verus! {

/// The subsequence relation: `xs` can be read off `ys` in order, skipping
/// any elements of `ys`.
pub open spec fn is_subsequence<T>(xs: Seq<T>, ys: Seq<T>) -> bool
    decreases xs.len() + ys.len(),
{
    if xs.len() == 0 {
        true
    } else if ys.len() == 0 {
        false
    } else {
        (xs[0] == ys[0] && is_subsequence(xs.drop_first(), ys.drop_first())) || is_subsequence(
            xs,
            ys.drop_first(),
        )
    }
}

/// The concatenation of all blocks, in order.
pub open spec fn flatten_all<T>(blocks: Seq<Seq<T>>) -> Seq<T>
    decreases blocks.len(),
{
    if blocks.len() == 0 {
        Seq::empty()
    } else {
        blocks[0] + flatten_all(blocks.drop_first())
    }
}

/// The concatenation of the kept blocks, in order: block `i` survives
/// exactly when `keep[i]` holds.
pub open spec fn flatten_kept<T>(blocks: Seq<Seq<T>>, keep: Seq<bool>) -> Seq<T>
    decreases blocks.len(),
{
    if blocks.len() == 0 {
        Seq::empty()
    } else {
        (if keep[0] {
            blocks[0]
        } else {
            Seq::empty()
        }) + flatten_kept(blocks.drop_first(), keep.drop_first())
    }
}

/// Every sequence is a subsequence of itself.
pub proof fn lemma_subsequence_refl<T>(xs: Seq<T>)
    ensures
        is_subsequence(xs, xs),
    decreases xs.len(),
{
    if xs.len() > 0 {
        lemma_subsequence_refl(xs.drop_first());
    }
}

/// A subsequence survives prepending anything to the larger sequence.
pub proof fn lemma_subsequence_prepend<T>(xs: Seq<T>, prefix: Seq<T>, ys: Seq<T>)
    requires
        is_subsequence(xs, ys),
    ensures
        is_subsequence(xs, prefix + ys),
    decreases prefix.len(),
{
    if xs.len() == 0 {
    } else if prefix.len() == 0 {
        assert(prefix + ys =~= ys);
    } else {
        lemma_subsequence_prepend(xs, prefix.drop_first(), ys);
        assert((prefix + ys).drop_first() =~= prefix.drop_first() + ys);
        assert((prefix + ys).len() > 0);
    }
}

/// Subsequences concatenate: reading `a1` off `b1` and `a2` off `b2`
/// reads `a1 + a2` off `b1 + b2`.
pub proof fn lemma_subsequence_concat<T>(a1: Seq<T>, b1: Seq<T>, a2: Seq<T>, b2: Seq<T>)
    requires
        is_subsequence(a1, b1),
        is_subsequence(a2, b2),
    ensures
        is_subsequence(a1 + a2, b1 + b2),
    decreases a1.len() + b1.len(),
{
    if a1.len() == 0 {
        assert(a1 + a2 =~= a2);
        lemma_subsequence_prepend(a2, b1, b2);
    } else {
        assert(b1.len() > 0);
        if a1[0] == b1[0] && is_subsequence(a1.drop_first(), b1.drop_first()) {
            lemma_subsequence_concat(a1.drop_first(), b1.drop_first(), a2, b2);
            assert((a1 + a2).drop_first() =~= a1.drop_first() + a2);
            assert((b1 + b2).drop_first() =~= b1.drop_first() + b2);
            assert((a1 + a2)[0] == (b1 + b2)[0]);
        } else {
            lemma_subsequence_concat(a1, b1.drop_first(), a2, b2);
            assert((b1 + b2).drop_first() =~= b1.drop_first() + b2);
            assert((b1 + b2).len() > 0);
        }
    }
}

/// Law: whatever a session suppresses, the surviving stream is a
/// subsequence of the full stream: suppression only ever removes whole
/// blocks, never reorders or invents events.
pub proof fn lemma_kept_is_subsequence<T>(blocks: Seq<Seq<T>>, keep: Seq<bool>)
    requires
        keep.len() == blocks.len(),
    ensures
        is_subsequence(flatten_kept(blocks, keep), flatten_all(blocks)),
    decreases blocks.len(),
{
    if blocks.len() == 0 {
    } else {
        lemma_kept_is_subsequence(blocks.drop_first(), keep.drop_first());
        if keep[0] {
            lemma_subsequence_refl(blocks[0]);
            lemma_subsequence_concat(
                blocks[0],
                blocks[0],
                flatten_kept(blocks.drop_first(), keep.drop_first()),
                flatten_all(blocks.drop_first()),
            );
        } else {
            lemma_subsequence_concat(
                Seq::empty(),
                blocks[0],
                flatten_kept(blocks.drop_first(), keep.drop_first()),
                flatten_all(blocks.drop_first()),
            );
        }
    }
}

/// The cooked events of a block, in order.
pub open spec fn cooked_only(events: Seq<EventView>) -> Seq<EventView> {
    events.filter(|e: EventView| e.event_type.is_cooked())
}

/// Law: the cooked events delivered for the surviving native events form
/// a subsequence of the cooked events of the full native stream.  In
/// listen mode nothing is suppressed and the two are equal; in grab mode
/// the suppressed blocks drop out without disturbing the rest.
pub proof fn lemma_cooked_stream_subsequence(blocks: Seq<Seq<EventView>>, keep: Seq<bool>)
    requires
        keep.len() == blocks.len(),
    ensures
        is_subsequence(
            flatten_kept(blocks.map_values(|b: Seq<EventView>| cooked_only(b)), keep),
            flatten_all(blocks.map_values(|b: Seq<EventView>| cooked_only(b))),
        ),
{
    lemma_kept_is_subsequence(blocks.map_values(|b: Seq<EventView>| cooked_only(b)), keep);
}

} // verus!
