//! The structural laws of the twelve rotations: each is undone by its
//! counterpart, four quarter turns of one face are the identity, and no
//! rotation creates, destroys or recolors a facelet.
use vstd::prelude::*;

use crate::corner::Corner;
use crate::corner::spec_clockwise;
use crate::corner::spec_counter_clockwise;
use crate::cube::CubeView;
use crate::cube::corner_facelets;
use crate::cube::side_facelets;
use crate::cube::spec_apply_moves;
use crate::cube::spec_facelets;
use crate::cube::spec_move;
use crate::cube::spec_valid_moves;
use crate::cube::wf;
use crate::side::Side;
use crate::side::spec_flip;

verus! {

broadcast use vstd::multiset::group_multiset_axioms;

/// The move number that undoes move number `i`: the other direction of the
/// same face.
pub open spec fn spec_inverse_move(i: int) -> int {
    if i % 2 == 0 {
        i + 1
    } else {
        i - 1
    }
}

/// Every rotation keeps all five rings at four pieces.
pub proof fn lemma_move_wf(v: CubeView, i: int)
    requires
        wf(v),
        0 <= i < 12,
    ensures
        wf(spec_move(v, i)),
{
}

/// Inverse law: performing any move and then its counterpart returns every
/// well-formed state to itself. Since `spec_inverse_move` is an involution,
/// this covers both orders of each of the six clockwise/counter-clockwise
/// pairs.
pub proof fn lemma_rotation_inverse(v: CubeView, i: int)
    requires
        wf(v),
        0 <= i < 12,
    ensures
        spec_move(spec_move(v, i), spec_inverse_move(i)) == v,
{
    let j = spec_inverse_move(i);
    if i == 0 {
        assert(spec_move(spec_move(v, i), j) =~= v);
    } else if i == 1 {
        assert(spec_move(spec_move(v, i), j) =~= v);
    } else if i == 2 {
        assert(spec_move(spec_move(v, i), j) =~= v);
    } else if i == 3 {
        assert(spec_move(spec_move(v, i), j) =~= v);
    } else if i == 4 {
        assert(spec_move(spec_move(v, i), j) =~= v);
    } else if i == 5 {
        assert(spec_move(spec_move(v, i), j) =~= v);
    } else if i == 6 {
        assert(spec_move(spec_move(v, i), j) =~= v);
    } else if i == 7 {
        assert(spec_move(spec_move(v, i), j) =~= v);
    } else if i == 8 {
        assert(spec_move(spec_move(v, i), j) =~= v);
    } else if i == 9 {
        assert(spec_move(spec_move(v, i), j) =~= v);
    } else if i == 10 {
        assert(spec_move(spec_move(v, i), j) =~= v);
    } else {
        assert(spec_move(spec_move(v, i), j) =~= v);
    }
}

/// Four-fold periodicity: performing the same move four times returns every
/// well-formed state to itself.
#[verifier::rlimit(100)]
pub proof fn lemma_rotation_period_four(v: CubeView, i: int)
    requires
        wf(v),
        0 <= i < 12,
    ensures
        spec_move(spec_move(spec_move(spec_move(v, i), i), i), i) == v,
{
    if i == 0 {
        assert(spec_move(spec_move(spec_move(spec_move(v, i), i), i), i) =~= v);
    } else if i == 1 {
        assert(spec_move(spec_move(spec_move(spec_move(v, i), i), i), i) =~= v);
    } else if i == 2 {
        assert(spec_move(spec_move(spec_move(spec_move(v, i), i), i), i) =~= v);
    } else if i == 3 {
        assert(spec_move(spec_move(spec_move(spec_move(v, i), i), i), i) =~= v);
    } else if i == 4 {
        assert(spec_move(spec_move(spec_move(spec_move(v, i), i), i), i) =~= v);
    } else if i == 5 {
        assert(spec_move(spec_move(spec_move(spec_move(v, i), i), i), i) =~= v);
    } else if i == 6 {
        assert(spec_move(spec_move(spec_move(spec_move(v, i), i), i), i) =~= v);
    } else if i == 7 {
        assert(spec_move(spec_move(spec_move(spec_move(v, i), i), i), i) =~= v);
    } else if i == 8 {
        assert(spec_move(spec_move(spec_move(spec_move(v, i), i), i), i) =~= v);
    } else if i == 9 {
        assert(spec_move(spec_move(spec_move(spec_move(v, i), i), i), i) =~= v);
    } else if i == 10 {
        assert(spec_move(spec_move(spec_move(spec_move(v, i), i), i), i) =~= v);
    } else {
        assert(spec_move(spec_move(spec_move(spec_move(v, i), i), i), i) =~= v);
    }
}

/// A half-turn of an edge piece keeps its two facelets.
proof fn lemma_flip_facelets(s: Side)
    ensures
        side_facelets(spec_flip(s)) == side_facelets(s),
{
    reveal(side_facelets);
    assert(side_facelets(spec_flip(s)) =~= side_facelets(s));
}

/// A clockwise turn of a corner piece keeps its three facelets.
proof fn lemma_clockwise_facelets(c: Corner)
    ensures
        corner_facelets(spec_clockwise(c)) == corner_facelets(c),
{
    reveal(corner_facelets);
    assert(corner_facelets(spec_clockwise(c)) =~= corner_facelets(c));
}

/// A counter-clockwise turn of a corner piece keeps its three facelets.
proof fn lemma_counter_clockwise_facelets(c: Corner)
    ensures
        corner_facelets(spec_counter_clockwise(c)) == corner_facelets(c),
{
    reveal(corner_facelets);
    assert(corner_facelets(spec_counter_clockwise(c)) =~= corner_facelets(c));
}

/// Facelet preservation for move number 0.
#[verifier::rlimit(100)]
proof fn lemma_facelets_front_clockwise(v: CubeView)
    requires
        wf(v),
    ensures
        spec_facelets(spec_move(v, 0)) == spec_facelets(v),
{
    assert forall|s: Side| #[trigger] side_facelets(spec_flip(s)) == side_facelets(s) by {
        lemma_flip_facelets(s);
    }
    assert forall|c: Corner| #[trigger] corner_facelets(spec_clockwise(c)) == corner_facelets(
        c,
    ) by {
        lemma_clockwise_facelets(c);
    }
    assert forall|c: Corner| #[trigger] corner_facelets(spec_counter_clockwise(c))
        == corner_facelets(c) by {
        lemma_counter_clockwise_facelets(c);
    }
    assert(spec_facelets(spec_move(v, 0)) =~= spec_facelets(v));
}

/// Facelet preservation for move number 1.
#[verifier::rlimit(100)]
proof fn lemma_facelets_front_counter_clockwise(v: CubeView)
    requires
        wf(v),
    ensures
        spec_facelets(spec_move(v, 1)) == spec_facelets(v),
{
    assert forall|s: Side| #[trigger] side_facelets(spec_flip(s)) == side_facelets(s) by {
        lemma_flip_facelets(s);
    }
    assert forall|c: Corner| #[trigger] corner_facelets(spec_clockwise(c)) == corner_facelets(
        c,
    ) by {
        lemma_clockwise_facelets(c);
    }
    assert forall|c: Corner| #[trigger] corner_facelets(spec_counter_clockwise(c))
        == corner_facelets(c) by {
        lemma_counter_clockwise_facelets(c);
    }
    assert(spec_facelets(spec_move(v, 1)) =~= spec_facelets(v));
}

/// Facelet preservation for move number 2.
#[verifier::rlimit(100)]
proof fn lemma_facelets_right_clockwise(v: CubeView)
    requires
        wf(v),
    ensures
        spec_facelets(spec_move(v, 2)) == spec_facelets(v),
{
    assert forall|s: Side| #[trigger] side_facelets(spec_flip(s)) == side_facelets(s) by {
        lemma_flip_facelets(s);
    }
    assert forall|c: Corner| #[trigger] corner_facelets(spec_clockwise(c)) == corner_facelets(
        c,
    ) by {
        lemma_clockwise_facelets(c);
    }
    assert forall|c: Corner| #[trigger] corner_facelets(spec_counter_clockwise(c))
        == corner_facelets(c) by {
        lemma_counter_clockwise_facelets(c);
    }
    assert(spec_facelets(spec_move(v, 2)) =~= spec_facelets(v));
}

/// Facelet preservation for move number 3.
#[verifier::rlimit(100)]
proof fn lemma_facelets_right_counter_clockwise(v: CubeView)
    requires
        wf(v),
    ensures
        spec_facelets(spec_move(v, 3)) == spec_facelets(v),
{
    assert forall|s: Side| #[trigger] side_facelets(spec_flip(s)) == side_facelets(s) by {
        lemma_flip_facelets(s);
    }
    assert forall|c: Corner| #[trigger] corner_facelets(spec_clockwise(c)) == corner_facelets(
        c,
    ) by {
        lemma_clockwise_facelets(c);
    }
    assert forall|c: Corner| #[trigger] corner_facelets(spec_counter_clockwise(c))
        == corner_facelets(c) by {
        lemma_counter_clockwise_facelets(c);
    }
    assert(spec_facelets(spec_move(v, 3)) =~= spec_facelets(v));
}

/// Facelet preservation for move number 4.
#[verifier::rlimit(100)]
proof fn lemma_facelets_top_clockwise(v: CubeView)
    requires
        wf(v),
    ensures
        spec_facelets(spec_move(v, 4)) == spec_facelets(v),
{
    assert forall|s: Side| #[trigger] side_facelets(spec_flip(s)) == side_facelets(s) by {
        lemma_flip_facelets(s);
    }
    assert forall|c: Corner| #[trigger] corner_facelets(spec_clockwise(c)) == corner_facelets(
        c,
    ) by {
        lemma_clockwise_facelets(c);
    }
    assert forall|c: Corner| #[trigger] corner_facelets(spec_counter_clockwise(c))
        == corner_facelets(c) by {
        lemma_counter_clockwise_facelets(c);
    }
    assert(spec_facelets(spec_move(v, 4)) =~= spec_facelets(v));
}

/// Facelet preservation for move number 5.
#[verifier::rlimit(100)]
proof fn lemma_facelets_top_counter_clockwise(v: CubeView)
    requires
        wf(v),
    ensures
        spec_facelets(spec_move(v, 5)) == spec_facelets(v),
{
    assert forall|s: Side| #[trigger] side_facelets(spec_flip(s)) == side_facelets(s) by {
        lemma_flip_facelets(s);
    }
    assert forall|c: Corner| #[trigger] corner_facelets(spec_clockwise(c)) == corner_facelets(
        c,
    ) by {
        lemma_clockwise_facelets(c);
    }
    assert forall|c: Corner| #[trigger] corner_facelets(spec_counter_clockwise(c))
        == corner_facelets(c) by {
        lemma_counter_clockwise_facelets(c);
    }
    assert(spec_facelets(spec_move(v, 5)) =~= spec_facelets(v));
}

/// Facelet preservation for move number 6.
#[verifier::rlimit(100)]
proof fn lemma_facelets_left_clockwise(v: CubeView)
    requires
        wf(v),
    ensures
        spec_facelets(spec_move(v, 6)) == spec_facelets(v),
{
    assert forall|s: Side| #[trigger] side_facelets(spec_flip(s)) == side_facelets(s) by {
        lemma_flip_facelets(s);
    }
    assert forall|c: Corner| #[trigger] corner_facelets(spec_clockwise(c)) == corner_facelets(
        c,
    ) by {
        lemma_clockwise_facelets(c);
    }
    assert forall|c: Corner| #[trigger] corner_facelets(spec_counter_clockwise(c))
        == corner_facelets(c) by {
        lemma_counter_clockwise_facelets(c);
    }
    assert(spec_facelets(spec_move(v, 6)) =~= spec_facelets(v));
}

/// Facelet preservation for move number 7.
#[verifier::rlimit(100)]
proof fn lemma_facelets_left_counter_clockwise(v: CubeView)
    requires
        wf(v),
    ensures
        spec_facelets(spec_move(v, 7)) == spec_facelets(v),
{
    assert forall|s: Side| #[trigger] side_facelets(spec_flip(s)) == side_facelets(s) by {
        lemma_flip_facelets(s);
    }
    assert forall|c: Corner| #[trigger] corner_facelets(spec_clockwise(c)) == corner_facelets(
        c,
    ) by {
        lemma_clockwise_facelets(c);
    }
    assert forall|c: Corner| #[trigger] corner_facelets(spec_counter_clockwise(c))
        == corner_facelets(c) by {
        lemma_counter_clockwise_facelets(c);
    }
    assert(spec_facelets(spec_move(v, 7)) =~= spec_facelets(v));
}

/// Facelet preservation for move number 8.
#[verifier::rlimit(100)]
proof fn lemma_facelets_bottom_clockwise(v: CubeView)
    requires
        wf(v),
    ensures
        spec_facelets(spec_move(v, 8)) == spec_facelets(v),
{
    assert forall|s: Side| #[trigger] side_facelets(spec_flip(s)) == side_facelets(s) by {
        lemma_flip_facelets(s);
    }
    assert forall|c: Corner| #[trigger] corner_facelets(spec_clockwise(c)) == corner_facelets(
        c,
    ) by {
        lemma_clockwise_facelets(c);
    }
    assert forall|c: Corner| #[trigger] corner_facelets(spec_counter_clockwise(c))
        == corner_facelets(c) by {
        lemma_counter_clockwise_facelets(c);
    }
    assert(spec_facelets(spec_move(v, 8)) =~= spec_facelets(v));
}

/// Facelet preservation for move number 9.
#[verifier::rlimit(100)]
proof fn lemma_facelets_bottom_counter_clockwise(v: CubeView)
    requires
        wf(v),
    ensures
        spec_facelets(spec_move(v, 9)) == spec_facelets(v),
{
    assert forall|s: Side| #[trigger] side_facelets(spec_flip(s)) == side_facelets(s) by {
        lemma_flip_facelets(s);
    }
    assert forall|c: Corner| #[trigger] corner_facelets(spec_clockwise(c)) == corner_facelets(
        c,
    ) by {
        lemma_clockwise_facelets(c);
    }
    assert forall|c: Corner| #[trigger] corner_facelets(spec_counter_clockwise(c))
        == corner_facelets(c) by {
        lemma_counter_clockwise_facelets(c);
    }
    assert(spec_facelets(spec_move(v, 9)) =~= spec_facelets(v));
}

/// Facelet preservation for move number 10.
#[verifier::rlimit(100)]
proof fn lemma_facelets_back_clockwise(v: CubeView)
    requires
        wf(v),
    ensures
        spec_facelets(spec_move(v, 10)) == spec_facelets(v),
{
    assert forall|s: Side| #[trigger] side_facelets(spec_flip(s)) == side_facelets(s) by {
        lemma_flip_facelets(s);
    }
    assert forall|c: Corner| #[trigger] corner_facelets(spec_clockwise(c)) == corner_facelets(
        c,
    ) by {
        lemma_clockwise_facelets(c);
    }
    assert forall|c: Corner| #[trigger] corner_facelets(spec_counter_clockwise(c))
        == corner_facelets(c) by {
        lemma_counter_clockwise_facelets(c);
    }
    assert(spec_facelets(spec_move(v, 10)) =~= spec_facelets(v));
}

/// Facelet preservation for move number 11.
#[verifier::rlimit(100)]
proof fn lemma_facelets_back_counter_clockwise(v: CubeView)
    requires
        wf(v),
    ensures
        spec_facelets(spec_move(v, 11)) == spec_facelets(v),
{
    assert forall|s: Side| #[trigger] side_facelets(spec_flip(s)) == side_facelets(s) by {
        lemma_flip_facelets(s);
    }
    assert forall|c: Corner| #[trigger] corner_facelets(spec_clockwise(c)) == corner_facelets(
        c,
    ) by {
        lemma_clockwise_facelets(c);
    }
    assert forall|c: Corner| #[trigger] corner_facelets(spec_counter_clockwise(c))
        == corner_facelets(c) by {
        lemma_counter_clockwise_facelets(c);
    }
    assert(spec_facelets(spec_move(v, 11)) =~= spec_facelets(v));
}

/// Multiset preservation: every rotation permutes and reorients pieces but
/// keeps the multiset of the 48 stored facelet colors unchanged.
pub proof fn lemma_rotation_preserves_facelets(v: CubeView, i: int)
    requires
        wf(v),
        0 <= i < 12,
    ensures
        spec_facelets(spec_move(v, i)) == spec_facelets(v),
{
    if i == 0 {
        lemma_facelets_front_clockwise(v);
    } else if i == 1 {
        lemma_facelets_front_counter_clockwise(v);
    } else if i == 2 {
        lemma_facelets_right_clockwise(v);
    } else if i == 3 {
        lemma_facelets_right_counter_clockwise(v);
    } else if i == 4 {
        lemma_facelets_top_clockwise(v);
    } else if i == 5 {
        lemma_facelets_top_counter_clockwise(v);
    } else if i == 6 {
        lemma_facelets_left_clockwise(v);
    } else if i == 7 {
        lemma_facelets_left_counter_clockwise(v);
    } else if i == 8 {
        lemma_facelets_bottom_clockwise(v);
    } else if i == 9 {
        lemma_facelets_bottom_counter_clockwise(v);
    } else if i == 10 {
        lemma_facelets_back_clockwise(v);
    } else {
        lemma_facelets_back_counter_clockwise(v);
    }
}

/// Multiset preservation extends to any sequence of moves, and the state
/// stays well-formed throughout.
pub proof fn lemma_apply_moves_preserves_facelets(v: CubeView, s: Seq<int>)
    requires
        wf(v),
        spec_valid_moves(s),
    ensures
        wf(spec_apply_moves(v, s)),
        spec_facelets(spec_apply_moves(v, s)) == spec_facelets(v),
    decreases s.len(),
{
    if s.len() > 0 {
        let prefix = s.subrange(0, s.len() - 1);
        lemma_apply_moves_preserves_facelets(v, prefix);
        lemma_move_wf(spec_apply_moves(v, prefix), s[s.len() - 1]);
        lemma_rotation_preserves_facelets(spec_apply_moves(v, prefix), s[s.len() - 1]);
    }
}

} // verus!
