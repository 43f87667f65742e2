//! What batching does to pixels: drawing the batches paints what painting
//! the primitives one by one, in the order in which they were given, would.
//!
//! A pixel is modelled by a colour of any kind and by the depth that was
//! written there. The frame builder gives later primitives nearer depths,
//! so the depth of a primitive is its position in the input. A primitive
//! stands for all the passes that draw it: a batch that is drawn in several
//! passes never holds two primitives that share a pixel.

use vstd::prelude::*;
use crate::batch::{any_intersects, build_sources, covers, holds_source, lemma_alpha_slot, lemma_batches_traced, lemma_every_primitive_batched, lemma_opaque_alpha_separation, with_source, BatchListView, PrimitiveDraw};

verus! {

/// The primitives of the first `b` batches in the order in which they are
/// drawn: batch after batch, and within a batch instance after instance.
/// A primitive stands for all the passes that draw it.
pub open spec fn draw_order(sources: Seq<Seq<int>>, b: nat) -> Seq<int>
    decreases b,
{
    if b == 0 {
        Seq::empty()
    } else {
        draw_order(sources, (b - 1) as nat) + sources[b - 1]
    }
}

/// The blended primitives among the first `n` of `draws`, in the order in
/// which they were given.
pub open spec fn paint_order(draws: Seq<PrimitiveDraw>, n: nat) -> Seq<int>
    decreases n,
{
    if n == 0 {
        Seq::empty()
    } else if draws[n - 1].key.spec_is_opaque() {
        paint_order(draws, (n - 1) as nat)
    } else {
        paint_order(draws, (n - 1) as nat).push(n - 1)
    }
}

/// The colour of the pixel in column `x` and row `y` after the primitives
/// of `order` were drawn over `below`: each primitive that covers the pixel
/// blends over what is there, the others leave it. `blend` gives the colour
/// that a primitive leaves over a colour.
pub open spec fn painted<C>(
    draws: Seq<PrimitiveDraw>,
    order: Seq<int>,
    x: int,
    y: int,
    blend: spec_fn(C, int) -> C,
    below: C,
) -> C
    decreases order.len(),
{
    if order.len() == 0 {
        below
    } else {
        let under = painted(draws, order.drop_last(), x, y, blend, below);
        if covers(draws[order.last()].bounding_rect, x, y) {
            blend(under, order.last())
        } else {
            under
        }
    }
}

/// Drawing one run of primitives after another is drawing the second run
/// over what the first one left.
pub proof fn lemma_painted_in_turn<C>(
    draws: Seq<PrimitiveDraw>,
    first: Seq<int>,
    second: Seq<int>,
    x: int,
    y: int,
    blend: spec_fn(C, int) -> C,
    below: C,
)
    ensures
        painted(draws, first + second, x, y, blend, below) == painted(
            draws,
            second,
            x,
            y,
            blend,
            painted(draws, first, x, y, blend, below),
        ),
    decreases second.len(),
{
    if second.len() == 0 {
        assert(first + second =~= first);
    } else {
        assert((first + second).drop_last() =~= first + second.drop_last());
        assert((first + second).last() == second.last());
        lemma_painted_in_turn(draws, first, second.drop_last(), x, y, blend, below);
    }
}

/// Primitives that do not cover a pixel leave it as it is.
pub proof fn lemma_painted_elsewhere<C>(
    draws: Seq<PrimitiveDraw>,
    order: Seq<int>,
    x: int,
    y: int,
    blend: spec_fn(C, int) -> C,
    below: C,
)
    requires
        forall|k: int| 0 <= k < order.len() ==> !covers(draws[#[trigger] order[k]].bounding_rect, x, y),
    ensures
        painted(draws, order, x, y, blend, below) == below,
    decreases order.len(),
{
    if order.len() > 0 {
        assert(!covers(draws[order[order.len() - 1]].bounding_rect, x, y));
        assert forall|k: int| 0 <= k < order.drop_last().len() implies !covers(
            draws[#[trigger] order.drop_last()[k]].bounding_rect,
            x,
            y,
        ) by {
            assert(order.drop_last()[k] == order[k]);
        }
        lemma_painted_elsewhere(draws, order.drop_last(), x, y, blend, below);
    }
}

/// The draw order of batches that agree up to `b` is the same up to `b`.
proof fn lemma_draw_order_agrees(first: Seq<Seq<int>>, second: Seq<Seq<int>>, b: nat)
    requires
        b <= first.len(),
        b <= second.len(),
        forall|t: int| 0 <= t < b ==> first[t] == second[t],
    ensures
        draw_order(first, b) == draw_order(second, b),
    decreases b,
{
    if b > 0 {
        lemma_draw_order_agrees(first, second, (b - 1) as nat);
    }
}

/// What `painted` leaves when primitive `i` is drawn over `under`.
pub open spec fn painted_over<C>(draws: Seq<PrimitiveDraw>, i: int, x: int, y: int, blend: spec_fn(C, int) -> C, under: C) -> C {
    if covers(draws[i].bounding_rect, x, y) {
        blend(under, i)
    } else {
        under
    }
}

/// A primitive that joins a batch, when no later batch holds anything that
/// shares the pixel with it, leaves on the pixel what it would leave had it
/// been drawn last.
proof fn lemma_joined_is_drawn_last<C>(
    draws: Seq<PrimitiveDraw>,
    sources: Seq<Seq<int>>,
    slot: int,
    i: int,
    x: int,
    y: int,
    blend: spec_fn(C, int) -> C,
    below: C,
    b: nat,
)
    requires
        0 <= slot < b <= sources.len(),
        covers(draws[i].bounding_rect, x, y) ==> forall|t: int, k: int|
            slot < t < sources.len() && 0 <= k < sources[t].len() ==> !covers(
                draws[#[trigger] sources[t][k]].bounding_rect,
                x,
                y,
            ),
    ensures
        painted(draws, draw_order(with_source(sources, slot, i), b), x, y, blend, below)
            == painted_over(
            draws,
            i,
            x,
            y,
            blend,
            painted(draws, draw_order(sources, b), x, y, blend, below),
        ),
    decreases b,
{
    let after = with_source(sources, slot, i);
    if b == slot + 1 {
        lemma_draw_order_agrees(after, sources, slot as nat);
        let before_slot = draw_order(sources, slot as nat);
        assert(draw_order(after, b) =~= (before_slot + sources[slot]).push(i));
        assert(draw_order(after, b).drop_last() =~= draw_order(sources, b));
        assert(draw_order(after, b).last() == i);
    } else {
        let t = b - 1;
        lemma_joined_is_drawn_last(draws, sources, slot, i, x, y, blend, below, t as nat);
        assert(after[t] == sources[t]);
        lemma_painted_in_turn(draws, draw_order(after, t as nat), sources[t], x, y, blend, below);
        lemma_painted_in_turn(draws, draw_order(sources, t as nat), sources[t], x, y, blend, below);
        if covers(draws[i].bounding_rect, x, y) {
            assert forall|k: int| 0 <= k < sources[t].len() implies !covers(
                draws[#[trigger] sources[t][k]].bounding_rect,
                x,
                y,
            ) by {}
            lemma_painted_elsewhere(
                draws,
                sources[t],
                x,
                y,
                blend,
                painted(draws, draw_order(after, t as nat), x, y, blend, below),
            );
            lemma_painted_elsewhere(
                draws,
                sources[t],
                x,
                y,
                blend,
                painted(draws, draw_order(sources, t as nat), x, y, blend, below),
            );
        }
    }
}

/// Two rectangles that cover the same pixel intersect.
pub proof fn lemma_covering_intersect(a: crate::units::DeviceIntRect, b: crate::units::DeviceIntRect, x: int, y: int)
    requires
        covers(a, x, y),
        covers(b, x, y),
    ensures
        a.intersects_spec(b),
{
}

/// Batching paints what the input says: on every pixel, over any colour
/// and for any way of blending, drawing the blended batches in their order
/// leaves what drawing the blended primitives one by one, in the order in
/// which they were given, leaves.
pub proof fn lemma_batches_paint_in_order<C>(
    draws: Seq<PrimitiveDraw>,
    n: nat,
    x: int,
    y: int,
    blend: spec_fn(C, int) -> C,
    below: C,
)
    requires
        n <= draws.len(),
    ensures
        painted(
            draws,
            draw_order(build_sources(draws, n).alpha, build_sources(draws, n).alpha.len()),
            x,
            y,
            blend,
            below,
        ) == painted(draws, paint_order(draws, n), x, y, blend, below),
    decreases n,
{
    if n > 0 {
        lemma_batches_paint_in_order(draws, (n - 1) as nat, x, y, blend, below);
        let draw = draws[n - 1];
        if !draw.key.spec_is_opaque() {
            lemma_batches_traced(draws, (n - 1) as nat);
            let view = BatchListView::build(draws, (n - 1) as nat);
            let before = build_sources(draws, (n - 1) as nat).alpha;
            let after = build_sources(draws, n).alpha;
            let slot = view.slot_for(draw);
            lemma_alpha_slot(view.alpha, draw.key, draw.bounding_rect, view.alpha.len() - 1);
            assert(after == with_source(before, slot, n - 1));
            let order = paint_order(draws, n);
            assert(order.drop_last() =~= paint_order(draws, (n - 1) as nat));
            assert(order.last() == n - 1);
            if slot < 0 {
                lemma_draw_order_agrees(after, before, before.len());
                assert(draw_order(after, after.len()) =~= draw_order(before, before.len()).push(
                    n - 1,
                ));
                assert(draw_order(after, after.len()).drop_last() =~= draw_order(
                    before,
                    before.len(),
                ));
            } else {
                if covers(draw.bounding_rect, x, y) {
                    assert forall|t: int, k: int|
                        slot < t < before.len() && 0 <= k < before[t].len() implies !covers(
                        draws[#[trigger] before[t][k]].bounding_rect,
                        x,
                        y,
                    ) by {
                        if covers(draws[before[t][k]].bounding_rect, x, y) {
                            lemma_covering_intersect(
                                draws[before[t][k]].bounding_rect,
                                draw.bounding_rect,
                                x,
                                y,
                            );
                            assert(view.alpha[t].item_rects[k] == draws[before[t][k]].bounding_rect);
                            assert(any_intersects(view.alpha[t].item_rects, draw.bounding_rect));
                        }
                    }
                }
                lemma_joined_is_drawn_last(draws, before, slot, n - 1, x, y, blend, below, before.len());
                assert(after.len() == before.len());
            }
        }
    }
}

/// What a pixel holds: its colour, and the nearest primitive that wrote
/// depth there, by its position in the input, or `-1` when none did. A
/// primitive that comes later in the input is nearer.
pub struct Pixel<C> {
    pub color: C,
    pub nearest: int,
}

/// The primitives of the last `n` batches in the order in which the opaque
/// list is drawn: the last batch first, and within a batch instance after
/// instance.
pub open spec fn front_to_back(sources: Seq<Seq<int>>, n: nat) -> Seq<int>
    decreases n,
{
    if n == 0 {
        Seq::empty()
    } else {
        front_to_back(sources, (n - 1) as nat) + sources[sources.len() - n]
    }
}

/// The pixel after the opaque primitives of `order` were drawn with depth
/// test and depth write: a primitive that covers the pixel and is not
/// behind what wrote depth there leaves its colour and its depth; any
/// other leaves the pixel as it is.
pub open spec fn drawn_opaque<C>(
    draws: Seq<PrimitiveDraw>,
    order: Seq<int>,
    x: int,
    y: int,
    color: spec_fn(int) -> C,
    start: Pixel<C>,
) -> Pixel<C>
    decreases order.len(),
{
    if order.len() == 0 {
        start
    } else {
        let under = drawn_opaque(draws, order.drop_last(), x, y, color, start);
        if covers(draws[order.last()].bounding_rect, x, y) && order.last() >= under.nearest {
            Pixel { color: color(order.last()), nearest: order.last() }
        } else {
            under
        }
    }
}

/// The pixel after the blended primitives of `order` were drawn with depth
/// test and without depth write: a primitive that covers the pixel and is
/// not behind what wrote depth there blends over the colour; any other
/// leaves the pixel as it is.
pub open spec fn drawn_blended<C>(
    draws: Seq<PrimitiveDraw>,
    order: Seq<int>,
    x: int,
    y: int,
    blend: spec_fn(C, int) -> C,
    start: Pixel<C>,
) -> Pixel<C>
    decreases order.len(),
{
    if order.len() == 0 {
        start
    } else {
        let under = drawn_blended(draws, order.drop_last(), x, y, blend, start);
        if covers(draws[order.last()].bounding_rect, x, y) && order.last() >= under.nearest {
            Pixel { color: blend(under.color, order.last()), nearest: under.nearest }
        } else {
            under
        }
    }
}

/// The pixel after the batches of the first `n` primitives were drawn over
/// `below`: the opaque batches front to back, then the blended batches in
/// their order.
pub open spec fn drawn_batches<C>(
    draws: Seq<PrimitiveDraw>,
    n: nat,
    x: int,
    y: int,
    color: spec_fn(int) -> C,
    blend: spec_fn(C, int) -> C,
    below: C,
) -> C {
    let sources = build_sources(draws, n);
    drawn_blended(
        draws,
        draw_order(sources.alpha, sources.alpha.len()),
        x,
        y,
        blend,
        drawn_opaque(
            draws,
            front_to_back(sources.opaque, sources.opaque.len()),
            x,
            y,
            color,
            Pixel { color: below, nearest: -1 },
        ),
    ).color
}

/// The pixel after the first `n` primitives were painted one by one over
/// `below`, in the order in which they were given: an opaque primitive that
/// covers the pixel leaves its colour, a blended one blends over what is
/// there.
pub open spec fn painted_one_by_one<C>(
    draws: Seq<PrimitiveDraw>,
    n: nat,
    x: int,
    y: int,
    color: spec_fn(int) -> C,
    blend: spec_fn(C, int) -> C,
    below: C,
) -> C
    decreases n,
{
    if n == 0 {
        below
    } else {
        let under = painted_one_by_one(draws, (n - 1) as nat, x, y, color, blend, below);
        if !covers(draws[n - 1].bounding_rect, x, y) {
            under
        } else if draws[n - 1].key.spec_is_opaque() {
            color(n - 1)
        } else {
            blend(under, n - 1)
        }
    }
}

/// The last opaque primitive among the first `n` that covers the pixel, or
/// `-1` when there is none.
pub open spec fn last_opaque(draws: Seq<PrimitiveDraw>, n: nat, x: int, y: int) -> int
    decreases n,
{
    if n == 0 {
        -1
    } else if draws[n - 1].key.spec_is_opaque() && covers(draws[n - 1].bounding_rect, x, y) {
        n - 1
    } else {
        last_opaque(draws, (n - 1) as nat, x, y)
    }
}

/// The colour that the opaque pass leaves: that of primitive `nearest`, or
/// `below` when no primitive wrote there.
pub open spec fn opaque_color<C>(color: spec_fn(int) -> C, below: C, nearest: int) -> C {
    if nearest >= 0 {
        color(nearest)
    } else {
        below
    }
}

/// Blending that the depth test lets through: a primitive behind
/// `nearest` leaves the colour as it is.
pub open spec fn depth_tested<C>(blend: spec_fn(C, int) -> C, nearest: int) -> spec_fn(C, int) -> C {
    |c: C, i: int|
        if i >= nearest {
            blend(c, i)
        } else {
            c
        }
}

/// `last_opaque` names an opaque primitive that covers the pixel, and no
/// later one among the first `n` does.
proof fn lemma_last_opaque(draws: Seq<PrimitiveDraw>, n: nat, x: int, y: int)
    ensures
        -1 <= last_opaque(draws, n, x, y) < n,
        last_opaque(draws, n, x, y) >= 0 ==> draws[last_opaque(draws, n, x, y)].key.spec_is_opaque()
            && covers(draws[last_opaque(draws, n, x, y)].bounding_rect, x, y),
        forall|i: int|
            0 <= i < n && (#[trigger] draws[i]).key.spec_is_opaque() && covers(
                draws[i].bounding_rect,
                x,
                y,
            ) ==> i <= last_opaque(draws, n, x, y),
    decreases n,
{
    if n > 0 {
        lemma_last_opaque(draws, (n - 1) as nat, x, y);
    }
}

/// After the opaque pass over primitives that all have a position, the
/// pixel holds the colour and the depth of the last of them that covers
/// it, whatever the order in which they were drawn.
proof fn lemma_drawn_opaque<C>(
    draws: Seq<PrimitiveDraw>,
    order: Seq<int>,
    x: int,
    y: int,
    color: spec_fn(int) -> C,
    below: C,
)
    requires
        forall|k: int| 0 <= k < order.len() ==> 0 <= #[trigger] order[k],
    ensures
        ({
            let pixel = drawn_opaque(draws, order, x, y, color, Pixel { color: below, nearest: -1 });
            &&& pixel.color == opaque_color(color, below, pixel.nearest)
            &&& pixel.nearest == -1 || exists|k: int|
                0 <= k < order.len() && #[trigger] order[k] == pixel.nearest && covers(
                    draws[order[k]].bounding_rect,
                    x,
                    y,
                )
            &&& forall|k: int|
                0 <= k < order.len() && covers(draws[#[trigger] order[k]].bounding_rect, x, y)
                    ==> order[k] <= pixel.nearest
        }),
    decreases order.len(),
{
    if order.len() > 0 {
        let rest = order.drop_last();
        assert forall|k: int| 0 <= k < rest.len() implies 0 <= #[trigger] rest[k] by {
            assert(rest[k] == order[k]);
        }
        lemma_drawn_opaque(draws, rest, x, y, color, below);
        let under = drawn_opaque(draws, rest, x, y, color, Pixel { color: below, nearest: -1 });
        let pixel = drawn_opaque(draws, order, x, y, color, Pixel { color: below, nearest: -1 });
        let last = order.len() - 1;
        assert(order[last] == order.last());
        if pixel.nearest != -1 {
            if covers(draws[order.last()].bounding_rect, x, y) && order.last() >= under.nearest {
                assert(order[last] == pixel.nearest);
            } else {
                let k = choose|k: int|
                    0 <= k < rest.len() && #[trigger] rest[k] == under.nearest && covers(
                        draws[rest[k]].bounding_rect,
                        x,
                        y,
                    );
                assert(order[k] == rest[k]);
            }
        }
        assert forall|k: int|
            0 <= k < order.len() && covers(
                draws[#[trigger] order[k]].bounding_rect,
                x,
                y,
            ) implies order[k] <= pixel.nearest by {
            if k < last {
                assert(rest[k] == order[k]);
            }
        }
    }
}

/// The blended pass leaves depth as it is, and on the colour what blending
/// through the depth test paints.
proof fn lemma_drawn_blended<C>(
    draws: Seq<PrimitiveDraw>,
    order: Seq<int>,
    x: int,
    y: int,
    blend: spec_fn(C, int) -> C,
    start: Pixel<C>,
)
    ensures
        drawn_blended(draws, order, x, y, blend, start) == (Pixel {
            color: painted(draws, order, x, y, depth_tested(blend, start.nearest), start.color),
            nearest: start.nearest,
        }),
    decreases order.len(),
{
    if order.len() > 0 {
        lemma_drawn_blended(draws, order.drop_last(), x, y, blend, start);
    }
}

/// Some batch at or after `from` holds primitive `i`.
pub open spec fn held_from(sources: Seq<Seq<int>>, from: int, i: int) -> bool {
    exists|b: int, p: int|
        from <= b < sources.len() && 0 <= b && 0 <= p < sources[b].len() && #[trigger] sources[b][p]
            == i
}

/// The front-to-back order of the last `n` batches holds what those
/// batches hold.
proof fn lemma_front_to_back_holds(sources: Seq<Seq<int>>, n: nat, i: int)
    requires
        n <= sources.len(),
    ensures
        front_to_back(sources, n).contains(i) == held_from(sources, sources.len() - n, i),
    decreases n,
{
    let now = front_to_back(sources, n);
    if n > 0 {
        lemma_front_to_back_holds(sources, (n - 1) as nat, i);
        let before = front_to_back(sources, (n - 1) as nat);
        let first = sources.len() - n;
        if now.contains(i) {
            let k = choose|k: int| 0 <= k < now.len() && now[k] == i;
            if k < before.len() {
                assert(before[k] == i);
                assert(before.contains(i));
                let (b, p) = choose|b: int, p: int|
                    first + 1 <= b < sources.len() && 0 <= b && 0 <= p < sources[b].len()
                        && #[trigger] sources[b][p] == i;
                assert(first <= b < sources.len() && 0 <= b && 0 <= p < sources[b].len()
                    && sources[b][p] == i);
            } else {
                let p = k - before.len();
                assert(first <= first < sources.len() && 0 <= first && 0 <= p < sources[first].len()
                    && sources[first][p] == i);
            }
        }
        if held_from(sources, first, i) {
            let (b, p) = choose|b: int, p: int|
                first <= b < sources.len() && 0 <= b && 0 <= p < sources[b].len()
                    && #[trigger] sources[b][p] == i;
            if b == first {
                assert(now[before.len() + p] == i);
            } else {
                assert(first + 1 <= b < sources.len() && 0 <= b && 0 <= p < sources[b].len()
                    && sources[b][p] == i);
                assert(held_from(sources, first + 1, i));
                let k = choose|k: int| 0 <= k < before.len() && before[k] == i;
                assert(now[k] == i);
            }
        }
    } else {
        if held_from(sources, sources.len() as int, i) {
            let (b, p) = choose|b: int, p: int|
                sources.len() <= b < sources.len() && 0 <= b && 0 <= p < sources[b].len()
                    && #[trigger] sources[b][p] == i;
        }
    }
}

/// The blended primitives among the first `n` have positions below `n`.
proof fn lemma_paint_order_bounds(draws: Seq<PrimitiveDraw>, n: nat)
    ensures
        forall|k: int|
            0 <= k < paint_order(draws, n).len() ==> 0 <= #[trigger] paint_order(draws, n)[k] < n,
    decreases n,
{
    if n > 0 {
        lemma_paint_order_bounds(draws, (n - 1) as nat);
        let before = paint_order(draws, (n - 1) as nat);
        let now = paint_order(draws, n);
        assert forall|k: int| 0 <= k < now.len() implies 0 <= #[trigger] now[k] < n by {
            if k < before.len() {
                assert(now[k] == before[k]);
            }
        }
    }
}

/// Primitives that are all behind `nearest` leave the colour as it is.
proof fn lemma_painted_behind<C>(
    draws: Seq<PrimitiveDraw>,
    order: Seq<int>,
    x: int,
    y: int,
    blend: spec_fn(C, int) -> C,
    nearest: int,
    below: C,
)
    requires
        forall|k: int| 0 <= k < order.len() ==> #[trigger] order[k] < nearest,
    ensures
        painted(draws, order, x, y, depth_tested(blend, nearest), below) == below,
    decreases order.len(),
{
    if order.len() > 0 {
        assert(order[order.len() - 1] < nearest);
        assert forall|k: int| 0 <= k < order.drop_last().len() implies #[trigger] order.drop_last()[k]
            < nearest by {
            assert(order.drop_last()[k] == order[k]);
        }
        lemma_painted_behind(draws, order.drop_last(), x, y, blend, nearest, below);
    }
}

/// Painting one by one leaves the colour of the last opaque primitive that
/// covers the pixel, with the blended primitives that come after it
/// blended over it in their order.
proof fn lemma_painted_one_by_one<C>(
    draws: Seq<PrimitiveDraw>,
    n: nat,
    x: int,
    y: int,
    color: spec_fn(int) -> C,
    blend: spec_fn(C, int) -> C,
    below: C,
)
    ensures
        painted_one_by_one(draws, n, x, y, color, blend, below) == painted(
            draws,
            paint_order(draws, n),
            x,
            y,
            depth_tested(blend, last_opaque(draws, n, x, y)),
            opaque_color(color, below, last_opaque(draws, n, x, y)),
        ),
    decreases n,
{
    if n > 0 {
        lemma_painted_one_by_one(draws, (n - 1) as nat, x, y, color, blend, below);
        lemma_last_opaque(draws, (n - 1) as nat, x, y);
        let draw = draws[n - 1];
        let order = paint_order(draws, n);
        if draw.key.spec_is_opaque() {
            if covers(draw.bounding_rect, x, y) {
                lemma_paint_order_bounds(draws, (n - 1) as nat);
                lemma_painted_behind(draws, order, x, y, blend, n - 1, color(n - 1));
            }
        } else {
            assert(order.drop_last() =~= paint_order(draws, (n - 1) as nat));
            assert(order.last() == n - 1);
        }
    }
}

/// After the opaque batches of the first `n` primitives were drawn front
/// to back, the pixel holds the depth and the colour of the last opaque
/// primitive that covers it.
proof fn lemma_opaque_pass<C>(
    draws: Seq<PrimitiveDraw>,
    n: nat,
    x: int,
    y: int,
    color: spec_fn(int) -> C,
    below: C,
)
    requires
        n <= draws.len(),
    ensures
        drawn_opaque(
            draws,
            front_to_back(build_sources(draws, n).opaque, build_sources(draws, n).opaque.len()),
            x,
            y,
            color,
            Pixel { color: below, nearest: -1 },
        ) == (Pixel {
            color: opaque_color(color, below, last_opaque(draws, n, x, y)),
            nearest: last_opaque(draws, n, x, y),
        }),
{
    let sources = build_sources(draws, n).opaque;
    let order = front_to_back(sources, sources.len());
    let pixel = drawn_opaque(draws, order, x, y, color, Pixel { color: below, nearest: -1 });
    lemma_batches_traced(draws, n);
    lemma_opaque_alpha_separation(draws, n);
    assert forall|k: int| 0 <= k < order.len() implies 0 <= #[trigger] order[k] < n
        && draws[order[k]].key.spec_is_opaque() by {
        lemma_front_to_back_holds(sources, sources.len(), order[k]);
        assert(order.contains(order[k]));
        let (b, p) = choose|b: int, p: int|
            0 <= b < sources.len() && 0 <= b && 0 <= p < sources[b].len() && #[trigger] sources[b][p]
                == order[k];
        assert(0 <= sources[b][p] < n);
        assert(draws[sources[b][p]].key.spec_is_opaque());
    }
    lemma_drawn_opaque(draws, order, x, y, color, below);
    lemma_last_opaque(draws, n, x, y);
    let last = last_opaque(draws, n, x, y);
    if last >= 0 {
        lemma_every_primitive_batched(draws, n, last);
        assert(holds_source(sources, last));
        let (b, p) = choose|b: int, p: int|
            0 <= b < sources.len() && 0 <= p < sources[b].len() && #[trigger] sources[b][p] == last;
        assert(0 <= b < sources.len() && 0 <= b && 0 <= p < sources[b].len() && sources[b][p]
            == last);
        assert(held_from(sources, 0, last));
        lemma_front_to_back_holds(sources, sources.len(), last);
        let k = choose|k: int| 0 <= k < order.len() && order[k] == last;
        assert(covers(draws[order[k]].bounding_rect, x, y));
        assert(order[k] <= pixel.nearest);
    }
    if pixel.nearest >= 0 {
        let k = choose|k: int|
            0 <= k < order.len() && #[trigger] order[k] == pixel.nearest && covers(
                draws[order[k]].bounding_rect,
                x,
                y,
            );
        assert(draws[order[k]].key.spec_is_opaque());
        assert(0 <= order[k] < n);
        assert(draws[pixel.nearest].key.spec_is_opaque());
    }
}

/// Opaque and blended primitives apart, and depth between them, paint what
/// the input says: on every pixel, over any colour, for any colours of the
/// opaque primitives and any way of blending, drawing the opaque batches
/// front to back with depth test and depth write, and then the blended
/// batches in their order with depth test alone, leaves what painting all
/// primitives one by one, in the order in which they were given, leaves.
pub proof fn lemma_batches_paint_the_input<C>(
    draws: Seq<PrimitiveDraw>,
    n: nat,
    x: int,
    y: int,
    color: spec_fn(int) -> C,
    blend: spec_fn(C, int) -> C,
    below: C,
)
    requires
        n <= draws.len(),
    ensures
        drawn_batches(draws, n, x, y, color, blend, below) == painted_one_by_one(
            draws,
            n,
            x,
            y,
            color,
            blend,
            below,
        ),
{
    let sources = build_sources(draws, n);
    let last = last_opaque(draws, n, x, y);
    let after_opaque = Pixel { color: opaque_color(color, below, last), nearest: last };
    lemma_opaque_pass(draws, n, x, y, color, below);
    lemma_drawn_blended(draws, draw_order(sources.alpha, sources.alpha.len()), x, y, blend, after_opaque);
    lemma_batches_paint_in_order(
        draws,
        n,
        x,
        y,
        depth_tested(blend, last),
        opaque_color(color, below, last),
    );
    lemma_painted_one_by_one(draws, n, x, y, color, blend, below);
}

} // verus!
