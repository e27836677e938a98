//! Camera centring: the centroid of the mobile entities and a zoom that
//! shrinks with their number, both kept as exact rationals.
use vstd::prelude::*;
use crate::geometry::Position;

verus! {

broadcast use vstd::seq_lib::group_to_multiset_ensures;

/// Where the camera looks and how far it zooms. The centroid is
/// `(x_num / den, y_num / den)`; the zoom is `base_zoom / sqrt(den)` for the
/// configured base zoom. With no mobile entity the target is the origin at
/// the base zoom, so `den` is 1 there and the number of mobiles elsewhere.
#[derive(Clone, Copy, Debug, PartialEq, Eq, Structural)]
pub struct CameraTarget {
    pub x_num: i128,
    pub y_num: i128,
    pub den: u64,
}

/// Sum of the x and of the y coordinates of `s`.
pub open spec fn coordinate_sums(s: Seq<Position>) -> (int, int)
    decreases s.len(),
{
    if s.len() == 0 {
        (0, 0)
    } else {
        let (sx, sy) = coordinate_sums(s.drop_last());
        (sx + s.last().x, sy + s.last().y)
    }
}

/// The camera target for mobile entities at `s`.
pub open spec fn target_of(s: Seq<Position>) -> CameraTarget {
    if s.len() == 0 {
        CameraTarget { x_num: 0, y_num: 0, den: 1 }
    } else {
        CameraTarget {
            x_num: coordinate_sums(s).0 as i128,
            y_num: coordinate_sums(s).1 as i128,
            den: s.len() as u64,
        }
    }
}

proof fn lemma_sums_bounded(s: Seq<Position>)
    ensures
        -0x8000_0000 * s.len() <= coordinate_sums(s).0 <= 0x7fff_ffff * s.len(),
        -0x8000_0000 * s.len() <= coordinate_sums(s).1 <= 0x7fff_ffff * s.len(),
    decreases s.len(),
{
    if s.len() > 0 {
        lemma_sums_bounded(s.drop_last());
    }
}

/// Removing the element at `k` takes its coordinates off the sums.
proof fn lemma_sums_remove(s: Seq<Position>, k: int)
    requires
        0 <= k < s.len(),
    ensures
        coordinate_sums(s).0 == coordinate_sums(s.remove(k)).0 + s[k].x,
        coordinate_sums(s).1 == coordinate_sums(s.remove(k)).1 + s[k].y,
    decreases s.len(),
{
    if k < s.len() - 1 {
        lemma_sums_remove(s.drop_last(), k);
        assert(s.remove(k).drop_last() == s.drop_last().remove(k));
        assert(s.remove(k).last() == s.last());
    } else {
        assert(s.remove(k) == s.drop_last());
    }
}

/// Sequences with the same elements, in any order, have the same sums.
proof fn lemma_sums_order_free(a: Seq<Position>, b: Seq<Position>)
    requires
        a.to_multiset() == b.to_multiset(),
    ensures
        coordinate_sums(a) == coordinate_sums(b),
    decreases a.len(),
{
    if a.len() == 0 {
        vstd::seq_lib::to_multiset_len(a);
        vstd::seq_lib::to_multiset_len(b);
    } else {
        let e = a.last();
        let n = a.len() - 1;
        assert(a.remove(n) == a.drop_last());
        assert(a.to_multiset().count(e) > 0);
        assert(b.contains(e));
        let k = choose|k: int| 0 <= k < b.len() && b[k] == e;
        assert(a.drop_last().to_multiset() == b.remove(k).to_multiset());
        lemma_sums_order_free(a.drop_last(), b.remove(k));
        lemma_sums_remove(b, k);
    }
}

/// The camera target does not depend on the order in which the mobile
/// entities are listed: any rearrangement gives the same centroid and zoom.
pub proof fn lemma_center_order_free(a: Seq<Position>, b: Seq<Position>)
    requires
        a.to_multiset() == b.to_multiset(),
    ensures
        target_of(a) == target_of(b),
{
    lemma_sums_order_free(a, b);
    vstd::seq_lib::to_multiset_len(a);
    vstd::seq_lib::to_multiset_len(b);
}

/// The camera target for mobile entities at `mobiles`: their arithmetic
/// mean at a zoom of `base_zoom / sqrt(count)`, or the origin at the base
/// zoom when there is none.
pub fn center(mobiles: &Vec<Position>) -> (r: CameraTarget)
    ensures
        r == target_of(mobiles@),
        r.den >= 1,
{
    let mut sx: i128 = 0;
    let mut sy: i128 = 0;
    let mut i: usize = 0;
    while i < mobiles.len()
        invariant
            i <= mobiles.len(),
            (sx as int, sy as int) == coordinate_sums(mobiles@.take(i as int)),
        decreases mobiles.len() - i,
    {
        proof {
            let t = mobiles@.take(i as int);
            lemma_sums_bounded(t);
            assert(mobiles@.take(i + 1).drop_last() == t);
            assert(0x8000_0000 * t.len() <= 0x8000_0000 * 0x1_0000_0000_0000_0000) by (
            nonlinear_arith)
                requires
                    t.len() <= 0x1_0000_0000_0000_0000,
            ;
        }
        sx = sx + mobiles[i].x as i128;
        sy = sy + mobiles[i].y as i128;
        i += 1;
    }
    assert(mobiles@.take(mobiles.len() as int) == mobiles@);
    if mobiles.len() == 0 {
        CameraTarget { x_num: 0, y_num: 0, den: 1 }
    } else {
        CameraTarget { x_num: sx, y_num: sy, den: mobiles.len() as u64 }
    }
}

} // verus!
