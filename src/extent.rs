//! Axis-aligned bounding boxes of scene nodes.
//!
//! A coordinate is held as its order key: an `i32` that orders exactly as the
//! finite `f32` values it stands for (the bit pattern, with the magnitude bits
//! of negative values flipped). The box logic only compares coordinates, so it
//! is stated and proved over the keys.
use core::ops::Range;
use vstd::prelude::*;

verus! {

/// Order key of the largest finite `f32`: the start of an empty extent.
pub const EMPTY_START: i32 = 2139095039;

/// Order key of the smallest finite `f32`: the end of an empty extent.
pub const EMPTY_END: i32 = -2139095040;

/// What an extent is: its start and end corners, three keys each.
pub type ExtentView = (Seq<i32>, Seq<i32>);

/// The lesser of two keys.
pub open spec fn min_key(a: i32, b: i32) -> i32 {
    if b < a { b } else { a }
}

/// The greater of two keys.
pub open spec fn max_key(a: i32, b: i32) -> i32 {
    if b > a { b } else { a }
}

/// The smallest box holding both `a` and `b`.
pub open spec fn merged(a: ExtentView, b: ExtentView) -> ExtentView {
    (
        Seq::new(3, |i: int| min_key(a.0[i], b.0[i])),
        Seq::new(3, |i: int| max_key(a.1[i], b.1[i])),
    )
}

/// The empty extent: no point merged in yet.
pub open spec fn empty_view() -> ExtentView {
    (seq![EMPTY_START, EMPTY_START, EMPTY_START], seq![EMPTY_END, EMPTY_END, EMPTY_END])
}

/// A box is valid when its start does not pass its end on any axis.
pub open spec fn valid_view(e: ExtentView) -> bool {
    forall|i: int| 0 <= i < 3 ==> e.0[i] <= e.1[i]
}

/// `x` with each extent of `s` merged in, first to last.
pub open spec fn merge_all(x: ExtentView, s: Seq<ExtentView>) -> ExtentView
    decreases s.len(),
{
    if s.len() == 0 {
        x
    } else {
        merged(merge_all(x, s.drop_last()), s.last())
    }
}

/// Each axis of a merge is the least start (greatest end) among `x` and the
/// extents of `s`.
proof fn lemma_merge_all_bounds(x: ExtentView, s: Seq<ExtentView>, i: int)
    requires
        0 <= i < 3,
    ensures
        merge_all(x, s).0[i] <= x.0[i],
        merge_all(x, s).1[i] >= x.1[i],
        forall|j: int| 0 <= j < s.len() ==> merge_all(x, s).0[i] <= #[trigger] s[j].0[i],
        forall|j: int| 0 <= j < s.len() ==> merge_all(x, s).1[i] >= #[trigger] s[j].1[i],
        merge_all(x, s).0[i] == x.0[i] || exists|j: int|
            0 <= j < s.len() && merge_all(x, s).0[i] == #[trigger] s[j].0[i],
        merge_all(x, s).1[i] == x.1[i] || exists|j: int|
            0 <= j < s.len() && merge_all(x, s).1[i] == #[trigger] s[j].1[i],
    decreases s.len(),
{
    if s.len() > 0 {
        let p = s.drop_last();
        lemma_merge_all_bounds(x, p, i);
        let m = merge_all(x, p);
        let r = merge_all(x, s);
        assert(r == merged(m, s.last()));
        assert(r.0[i] == min_key(m.0[i], s.last().0[i]));
        assert(r.1[i] == max_key(m.1[i], s.last().1[i]));
        assert forall|j: int| 0 <= j < s.len() implies r.0[i] <= #[trigger] s[j].0[i] by {
            if j < p.len() {
                assert(p[j] == s[j]);
                assert(m.0[i] <= p[j].0[i]);
            } else {
                assert(s[j] == s.last());
            }
        }
        assert forall|j: int| 0 <= j < s.len() implies r.1[i] >= #[trigger] s[j].1[i] by {
            if j < p.len() {
                assert(p[j] == s[j]);
                assert(m.1[i] >= p[j].1[i]);
            } else {
                assert(s[j] == s.last());
            }
        }
        if m.0[i] != x.0[i] && s.last().0[i] >= m.0[i] {
            let j = choose|j: int| 0 <= j < p.len() && m.0[i] == #[trigger] p[j].0[i];
            assert(p[j] == s[j]);
        }
        if m.1[i] != x.1[i] && s.last().1[i] <= m.1[i] {
            let j = choose|j: int| 0 <= j < p.len() && m.1[i] == #[trigger] p[j].1[i];
            assert(p[j] == s[j]);
        }
        assert(s[s.len() - 1] == s.last());
    }
}

/// Merging extents into a box gives the same box whatever order they come in:
/// two sequences that hold the same extents, each as often, merge to one result.
pub proof fn lemma_merge_order_independent(x: ExtentView, a: Seq<ExtentView>, b: Seq<ExtentView>)
    requires
        a.to_multiset() == b.to_multiset(),
    ensures
        merge_all(x, a) == merge_all(x, b),
{
    broadcast use vstd::seq_lib::group_to_multiset_ensures;

    assert(a.len() == a.to_multiset().len());
    assert(b.len() == b.to_multiset().len());
    if a.len() > 0 {
        let ma = merge_all(x, a);
        let mb = merge_all(x, b);
        assert forall|i: int| 0 <= i < 3 implies ma.0[i] == mb.0[i] && ma.1[i] == mb.1[i] by {
            lemma_merge_all_bounds(x, a, i);
            lemma_merge_all_bounds(x, b, i);
            if ma.0[i] != x.0[i] {
                let j = choose|j: int| 0 <= j < a.len() && ma.0[i] == #[trigger] a[j].0[i];
                assert(a.to_multiset().count(a[j]) > 0);
                assert(a.to_multiset().count(a[j]) > 0);
                assert(a.contains(a[j]));
                let k = choose|k: int| 0 <= k < b.len() && b[k] == a[j];
                assert(mb.0[i] <= b[k].0[i]);
            }
            if mb.0[i] != x.0[i] {
                let j = choose|j: int| 0 <= j < b.len() && mb.0[i] == #[trigger] b[j].0[i];
                assert(b.to_multiset().count(b[j]) > 0);
                assert(b.to_multiset().count(b[j]) > 0);
                assert(b.contains(b[j]));
                let k = choose|k: int| 0 <= k < a.len() && a[k] == b[j];
                assert(ma.0[i] <= a[k].0[i]);
            }
            if ma.1[i] != x.1[i] {
                let j = choose|j: int| 0 <= j < a.len() && ma.1[i] == #[trigger] a[j].1[i];
                assert(a.to_multiset().count(a[j]) > 0);
                assert(a.to_multiset().count(a[j]) > 0);
                assert(a.contains(a[j]));
                let k = choose|k: int| 0 <= k < b.len() && b[k] == a[j];
                assert(mb.1[i] >= b[k].1[i]);
            }
            if mb.1[i] != x.1[i] {
                let j = choose|j: int| 0 <= j < b.len() && mb.1[i] == #[trigger] b[j].1[i];
                assert(b.to_multiset().count(b[j]) > 0);
                assert(b.to_multiset().count(b[j]) > 0);
                assert(b.contains(b[j]));
                let k = choose|k: int| 0 <= k < a.len() && a[k] == b[j];
                assert(ma.1[i] >= a[k].1[i]);
            }
        }
        assert(ma.0 =~= mb.0);
        assert(ma.1 =~= mb.1);
    }
}

/// The empty extent is not valid; merging a valid box into any extent, the
/// empty one included, gives a valid one that holds that box.
pub proof fn lemma_merge_valid(x: ExtentView, r: ExtentView)
    requires
        valid_view(r),
    ensures
        !valid_view(empty_view()),
        valid_view(merged(x, r)),
        forall|i: int|
            0 <= i < 3 ==> merged(x, r).0[i] <= r.0[i] && r.1[i] <= #[trigger] merged(x, r).1[i],
{
    assert(empty_view().0[0] > empty_view().1[0]);
}

/// A node extent: the box that the node's geometry occupies.
#[derive(Clone, Copy, Debug)]
pub struct GltfNodeExtent {
    /// The beginning of this extent
    pub start: [i32; 3],
    /// The end of this extent
    pub end: [i32; 3],
}

impl View for GltfNodeExtent {
    type V = ExtentView;

    open spec fn view(&self) -> ExtentView {
        (self.start@, self.end@)
    }
}

impl Default for GltfNodeExtent {
    fn default() -> (r: GltfNodeExtent)
        ensures
            r@ == empty_view(),
    {
        let r = GltfNodeExtent { start: [EMPTY_START; 3], end: [EMPTY_END; 3] };
        assert(r@.0 =~= empty_view().0);
        assert(r@.1 =~= empty_view().1);
        r
    }
}

impl From<Range<[i32; 3]>> for GltfNodeExtent {
    fn from(range: Range<[i32; 3]>) -> (r: GltfNodeExtent)
        ensures
            r@ == (range.start@, range.end@),
    {
        GltfNodeExtent { start: range.start, end: range.end }
    }
}

impl vstd::std_specs::convert::FromSpecImpl<Range<[i32; 3]>> for GltfNodeExtent {
    open spec fn obeys_from_spec() -> bool {
        true
    }

    open spec fn from_spec(range: Range<[i32; 3]>) -> GltfNodeExtent {
        GltfNodeExtent { start: range.start, end: range.end }
    }
}

impl GltfNodeExtent {
    /// Widens both corners axis by axis to take in `[start, end]`.
    fn widen(&mut self, start: &[i32; 3], end: &[i32; 3])
        ensures
            final(self)@ == merged(old(self)@, (start@, end@)),
    {
        let ghost before = *self;
        let mut i: usize = 0;
        while i < 3
            invariant
                0 <= i <= 3,
                forall|j: int| 0 <= j < i ==> self.start[j] == min_key(before.start[j], start[j]),
                forall|j: int| 0 <= j < i ==> self.end[j] == max_key(before.end[j], end[j]),
                forall|j: int| i <= j < 3 ==> self.start[j] == before.start[j],
                forall|j: int| i <= j < 3 ==> self.end[j] == before.end[j],
            decreases 3 - i,
        {
            if start[i] < self.start[i] {
                self.start[i] = start[i];
            }
            if end[i] > self.end[i] {
                self.end[i] = end[i];
            }
            i = i + 1;
        }
        assert(self@.0 =~= merged(before@, (start@, end@)).0);
        assert(self@.1 =~= merged(before@, (start@, end@)).1);
    }

    /// Extends this to include the input range.
    pub fn extend_range(&mut self, other: &Range<[i32; 3]>)
        ensures
            final(self)@ == merged(old(self)@, (other.start@, other.end@)),
    {
        self.widen(&other.start, &other.end);
    }

    /// Extends this to include the provided extent.
    pub fn extend(&mut self, other: &GltfNodeExtent)
        ensures
            final(self)@ == merged(old(self)@, other@),
    {
        self.widen(&other.start, &other.end);
    }

    /// Determines if this extent is valid.
    pub fn valid(&self) -> (r: bool)
        ensures
            r == valid_view(self@),
    {
        let mut i: usize = 0;
        while i < 3
            invariant
                0 <= i <= 3,
                forall|j: int| 0 <= j < i ==> self.start[j] <= self.end[j],
            decreases 3 - i,
        {
            if self.start[i] > self.end[i] {
                assert(!(self@.0[i as int] <= self@.1[i as int]));
                return false;
            }
            i = i + 1;
        }
        assert(forall|j: int| 0 <= j < 3 ==> self@.0[j] == self.start[j] && self@.1[j] == self.end[j]);
        true
    }
}

} // verus!
