//! What the report's charts are drawn from: the category label of each
//! position on the image axis, and value-axis ranges that never collapse to
//! zero width.
use vstd::prelude::*;
use crate::aggregate::Report;
use crate::measure::{Ratio, ResultView, ratio_of};

verus! {

/// A position on a categorical axis, as the drawing surface asks for it.
#[derive(Debug, Clone, Copy, PartialEq, Eq, Structural)]
pub enum Segment {
    Exact(usize),
    CenterOf(usize),
    Last,
}

/// The category index a position stands for.
pub open spec fn segment_index(s: Segment) -> usize {
    match s {
        Segment::Exact(i) => i,
        Segment::CenterOf(i) => i,
        Segment::Last => 0,
    }
}

/// The label of category `index`: the image name of that entry, or empty
/// where there is no such entry.
pub open spec fn label_spec(entries: Seq<ResultView>, index: int) -> Seq<char> {
    if 0 <= index < entries.len() {
        entries[index].image_name
    } else {
        Seq::empty()
    }
}

/// The last category index of an image axis over `n` entries; an axis over
/// fewer than two entries still spans one unit.
pub open spec fn category_axis_end_spec(n: nat) -> nat {
    if n <= 1 {
        1
    } else {
        (n - 1) as nat
    }
}

/// The order on ratios with positive denominators is transitive.
proof fn lemma_ratio_le_trans(a: Ratio, b: Ratio, c: Ratio)
    requires
        a.denominator > 0,
        b.denominator > 0,
        c.denominator > 0,
        a.spec_le(b),
        b.spec_le(c),
    ensures
        a.spec_le(c),
{
    let (an, ad) = (a.numerator as int, a.denominator as int);
    let (bn, bd) = (b.numerator as int, b.denominator as int);
    let (cn, cd) = (c.numerator as int, c.denominator as int);
    assert(an * cd <= cn * ad) by (nonlinear_arith)
        requires
            an * bd <= bn * ad,
            bn * cd <= cn * bd,
            ad > 0,
            bd > 0,
            cd > 0,
            an >= 0,
    ;
}

impl Report {
    /// The label of category `index`.
    pub fn label(&self, index: usize) -> (r: String)
        ensures
            r@ == label_spec(self@, index as int),
    {
        if index < self.len() {
            self.entry(index).image_name().clone()
        } else {
            String::new()
        }
    }

    /// The label of an axis position.
    pub fn segment_label(&self, segment: Segment) -> (r: String)
        ensures
            r@ == label_spec(self@, segment_index(segment) as int),
    {
        let index = match segment {
            Segment::Exact(i) => i,
            Segment::CenterOf(i) => i,
            Segment::Last => 0,
        };
        self.label(index)
    }

    /// The last index of the image axis, which starts at zero.
    pub fn category_axis_end(&self) -> (r: usize)
        ensures
            r == category_axis_end_spec(self@.len()),
            r >= 1,
    {
        let n = self.len();
        if n <= 1 {
            1
        } else {
            n - 1
        }
    }

    /// Top of the size axis: the largest size before or after compression
    /// over all entries, and at least one byte.
    pub fn size_axis_max(&self) -> (r: u64)
        ensures
            r >= 1,
            forall|i: int|
                0 <= i < self@.len() ==> #[trigger] self@[i].pre_size <= r && self@[i].post_size
                    <= r,
            r == 1 || exists|i: int|
                0 <= i < self@.len() && (r == #[trigger] self@[i].pre_size || r
                    == self@[i].post_size),
    {
        let mut top: u64 = 1;
        let ghost mut w: int = 0;
        let mut i: usize = 0;
        while i < self.len()
            invariant
                i <= self@.len(),
                top >= 1,
                forall|k: int|
                    0 <= k < i ==> #[trigger] self@[k].pre_size <= top && self@[k].post_size
                        <= top,
                top == 1 || (0 <= w < i && (top == self@[w].pre_size || top
                    == self@[w].post_size)),
            decreases self@.len() - i,
        {
            let e = self.entry(i);
            if e.pre_size() > top {
                top = e.pre_size();
                proof {
                    w = i as int;
                }
            }
            if e.post_size() > top {
                top = e.post_size();
                proof {
                    w = i as int;
                }
            }
            i = i + 1;
        }
        proof {
            if top != 1 {
                assert(top == self@[w].pre_size || top == self@[w].post_size);
            }
        }
        top
    }

    /// Top of the ratio axis: the largest compression ratio over all
    /// entries, or one where no ratio is above zero.
    pub fn ratio_axis_max(&self) -> (r: Ratio)
        ensures
            r.denominator > 0,
            forall|i: int| 0 <= i < self@.len() ==> (#[trigger] ratio_of(self@[i])).spec_le(r),
            (r == Ratio { numerator: 1, denominator: 1 } && forall|i: int|
                0 <= i < self@.len() ==> #[trigger] self@[i].pre_size == 0) || exists|i: int|
                0 <= i < self@.len() && r == #[trigger] ratio_of(self@[i]) && self@[i].pre_size
                    > 0,
    {
        let mut best = Ratio { numerator: 0, denominator: 1 };
        let mut i: usize = 0;
        while i < self.len()
            invariant
                i <= self@.len(),
                best.denominator > 0,
                forall|k: int| 0 <= k < i ==> #[trigger] self@[k].post_size > 0,
                forall|k: int| 0 <= k < i ==> (#[trigger] ratio_of(self@[k])).spec_le(best),
                (best == Ratio { numerator: 0, denominator: 1 } && forall|k: int|
                    0 <= k < i ==> #[trigger] self@[k].pre_size == 0) || (best.numerator > 0
                    && exists|k: int| 0 <= k < i && best == #[trigger] ratio_of(self@[k])),
            decreases self@.len() - i,
        {
            let e = self.entry(i);
            let ratio = e.compression_ratio();
            let ghost old_best = best;
            if ratio.numerator > 0 && (best.numerator == 0 || !ratio.le(&best)) {
                best = ratio;
                proof {
                    assert forall|k: int| 0 <= k < i + 1 implies (#[trigger] ratio_of(
                        self@[k],
                    )).spec_le(best) by {
                        if k < i {
                            if old_best.numerator == 0 {
                                assert(self@[k].pre_size == 0);
                            } else {
                                assert(old_best.spec_le(best)) by (nonlinear_arith)
                                    requires
                                        !best.spec_le(old_best),
                                ;
                                lemma_ratio_le_trans(ratio_of(self@[k]), old_best, best);
                            }
                        }
                    }
                }
            } else {
                proof {
                    if ratio.numerator == 0 {
                        assert(ratio_of(self@[i as int]).spec_le(best));
                    }
                }
            }
            i = i + 1;
        }
        if best.numerator == 0 {
            Ratio { numerator: 1, denominator: 1 }
        } else {
            best
        }
    }
}

} // verus!
