//! How a node of the layout tree divides its viewport: at a split point,
//! behind an inset, or to a fixed aspect ratio. Sizes never come out
//! negative, and a corner that would leave the range of `i32` stays on
//! its border.

use vstd::prelude::*;
use vstd::arithmetic::div_mod::lemma_div_is_ordered;
use vstd::arithmetic::div_mod::lemma_div_multiples_vanish;
use vstd::arithmetic::div_mod::lemma_div_pos_is_pos;
use vstd::arithmetic::div_mod::lemma_fundamental_div_mod;
use vstd::arithmetic::div_mod::lemma_mod_bound;
use vstd::arithmetic::mul::lemma_mul_inequality;
use vstd::arithmetic::mul::lemma_mul_is_commutative;
use vstd::arithmetic::mul::lemma_mul_nonnegative;
use crate::renderers::clamp;
use crate::renderers::non_negative;
use crate::renderers::saturate;
use crate::renderers::saturate_i64;
use crate::renderers::IntRect;

verus! {

/// A part of a whole: a fraction between zero and one, both included.
#[derive(Debug, Clone, Copy, PartialEq, Eq)]
pub struct Ratio {
    numer: u32,
    denom: u32,
}

impl Ratio {
    /// Whether the fraction has a positive denominator and is at most one.
    /// Every ratio that the program holds is valid.
    #[verifier::type_invariant]
    pub closed spec fn is_valid(self) -> bool {
        0 < self.denom && self.numer <= self.denom
    }

    pub closed spec fn numer(self) -> int {
        self.numer as int
    }

    pub closed spec fn denom(self) -> int {
        self.denom as int
    }

    /// The part of `extent` that the ratio stands for, rounded down.
    pub open spec fn of(self, extent: int) -> int {
        extent * self.numer() / self.denom()
    }

    /// A valid ratio has a positive denominator and is at most one.
    pub proof fn lemma_in_unit_interval(self)
        requires
            self.is_valid(),
        ensures
            0 < self.denom() <= u32::MAX,
            0 <= self.numer() <= self.denom(),
    {
    }

    /// A part of a non-negative extent lies between zero and the extent.
    pub proof fn lemma_of_within(self, extent: int)
        requires
            self.is_valid(),
            0 <= extent,
        ensures
            0 <= self.of(extent) <= extent,
    {
        let d = self.denom as int;
        let n = self.numer as int;
        lemma_mul_nonnegative(extent, n);
        lemma_div_pos_is_pos(extent * n, d);
        lemma_mul_inequality(n, d, extent);
        lemma_mul_is_commutative(n, extent);
        lemma_mul_is_commutative(d, extent);
        lemma_div_is_ordered(extent * n, extent * d, d);
        lemma_div_multiples_vanish(extent, d);
        lemma_mul_is_commutative(d, extent);
    }

    /// The ratio `numer / denom`, where that is a fraction between zero and
    /// one.
    pub fn new(numer: u32, denom: u32) -> (ratio: Option<Ratio>)
        ensures
            ratio is Some <==> 0 < denom && numer <= denom,
            ratio matches Some(r) ==> r.is_valid() && r.numer() == numer && r.denom() == denom,
    {
        if denom == 0 || numer > denom {
            None
        } else {
            Some(Ratio { numer, denom })
        }
    }

    pub fn numerator(&self) -> (numer: u32)
        ensures
            numer == self.numer(),
    {
        self.numer
    }

    pub fn denominator(&self) -> (denom: u32)
        ensures
            denom == self.denom(),
    {
        self.denom
    }

    /// Computes `of`.
    pub fn scale(&self, extent: u32) -> (part: u32)
        ensures
            part == self.of(extent as int),
            part <= extent,
    {
        proof {
            use_type_invariant(self);
            self.lemma_of_within(extent as int);
            assert(extent * self.numer <= 0xffff_ffff * 0xffff_ffff) by (nonlinear_arith)
                requires
                    extent <= 0xffff_ffff,
                    self.numer <= 0xffff_ffff,
            ;
        }
        let product: u64 = (extent as u64) * (self.numer as u64);
        (product / (self.denom as u64)) as u32
    }
}

/// The proportion of a width to a height, both positive.
#[derive(Debug, Clone, Copy, PartialEq, Eq)]
pub struct AspectRatio {
    width: u32,
    height: u32,
}

impl AspectRatio {
    /// Whether both terms are positive. Every aspect ratio that the program
    /// holds is valid.
    #[verifier::type_invariant]
    pub closed spec fn is_valid(self) -> bool {
        0 < self.width && 0 < self.height
    }

    pub closed spec fn width(self) -> int {
        self.width as int
    }

    pub closed spec fn height(self) -> int {
        self.height as int
    }

    /// Both terms of a valid aspect ratio are positive.
    pub proof fn lemma_positive(self)
        requires
            self.is_valid(),
        ensures
            0 < self.width() <= u32::MAX,
            0 < self.height() <= u32::MAX,
    {
    }

    /// The aspect ratio `width : height`, where both are positive.
    pub fn new(width: u32, height: u32) -> (aspect: Option<AspectRatio>)
        ensures
            aspect is Some <==> 0 < width && 0 < height,
            aspect matches Some(a) ==> a.is_valid() && a.width() == width && a.height() == height,
    {
        if width == 0 || height == 0 {
            None
        } else {
            Some(AspectRatio { width, height })
        }
    }

    pub fn width_term(&self) -> (width: u32)
        ensures
            width == self.width(),
    {
        self.width
    }

    pub fn height_term(&self) -> (height: u32)
        ensures
            height == self.height(),
    {
        self.height
    }
}

/// Where a split renderer divides its viewport. A negative absolute split
/// point counts from the far edge.
#[derive(Debug, Clone, Copy, PartialEq, Eq)]
pub enum SplitPoint {
    /// A split point in pixels.
    Absolute(i32),
    /// A split point as a part of the viewport's extent.
    Ratio(Ratio),
}

impl SplitPoint {
    /// Whether the split point holds a valid ratio, where it holds one.
    pub open spec fn is_valid(self) -> bool {
        self matches SplitPoint::Ratio(ratio) ==> ratio.is_valid()
    }

    /// The distance that the split point names within a non-negative
    /// extent: from the near edge where it is not negative, from the far edge
    /// where it is.
    pub open spec fn offset(self, extent: int) -> int {
        match self {
            SplitPoint::Absolute(pixels) => pixels as int,
            SplitPoint::Ratio(ratio) => ratio.of(extent),
        }
    }

    /// The split point within a viewport of the given size, measured from
    /// the near edge: between zero and the size. A negative size counts as
    /// zero.
    pub open spec fn resolve(self, viewport_size: int) -> int {
        let extent = non_negative(viewport_size);
        let offset = self.offset(extent);
        clamp(
            if offset < 0 {
                extent + offset
            } else {
                offset
            },
            0,
            extent,
        )
    }

    /// Computes `resolve`.
    pub fn to_absolute(&self, viewport_size: i32) -> (sp: i32)
        ensures
            sp == self.resolve(viewport_size as int),
            0 <= sp <= non_negative(viewport_size as int),
    {
        let extent: i64 = if viewport_size < 0 {
            0
        } else {
            viewport_size as i64
        };
        let offset: i64 = match self {
            SplitPoint::Absolute(pixels) => *pixels as i64,
            SplitPoint::Ratio(ratio) => ratio.scale(extent as u32) as i64,
        };
        let sp: i64 = if offset < 0 {
            extent + offset
        } else {
            offset
        };
        if sp < 0 {
            0
        } else if sp > extent {
            extent as i32
        } else {
            sp as i32
        }
    }
}

/// A negative absolute split point is counted from the far edge and then
/// kept inside the viewport.
pub proof fn lemma_negative_split_counts_from_far_edge(pixels: i32, viewport_size: i32)
    requires
        pixels < 0,
    ensures
        SplitPoint::Absolute(pixels).resolve(viewport_size as int) == clamp(
            viewport_size + pixels,
            0,
            viewport_size as int,
        ),
{
}

/// A split point that is not negative is counted from the near edge and
/// kept inside the viewport.
pub proof fn lemma_split_counts_from_near_edge(pixels: i32, viewport_size: i32)
    requires
        0 <= pixels,
        0 <= viewport_size,
    ensures
        SplitPoint::Absolute(pixels).resolve(viewport_size as int) == clamp(
            pixels as int,
            0,
            viewport_size as int,
        ),
{
}

/// A ratio divides a viewport at its part of the extent, rounded down.
pub proof fn lemma_ratio_split(ratio: Ratio, viewport_size: i32)
    requires
        ratio.is_valid(),
        0 <= viewport_size,
    ensures
        SplitPoint::Ratio(ratio).resolve(viewport_size as int) == viewport_size * ratio.numer()
            / ratio.denom(),
{
    ratio.lemma_of_within(viewport_size as int);
}

/// The two viewports into which a split renderer divides `parent`: the first
/// from the near edge to the split point, the second from there to the far
/// edge, side by side where `horizontal` is set and one above the other where
/// it is not.
pub open spec fn split_rects(parent: IntRect, horizontal: bool, split_point: SplitPoint) -> (
    IntRect,
    IntRect,
) {
    let width = non_negative(parent.width());
    let height = non_negative(parent.height());
    if horizontal {
        let sp = split_point.resolve(parent.width());
        (
            IntRect::at(parent.pos[0], parent.pos[1], sp as i32, height as i32),
            IntRect::at(
                saturate(parent.x() + sp),
                parent.pos[1],
                (width - sp) as i32,
                height as i32,
            ),
        )
    } else {
        let sp = split_point.resolve(parent.height());
        (
            IntRect::at(parent.pos[0], parent.pos[1], width as i32, sp as i32),
            IntRect::at(
                parent.pos[0],
                saturate(parent.y() + sp),
                width as i32,
                (height - sp) as i32,
            ),
        )
    }
}

/// Computes `split_rects`.
pub fn split_viewports(parent: IntRect, horizontal: bool, split_point: SplitPoint) -> (r: (
    IntRect,
    IntRect,
))
    ensures
        r == split_rects(parent, horizontal, split_point),
{
    let width: i32 = if parent.size[0] < 0 {
        0
    } else {
        parent.size[0]
    };
    let height: i32 = if parent.size[1] < 0 {
        0
    } else {
        parent.size[1]
    };
    if horizontal {
        let sp = split_point.to_absolute(parent.size[0]);
        let first = IntRect { pos: parent.pos, size: [sp, height] };
        let second = IntRect {
            pos: [saturate_i64(parent.pos[0] as i64 + sp as i64), parent.pos[1]],
            size: [width - sp, height],
        };
        proof {
            assert(first.pos =~= split_rects(parent, horizontal, split_point).0.pos);
            assert(first.size =~= split_rects(parent, horizontal, split_point).0.size);
            assert(second.pos =~= split_rects(parent, horizontal, split_point).1.pos);
            assert(second.size =~= split_rects(parent, horizontal, split_point).1.size);
        }
        (first, second)
    } else {
        let sp = split_point.to_absolute(parent.size[1]);
        let first = IntRect { pos: parent.pos, size: [width, sp] };
        let second = IntRect {
            pos: [parent.pos[0], saturate_i64(parent.pos[1] as i64 + sp as i64)],
            size: [width, height - sp],
        };
        proof {
            assert(first.pos =~= split_rects(parent, horizontal, split_point).0.pos);
            assert(first.size =~= split_rects(parent, horizontal, split_point).0.size);
            assert(second.pos =~= split_rects(parent, horizontal, split_point).1.pos);
            assert(second.size =~= split_rects(parent, horizontal, split_point).1.size);
        }
        (first, second)
    }
}

/// The coordinate at which `split_rects` divides `parent`.
pub open spec fn split_line(parent: IntRect, horizontal: bool, split_point: SplitPoint) -> int {
    if horizontal {
        parent.x() + split_point.resolve(parent.width())
    } else {
        parent.y() + split_point.resolve(parent.height())
    }
}

/// Neither viewport of a split has a negative size, and together they have
/// the size of the parent along the split and across it.
pub proof fn lemma_split_sizes(parent: IntRect, horizontal: bool, split_point: SplitPoint)
    ensures
        ({
            let (first, second) = split_rects(parent, horizontal, split_point);
            &&& 0 <= first.width() && 0 <= first.height()
            &&& 0 <= second.width() && 0 <= second.height()
            &&& first.pos == parent.pos
            &&& horizontal ==> {
                &&& first.width() + second.width() == non_negative(parent.width())
                &&& first.height() == non_negative(parent.height())
                &&& second.height() == non_negative(parent.height())
            }
            &&& !horizontal ==> {
                &&& first.height() + second.height() == non_negative(parent.height())
                &&& first.width() == non_negative(parent.width())
                &&& second.width() == non_negative(parent.width())
            }
        }),
{
    let (first, second) = split_rects(parent, horizontal, split_point);
    assert(first.pos =~= parent.pos);
}

/// The two viewports of a split tile the parent: every pixel of the parent
/// lies in one of them, no pixel lies in both, and none of theirs lies outside
/// the parent. This holds of every split point, wherever the split line is a
/// coordinate of `i32`; it is one in every representable parent.
pub proof fn lemma_split_tiles(
    parent: IntRect,
    horizontal: bool,
    split_point: SplitPoint,
    px: int,
    py: int,
)
    requires
        split_line(parent, horizontal, split_point) <= i32::MAX,
    ensures
        ({
            let (first, second) = split_rects(parent, horizontal, split_point);
            &&& parent.contains(px, py) <==> first.contains(px, py) || second.contains(px, py)
            &&& !(first.contains(px, py) && second.contains(px, py))
        }),
{
}

/// In a representable parent the split line is a coordinate of `i32`.
pub proof fn lemma_split_line_representable(
    parent: IntRect,
    horizontal: bool,
    split_point: SplitPoint,
)
    requires
        parent.representable(),
    ensures
        split_line(parent, horizontal, split_point) <= i32::MAX,
{
}

/// The viewport that an inset renderer gives to its inside: the parent,
/// made smaller by `inset` pixels on each of its four sides. Where that would
/// leave a width or a height below zero, the size is zero in both.
pub open spec fn inset_rect(parent: IntRect, inset: i32) -> IntRect {
    let width = parent.width() - 2 * inset;
    let height = parent.height() - 2 * inset;
    let x = saturate(parent.x() + inset);
    let y = saturate(parent.y() + inset);
    if width < 0 || height < 0 {
        IntRect::at(x, y, 0, 0)
    } else {
        IntRect::at(x, y, saturate(width), saturate(height))
    }
}

/// Computes `inset_rect`.
pub fn inset_viewport(parent: IntRect, inset: i32) -> (inside: IntRect)
    ensures
        inside == inset_rect(parent, inset),
{
    let x = saturate_i64(parent.pos[0] as i64 + inset as i64);
    let y = saturate_i64(parent.pos[1] as i64 + inset as i64);
    let width: i64 = parent.size[0] as i64 - 2 * (inset as i64);
    let height: i64 = parent.size[1] as i64 - 2 * (inset as i64);
    let inside = if width < 0 || height < 0 {
        IntRect { pos: [x, y], size: [0, 0] }
    } else {
        IntRect { pos: [x, y], size: [saturate_i64(width), saturate_i64(height)] }
    };
    proof {
        assert(inside.pos =~= inset_rect(parent, inset).pos);
        assert(inside.size =~= inset_rect(parent, inset).size);
    }
    inside
}

/// The size behind an inset that is not negative: the parent's size less
/// twice the inset, and zero where that is negative. This is said of the
/// parents in which the inset leaves both a width and a height, or neither:
/// where it leaves only one of them, the size is zero in both.
pub proof fn lemma_inset_size(parent: IntRect, inset: i32)
    requires
        0 <= inset,
        (parent.width() - 2 * inset < 0) == (parent.height() - 2 * inset < 0),
    ensures
        inset_rect(parent, inset).width() == non_negative(parent.width() - 2 * inset),
        inset_rect(parent, inset).height() == non_negative(parent.height() - 2 * inset),
{
}

/// Where an inset leaves only a width or only a height, the size behind it
/// is zero in both, and it never is negative.
pub proof fn lemma_inset_collapses(parent: IntRect, inset: i32)
    ensures
        0 <= inset_rect(parent, inset).width(),
        0 <= inset_rect(parent, inset).height(),
        parent.width() - 2 * inset < 0 || parent.height() - 2 * inset < 0 ==> inset_rect(
            parent,
            inset,
        ).width() == 0 && inset_rect(parent, inset).height() == 0,
{
}

/// The inside starts `inset` pixels in from the parent's corner, wherever
/// that is a coordinate of `i32`.
pub proof fn lemma_inset_position(parent: IntRect, inset: i32)
    requires
        i32::MIN <= parent.x() + inset <= i32::MAX,
        i32::MIN <= parent.y() + inset <= i32::MAX,
    ensures
        inset_rect(parent, inset).x() == parent.x() + inset,
        inset_rect(parent, inset).y() == parent.y() + inset,
{
}

/// Where an inset that is not negative leaves a width and a height, the
/// inside holds the pixels of the parent that lie at least `inset` pixels
/// from each of its four edges, and no others.
pub proof fn lemma_inset_shrinks_all_sides(parent: IntRect, inset: i32, px: int, py: int)
    requires
        0 <= inset,
        0 <= parent.width() - 2 * inset,
        0 <= parent.height() - 2 * inset,
        parent.x() + inset <= i32::MAX,
        parent.y() + inset <= i32::MAX,
    ensures
        inset_rect(parent, inset).contains(px, py) <==> {
            &&& parent.x() + inset <= px < parent.x() + parent.width() - inset
            &&& parent.y() + inset <= py < parent.y() + parent.height() - inset
        },
{
}

/// The size of the largest rectangle of the given aspect ratio inside a
/// `width` by `height` rectangle, rounded down to whole pixels: as high as the
/// rectangle where the width that follows from the full height is less than
/// `width`, and as wide as the rectangle otherwise.
pub open spec fn fit_size(width: int, height: int, aspect: AspectRatio) -> (int, int) {
    let by_height = height * aspect.width() / aspect.height();
    let by_width = width * aspect.height() / aspect.width();
    if by_height < width {
        (by_height, height)
    } else {
        (width, by_width)
    }
}

/// The viewport that a renderer of fixed aspect ratio gives to its child:
/// of the size `fit_size`, in the middle of the parent. Of a leftover that
/// is odd, the smaller half lies before the child. A negative size of the
/// parent counts as zero.
pub open spec fn fit_rect(parent: IntRect, aspect: AspectRatio) -> IntRect {
    let width = non_negative(parent.width());
    let height = non_negative(parent.height());
    let (w, h) = fit_size(width, height, aspect);
    IntRect::at(
        saturate(parent.x() + (width - w) / 2),
        saturate(parent.y() + (height - h) / 2),
        w as i32,
        h as i32,
    )
}

/// The fitted size lies between zero and the size to fit into, and is as
/// wide or as high as that.
pub proof fn lemma_fit_size_within(width: int, height: int, aspect: AspectRatio)
    requires
        aspect.is_valid(),
        0 <= width,
        0 <= height,
    ensures
        0 <= fit_size(width, height, aspect).0 <= width,
        0 <= fit_size(width, height, aspect).1 <= height,
        fit_size(width, height, aspect).0 == width || fit_size(width, height, aspect).1 == height,
{
    let aw = aspect.width();
    let ah = aspect.height();
    let by_height = height * aw / ah;
    let by_width = width * ah / aw;
    lemma_mul_nonnegative(height, aw);
    lemma_mul_nonnegative(width, ah);
    lemma_div_pos_is_pos(height * aw, ah);
    lemma_div_pos_is_pos(width * ah, aw);
    if by_height >= width {
        lemma_fundamental_div_mod(height * aw, ah);
        lemma_mod_bound(height * aw, ah);
        lemma_mul_inequality(width, by_height, ah);
        lemma_mul_is_commutative(ah, by_height);
        assert(width * ah <= height * aw);
        lemma_div_is_ordered(width * ah, height * aw, aw);
        lemma_mul_is_commutative(height, aw);
        lemma_div_multiples_vanish(height, aw);
    }
}

/// The fitted size keeps the aspect ratio as closely as whole pixels allow:
/// the side that follows from the other is the largest that does not exceed
/// the ratio.
pub proof fn lemma_fit_size_keeps_ratio(width: int, height: int, aspect: AspectRatio)
    requires
        aspect.is_valid(),
        0 <= width,
        0 <= height,
    ensures
        ({
            let (w, h) = fit_size(width, height, aspect);
            &&& h == height && w < width ==> w * aspect.height() <= h * aspect.width() < (w + 1)
                * aspect.height()
            &&& !(h == height && w < width) ==> h * aspect.width() <= w * aspect.height() < (h
                + 1) * aspect.width()
        }),
{
    let aw = aspect.width();
    let ah = aspect.height();
    let by_height = height * aw / ah;
    let by_width = width * ah / aw;
    lemma_fit_size_within(width, height, aspect);
    lemma_fundamental_div_mod(height * aw, ah);
    lemma_mod_bound(height * aw, ah);
    lemma_fundamental_div_mod(width * ah, aw);
    lemma_mod_bound(width * ah, aw);
    lemma_mul_is_commutative(ah, by_height);
    lemma_mul_is_commutative(aw, by_width);
    assert((by_height + 1) * ah == by_height * ah + ah) by (nonlinear_arith);
    assert((by_width + 1) * aw == by_width * aw + aw) by (nonlinear_arith);
}

/// The child of a renderer of fixed aspect ratio never exceeds the parent in
/// width or in height, and has no negative size.
pub proof fn lemma_fit_within(parent: IntRect, aspect: AspectRatio)
    requires
        aspect.is_valid(),
    ensures
        0 <= fit_rect(parent, aspect).width() <= non_negative(parent.width()),
        0 <= fit_rect(parent, aspect).height() <= non_negative(parent.height()),
        fit_rect(parent, aspect).width() == non_negative(parent.width()) || fit_rect(
            parent,
            aspect,
        ).height() == non_negative(parent.height()),
{
    lemma_fit_size_within(
        non_negative(parent.width()),
        non_negative(parent.height()),
        aspect,
    );
}

/// What a fitted child leaves over of the parent's width and height.
pub open spec fn fit_leftover(parent: IntRect, aspect: AspectRatio) -> (int, int) {
    let width = non_negative(parent.width());
    let height = non_negative(parent.height());
    let (w, h) = fit_size(width, height, aspect);
    (width - w, height - h)
}

/// The child of a renderer of fixed aspect ratio lies in the middle of the
/// parent: before it lies half of the leftover, rounded down, and behind it
/// the rest, which is the same or one pixel more. This holds wherever the
/// child's corner is a coordinate of `i32`.
pub proof fn lemma_fit_centered(parent: IntRect, aspect: AspectRatio)
    requires
        aspect.is_valid(),
        parent.x() + fit_leftover(parent, aspect).0 / 2 <= i32::MAX,
        parent.y() + fit_leftover(parent, aspect).1 / 2 <= i32::MAX,
    ensures
        ({
            let child = fit_rect(parent, aspect);
            let (spare_x, spare_y) = fit_leftover(parent, aspect);
            let (before_x, before_y) = (child.x() - parent.x(), child.y() - parent.y());
            &&& spare_x == non_negative(parent.width()) - child.width()
            &&& spare_y == non_negative(parent.height()) - child.height()
            &&& before_x == spare_x / 2
            &&& before_y == spare_y / 2
            &&& before_x <= spare_x - before_x <= before_x + 1
            &&& before_y <= spare_y - before_y <= before_y + 1
        }),
{
    lemma_fit_size_within(
        non_negative(parent.width()),
        non_negative(parent.height()),
        aspect,
    );
}

/// Computes `fit_rect`.
pub fn fit_viewport(parent: IntRect, aspect: AspectRatio) -> (child: IntRect)
    ensures
        child == fit_rect(parent, aspect),
{
    let width: u32 = if parent.size[0] < 0 {
        0
    } else {
        parent.size[0] as u32
    };
    let height: u32 = if parent.size[1] < 0 {
        0
    } else {
        parent.size[1] as u32
    };
    let aw: u32 = aspect.width_term();
    let ah: u32 = aspect.height_term();
    proof {
        use_type_invariant(aspect);
        lemma_fit_size_within(width as int, height as int, aspect);
        assert(height * aw <= 0x7fff_ffff * 0xffff_ffff) by (nonlinear_arith)
            requires
                0 <= height <= 0x7fff_ffff,
                0 <= aw <= 0xffff_ffff,
        ;
        assert(width * ah <= 0x7fff_ffff * 0xffff_ffff) by (nonlinear_arith)
            requires
                0 <= width <= 0x7fff_ffff,
                0 <= ah <= 0xffff_ffff,
        ;
    }
    let by_height: u64 = (height as u64) * (aw as u64) / (ah as u64);
    let (w, h): (u32, u32) = if by_height < width as u64 {
        (by_height as u32, height)
    } else {
        let by_width: u64 = (width as u64) * (ah as u64) / (aw as u64);
        (width, by_width as u32)
    };
    let x = saturate_i64(parent.pos[0] as i64 + ((width - w) / 2) as i64);
    let y = saturate_i64(parent.pos[1] as i64 + ((height - h) / 2) as i64);
    let child = IntRect { pos: [x, y], size: [w as i32, h as i32] };
    proof {
        assert(child.pos =~= fit_rect(parent, aspect).pos);
        assert(child.size =~= fit_rect(parent, aspect).size);
    }
    child
}

} // verus!
