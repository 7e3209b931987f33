use vstd::prelude::*;
use crate::image::{channel_count, ColorSpace, ImageView};
use crate::stages::{composite, lightness_of};

verus! {

/// A color image and a mask that may be composited: well formed, in the
/// color spaces the compositor takes, and of one size.
pub open spec fn composable(base: ImageView, mask: ImageView) -> bool {
    &&& base.wf()
    &&& base.space == ColorSpace::Bgr
    &&& mask.wf()
    &&& mask.space == ColorSpace::Gray
    &&& base.same_size(mask)
}

/// An all-black color image of the given size.
pub open spec fn black(width: nat, height: nat) -> ImageView {
    ImageView {
        width,
        height,
        space: ColorSpace::Bgr,
        samples: Seq::new(width * height * 3, |k: int| 0u8),
    }
}

/// Compositing through a mask that is 255 everywhere gives back the base
/// image unchanged.
pub proof fn lemma_full_mask_keeps_base(base: ImageView, mask: ImageView)
    requires
        composable(base, mask),
        forall|i: int| 0 <= i < mask.samples.len() ==> mask.samples[i] == 255,
    ensures
        composite(base, mask) == base,
{
    let out = composite(base, mask);
    assert forall|k: int| 0 <= k < base.samples.len() implies out.samples[k] == base.samples[k] by {
        assert(0 <= k / 3 < mask.samples.len());
    }
    assert(out.samples =~= base.samples);
}

/// Compositing through a mask that is 0 everywhere gives an all-black image
/// of the base image's size.
pub proof fn lemma_empty_mask_blacks_out(base: ImageView, mask: ImageView)
    requires
        composable(base, mask),
        forall|i: int| 0 <= i < mask.samples.len() ==> mask.samples[i] == 0,
    ensures
        composite(base, mask) == black(base.width, base.height),
{
    let out = composite(base, mask);
    assert forall|k: int| 0 <= k < base.samples.len() implies out.samples[k] == 0 by {
        assert(0 <= k / 3 < mask.samples.len());
    }
    assert(out.samples =~= black(base.width, base.height).samples);
}

/// The mask that is 255 where both masks are nonzero and 0 elsewhere.
pub open spec fn mask_intersection(m1: ImageView, m2: ImageView) -> ImageView {
    ImageView {
        width: m1.width,
        height: m1.height,
        space: ColorSpace::Gray,
        samples: Seq::new(
            m1.samples.len(),
            |i: int|
                if m1.samples[i] != 0 && m2.samples[i] != 0 {
                    255u8
                } else {
                    0u8
                },
        ),
    }
}

/// Compositing a second time through the same mask changes nothing.
pub proof fn lemma_mask_twice_is_once(base: ImageView, mask: ImageView)
    requires
        composable(base, mask),
    ensures
        composable(composite(base, mask), mask),
        composite(composite(base, mask), mask) == composite(base, mask),
{
    let once = composite(base, mask);
    assert(once.samples.len() == base.samples.len());
    assert(once.samples =~= composite(once, mask).samples);
}

/// Compositing through one mask and then another gives the same image in
/// either order, and the same as compositing once through their intersection.
pub proof fn lemma_masks_intersect(base: ImageView, m1: ImageView, m2: ImageView)
    requires
        composable(base, m1),
        composable(base, m2),
    ensures
        composable(composite(base, m1), m2),
        composable(composite(base, m2), m1),
        composable(base, mask_intersection(m1, m2)),
        composite(composite(base, m1), m2) == composite(base, mask_intersection(m1, m2)),
        composite(composite(base, m2), m1) == composite(base, mask_intersection(m1, m2)),
{
    let both = mask_intersection(m1, m2);
    assert(both.samples.len() == m1.samples.len());
    let a = composite(composite(base, m1), m2);
    let b = composite(composite(base, m2), m1);
    let c = composite(base, both);
    assert forall|k: int| 0 <= k < base.samples.len() implies a.samples[k] == c.samples[k]
        && b.samples[k] == c.samples[k] by {
        assert(0 <= k / 3 < m1.samples.len());
    }
    assert(a.samples =~= c.samples);
    assert(b.samples =~= c.samples);
}

/// Lightness extraction and compositing keep the width and height of their
/// input, and produce well-formed images.
pub proof fn lemma_stages_keep_size(lab: ImageView, base: ImageView, mask: ImageView)
    requires
        lab.wf(),
        lab.space == ColorSpace::Lab,
        composable(base, mask),
    ensures
        lightness_of(lab).same_size(lab),
        lightness_of(lab).wf(),
        composite(base, mask).same_size(base),
        composite(base, mask).wf(),
{
    let gray = lightness_of(lab);
    assert(gray.pixel_count() * channel_count(gray.space) == gray.samples.len()) by (nonlinear_arith)
        requires
            channel_count(gray.space) == 1,
            gray.samples.len() == gray.pixel_count(),
    ;
}

} // verus!
