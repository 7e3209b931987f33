use vstd::prelude::*;
use crate::image::{channel_count, ColorSpace, Image, ImageView};

verus! {

/// Why a pipeline stage refused its input.
#[derive(Clone, Copy, Debug, PartialEq, Eq, Structural)]
pub enum StageError {
    /// An input is not in the color space the stage works on.
    WrongColorSpace,
    /// Two inputs that must match in width and height do not.
    SizeMismatch,
    /// The input holds no pixel, so it has no channel to take.
    EmptyImage,
}

/// The lightness plane of a perceptual-space image: channel 0 of each pixel.
pub open spec fn lightness_of(lab: ImageView) -> ImageView {
    ImageView {
        width: lab.width,
        height: lab.height,
        space: ColorSpace::Gray,
        samples: Seq::new(lab.pixel_count(), |i: int| lab.samples[3 * i]),
    }
}

/// The base image where the mask is nonzero, black where it is zero.
pub open spec fn composite(base: ImageView, mask: ImageView) -> ImageView {
    ImageView {
        width: base.width,
        height: base.height,
        space: ColorSpace::Bgr,
        samples: Seq::new(
            base.samples.len(),
            |k: int|
                if mask.samples[k / 3] != 0 {
                    base.samples[k]
                } else {
                    0u8
                },
        ),
    }
}

/// Extracts the lightness channel of a perceptual-space image as a
/// single-channel image of the same size. An image without pixels has no
/// channel to take and is refused.
pub fn gray_from_lab(input: &Image) -> (r: Result<Image, StageError>)
    ensures
        r is Err <==> (input@.space != ColorSpace::Lab || input@.pixel_count() == 0),
        r matches Err(StageError::WrongColorSpace) <==> input@.space != ColorSpace::Lab,
        r matches Err(StageError::EmptyImage) <==> (input@.space == ColorSpace::Lab
            && input@.pixel_count() == 0),
        r matches Ok(out) ==> out@ == lightness_of(input@),
{
    if input.space() != ColorSpace::Lab {
        return Err(StageError::WrongColorSpace);
    }
    let width = input.width();
    let height = input.height();
    if width == 0 || height == 0 {
        assert(input@.pixel_count() == 0) by (nonlinear_arith)
            requires
                width == 0 || height == 0,
                input@.pixel_count() == width * height,
        ;
        return Err(StageError::EmptyImage);
    }
    assert(input@.pixel_count() > 0) by (nonlinear_arith)
        requires
            width > 0,
            height > 0,
            input@.pixel_count() == width * height,
    ;
    let data = input.data();
    let ghost pixels = input@.pixel_count();
    assert(data@.len() == pixels * 3);
    let len = data.len();
    let count = len / 3;
    let mut plane: Vec<u8> = Vec::with_capacity(count);
    let mut i: usize = 0;
    while i < count
        invariant
            data@ == input@.samples,
            data@.len() == pixels * 3,
            count == pixels,
            3 * count == len,
            len == data@.len(),
            i <= count,
            plane@.len() == i,
            forall|j: int| 0 <= j < i ==> plane@[j] == data@[3 * j],
        decreases count - i,
    {
        plane.push(data[3 * i]);
        i = i + 1;
    }
    assert(plane@ =~= lightness_of(input@).samples);
    assert(plane@.len() == width * height * channel_count(ColorSpace::Gray));
    Ok(Image::from_samples(width, height, ColorSpace::Gray, plane))
}

/// Keeps the base image's color where the edge mask is nonzero and paints the
/// pixel black where it is zero.
pub fn combine_base_and_edge(base: &Image, edge: &Image) -> (r: Result<Image, StageError>)
    ensures
        r matches Err(StageError::WrongColorSpace) <==> (base@.space != ColorSpace::Bgr
            || edge@.space != ColorSpace::Gray),
        r matches Err(StageError::SizeMismatch) <==> (base@.space == ColorSpace::Bgr
            && edge@.space == ColorSpace::Gray && !base@.same_size(edge@)),
        r is Ok <==> (base@.space == ColorSpace::Bgr && edge@.space == ColorSpace::Gray
            && base@.same_size(edge@)),
        r matches Ok(out) ==> out@ == composite(base@, edge@),
{
    if base.space() != ColorSpace::Bgr || edge.space() != ColorSpace::Gray {
        return Err(StageError::WrongColorSpace);
    }
    if base.width() != edge.width() || base.height() != edge.height() {
        return Err(StageError::SizeMismatch);
    }
    let width = base.width();
    let height = base.height();
    let colors = base.data();
    let mask = edge.data();
    let ghost pixels = base@.pixel_count();
    let count = mask.len();
    let len = colors.len();
    assert(count == pixels);
    let mut samples: Vec<u8> = Vec::with_capacity(colors.len());
    let mut i: usize = 0;
    while i < count
        invariant
            colors@ == base@.samples,
            mask@ == edge@.samples,
            colors@.len() == 3 * count,
            len == colors@.len(),
            mask@.len() == count,
            i <= count,
            samples@.len() == 3 * i,
            forall|k: int|
                0 <= k < 3 * i ==> samples@[k] == (if mask@[k / 3] != 0 {
                    colors@[k]
                } else {
                    0u8
                }),
        decreases count - i,
    {
        let keep = mask[i] != 0;
        let mut c: usize = 0;
        while c < 3
            invariant
                colors@.len() == 3 * count,
                len == colors@.len(),
                mask@.len() == count,
                i < count,
                c <= 3,
                keep == (mask@[i as int] != 0),
                samples@.len() == 3 * i + c,
                forall|k: int|
                    0 <= k < 3 * i + c ==> samples@[k] == (if mask@[k / 3] != 0 {
                        colors@[k]
                    } else {
                        0u8
                    }),
            decreases 3 - c,
        {
            let k = 3 * i + c;
            assert(k / 3 == i as int);
            if keep {
                samples.push(colors[k]);
            } else {
                samples.push(0);
            }
            c = c + 1;
        }
        i = i + 1;
    }
    assert(samples@ =~= composite(base@, edge@).samples);
    assert(samples@.len() == width * height * channel_count(ColorSpace::Bgr));
    Ok(Image::from_samples(width, height, ColorSpace::Bgr, samples))
}

} // verus!
