use vstd::prelude::*;

verus! {

/// Which interpretation the samples of an image carry.
#[derive(Clone, Copy, Debug, PartialEq, Eq, Structural)]
pub enum ColorSpace {
    /// Three channels: blue, green, red.
    Bgr,
    /// Three channels: lightness, then two chrominance channels.
    Lab,
    /// One channel: a grayscale intensity or a mask.
    Gray,
}

/// Number of samples each pixel holds in the given color space.
pub open spec fn channel_count(space: ColorSpace) -> nat {
    match space {
        ColorSpace::Bgr => 3,
        ColorSpace::Lab => 3,
        ColorSpace::Gray => 1,
    }
}

impl ColorSpace {
    /// Number of samples each pixel holds.
    pub fn channels(self) -> (r: usize)
        ensures
            r as nat == channel_count(self),
    {
        match self {
            ColorSpace::Bgr => 3,
            ColorSpace::Lab => 3,
            ColorSpace::Gray => 1,
        }
    }
}

/// Mathematical model of an image: its size, its color space, and its samples
/// laid out row by row, the channels of each pixel adjacent.
pub struct ImageView {
    pub width: nat,
    pub height: nat,
    pub space: ColorSpace,
    pub samples: Seq<u8>,
}

impl ImageView {
    pub open spec fn pixel_count(self) -> nat {
        self.width * self.height
    }

    /// The samples are exactly as many as the size and color space ask for.
    pub open spec fn wf(self) -> bool {
        self.samples.len() == self.pixel_count() * channel_count(self.space)
    }

    pub open spec fn same_size(self, other: ImageView) -> bool {
        self.width == other.width && self.height == other.height
    }
}

/// An 8-bit image buffer tagged with the color space its samples are in.
pub struct Image {
    width: usize,
    height: usize,
    space: ColorSpace,
    data: Vec<u8>,
}

impl View for Image {
    type V = ImageView;

    closed spec fn view(&self) -> ImageView {
        ImageView {
            width: self.width as nat,
            height: self.height as nat,
            space: self.space,
            samples: self.data@,
        }
    }
}

impl Image {
    #[verifier::type_invariant]
    closed spec fn inv(self) -> bool {
        self@.wf()
    }

    /// Builds an image from samples laid out row by row; `None` when their
    /// number is not `width * height * channels`.
    pub fn new(width: usize, height: usize, space: ColorSpace, data: Vec<u8>) -> (r: Option<Image>)
        ensures
            r is Some <==> data@.len() == width * height * channel_count(space),
            r matches Some(img) ==> img@ == (ImageView {
                width: width as nat,
                height: height as nat,
                space,
                samples: data@,
            }),
    {
        let len = data.len();
        let pixels = width.checked_mul(height);
        match pixels {
            Some(p) => {
                let ch = space.channels();
                let expected = p.checked_mul(ch);
                assert(p * ch == width * height * channel_count(space));
                match expected {
                    Some(n) => {
                        if len == n {
                            Some(Image { width, height, space, data })
                        } else {
                            None
                        }
                    },
                    None => {
                        assert(width * height * channel_count(space) > usize::MAX);
                        None
                    },
                }
            },
            None => {
                assert(width * height * channel_count(space) > usize::MAX) by (nonlinear_arith)
                    requires
                        width * height > usize::MAX,
                        channel_count(space) >= 1,
                ;
                None
            },
        }
    }

    /// Builds an image from samples already known to match its size.
    pub(crate) fn from_samples(width: usize, height: usize, space: ColorSpace, data: Vec<u8>) -> (r: Image)
        requires
            data@.len() == width * height * channel_count(space),
        ensures
            r@ == (ImageView { width: width as nat, height: height as nat, space, samples: data@ }),
    {
        Image { width, height, space, data }
    }

    pub fn width(&self) -> (r: usize)
        ensures
            r as nat == self@.width,
    {
        self.width
    }

    pub fn height(&self) -> (r: usize)
        ensures
            r as nat == self@.height,
    {
        self.height
    }

    pub fn space(&self) -> (r: ColorSpace)
        ensures
            r == self@.space,
    {
        self.space
    }

    /// The samples, row by row, the channels of each pixel adjacent. They
    /// are always as many as the size and color space ask for.
    pub fn data(&self) -> (r: &Vec<u8>)
        ensures
            r@ == self@.samples,
            self@.wf(),
    {
        proof {
            use_type_invariant(self);
        }
        &self.data
    }
}

} // verus!
