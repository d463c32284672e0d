use vstd::prelude::*;

verus! {

/// One pixel of a decoded image, eight bits per channel.
#[derive(Clone, Copy)]
pub struct PixelRGBA {
    pub r: u8,
    pub g: u8,
    pub b: u8,
    pub a: u8,
}

impl PixelRGBA {
    /// The channels of a pixel in the order red, green, blue, alpha.
    pub open spec fn channels(self) -> Seq<u8> {
        seq![self.r, self.g, self.b, self.a]
    }
}

impl From<PixelRGBA> for Vec<u8> {
    fn from(pixel: PixelRGBA) -> (bytes: Vec<u8>)
        ensures
            bytes@ == pixel.channels(),
            bytes@ == seq![pixel.r, pixel.g, pixel.b, pixel.a],
    {
        let mut bytes: Vec<u8> = Vec::new();
        bytes.push(pixel.r);
        bytes.push(pixel.g);
        bytes.push(pixel.b);
        bytes.push(pixel.a);
        bytes
    }
}

/// A `Vec<u8>` has no value in specifications that could be named here, so the
/// conversion is not described through `from_spec`: what it returns is stated
/// by the `ensures` of `from` above, over the vector's view.
impl vstd::std_specs::convert::FromSpecImpl<PixelRGBA> for Vec<u8> {
    open spec fn obeys_from_spec() -> bool {
        false
    }

    open spec fn from_spec(v: PixelRGBA) -> Vec<u8> {
        arbitrary()
    }
}

impl Default for PixelRGBA {
    /// Opaque black.
    fn default() -> (pixel: Self)
        ensures
            pixel.r == 0 && pixel.g == 0 && pixel.b == 0 && pixel.a == 255,
    {
        Self { r: 0, g: 0, b: 0, a: 255 }
    }
}

/// For every pixel, the channels come in the order red, green, blue, alpha,
/// whatever their values.
pub proof fn lemma_channels_are_rgba(pixel: PixelRGBA)
    ensures
        pixel.channels().len() == 4,
        pixel.channels()[0] == pixel.r,
        pixel.channels()[1] == pixel.g,
        pixel.channels()[2] == pixel.b,
        pixel.channels()[3] == pixel.a,
{
}

} // verus!
