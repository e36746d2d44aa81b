use vstd::prelude::*;

verus! {

/// A bitmap as a value: width, height and the row-major bytes, four per pixel.
pub type BitmapModel = (u32, u32, Seq<u8>);

/// A decoded image: 8-bit channels, four bytes per pixel, rows top to bottom.
#[derive(Clone, Debug, PartialEq, Eq)]
pub struct Bitmap {
    pub width: u32,
    pub height: u32,
    pub pixels: Vec<u8>,
}

impl View for Bitmap {
    type V = BitmapModel;

    open spec fn view(&self) -> BitmapModel {
        (self.width, self.height, self.pixels@)
    }
}

/// Four bytes for each of the width times height pixels, and no more.
pub open spec fn is_rgba_buffer(image: BitmapModel) -> bool {
    image.2.len() == 4 * (image.0 * image.1)
}

impl Bitmap {
    /// The buffer holds exactly one four-byte pixel per position.
    pub open spec fn wf(&self) -> bool {
        is_rgba_buffer(self@)
    }
}

/// The bytes of `s` that belong to complete four-byte pixels.
pub open spec fn whole_pixel_bytes(s: Seq<u8>) -> int {
    s.len() - s.len() % 4
}

/// Byte `i` of `s` once the first and third channel of every complete pixel
/// have traded places; bytes of a trailing partial pixel stay as they are.
pub open spec fn swapped_byte(s: Seq<u8>, i: int) -> u8 {
    if i < whole_pixel_bytes(s) && i % 4 == 0 {
        s[i + 2]
    } else if i < whole_pixel_bytes(s) && i % 4 == 2 {
        s[i - 2]
    } else {
        s[i]
    }
}

/// `s` with red and blue exchanged in every complete pixel.
pub open spec fn red_blue_swapped(s: Seq<u8>) -> Seq<u8> {
    Seq::new(s.len(), |i: int| swapped_byte(s, i))
}

/// Exchanges the red and blue channel of every pixel, in place.
pub fn rgb_to_bgr(image: &mut Bitmap)
    ensures
        final(image).width == old(image).width,
        final(image).height == old(image).height,
        final(image).pixels@ == red_blue_swapped(old(image).pixels@),
{
    let len = image.pixels.len();
    let ghost before = image.pixels@;
    let mut i: usize = 0;
    while i < len && len - i >= 4
        invariant
            image.width == old(image).width,
            image.height == old(image).height,
            before == old(image).pixels@,
            image.pixels@.len() == len,
            len == before.len(),
            i % 4 == 0,
            i <= len,
            forall|j: int| 0 <= j < i ==> image.pixels@[j] == swapped_byte(before, j),
            forall|j: int| i <= j < len ==> image.pixels@[j] == before[j],
        decreases len - i,
    {
        let red = image.pixels[i];
        let blue = image.pixels[i + 2];
        image.pixels[i] = blue;
        image.pixels[i + 2] = red;
        i = i + 4;
    }
    assert(image.pixels@ =~= red_blue_swapped(before));
}

} // verus!
