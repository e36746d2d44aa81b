use vstd::prelude::*;

use crate::bitmap::{is_rgba_buffer, red_blue_swapped, rgb_to_bgr, whole_pixel_bytes, Bitmap, BitmapModel};
use crate::events::ImageLayout;

verus! {

/// What the image crate makes of `data`: its format guessed from the leading
/// bytes, decoded, and converted to 8-bit RGBA; `None` where either step fails.
pub uninterp spec fn rgba8_decode(data: Seq<u8>) -> Option<BitmapModel>;

/// Relies on image's `io::Reader::with_guessed_format` and `io::Reader::decode`,
/// then `DynamicImage::into_rgba8`: the result depends on the bytes alone, and
/// the RGBA buffer is allocated with exactly four bytes per pixel. A
/// buffer too short to hold any known signature leaves the format unknown, and
/// `decode` then fails; the empty buffer is one. Running out of memory, or the
/// system refusing the threads that the JPEG decoder starts for wide images,
/// is left aside.
#[verifier::external_body]
fn decode_rgba8(data: &[u8]) -> (r: Option<Bitmap>)
    ensures
        r matches Some(image) ==> rgba8_decode(data@) == Some(image@) && image.wf(),
        r is None ==> rgba8_decode(data@) is None,
        data@.len() == 0 ==> r is None,
{
    let reader = image::io::Reader::new(std::io::Cursor::new(data)).with_guessed_format().ok()?;
    let image = reader.decode().ok()?.into_rgba8();
    let (width, height) = image.dimensions();
    Some(Bitmap { width, height, pixels: image.into_raw() })
}

/// A bitmap in the requested layout: as decoded for RGB, with red and blue
/// exchanged in every pixel for BGR.
pub open spec fn laid_out(image: BitmapModel, layout: ImageLayout) -> BitmapModel {
    match layout {
        ImageLayout::RGB => image,
        ImageLayout::BGR => (image.0, image.1, red_blue_swapped(image.2)),
    }
}

/// The bitmap, if any, that decoding `data` for `layout` gives.
pub open spec fn decoded_image(data: Seq<u8>, layout: ImageLayout) -> Option<BitmapModel> {
    match rgba8_decode(data) {
        Some(image) => Some(laid_out(image, layout)),
        None => None,
    }
}

/// The model of an optional bitmap.
pub open spec fn optional_model(image: Option<Bitmap>) -> Option<BitmapModel> {
    match image {
        Some(image) => Some(image@),
        None => None,
    }
}

/// Brings a freshly decoded bitmap into the requested layout; a failed decode
/// stays a failure.
pub fn apply_layout(decoded: Option<Bitmap>, layout: ImageLayout) -> (r: Option<Bitmap>)
    ensures
        optional_model(r) == match decoded {
            Some(image) => Some(laid_out(image@, layout)),
            None => None,
        },
{
    match decoded {
        Some(mut image) => {
            if layout == ImageLayout::BGR {
                rgb_to_bgr(&mut image);
            }
            Some(image)
        },
        None => None,
    }
}

/// Decodes encoded image bytes of any format the image crate recognises into
/// an RGBA bitmap, in the requested layout. Failure to recognise the format
/// and failure to decode both give `None`.
pub fn decode_image(data: &[u8], layout: ImageLayout) -> (r: Option<Bitmap>)
    ensures
        optional_model(r) == decoded_image(data@, layout),
        r matches Some(image) ==> image.wf(),
        data@.len() == 0 ==> r is None,
{
    apply_layout(decode_rgba8(data), layout)
}

/// With the RGB layout, the decoded bytes keep the order in which the decoder
/// produced them.
pub proof fn lemma_rgb_keeps_channel_order(data: Seq<u8>)
    ensures
        decoded_image(data, ImageLayout::RGB) == rgba8_decode(data),
{
}

/// Decoding the same bytes for BGR and for RGB succeeds or fails alike, gives
/// the same size, and in each of the width times height pixels the red and
/// blue channel of one are the blue and red channel of the other; green and
/// alpha agree.
pub proof fn lemma_bgr_swaps_red_and_blue(data: Seq<u8>)
    requires
        rgba8_decode(data) matches Some(image) ==> is_rgba_buffer(image),
    ensures
        decoded_image(data, ImageLayout::BGR) is Some <==> decoded_image(data, ImageLayout::RGB) is Some,
        decoded_image(data, ImageLayout::BGR) matches Some(bgr) ==> {
            let rgb = decoded_image(data, ImageLayout::RGB)->Some_0;
            &&& bgr.0 == rgb.0
            &&& bgr.1 == rgb.1
            &&& bgr.2.len() == rgb.2.len()
            &&& is_rgba_buffer(bgr)
            &&& forall|p: int| 0 <= p < bgr.0 * bgr.1 ==> {
                &&& #[trigger] bgr.2[4 * p] == rgb.2[4 * p + 2]
                &&& bgr.2[4 * p + 1] == rgb.2[4 * p + 1]
                &&& bgr.2[4 * p + 2] == rgb.2[4 * p]
                &&& bgr.2[4 * p + 3] == rgb.2[4 * p + 3]
            }
        },
{
    if let Some(image) = rgba8_decode(data) {
        let s = image.2;
        let n = image.0 * image.1;
        assert forall|p: int| 0 <= p < n implies {
            &&& #[trigger] red_blue_swapped(s)[4 * p] == s[4 * p + 2]
            &&& red_blue_swapped(s)[4 * p + 1] == s[4 * p + 1]
            &&& red_blue_swapped(s)[4 * p + 2] == s[4 * p]
            &&& red_blue_swapped(s)[4 * p + 3] == s[4 * p + 3]
        } by {
            assert(4 * p + 3 < whole_pixel_bytes(s));
        }
    }
}

} // verus!
