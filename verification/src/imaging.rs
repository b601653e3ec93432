//! Images, held and cropped by the `image` crate.
//!
//! An image is an `image::DynamicImage`, of which Verus sees nothing but the names below.

use vstd::prelude::*;
use crate::geometry::PixelRegion;

verus! {

/// Makes `image::DynamicImage` known to Verus as a type without visible contents.
#[verifier::external_type_specification]
#[verifier::external_body]
pub struct ExDynamicImage(image::DynamicImage);

/// The width in pixels that `image::DynamicImage::width` reports of an image.
pub uninterp spec fn image_width(image: image::DynamicImage) -> u32;

/// The height in pixels that `image::DynamicImage::height` reports of an image.
pub uninterp spec fn image_height(image: image::DynamicImage) -> u32;

/// The image that `image::DynamicImage::crop_imm` cuts out of an image.
pub uninterp spec fn cropped_image(
    image: image::DynamicImage,
    x: u32,
    y: u32,
    width: u32,
    height: u32,
) -> image::DynamicImage;

/// How far a cut of `extent` pixels that begins at `offset` reaches inside `total` pixels:
/// the cut begins no further than the far edge and ends there at the latest.
pub open spec fn clamped_extent(total: int, offset: int, extent: int) -> int {
    let begin = if offset <= total {
        offset
    } else {
        total
    };
    if extent <= total - begin {
        extent
    } else {
        total - begin
    }
}

/// Calls `image::DynamicImage::crop_imm`. The contract claims that the cut depends on the
/// image and the rectangle alone, and that its size is the rectangle's, cut down to what lies
/// inside the image: the crate moves the rectangle's corner to the image's far edges where it
/// lies beyond them, and shortens the rectangle's sides to what is left from there.
#[verifier::external_body]
pub(crate) fn crop(image: &image::DynamicImage, x: u32, y: u32, width: u32, height: u32) -> (cut:
    image::DynamicImage)
    ensures
        cut == cropped_image(*image, x, y, width, height),
        image_width(cut) == clamped_extent(image_width(*image) as int, x as int, width as int),
        image_height(cut) == clamped_extent(image_height(*image) as int, y as int, height as int),
{
    image.crop_imm(x, y, width, height)
}

/// The part of an image that a region covers.
pub open spec fn region_of(image: image::DynamicImage, region: PixelRegion) -> image::DynamicImage {
    cropped_image(image, region.x, region.y, region.width, region.height)
}

/// A region that lies inside an image of the given size.
pub open spec fn region_inside(region: PixelRegion, width: int, height: int) -> bool {
    region.x + region.width <= width && region.y + region.height <= height
}

/// Cuts a region out of an image. Where the region lies inside the image the cut has the
/// region's size; where it reaches beyond, the cut ends at the image's edges.
pub fn crop_region(image: &image::DynamicImage, region: PixelRegion) -> (cut: image::DynamicImage)
    ensures
        cut == region_of(*image, region),
        image_width(cut) == clamped_extent(
            image_width(*image) as int,
            region.x as int,
            region.width as int,
        ),
        image_height(cut) == clamped_extent(
            image_height(*image) as int,
            region.y as int,
            region.height as int,
        ),
        region_inside(region, image_width(*image) as int, image_height(*image) as int)
            ==> image_width(cut) == region.width && image_height(cut) == region.height,
{
    crop(image, region.x, region.y, region.width, region.height)
}

} // verus!
