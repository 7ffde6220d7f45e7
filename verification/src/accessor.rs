//! Access to the pixels of an image by coordinate, and the traversal that
//! every primitive shares.

use image::DynamicImage;
use vstd::prelude::*;

use crate::buffer::{
    image_dimensions, image_get_pixel, image_pixels, image_put_pixel, image_shape, in_bounds,
    pixel_at, written,
};
use crate::pixel::Pixel;
use crate::primitive::Primitive;

verus! {

/// A coordinate outside the image, with the size of the image it missed.
#[derive(Clone, Copy, Debug, PartialEq, Eq, Structural)]
pub struct OutOfBounds {
    pub x: u32,
    pub y: u32,
    pub width: u32,
    pub height: u32,
}

/// `out` has the shape of `img`, and each of its pixels is what `img` held
/// at the same place, sent through `f` and written back.
pub open spec fn is_image_of(out: DynamicImage, img: DynamicImage, f: spec_fn(Pixel) -> Pixel) -> bool {
    &&& image_shape(out) == image_shape(img)
    &&& forall|x: int, y: int|
        in_bounds(img, x, y) ==> #[trigger] pixel_at(out, x, y) == written(
            image_shape(img).layout,
            f(pixel_at(img, x, y)),
        )
}

/// Whether a traversal that goes column by column and now stands at
/// `(x, y)` has already been at `(i, j)`.
pub open spec fn visited(i: int, j: int, x: int, y: int) -> bool {
    i < x || (i == x && j < y)
}

/// The width and height of an image.
pub fn dimensions(img: &DynamicImage) -> (size: (u32, u32))
    ensures
        size.0 == image_shape(*img).width,
        size.1 == image_shape(*img).height,
{
    image_dimensions(img)
}

/// Reads the pixel at `(x, y)`, or reports the coordinate as out of bounds
/// when `x >= width` or `y >= height`.
pub fn get(img: &DynamicImage, x: u32, y: u32) -> (result: Result<Pixel, OutOfBounds>)
    ensures
        result is Ok <==> in_bounds(*img, x as int, y as int),
        result matches Ok(p) ==> p == pixel_at(*img, x as int, y as int),
        result matches Err(e) ==> e == (OutOfBounds {
            x,
            y,
            width: image_shape(*img).width,
            height: image_shape(*img).height,
        }),
{
    let size: (u32, u32) = image_dimensions(img);
    if x >= size.0 || y >= size.1 {
        Err(OutOfBounds { x, y, width: size.0, height: size.1 })
    } else {
        Ok(image_get_pixel(img, x, y))
    }
}

/// Writes `p` at `(x, y)` and touches no other pixel, or reports the
/// coordinate as out of bounds when `x >= width` or `y >= height` and
/// leaves the image as it was.
pub fn set(img: &mut DynamicImage, x: u32, y: u32, p: Pixel) -> (result: Result<(), OutOfBounds>)
    ensures
        result is Ok <==> in_bounds(*old(img), x as int, y as int),
        image_shape(*final(img)) == image_shape(*old(img)),
        result is Ok ==> image_pixels(*final(img)) == image_pixels(*old(img)).insert(
            (x as int, y as int),
            written(image_shape(*old(img)).layout, p),
        ),
        result matches Err(e) ==> *final(img) == *old(img) && e == (OutOfBounds {
            x,
            y,
            width: image_shape(*old(img)).width,
            height: image_shape(*old(img)).height,
        }),
{
    let size: (u32, u32) = image_dimensions(img);
    if x >= size.0 || y >= size.1 {
        Err(OutOfBounds { x, y, width: size.0, height: size.1 })
    } else {
        image_put_pixel(img, x, y, p);
        Ok(())
    }
}

/// Visits every pixel of the image once, column by column, and replaces it
/// by what the primitive makes of it.
pub fn map_pixels(img: DynamicImage, op: &Primitive) -> (out: DynamicImage)
    ensures
        image_shape(out) == image_shape(img),
        is_image_of(out, img, |p: Pixel| op.on_pixel(p)),
{
    let ghost orig = img;
    let ghost layout = image_shape(orig).layout;
    let mut img = img;
    let size: (u32, u32) = image_dimensions(&img);
    let width: u32 = size.0;
    let height: u32 = size.1;
    let mut x: u32 = 0;
    while x < width
        invariant
            x <= width,
            width == image_shape(orig).width,
            height == image_shape(orig).height,
            layout == image_shape(orig).layout,
            image_shape(img) == image_shape(orig),
            forall|i: int, j: int|
                in_bounds(orig, i, j) ==> #[trigger] pixel_at(img, i, j) == if visited(
                    i,
                    j,
                    x as int,
                    0,
                ) {
                    written(layout, op.on_pixel(pixel_at(orig, i, j)))
                } else {
                    pixel_at(orig, i, j)
                },
        decreases width - x,
    {
        let mut y: u32 = 0;
        while y < height
            invariant
                x < width,
                y <= height,
                width == image_shape(orig).width,
                height == image_shape(orig).height,
                layout == image_shape(orig).layout,
                image_shape(img) == image_shape(orig),
                forall|i: int, j: int|
                    in_bounds(orig, i, j) ==> #[trigger] pixel_at(img, i, j) == if visited(
                        i,
                        j,
                        x as int,
                        y as int,
                    ) {
                        written(layout, op.on_pixel(pixel_at(orig, i, j)))
                    } else {
                        pixel_at(orig, i, j)
                    },
            decreases height - y,
        {
            let ghost before = img;
            let p: Pixel = image_get_pixel(&img, x, y);
            let q: Pixel = op.apply(p);
            image_put_pixel(&mut img, x, y, q);
            proof {
                assert forall|i: int, j: int| in_bounds(orig, i, j) implies #[trigger] pixel_at(
                    img,
                    i,
                    j,
                ) == if visited(i, j, x as int, y + 1) {
                    written(layout, op.on_pixel(pixel_at(orig, i, j)))
                } else {
                    pixel_at(orig, i, j)
                } by {
                    if (i, j) != (x as int, y as int) {
                        assert(pixel_at(img, i, j) == pixel_at(before, i, j));
                    }
                }
            }
            y = y + 1;
        }
        x = x + 1;
    }
    img
}

/// On a buffer that stores colour and alpha, every pixel of the result is
/// exactly `f` of the pixel that was there: writing loses nothing.
pub proof fn lemma_exact_with_color_and_alpha(
    out: DynamicImage,
    img: DynamicImage,
    f: spec_fn(Pixel) -> Pixel,
    x: int,
    y: int,
)
    requires
        is_image_of(out, img, f),
        image_shape(img).layout.has_color(),
        image_shape(img).layout.has_alpha(),
        in_bounds(img, x, y),
    ensures
        pixel_at(out, x, y) == f(pixel_at(img, x, y)),
{
}

/// On a buffer that stores colour, the three colour channels of every pixel
/// of the result are those of `f` of the pixel that was there.
pub proof fn lemma_exact_colors(
    out: DynamicImage,
    img: DynamicImage,
    f: spec_fn(Pixel) -> Pixel,
    x: int,
    y: int,
)
    requires
        is_image_of(out, img, f),
        image_shape(img).layout.has_color(),
        in_bounds(img, x, y),
    ensures
        pixel_at(out, x, y).r == f(pixel_at(img, x, y)).r,
        pixel_at(out, x, y).g == f(pixel_at(img, x, y)).g,
        pixel_at(out, x, y).b == f(pixel_at(img, x, y)).b,
{
}

/// Whatever the primitive, the result has the width, the height and the
/// layout of the image it was made from.
pub proof fn lemma_same_dimensions(out: DynamicImage, img: DynamicImage, op: Primitive)
    requires
        is_image_of(out, img, |p: Pixel| op.on_pixel(p)),
    ensures
        image_shape(out).width == image_shape(img).width,
        image_shape(out).height == image_shape(img).height,
        image_shape(out).layout == image_shape(img).layout,
        forall|x: int, y: int| in_bounds(out, x, y) <==> in_bounds(img, x, y),
{
}

/// On a buffer that stores alpha, every primitive passes alpha through.
pub proof fn lemma_alpha_passes_through(
    out: DynamicImage,
    img: DynamicImage,
    op: Primitive,
    x: int,
    y: int,
)
    requires
        is_image_of(out, img, |p: Pixel| op.on_pixel(p)),
        image_shape(img).layout.has_alpha(),
        in_bounds(img, x, y),
    ensures
        pixel_at(out, x, y).a == pixel_at(img, x, y).a,
{
    op.lemma_keeps_alpha(pixel_at(img, x, y));
}

} // verus!
