//! The stone wall texture as an RGB image of the `image` crate, filled
//! from a square of grey shades.
use vstd::prelude::*;
use image::{ImageBuffer, Rgb};

verus! {

/// An RGB image with eight bits per channel, held in the `image` crate's
/// buffer.  Verified code sees it only through `image_size` and
/// `image_pixels`; the program that embeds the library takes the buffer out
/// of `image` to hand it to the renderer.  The field is public because the
/// buffer's type cannot stand in the signature of a verified accessor.
#[verifier::external_body]
pub struct RgbImage {
    pub image: ImageBuffer<Rgb<u8>, Vec<u8>>,
}

/// The width and height an RGB image was made with.
pub uninterp spec fn image_size(img: RgbImage) -> (u32, u32);

/// The pixels of an RGB image: the red, green and blue values at each
/// `(x, y)` inside the image.
pub uninterp spec fn image_pixels(img: RgbImage) -> Map<(u32, u32), (u8, u8, u8)>;

/// Whether `(x, y)` lies inside a `width` by `height` image.
pub open spec fn inside(p: (u32, u32), width: u32, height: u32) -> bool {
    p.0 < width && p.1 < height
}

/// `ImageBuffer::<Rgb<u8>, Vec<u8>>::new(width, height)`: an image of the
/// given size whose pixels are all black (its buffer is zero-filled).  It
/// panics when `3 * width * height` does not fit in `usize`, which
/// `requires` leaves out.
#[verifier::external_body]
fn new_rgb_image(width: u32, height: u32) -> (img: RgbImage)
    requires
        3 * width * height <= usize::MAX,
    ensures
        image_size(img) == (width, height),
        image_pixels(img) == Map::new(|p: (u32, u32)| inside(p, width, height), |p: (u32, u32)| (0u8, 0u8, 0u8)),
{
    RgbImage { image: ImageBuffer::new(width, height) }
}

/// `ImageBuffer::put_pixel(x, y, Rgb([r, g, b]))`: sets the pixel at
/// `(x, y)` and leaves the size and every other pixel as they were.  It
/// panics when `(x, y)` lies outside the image, which `requires` leaves out.
#[verifier::external_body]
fn put_rgb(img: &mut RgbImage, x: u32, y: u32, r: u8, g: u8, b: u8)
    requires
        inside((x, y), image_size(*old(img)).0, image_size(*old(img)).1),
    ensures
        image_size(*final(img)) == image_size(*old(img)),
        image_pixels(*final(img)) == image_pixels(*old(img)).insert((x, y), (r, g, b)),
{
    img.image.put_pixel(x, y, Rgb([r, g, b]))
}

/// The pixels of a grey image drawn from `shades`, indexed `[x][y]`.
pub open spec fn gray_pixels(shades: Seq<Vec<u8>>, size: u32) -> Map<(u32, u32), (u8, u8, u8)> {
    Map::new(
        |p: (u32, u32)| inside(p, size, size),
        |p: (u32, u32)| (shades[p.0 as int]@[p.1 as int], shades[p.0 as int]@[p.1 as int], shades[p.0 as int]@[p.1 as int]),
    )
}

/// A square grey image: the pixel at `(x, y)` takes the shade `shades[x][y]`
/// on all three channels.
pub fn gray_texture(size: u32, shades: &Vec<Vec<u8>>) -> (img: RgbImage)
    requires
        shades@.len() == size,
        forall|x: int| 0 <= x < size ==> #[trigger] shades@[x]@.len() == size,
        3 * size * size <= usize::MAX,
    ensures
        image_size(img) == (size, size),
        image_pixels(img) == gray_pixels(shades@, size),
{
    let mut img = new_rgb_image(size, size);
    let mut x: u32 = 0;
    while x < size
        invariant
            shades@.len() == size,
            forall|k: int| 0 <= k < size ==> #[trigger] shades@[k]@.len() == size,
            x <= size,
            image_size(img) == (size, size),
            image_pixels(img) == Map::new(
                |p: (u32, u32)| inside(p, size, size),
                |p: (u32, u32)| if p.0 < x { gray_pixels(shades@, size)[p] } else { (0u8, 0u8, 0u8) },
            ),
        decreases size - x,
    {
        let column = &shades[x as usize];
        let mut y: u32 = 0;
        while y < size
            invariant
                shades@.len() == size,
                forall|k: int| 0 <= k < size ==> #[trigger] shades@[k]@.len() == size,
                x < size,
                y <= size,
                column@ == shades@[x as int]@,
                image_size(img) == (size, size),
                image_pixels(img) == Map::new(
                    |p: (u32, u32)| inside(p, size, size),
                    |p: (u32, u32)| if p.0 < x || (p.0 == x && p.1 < y) { gray_pixels(shades@, size)[p] } else { (0u8, 0u8, 0u8) },
                ),
            decreases size - y,
        {
            let shade: u8 = column[y as usize];
            put_rgb(&mut img, x, y, shade, shade, shade);
            assert(image_pixels(img) =~= Map::new(
                |p: (u32, u32)| inside(p, size, size),
                |p: (u32, u32)| if p.0 < x || (p.0 == x && p.1 < y + 1) { gray_pixels(shades@, size)[p] } else { (0u8, 0u8, 0u8) },
            ));
            y = y + 1;
        }
        assert(image_pixels(img) =~= Map::new(
            |p: (u32, u32)| inside(p, size, size),
            |p: (u32, u32)| if p.0 < x + 1 { gray_pixels(shades@, size)[p] } else { (0u8, 0u8, 0u8) },
        ));
        x = x + 1;
    }
    assert(image_pixels(img) =~= gray_pixels(shades@, size));
    img
}

} // verus!
