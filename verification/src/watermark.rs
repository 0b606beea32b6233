use vstd::prelude::*;
use image::DynamicImage;
use image::GenericImage;
use image::GenericImageView;

verus! {

#[verifier::external_type_specification]
#[verifier::external_body]
pub struct ExDynamicImage(DynamicImage);

/// The side of the square watermark, in pixels.
pub const WATERMARK_SIZE: u32 = 20;

/// The contents of an image: for each cell inside its bounds, the RGBA value
/// that `GenericImageView::get_pixel` returns there.
pub uninterp spec fn image_pixels(img: DynamicImage) -> Map<(u32, u32), (u8, u8, u8, u8)>;

/// The colour type of an image: the index of its `DynamicImage` variant in
/// the order `ColorType` lists them (3 is `Rgba8`).
pub uninterp spec fn image_color(img: DynamicImage) -> u8;

/// What `GenericImage::put_pixel` makes of an image's contents, given its
/// colour type, the cell and the RGBA value written.
pub uninterp spec fn painted(
    pixels: Map<(u32, u32), (u8, u8, u8, u8)>,
    color: u8,
    x: u32,
    y: u32,
    pixel: (u8, u8, u8, u8),
) -> Map<(u32, u32), (u8, u8, u8, u8)>;

/// Index of `ColorType::Rgba8` among the colour types.
pub const COLOR_RGBA8: u8 = 3;

/// Calls `GenericImageView::dimensions`: the width and height of the image,
/// which bound exactly the cells it holds.
#[verifier::external_body]
fn image_dimensions(img: &DynamicImage) -> (r: (u32, u32))
    ensures
        forall|x: u32, y: u32|
            #[trigger] image_pixels(*img).dom().contains((x, y)) <==> x < r.0 && y < r.1,
{
    img.dimensions()
}

/// Calls `GenericImage::put_pixel` on a cell inside the image (it panics on
/// any other). The new contents are named `painted`; the image keeps its
/// colour type and its cells, every other cell keeps its value, and an
/// `Rgba8` image stores the value as given. What the cell reads back for the
/// other colour types (after conversion to the image's channels) is not
/// stated.
#[verifier::external_body]
fn put_pixel(img: &mut DynamicImage, x: u32, y: u32, pixel: (u8, u8, u8, u8))
    requires
        image_pixels(*old(img)).dom().contains((x, y)),
    ensures
        image_pixels(*final(img)) == painted(
            image_pixels(*old(img)),
            image_color(*old(img)),
            x,
            y,
            pixel,
        ),
        image_color(*final(img)) == image_color(*old(img)),
        image_pixels(*final(img)).dom() == image_pixels(*old(img)).dom(),
        forall|cell: (u32, u32)|
            cell != (x, y) && #[trigger] image_pixels(*old(img)).dom().contains(cell)
                ==> image_pixels(*final(img))[cell] == image_pixels(*old(img))[cell],
        image_color(*old(img)) == COLOR_RGBA8 ==> image_pixels(*final(img))[(x, y)] == pixel,
{
    img.put_pixel(x, y, image::Rgba([pixel.0, pixel.1, pixel.2, pixel.3]))
}

/// The colour type of the grey version of an image of colour type `color`,
/// as `DynamicImage::grayscale` picks it: `Rgb8` and `Rgba8` become `L8` and
/// `La8`, `Rgb16` and `Rgba16` become `L16` and `La16`, and every other type
/// (the grey ones and the two float ones) stays as it is.
pub open spec fn grey_color(color: u8) -> u8 {
    if color == 2 {
        0
    } else if color == 3 {
        1
    } else if color == 6 {
        4
    } else if color == 7 {
        5
    } else {
        color
    }
}

/// Whether `grey` is a grey version of `pixels`: the same cells, each with
/// equal red, green and blue and the alpha of the cell it comes from.
pub open spec fn grey_version(
    grey: Map<(u32, u32), (u8, u8, u8, u8)>,
    pixels: Map<(u32, u32), (u8, u8, u8, u8)>,
) -> bool {
    &&& grey.dom() == pixels.dom()
    &&& forall|cell: (u32, u32)| #[trigger]
        grey.dom().contains(cell) ==> grey[cell].0 == grey[cell].1 && grey[cell].1 == grey[cell].2
            && grey[cell].3 == pixels[cell].3
}

/// Whether a colour type is one of the grey ones (`L8`, `La8`, `L16`, `La16`).
pub open spec fn is_grey_color(color: u8) -> bool {
    color == 0 || color == 1 || color == 4 || color == 5
}

/// The grey level `DynamicImage::grayscale` gives a cell of an 8-bit RGB or
/// RGBA image: its sRGB luma, (2126 red + 7152 green + 722 blue) / 10000,
/// rounded down.
pub open spec fn luma8(p: (u8, u8, u8, u8)) -> int {
    (2126 * p.0 + 7152 * p.1 + 722 * p.2) / 10000
}

/// Whether `grey` is what turning contents `pixels` of colour type `color`
/// grey gives: a grey version of them, the same contents where the type was
/// grey already, and for `Rgb8` and `Rgba8` (types 2 and 3) the luma of
/// each cell as its grey level.
pub open spec fn grey_of(
    grey: Map<(u32, u32), (u8, u8, u8, u8)>,
    pixels: Map<(u32, u32), (u8, u8, u8, u8)>,
    color: u8,
) -> bool {
    &&& grey_version(grey, pixels)
    &&& is_grey_color(color) ==> grey == pixels
    &&& (color == 2 || color == 3) ==> forall|cell: (u32, u32)| #[trigger]
        grey.dom().contains(cell) ==> grey[cell].0 == luma8(pixels[cell])
}

/// What `DynamicImage::grayscale` makes of the contents of an image.
pub uninterp spec fn grayscale_pixels(img: DynamicImage) -> Map<(u32, u32), (u8, u8, u8, u8)>;

/// Calls `DynamicImage::grayscale`. The result's contents are named
/// `grayscale_pixels` of the image; they have the same cells, the colour
/// type `grey_color` gives, and in each cell equal red, green and blue over
/// the alpha the cell had. An image that was grey already comes back with
/// the same contents; for an 8-bit RGB or RGBA image the grey level of each
/// cell is its luma (`rgb_to_luma` in the crate's `color.rs`). For the
/// 16-bit and float colour types the grey level is left to the name.
#[verifier::external_body]
fn grayscale(img: &DynamicImage) -> (r: DynamicImage)
    ensures
        image_color(r) == grey_color(image_color(*img)),
        image_pixels(r) == grayscale_pixels(*img),
        grey_of(image_pixels(r), image_pixels(*img), image_color(*img)),
{
    img.grayscale()
}

/// What decoding `bytes` as an image file with the given file extension
/// gives: `None` where the extension names no format that the image crate
/// knows or the bytes are no valid file of that format, else the contents
/// and the colour type of the decoded image.
pub uninterp spec fn decoded(bytes: Seq<u8>, extension: Seq<char>) -> Option<
    (Map<(u32, u32), (u8, u8, u8, u8)>, u8),
>;

/// Decodes the bytes of an image file as `image::open` does once it has read
/// the file: the format comes from the extension by
/// `ImageFormat::from_extension`, and the reader decodes with the default
/// limits. Whether it succeeds, and the image it gives, are named `decoded`.
#[verifier::external_body]
fn decode_image(bytes: &[u8], extension: &str) -> (r: Option<DynamicImage>)
    ensures
        r is None <==> decoded(bytes@, extension@) is None,
        r matches Some(img) ==> (image_pixels(img), image_color(img)) == decoded(
            bytes@,
            extension@,
        )->0,
{
    let format = image::ImageFormat::from_extension(extension)?;
    image::ImageReader::with_format(std::io::Cursor::new(bytes), format).decode().ok()
}

/// Decodes a frame from the bytes of its file and the file's extension;
/// `None` where the format is unknown or the bytes do not decode.
pub fn decode_frame(bytes: &[u8], extension: &str) -> (r: Option<DynamicImage>)
    ensures
        r is None <==> decoded(bytes@, extension@) is None,
        r matches Some(img) ==> (image_pixels(img), image_color(img)) == decoded(
            bytes@,
            extension@,
        )->0,
{
    decode_image(bytes, extension)
}

/// The grey version of a frame.
pub fn grayscale_frame(img: &DynamicImage) -> (r: DynamicImage)
    ensures
        image_color(r) == grey_color(image_color(*img)),
        image_pixels(r) == grayscale_pixels(*img),
        grey_of(image_pixels(r), image_pixels(*img), image_color(*img)),
{
    grayscale(img)
}

/// The watermark colour: opaque red.
pub open spec fn watermark_pixel() -> (u8, u8, u8, u8) {
    (255u8, 0u8, 0u8, 255u8)
}

/// The contents after painting cells `(x, 0)` to `(x, rows - 1)` in order.
pub open spec fn paint_column(
    pixels: Map<(u32, u32), (u8, u8, u8, u8)>,
    color: u8,
    x: u32,
    rows: u32,
) -> Map<(u32, u32), (u8, u8, u8, u8)>
    decreases rows,
{
    if rows == 0 {
        pixels
    } else {
        painted(
            paint_column(pixels, color, x, (rows - 1) as u32),
            color,
            x,
            (rows - 1) as u32,
            watermark_pixel(),
        )
    }
}

/// The contents after painting columns `0` to `columns - 1`, each over
/// `rows` rows, column by column.
pub open spec fn paint_block(
    pixels: Map<(u32, u32), (u8, u8, u8, u8)>,
    color: u8,
    columns: u32,
    rows: u32,
) -> Map<(u32, u32), (u8, u8, u8, u8)>
    decreases columns,
{
    if columns == 0 {
        pixels
    } else {
        paint_column(
            paint_block(pixels, color, (columns - 1) as u32, rows),
            color,
            (columns - 1) as u32,
            rows,
        )
    }
}

/// The watermarked contents of an image of `width` by `height`: the
/// top-left square of side `WATERMARK_SIZE`, cut to the image, painted red
/// column by column.
pub open spec fn watermarked(
    pixels: Map<(u32, u32), (u8, u8, u8, u8)>,
    color: u8,
    width: u32,
    height: u32,
) -> Map<(u32, u32), (u8, u8, u8, u8)> {
    let columns = if width < WATERMARK_SIZE {
        width
    } else {
        WATERMARK_SIZE
    };
    let rows = if height < WATERMARK_SIZE {
        height
    } else {
        WATERMARK_SIZE
    };
    paint_block(pixels, color, columns, rows)
}

/// Whether a cell lies in the watermark square.
pub open spec fn in_watermark(cell: (u32, u32)) -> bool {
    cell.0 < WATERMARK_SIZE && cell.1 < WATERMARK_SIZE
}

/// Paints the top-left `WATERMARK_SIZE` square of the image (as far as the
/// image reaches) opaque red, column by column, and returns the image.
pub fn apply_watermark(img: DynamicImage) -> (r: DynamicImage)
    ensures
        image_color(r) == image_color(img),
        image_pixels(r).dom() == image_pixels(img).dom(),
        forall|cell: (u32, u32)|
            !in_watermark(cell) && #[trigger] image_pixels(img).dom().contains(cell)
                ==> image_pixels(r)[cell] == image_pixels(img)[cell],
        image_color(img) == COLOR_RGBA8 ==> forall|cell: (u32, u32)|
            in_watermark(cell) && #[trigger] image_pixels(img).dom().contains(cell)
                ==> image_pixels(r)[cell] == watermark_pixel(),
        exists|width: u32, height: u32|
            image_pixels(r) == watermarked(image_pixels(img), image_color(img), width, height)
                && forall|x: u32, y: u32|
                #[trigger] image_pixels(img).dom().contains((x, y)) <==> x < width && y < height,
{
    let mut img = img;
    let (width, height) = image_dimensions(&img);
    let ghost start = image_pixels(img);
    let ghost color = image_color(img);
    let mut x: u32 = 0;
    while x < WATERMARK_SIZE
        invariant
            x <= WATERMARK_SIZE,
            image_color(img) == color,
            forall|a: u32, b: u32| #[trigger] start.dom().contains((a, b)) <==> a < width && b < height,
            image_pixels(img).dom() == start.dom(),
            image_pixels(img) == paint_block(
                start,
                color,
                if width < x {
                    width
                } else {
                    x
                },
                if height < WATERMARK_SIZE {
                    height
                } else {
                    WATERMARK_SIZE
                },
            ),
            forall|cell: (u32, u32)|
                !(cell.0 < x && cell.1 < WATERMARK_SIZE) && #[trigger] start.dom().contains(cell)
                    ==> image_pixels(img)[cell] == start[cell],
            color == COLOR_RGBA8 ==> forall|cell: (u32, u32)|
                cell.0 < x && cell.1 < WATERMARK_SIZE && #[trigger] start.dom().contains(cell)
                    ==> image_pixels(img)[cell] == watermark_pixel(),
        decreases WATERMARK_SIZE - x,
    {
        let ghost before_column = image_pixels(img);
        let mut y: u32 = 0;
        while y < WATERMARK_SIZE
            invariant
                x < WATERMARK_SIZE,
                y <= WATERMARK_SIZE,
                image_color(img) == color,
                forall|a: u32, b: u32| #[trigger] start.dom().contains((a, b)) <==> a < width && b < height,
                image_pixels(img).dom() == start.dom(),
                x < width ==> image_pixels(img) == paint_column(
                    before_column,
                    color,
                    x,
                    if height < y {
                        height
                    } else {
                        y
                    },
                ),
                x >= width ==> image_pixels(img) == before_column,
                before_column.dom() == start.dom(),
                forall|cell: (u32, u32)|
                    !(cell.0 == x && cell.1 < y) && #[trigger] start.dom().contains(cell)
                        ==> image_pixels(img)[cell] == before_column[cell],
                color == COLOR_RGBA8 ==> forall|cell: (u32, u32)|
                    cell.0 == x && cell.1 < y && #[trigger] start.dom().contains(cell)
                        ==> image_pixels(img)[cell] == watermark_pixel(),
            decreases WATERMARK_SIZE - y,
        {
            if x < width && y < height {
                put_pixel(&mut img, x, y, (255u8, 0u8, 0u8, 255u8));
            }
            y = y + 1;
        }
        x = x + 1;
    }
    assert(image_pixels(img) == watermarked(start, color, width, height));
    assert(image_pixels(img) == watermarked(start, color, width, height) && forall|a: u32, b: u32|
        #[trigger] start.dom().contains((a, b)) <==> a < width && b < height);
    img
}

/// Turns a frame grey and then watermarks it. Outside the watermark square
/// every cell is grey with its old alpha; the whole result is the watermark
/// painted over the frame's grey contents, in the grey colour type.
pub fn process_frame(img: DynamicImage) -> (r: DynamicImage)
    ensures
        image_color(r) == grey_color(image_color(img)),
        image_pixels(r).dom() == image_pixels(img).dom(),
        forall|cell: (u32, u32)|
            !in_watermark(cell) && #[trigger] image_pixels(img).dom().contains(cell) ==> {
                let p = image_pixels(r)[cell];
                p.0 == p.1 && p.1 == p.2 && p.3 == image_pixels(img)[cell].3
            },
        grey_of(grayscale_pixels(img), image_pixels(img), image_color(img)),
        exists|width: u32, height: u32|
            {
                &&& image_pixels(r) == watermarked(
                    grayscale_pixels(img),
                    grey_color(image_color(img)),
                    width,
                    height,
                )
                &&& forall|x: u32, y: u32|
                    #[trigger] image_pixels(img).dom().contains((x, y)) <==> x < width && y < height
            },
{
    let grey = grayscale(&img);
    let r = apply_watermark(grey);
    assert forall|cell: (u32, u32)|
        !in_watermark(cell) && #[trigger] image_pixels(img).dom().contains(cell) implies {
            let p = image_pixels(r)[cell];
            p.0 == p.1 && p.1 == p.2 && p.3 == image_pixels(img)[cell].3
        } by {
        assert(image_pixels(grey).dom().contains(cell));
    }
    r
}

/// What a worker of the frame pool does with the bytes of a frame file:
/// decodes them by the file's extension, turns the frame grey and
/// watermarks it; `None` where the frame does not decode.
pub fn process_frame_file(bytes: &[u8], extension: &str) -> (r: Option<DynamicImage>)
    ensures
        r is None <==> decoded(bytes@, extension@) is None,
        r matches Some(out) ==> {
            let (pixels, color) = decoded(bytes@, extension@)->0;
            &&& image_color(out) == grey_color(color)
            &&& image_pixels(out).dom() == pixels.dom()
            &&& forall|cell: (u32, u32)|
                !in_watermark(cell) && #[trigger] pixels.dom().contains(cell) ==> {
                    let p = image_pixels(out)[cell];
                    p.0 == p.1 && p.1 == p.2 && p.3 == pixels[cell].3
                }
            &&& exists|grey: Map<(u32, u32), (u8, u8, u8, u8)>, width: u32, height: u32|
                {
                    &&& grey_of(grey, pixels, color)
                    &&& image_pixels(out) == watermarked(grey, grey_color(color), width, height)
                    &&& forall|x: u32, y: u32|
                        #[trigger] pixels.dom().contains((x, y)) <==> x < width && y < height
                }
        },
{
    match decode_image(bytes, extension) {
        None => None,
        Some(img) => Some(process_frame(img)),
    }
}

} // verus!
