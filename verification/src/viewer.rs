//! The image window: the decoded picture that it retains.
//!
//! The file is decoded once, when the window is made. The decoder hands back
//! the picture as rows of RGBA bytes; each group of four becomes one pixel
//! with premultiplied alpha. A file that cannot be decoded leaves the window
//! without a picture.

use vstd::prelude::*;

verus! {

/// One pixel with premultiplied alpha.
#[derive(Clone, Copy, Debug, PartialEq, Eq, Structural)]
pub struct Pixel {
    pub r: u8,
    pub g: u8,
    pub b: u8,
    pub a: u8,
}

/// A decoded picture as the decoder hands it back: its size and its RGBA
/// bytes, row by row, alpha not premultiplied.
#[derive(Debug)]
pub struct RawImage {
    pub width: u32,
    pub height: u32,
    pub data: Vec<u8>,
}

/// The contents of an image file, with the path that it was read from.
#[derive(Debug)]
pub struct ImageSource {
    pub path: String,
    pub bytes: Vec<u8>,
}

/// The picture that the image window shows.
#[derive(Debug)]
pub struct PixelGrid {
    width: usize,
    height: usize,
    pixels: Vec<Pixel>,
}

/// The state of the image window.
#[derive(Debug)]
pub struct ImageApp {
    retained_image: Option<PixelGrid>,
}

/// The error type of the `image` crate, carried from the decoder to the text
/// that describes it.
#[verifier::external_type_specification]
#[verifier::external_body]
pub struct ExImageError(image::ImageError);

/// What decoding the contents `bytes` of the file at `path` gives: width,
/// height and RGBA bytes, or nothing where the file cannot be decoded. The
/// format is taken from the path's extension.
pub uninterp spec fn decoded_rgba8(path: Seq<char>, bytes: Seq<u8>) -> Option<(u32, u32, Seq<u8>)>;

/// Calls `image::ImageFormat::from_path` on `path` and, with that format,
/// `image::load_from_memory_with_format` on `bytes`; the picture is handed
/// back through `dimensions`, `to_rgba8` and `into_raw`. Trusted: the result
/// is the named decoding of these contents under this path, and an error
/// exactly where there is none.
#[verifier::external_body]
fn decode_rgba8(path: &str, bytes: &[u8]) -> (r: Result<RawImage, image::ImageError>)
    ensures
        r matches Ok(raw) ==> decoded_rgba8(path@, bytes@) == Some(
            (raw.width, raw.height, raw.data@),
        ),
        r is Err ==> decoded_rgba8(path@, bytes@) is None,
{
    let format = image::ImageFormat::from_path(path)?;
    let img = image::load_from_memory_with_format(bytes, format)?;
    let (width, height) = image::GenericImageView::dimensions(&img);
    Ok(RawImage { width, height, data: img.to_rgba8().into_raw() })
}

/// Formats an `image::ImageError` through its `Display`. Trusted: nothing is
/// claimed of the text.
#[verifier::external_body]
fn describe(error: &image::ImageError) -> (text: String) {
    format!("{}", error)
}

/// Calls `egui::Color32::from_rgba_unmultiplied`. Trusted: alpha is kept; an
/// opaque colour is kept as it is; a fully transparent one becomes all zero.
/// Of the colours in between nothing is claimed but their alpha.
#[verifier::external_body]
fn premultiply(r: u8, g: u8, b: u8, a: u8) -> (p: Pixel)
    ensures
        premultiplied_from(p, r, g, b, a),
{
    let c = eframe::egui::Color32::from_rgba_unmultiplied(r, g, b, a).to_array();
    Pixel { r: c[0], g: c[1], b: c[2], a: c[3] }
}

/// What is known of the premultiplied form `p` of the colour `r`, `g`, `b`
/// with alpha `a`.
pub open spec fn premultiplied_from(p: Pixel, r: u8, g: u8, b: u8, a: u8) -> bool {
    &&& p.a == a
    &&& a == 255 ==> p.r == r && p.g == g && p.b == b
    &&& a == 0 ==> p.r == 0 && p.g == 0 && p.b == 0
}

/// Whether `data` holds exactly four bytes for each pixel of a picture of
/// `width` by `height`.
pub open spec fn fills(width: u32, height: u32, data: Seq<u8>) -> bool {
    data.len() == 4 * (width as int * height as int)
}

/// Whether the grid `pixels` of `width` by `height` shows the RGBA bytes
/// `data`: every pixel is there, in order, each the premultiplied form of its
/// four bytes.
pub open spec fn shows(
    grid_width: int,
    grid_height: int,
    pixels: Seq<Pixel>,
    width: u32,
    height: u32,
    data: Seq<u8>,
) -> bool {
    &&& grid_width == width
    &&& grid_height == height
    &&& pixels.len() == width as int * height as int
    &&& data.len() == 4 * pixels.len()
    &&& forall|i: int|
        0 <= i < pixels.len() ==> premultiplied_from(
            #[trigger] pixels[i],
            data[4 * i],
            data[4 * i + 1],
            data[4 * i + 2],
            data[4 * i + 3],
        )
}

/// Whether the contents `bytes` of the file at `path` give a picture.
pub open spec fn loads(path: Seq<char>, bytes: Seq<u8>) -> bool {
    match decoded_rgba8(path, bytes) {
        Some((width, height, data)) => fills(width, height, data),
        None => false,
    }
}

/// Whether `grid` is the picture that the contents `bytes` of the file at
/// `path` give.
pub open spec fn grid_shows_file(grid: PixelGrid, path: Seq<char>, bytes: Seq<u8>) -> bool {
    match decoded_rgba8(path, bytes) {
        Some((width, height, data)) => grid.wf() && shows(
            grid.cols(),
            grid.rows(),
            grid.view(),
            width,
            height,
            data,
        ),
        None => false,
    }
}

impl PixelGrid {
    /// A grid holds one pixel for each place.
    pub closed spec fn wf(&self) -> bool {
        self.pixels@.len() == self.width * self.height
    }

    /// The pixels, row by row.
    pub closed spec fn view(&self) -> Seq<Pixel> {
        self.pixels@
    }

    /// The number of pixels in a row.
    pub closed spec fn cols(&self) -> int {
        self.width as int
    }

    /// The number of rows.
    pub closed spec fn rows(&self) -> int {
        self.height as int
    }

    /// Builds the grid for a decoded picture, or nothing where the bytes do
    /// not fill the picture's size.
    pub fn from_rgba8(raw: &RawImage) -> (grid: Option<PixelGrid>)
        ensures
            grid is Some <==> fills(raw.width, raw.height, raw.data@),
            grid matches Some(g) ==> g.wf() && shows(
                g.cols(),
                g.rows(),
                g.view(),
                raw.width,
                raw.height,
                raw.data@,
            ),
    {
        let len = raw.data.len();
        let area: u64 = area_of(raw.width, raw.height);
        if len % 4 != 0 || (len / 4) as u64 != area {
            return None;
        }
        let count: usize = len / 4;
        let mut pixels: Vec<Pixel> = Vec::new();
        let mut i: usize = 0;
        while i < count
            invariant
                i <= count,
                count * 4 == raw.data@.len(),
                raw.data@.len() <= usize::MAX,
                pixels@.len() == i,
                forall|j: int|
                    0 <= j < i ==> premultiplied_from(
                        #[trigger] pixels@[j],
                        raw.data@[4 * j],
                        raw.data@[4 * j + 1],
                        raw.data@[4 * j + 2],
                        raw.data@[4 * j + 3],
                    ),
            decreases count - i,
        {
            let at: usize = 4 * i;
            let p = premultiply(raw.data[at], raw.data[at + 1], raw.data[at + 2], raw.data[at + 3]);
            pixels.push(p);
            i += 1;
        }
        Some(PixelGrid { width: raw.width as usize, height: raw.height as usize, pixels })
    }

    /// The number of pixels in a row.
    pub fn width(&self) -> (w: usize)
        ensures
            w == self.cols(),
    {
        self.width
    }

    /// The number of rows.
    pub fn height(&self) -> (h: usize)
        ensures
            h == self.rows(),
    {
        self.height
    }

    /// The number of pixels: width times height.
    pub fn pixel_count(&self) -> (n: usize)
        requires
            self.wf(),
        ensures
            n == self.cols() * self.rows(),
            n == self.view().len(),
    {
        self.pixels.len()
    }

    /// The pixels, row by row.
    pub fn pixels(&self) -> (p: &Vec<Pixel>)
        ensures
            p@ == self.view(),
    {
        &self.pixels
    }
}

/// The number of pixels of a picture of `width` by `height`.
fn area_of(width: u32, height: u32) -> (area: u64)
    ensures
        area == width as int * height as int,
{
    assert(width as int * height as int <= 0xffff_ffff * 0xffff_ffff) by (nonlinear_arith)
        requires
            0 <= width <= 0xffff_ffff,
            0 <= height <= 0xffff_ffff,
    ;
    (width as u64) * (height as u64)
}

/// Whether `text` is a load error: the fixed opening words, then the reason.
pub open spec fn is_load_error(text: Seq<char>) -> bool {
    exists|reason: Seq<char>| text == "Could not open image: "@ + reason
}

/// Decodes the contents of an image file into the picture to show. It
/// succeeds exactly when the contents can be decoded under the format that
/// the path's extension names; the error says why they cannot.
pub fn load_image(path: &str, bytes: &[u8]) -> (r: Result<PixelGrid, String>)
    ensures
        r is Ok <==> loads(path@, bytes@),
        r matches Ok(grid) ==> grid_shows_file(grid, path@, bytes@),
        r matches Err(text) ==> is_load_error(text@),
{
    let mut text = "Could not open image: ".to_owned();
    match decode_rgba8(path, bytes) {
        Ok(raw) => match PixelGrid::from_rgba8(&raw) {
            Some(grid) => Ok(grid),
            None => {
                text.append("pixel data does not fill the picture");
                assert(text@ == "Could not open image: "@
                    + "pixel data does not fill the picture"@);
                Err(text)
            },
        },
        Err(e) => {
            let reason = describe(&e);
            text.append(reason.as_str());
            assert(text@ == "Could not open image: "@ + reason@);
            Err(text)
        },
    }
}

impl ImageApp {
    /// The retained picture is a whole grid.
    pub closed spec fn wf(&self) -> bool {
        self.retained_image matches Some(grid) ==> grid.wf()
    }

    /// The picture that the window retains, if any.
    pub closed spec fn retained(&self) -> Option<PixelGrid> {
        self.retained_image
    }

    /// A window for the given file. It retains the decoded picture, and
    /// nothing where there is no file or it cannot be decoded.
    pub fn new(source: Option<ImageSource>) -> (app: ImageApp)
        ensures
            app.wf(),
            app.retained() is Some <==> (source matches Some(s) && loads(s.path@, s.bytes@)),
            app.retained() matches Some(grid) ==> (source matches Some(s) && grid_shows_file(
                grid,
                s.path@,
                s.bytes@,
            )),
    {
        let retained_image = match source {
            Some(s) => match load_image(s.path.as_str(), s.bytes.as_slice()) {
                Ok(grid) => Some(grid),
                Err(_) => None,
            },
            None => None,
        };
        ImageApp { retained_image }
    }

    /// The picture to draw in a frame, if one is retained. Drawing never
    /// changes it.
    pub fn retained_image(&self) -> (image: Option<&PixelGrid>)
        ensures
            image is Some <==> self.retained() is Some,
            image matches Some(grid) ==> self.retained() == Some(*grid),
    {
        match &self.retained_image {
            Some(grid) => Some(grid),
            None => None,
        }
    }
}

/// A retained picture has exactly width times height pixels.
pub proof fn retained_picture_is_whole(grid: PixelGrid, path: Seq<char>, bytes: Seq<u8>)
    requires
        grid_shows_file(grid, path, bytes),
    ensures
        grid.view().len() == grid.cols() * grid.rows(),
        decoded_rgba8(path, bytes) matches Some((width, height, data)) && grid.cols() == width
            && grid.rows() == height && data.len() == 4 * grid.view().len(),
{
}

/// An opaque picture is shown as it was decoded; a fully transparent pixel is
/// shown as all zero.
pub proof fn opaque_pixels_are_kept(
    grid_width: int,
    grid_height: int,
    pixels: Seq<Pixel>,
    width: u32,
    height: u32,
    data: Seq<u8>,
    i: int,
)
    requires
        shows(grid_width, grid_height, pixels, width, height, data),
        0 <= i < pixels.len(),
    ensures
        pixels[i].a == data[4 * i + 3],
        data[4 * i + 3] == 255 ==> pixels[i] == (Pixel {
            r: data[4 * i],
            g: data[4 * i + 1],
            b: data[4 * i + 2],
            a: 255,
        }),
        data[4 * i + 3] == 0 ==> pixels[i] == (Pixel { r: 0, g: 0, b: 0, a: 0 }),
{
}

} // verus!
