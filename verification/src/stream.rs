use crate::config::{
    CubemapConfig, ResourceConfig, Texture2DConfig, Texture3DConfig, TextureFormat,
};
use crate::error::{Error, ErrorKind};
use crate::resource::{ResourceCubemapFace, ResourceData, ResourceData2D, ResourceData3D};
use vstd::arithmetic::div_mod::lemma_fundamental_div_mod_converse;
use vstd::prelude::*;
use vstd::string::*;

verus! {

/// How the pixels of a decoded image are laid out: one to four bytes per
/// pixel.
#[derive(Debug, PartialEq, Eq, Structural, Clone, Copy)]
pub enum PixelLayout {
    Luma8,
    LumaA8,
    Rgb8,
    Rgba8,
}

impl PixelLayout {
    /// The number of bytes of a pixel.
    pub open spec fn channel_count(self) -> nat {
        match self {
            PixelLayout::Luma8 => 1,
            PixelLayout::LumaA8 => 2,
            PixelLayout::Rgb8 => 3,
            PixelLayout::Rgba8 => 4,
        }
    }

    pub fn channels(&self) -> (n: usize)
        ensures
            n == self.channel_count(),
    {
        match self {
            PixelLayout::Luma8 => 1,
            PixelLayout::LumaA8 => 2,
            PixelLayout::Rgb8 => 3,
            PixelLayout::Rgba8 => 4,
        }
    }

    /// The texture format of pixels of this layout.
    pub open spec fn format(self) -> TextureFormat {
        match self {
            PixelLayout::Luma8 => TextureFormat::RU8,
            PixelLayout::LumaA8 => TextureFormat::RGU8,
            PixelLayout::Rgb8 => TextureFormat::RGBU8,
            PixelLayout::Rgba8 => TextureFormat::RGBAU8,
        }
    }

    pub fn texture_format(&self) -> (format: TextureFormat)
        ensures
            format == self.format(),
    {
        match self {
            PixelLayout::Luma8 => TextureFormat::RU8,
            PixelLayout::LumaA8 => TextureFormat::RGU8,
            PixelLayout::Rgb8 => TextureFormat::RGBU8,
            PixelLayout::Rgba8 => TextureFormat::RGBAU8,
        }
    }
}

/// An image as it comes out of a decoder: rows from top to bottom, pixels
/// from left to right, the bytes of a pixel side by side.
///
/// Files are opened and decoded by whoever owns the file system. What comes
/// of a file is handed to this library as `Result<DecodedImage, String>`: the
/// image, or what the decoder had to say.
#[derive(Debug, Clone)]
pub struct DecodedImage {
    pub layout: PixelLayout,
    pub width: u32,
    pub height: u32,
    pub pixels: Vec<u8>,
}

impl DecodedImage {
    /// What a decoder's answer looks like as plain values: the bytes per
    /// pixel, the width, the height and the pixels.
    pub open spec fn plain(self) -> (nat, u32, u32, Seq<u8>) {
        (self.layout.channel_count(), self.width, self.height, self.pixels@)
    }

    /// There are as many bytes as the size and the layout call for.
    pub open spec fn complete(self) -> bool {
        self.pixels@.len() == self.width * self.height * self.layout.channel_count()
    }
}

/// The pixels of an image turned upside down: row `y` of the result is row
/// `height - 1 - y` of the image. `row` is the number of bytes of a row.
pub open spec fn flipped_rows(pixels: Seq<u8>, row: int, height: int) -> Seq<u8> {
    Seq::new(pixels.len(), |i: int| pixels[(height - 1 - i / row) * row + i % row])
}

/// The pixels of an image mirrored: pixel `x` of a row of the result is pixel
/// `width - 1 - x` of the same row of the image. `channels` is the number of
/// bytes of a pixel.
pub open spec fn flipped_columns(pixels: Seq<u8>, channels: int, width: int) -> Seq<u8> {
    Seq::new(
        pixels.len(),
        |i: int|
            {
                let pixel = i / channels;
                let y = pixel / width;
                let x = pixel % width;
                pixels[(y * width + (width - 1 - x)) * channels + i % channels]
            },
    )
}

fn flip_rows(pixels: &Vec<u8>, row: usize, height: usize) -> (flipped: Vec<u8>)
    requires
        pixels@.len() == row * height,
    ensures
        flipped@ == flipped_rows(pixels@, row as int, height as int),
{
    let total = pixels.len();
    let mut flipped: Vec<u8> = Vec::new();
    let mut y: usize = 0;
    assert(0 * row == 0);
    while y < height
        invariant
            y <= height,
            total == row * height,
            pixels@.len() == total,
            flipped@.len() == y * row,
            forall|i: int|
                0 <= i < flipped@.len() ==> flipped@[i] == pixels@[(height - 1 - i / (row as int))
                    * row + i % (row as int)],
        decreases height - y,
    {
        let source = height - 1 - y;
        assert(source * row + row <= row * height && 0 <= source * row) by (nonlinear_arith)
            requires
                0 <= source < height,
                0 <= row,
        ;
        assert((y + 1) * row == y * row + row) by (nonlinear_arith);
        let base = source * row;
        let mut k: usize = 0;
        while k < row
            invariant
                k <= row,
                y < height,
                source == height - 1 - y,
                base == source * row,
                base + row <= total,
                total == row * height,
                pixels@.len() == total,
                flipped@.len() == y * row + k,
                forall|i: int|
                    0 <= i < flipped@.len() ==> flipped@[i] == pixels@[(height - 1 - i / (
                    row as int)) * row + i % (row as int)],
            decreases row - k,
        {
            proof {
                lemma_fundamental_div_mod_converse(
                    y * row + k,
                    row as int,
                    y as int,
                    k as int,
                );
            }
            flipped.push(pixels[base + k]);
            k = k + 1;
        }
        y = y + 1;
    }
    assert(height * row == row * height) by (nonlinear_arith);
    assert(flipped@ =~= flipped_rows(pixels@, row as int, height as int));
    flipped
}

fn flip_columns(pixels: &Vec<u8>, channels: usize, width: usize, height: usize) -> (flipped: Vec<
    u8,
>)
    requires
        pixels@.len() == width * height * channels,
        channels > 0,
    ensures
        flipped@ == flipped_columns(pixels@, channels as int, width as int),
{
    let total = pixels.len();
    let mut flipped: Vec<u8> = Vec::new();
    let mut y: usize = 0;
    assert(0 * width * channels == 0) by (nonlinear_arith);
    while y < height
        invariant
            y <= height,
            channels > 0,
            total == width * height * channels,
            pixels@.len() == total,
            flipped@.len() == y * width * channels,
            forall|i: int|
                0 <= i < flipped@.len() ==> flipped@[i] == flipped_columns(
                    pixels@,
                    channels as int,
                    width as int,
                )[i],
        decreases height - y,
    {
        assert(y * width + width <= width * height && 0 <= y * width) by (nonlinear_arith)
            requires
                0 <= y < height,
                0 <= width,
        ;
        assert(width * height <= width * height * channels) by (nonlinear_arith)
            requires
                channels >= 1,
                0 <= width,
                0 <= height,
        ;
        assert((y + 1) * width * channels == (y * width + width) * channels)
            by (nonlinear_arith);
        let line = y * width;
        let mut x: usize = 0;
        assert((line + 0) * channels == y * width * channels) by (nonlinear_arith)
            requires
                line == y * width,
        ;
        while x < width
            invariant
                x <= width,
                y < height,
                channels > 0,
                line == y * width,
                line + width <= width * height,
                width * height <= total,
                total == width * height * channels,
                pixels@.len() == total,
                flipped@.len() == (line + x) * channels,
                forall|i: int|
                    0 <= i < flipped@.len() ==> flipped@[i] == flipped_columns(
                        pixels@,
                        channels as int,
                        width as int,
                    )[i],
            decreases width - x,
        {
            let source = line + (width - 1 - x);
            assert(source * channels + channels <= width * height * channels && 0 <= source
                * channels) by (nonlinear_arith)
                requires
                    0 <= source < width * height,
                    0 < channels,
            ;
            assert((line + x + 1) * channels == (line + x) * channels + channels)
                by (nonlinear_arith);
            let base = source * channels;
            let mut k: usize = 0;
            while k < channels
                invariant
                    k <= channels,
                    x < width,
                    y < height,
                    line == y * width,
                    line + width <= width * height,
                    source == line + (width - 1 - x),
                    base == source * channels,
                    base + channels <= total,
                    total == width * height * channels,
                    pixels@.len() == total,
                    flipped@.len() == (line + x) * channels + k,
                    forall|i: int|
                        0 <= i < flipped@.len() ==> flipped@[i] == flipped_columns(
                            pixels@,
                            channels as int,
                            width as int,
                        )[i],
                decreases channels - k,
            {
                proof {
                    let i = (line + x) * channels + k;
                    lemma_fundamental_div_mod_converse(
                        i,
                        channels as int,
                        (line + x) as int,
                        k as int,
                    );
                    lemma_fundamental_div_mod_converse(
                        (line + x) as int,
                        width as int,
                        y as int,
                        x as int,
                    );
                    assert(i < total) by (nonlinear_arith)
                        requires
                            i == (line + x) * channels + k,
                            0 <= k < channels,
                            0 <= line + x < width * height,
                            total == width * height * channels,
                    ;
                    assert(flipped_columns(pixels@, channels as int, width as int)[i]
                        == pixels@[base + k]);
                }
                flipped.push(pixels[base + k]);
                k = k + 1;
            }
            x = x + 1;
        }
        y = y + 1;
    }
    assert(height * width * channels == width * height * channels) by (nonlinear_arith);
    assert(flipped@ =~= flipped_columns(pixels@, channels as int, width as int));
    flipped
}


/// The pixels of a decoded image after the flips that a configuration asks
/// for: first upside down, then mirrored.
pub open spec fn flipped_pixels(plain: (nat, u32, u32, Seq<u8>), flipv: bool, fliph: bool) -> Seq<
    u8,
> {
    let (channels, width, height, pixels) = plain;
    let upright = if flipv {
        flipped_rows(pixels, width * channels, height as int)
    } else {
        pixels
    };
    if fliph {
        flipped_columns(upright, channels as int, width as int)
    } else {
        upright
    }
}

/// A decoded image has as many bytes as its size and layout call for.
pub open spec fn is_complete(plain: (nat, u32, u32, Seq<u8>)) -> bool {
    plain.3.len() == plain.1 * plain.2 * plain.0
}

/// The texture format of pixels with the given number of bytes.
pub open spec fn format_of(channels: nat) -> TextureFormat {
    if channels == 1 {
        TextureFormat::RU8
    } else if channels == 2 {
        TextureFormat::RGU8
    } else if channels == 3 {
        TextureFormat::RGBU8
    } else {
        TextureFormat::RGBAU8
    }
}

/// `data` is the resource update that a decoded image gives: the whole
/// image, flipped as asked, at playback position 0.
pub open spec fn is_image_data(
    data: ResourceData2D,
    plain: (nat, u32, u32, Seq<u8>),
    flipv: bool,
    fliph: bool,
) -> bool {
    &&& data.bytes@ == flipped_pixels(plain, flipv, fliph)
    &&& data.width == plain.1
    &&& data.height == plain.2
    &&& data.format == format_of(plain.0)
    &&& data.xoffset == 0
    &&& data.yoffset == 0
    &&& data.subwidth == plain.1
    &&& data.subheight == plain.2
    &&& data.time == Some(0u64)
}

/// What is said of a decoded image that has not as many bytes as its size
/// calls for.
pub open spec fn incomplete_message() -> Seq<char> {
    "the decoded image has not as many bytes as its size calls for"@
}

/// Turns a decoded image into a resource update, or into an error of the
/// image at `path` if the image lacks bytes.
pub fn image_from_decoded(path: &str, flipv: bool, fliph: bool, decoded: DecodedImage) -> (result:
    Result<ResourceData2D, Error>)
    ensures
        match result {
            Ok(data) => is_complete(decoded.plain()) && is_image_data(
                data,
                decoded.plain(),
                flipv,
                fliph,
            ),
            Err(error) => {
                &&& !is_complete(decoded.plain())
                &&& error.cause is None
                &&& error.kind matches ErrorKind::Image(at, message) && at@ == path@ && message@
                    == incomplete_message()
            },
        },
{
    let channels = decoded.layout.channels();
    let width = decoded.width as usize;
    let height = decoded.height as usize;
    assert(decoded.width * decoded.height * channels <= 0xffff_ffff * 0xffff_ffff * 4)
        by (nonlinear_arith)
        requires
            decoded.width <= 0xffff_ffff,
            decoded.height <= 0xffff_ffff,
            channels <= 4,
    ;
    assert(decoded.width * decoded.height <= 0xffff_ffff * 0xffff_ffff) by (nonlinear_arith)
        requires
            decoded.width <= 0xffff_ffff,
            decoded.height <= 0xffff_ffff,
    ;
    let wanted: u128 = (decoded.width as u128) * (decoded.height as u128) * (channels as u128);
    if decoded.pixels.len() as u128 != wanted {
        return Err(
            Error::from_kind(
                ErrorKind::Image(
                    String::from_str(path),
                    String::from_str(
                        "the decoded image has not as many bytes as its size calls for",
                    ),
                ),
            ),
        );
    }
    assert(width * height * channels == decoded.pixels@.len());
    assert(width * channels * height == width * height * channels) by (nonlinear_arith);
    let format = decoded.layout.texture_format();
    let mut bytes = decoded.pixels;
    if flipv {
        if height == 0 {
            assert(width * channels * height == 0) by (nonlinear_arith)
                requires
                    height == 0,
            ;
            assert(bytes@ =~= flipped_rows(bytes@, width * channels, height as int));
        } else {
            assert(width * channels <= width * channels * height) by (nonlinear_arith)
                requires
                    height >= 1,
                    0 <= width,
                    0 <= channels,
            ;
            bytes = flip_rows(&bytes, width * channels, height);
        }
    }
    if fliph {
        bytes = flip_columns(&bytes, channels, width, height);
    }
    Ok(
        ResourceData2D {
            bytes,
            width: decoded.width,
            height: decoded.height,
            format,
            xoffset: 0,
            yoffset: 0,
            subwidth: decoded.width,
            subheight: decoded.height,
            time: Some(0),
        },
    )
}

/// Whether an image can be had from what a decoder made of a file: the
/// decoder gave an image, and the image has all its bytes.
pub open spec fn usable(decoded: Result<DecodedImage, String>) -> bool {
    decoded is Ok && is_complete(decoded->Ok_0.plain())
}

/// `error` says why the image file at `path` gives no image: it holds the
/// decoder's message, or says that the image lacks bytes.
pub open spec fn is_load_error(
    error: Error,
    path: Seq<char>,
    decoded: Result<DecodedImage, String>,
) -> bool {
    &&& error.cause is None
    &&& error.kind matches ErrorKind::Image(at, message) && at@ == path && message@ == (
    match decoded {
        Ok(_) => incomplete_message(),
        Err(said) => said@,
    })
}

/// `result` is what loading the image file at `path` comes to: the resource
/// update of the image that the decoder gave, or the error that says why
/// there is none.
pub open spec fn image_loaded(
    result: Result<ResourceData2D, Error>,
    path: Seq<char>,
    flipv: bool,
    fliph: bool,
    decoded: Result<DecodedImage, String>,
) -> bool {
    match result {
        Ok(data) => usable(decoded) && is_image_data(
            data,
            decoded->Ok_0.plain(),
            flipv,
            fliph,
        ),
        Err(error) => !usable(decoded) && is_load_error(error, path, decoded),
    }
}

/// Turns what a decoder made of the image file at `path` into a resource
/// update, flipped as asked, or into the error of the file.
pub fn load_image(path: &str, flipv: bool, fliph: bool, decoded: &Result<DecodedImage, String>) -> (result:
    Result<ResourceData2D, Error>)
    ensures
        image_loaded(result, path@, flipv, fliph, *decoded),
{
    match decoded {
        Ok(image) => {
            let pixels = image.pixels.clone();
            assert(pixels@ =~= image.pixels@);
            image_from_decoded(
                path,
                flipv,
                fliph,
                DecodedImage {
                    layout: image.layout,
                    width: image.width,
                    height: image.height,
                    pixels,
                },
            )
        },
        Err(message) => Err(
            Error::from_kind(ErrorKind::Image(String::from_str(path), message.clone())),
        ),
    }
}

/// The faces of a cube map in the order in which they are loaded.
pub open spec fn face_order() -> Seq<ResourceCubemapFace> {
    seq![
        ResourceCubemapFace::Right,
        ResourceCubemapFace::Left,
        ResourceCubemapFace::Top,
        ResourceCubemapFace::Bottom,
        ResourceCubemapFace::Front,
        ResourceCubemapFace::Back,
    ]
}

impl CubemapConfig {
    /// The paths of the six image files, in the order of `face_order`.
    pub open spec fn face_paths(self) -> Seq<Seq<char>> {
        seq![self.right@, self.left@, self.top@, self.bottom@, self.front@, self.back@]
    }
}

/// How many of the first `n` files give a usable image, with only such
/// files before them.
pub open spec fn leading_loads(files: Seq<Result<DecodedImage, String>>, n: int) -> int
    decreases n,
{
    if n <= 0 {
        0
    } else {
        let before = leading_loads(files, n - 1);
        if before == n - 1 && usable(files[n - 1]) {
            n
        } else {
            before
        }
    }
}

proof fn lemma_leading_loads_stops(files: Seq<Result<DecodedImage, String>>, p: int, n: int)
    requires
        0 <= p < n <= files.len(),
        leading_loads(files, p) == p,
        !usable(files[p]),
    ensures
        leading_loads(files, n) == p,
    decreases n - p,
{
    if n > p + 1 {
        lemma_leading_loads_stops(files, p, n - 1);
    }
}

/// What is said when a cube map does not come with six files.
pub open spec fn face_count_message() -> Seq<char> {
    "a cube map takes six image files"@
}

/// `result` is what loading a cube map comes to: the six faces in the order
/// of `face_order`, each the resource update of its image file; or the error
/// of the first file that gives no image; or, for any number of files but
/// six, an error of the caller.
pub open spec fn cubemap_loaded(
    result: Result<ResourceData, Error>,
    config: CubemapConfig,
    files: Seq<Result<DecodedImage, String>>,
) -> bool {
    match result {
        Ok(data) => {
            &&& files.len() == 6
            &&& leading_loads(files, 6) == 6
            &&& data matches ResourceData::Cube(faces) && faces@.len() == 6 && forall|i: int|
                0 <= i < 6 ==> (#[trigger] faces@[i]).0 == face_order()[i] && is_image_data(
                    faces@[i].1,
                    files[i]->Ok_0.plain(),
                    config.flipv,
                    config.fliph,
                )
        },
        Err(error) => if files.len() == 6 {
            let at = leading_loads(files, 6);
            &&& at < 6
            &&& is_load_error(error, config.face_paths()[at], files[at])
        } else {
            &&& error.cause is None
            &&& error.kind matches ErrorKind::Bug(message) && message@ == face_count_message()
        },
    }
}

/// Loads the six faces of a cube map from what a decoder made of their
/// image files, given in the order right, left, top, bottom, front, back.
///
/// The first file that gives no image ends the loading with its error. Any
/// number of files but six is an error of the caller.
pub fn load_cubemap(config: &CubemapConfig, files: &Vec<Result<DecodedImage, String>>) -> (result: Result<
    ResourceData,
    Error,
>)
    ensures
        cubemap_loaded(result, *config, files@),
{
    if files.len() != 6 {
        return Err(Error::bug("a cube map takes six image files"));
    }
    let order: [ResourceCubemapFace; 6] = [
        ResourceCubemapFace::Right,
        ResourceCubemapFace::Left,
        ResourceCubemapFace::Top,
        ResourceCubemapFace::Bottom,
        ResourceCubemapFace::Front,
        ResourceCubemapFace::Back,
    ];
    assert(order@ =~= face_order());
    let mut faces: Vec<(ResourceCubemapFace, ResourceData2D)> = Vec::new();
    let mut failure: Option<Error> = None;
    let mut i: usize = 0;
    while i < 6 && failure.is_none()
        invariant
            i <= 6,
            files@.len() == 6,
            order@ == face_order(),
            faces@.len() == i,
            failure is None ==> leading_loads(files@, i as int) == i,
            failure is Some ==> i < 6 && leading_loads(files@, 6) == i && is_load_error(
                failure->0,
                config.face_paths()[i as int],
                files@[i as int],
            ),
            forall|j: int|
                0 <= j < i ==> (#[trigger] faces@[j]).0 == face_order()[j] && is_image_data(
                    faces@[j].1,
                    files@[j]->Ok_0.plain(),
                    config.flipv,
                    config.fliph,
                ),
        decreases
                6 - i,
                if failure is None {
                    1int
                } else {
                    0int
                },
    {
        let path = if i == 0 {
            config.right.as_str()
        } else if i == 1 {
            config.left.as_str()
        } else if i == 2 {
            config.top.as_str()
        } else if i == 3 {
            config.bottom.as_str()
        } else if i == 4 {
            config.front.as_str()
        } else {
            config.back.as_str()
        };
        assert(path@ == config.face_paths()[i as int]);
        match load_image(path, config.flipv, config.fliph, &files[i]) {
            Ok(data) => {
                faces.push((order[i], data));
                i = i + 1;
            },
            Err(error) => {
                proof {
                    lemma_leading_loads_stops(files@, i as int, 6);
                }
                failure = Some(error);
            },
        }
    }
    match failure {
        Some(error) => Err(error),
        None => Ok(ResourceData::Cube(faces)),
    }
}

/// The number of bytes that a texture file must have: those of a texel, for
/// every texel.
pub open spec fn blob_size(width: u32, height: u32, depth: u32, format: TextureFormat) -> int {
    width * height * depth * format.texel_bytes()
}

/// What is said of a texture file of the wrong size.
pub open spec fn blob_size_message() -> Seq<char> {
    "the file has not as many bytes as the texture's size calls for"@
}

fn blob_has_size(length: usize, width: u32, height: u32, depth: u32, format: TextureFormat) -> (r:
    bool)
    ensures
        r == (length == blob_size(width, height, depth, format)),
{
    let texel = format.bytes_per();
    assert(width * height <= 0xffff_ffff * 0xffff_ffff) by (nonlinear_arith)
        requires
            width <= 0xffff_ffff,
            height <= 0xffff_ffff,
    ;
    let area: u128 = (width as u128) * (height as u128);
    assert(area * depth <= 0xffff_ffff * 0xffff_ffff * 0xffff_ffff) by (nonlinear_arith)
        requires
            area <= 0xffff_ffff * 0xffff_ffff,
            depth <= 0xffff_ffff,
    ;
    let volume: u128 = area * (depth as u128);
    assert(volume * texel <= 0xffff_ffff * 0xffff_ffff * 0xffff_ffff * 16) by (nonlinear_arith)
        requires
            volume <= 0xffff_ffff * 0xffff_ffff * 0xffff_ffff,
            texel <= 16,
    ;
    let wanted: u128 = volume * (texel as u128);
    length as u128 == wanted
}

/// `result` is what loading a raw texture file comes to: the bytes as a
/// resource update for the whole texture at playback position 0, or an I/O
/// error of the file if it has the wrong size.
pub open spec fn texture_2d_loaded(
    result: Result<ResourceData, Error>,
    config: Texture2DConfig,
    bytes: Vec<u8>,
) -> bool {
    match result {
        Ok(data) => {
            &&& bytes@.len() == blob_size(config.width, config.height, 1, config.format)
            &&& data == ResourceData::D2(
                ResourceData2D {
                    bytes,
                    width: config.width,
                    height: config.height,
                    format: config.format,
                    xoffset: 0,
                    yoffset: 0,
                    subwidth: config.width,
                    subheight: config.height,
                    time: Some(0u64),
                },
            )
        },
        Err(error) => {
            &&& bytes@.len() != blob_size(config.width, config.height, 1, config.format)
            &&& error.cause is None
            &&& error.kind matches ErrorKind::Io(at, message) && at@ == config.texture_2d@
                && message@ == blob_size_message()
        },
    }
}

/// Turns the bytes of a raw texture file into a resource update for a
/// two-dimensional texture. A file of the wrong size is an I/O error of the
/// file.
pub fn load_texture_2d(config: &Texture2DConfig, bytes: Vec<u8>) -> (result: Result<
    ResourceData,
    Error,
>)
    ensures
        texture_2d_loaded(result, *config, bytes),
{
    if !blob_has_size(bytes.len(), config.width, config.height, 1, config.format) {
        return Err(
            Error::from_kind(
                ErrorKind::Io(
                    config.texture_2d.clone(),
                    String::from_str(
                        "the file has not as many bytes as the texture's size calls for",
                    ),
                ),
            ),
        );
    }
    Ok(
        ResourceData::D2(
            ResourceData2D {
                bytes,
                width: config.width,
                height: config.height,
                format: config.format,
                xoffset: 0,
                yoffset: 0,
                subwidth: config.width,
                subheight: config.height,
                time: Some(0),
            },
        ),
    )
}

/// `result` is what loading a raw texture file comes to: the bytes as a
/// resource update for the whole texture at playback position 0, or an I/O
/// error of the file if it has the wrong size.
pub open spec fn texture_3d_loaded(
    result: Result<ResourceData, Error>,
    config: Texture3DConfig,
    bytes: Vec<u8>,
) -> bool {
    match result {
        Ok(data) => {
            &&& bytes@.len() == blob_size(
                config.width,
                config.height,
                config.depth,
                config.format,
            )
            &&& data == ResourceData::D3(
                ResourceData3D {
                    bytes,
                    width: config.width,
                    height: config.height,
                    depth: config.depth,
                    format: config.format,
                    xoffset: 0,
                    yoffset: 0,
                    zoffset: 0,
                    subwidth: config.width,
                    subheight: config.height,
                    subdepth: config.depth,
                    time: Some(0u64),
                },
            )
        },
        Err(error) => {
            &&& bytes@.len() != blob_size(
                config.width,
                config.height,
                config.depth,
                config.format,
            )
            &&& error.cause is None
            &&& error.kind matches ErrorKind::Io(at, message) && at@ == config.texture_3d@
                && message@ == blob_size_message()
        },
    }
}

/// Turns the bytes of a raw texture file into a resource update for a
/// three-dimensional texture. A file of the wrong size is an I/O error of
/// the file.
pub fn load_texture_3d(config: &Texture3DConfig, bytes: Vec<u8>) -> (result: Result<
    ResourceData,
    Error,
>)
    ensures
        texture_3d_loaded(result, *config, bytes),
{
    if !blob_has_size(bytes.len(), config.width, config.height, config.depth, config.format) {
        return Err(
            Error::from_kind(
                ErrorKind::Io(
                    config.texture_3d.clone(),
                    String::from_str(
                        "the file has not as many bytes as the texture's size calls for",
                    ),
                ),
            ),
        );
    }
    Ok(
        ResourceData::D3(
            ResourceData3D {
                bytes,
                width: config.width,
                height: config.height,
                depth: config.depth,
                format: config.format,
                xoffset: 0,
                yoffset: 0,
                zoffset: 0,
                subwidth: config.width,
                subheight: config.height,
                subdepth: config.depth,
                time: Some(0),
            },
        ),
    )
}

/// Of the frames that a decoder has delivered since the last tick, the one
/// to show: the latest, stamped with the playback position in nanoseconds.
/// The frames before it are dropped.
pub fn latest_frame(frames: Vec<ResourceData2D>, playback_position: u64) -> (frame: Option<
    ResourceData2D,
>)
    ensures
        match frame {
            Some(data) => frames@.len() > 0 && data == (ResourceData2D {
                time: Some(playback_position),
                ..frames@.last()
            }),
            None => frames@.len() == 0,
        },
{
    let mut frames = frames;
    match frames.pop() {
        Some(last) => Some(
            ResourceData2D {
                bytes: last.bytes,
                width: last.width,
                height: last.height,
                format: last.format,
                xoffset: last.xoffset,
                yoffset: last.yoffset,
                subwidth: last.subwidth,
                subheight: last.subheight,
                time: Some(playback_position),
            },
        ),
        None => None,
    }
}


/// What is said when a resource comes with the wrong number of files.
pub open spec fn file_count_message() -> Seq<char> {
    "the resource takes one file"@
}

/// The image files that a resource is loaded from, in the order in which
/// `resource_from_config` takes what was decoded of them: one for an image,
/// six for a cube map, none for every other resource.
pub open spec fn image_sources(config: ResourceConfig) -> Seq<Seq<char>> {
    match config {
        ResourceConfig::Image(c) => seq![c.image@],
        ResourceConfig::Cubemap(c) => c.face_paths(),
        _ => Seq::empty(),
    }
}

/// Lists the image files that a resource is loaded from.
pub fn image_files(config: &ResourceConfig) -> (paths: Vec<String>)
    ensures
        paths@.len() == image_sources(*config).len(),
        forall|i: int|
            0 <= i < paths@.len() ==> (#[trigger] paths@[i])@ == image_sources(*config)[i],
{
    let mut paths: Vec<String> = Vec::new();
    match config {
        ResourceConfig::Image(c) => {
            paths.push(c.image.clone());
        },
        ResourceConfig::Cubemap(c) => {
            paths.push(c.right.clone());
            paths.push(c.left.clone());
            paths.push(c.top.clone());
            paths.push(c.bottom.clone());
            paths.push(c.front.clone());
            paths.push(c.back.clone());
        },
        _ => {},
    }
    paths
}

/// The raw files that a resource is loaded from: the one file of a raw
/// texture, none for every other resource.
pub open spec fn blob_sources(config: ResourceConfig) -> Seq<Seq<char>> {
    match config {
        ResourceConfig::Texture2D(c) => seq![c.texture_2d@],
        ResourceConfig::Texture3D(c) => seq![c.texture_3d@],
        _ => Seq::empty(),
    }
}

/// Lists the raw files that a resource is loaded from.
pub fn blob_files(config: &ResourceConfig) -> (paths: Vec<String>)
    ensures
        paths@.len() == blob_sources(*config).len(),
        forall|i: int|
            0 <= i < paths@.len() ==> (#[trigger] paths@[i])@ == blob_sources(*config)[i],
{
    let mut paths: Vec<String> = Vec::new();
    match config {
        ResourceConfig::Texture2D(c) => {
            paths.push(c.texture_2d.clone());
        },
        ResourceConfig::Texture3D(c) => {
            paths.push(c.texture_3d.clone());
        },
        _ => {},
    }
    paths
}

/// A file that a resource stream watches.
#[derive(Debug, Clone)]
pub struct WatchedPath {
    pub path: String,
    /// Whether the file is watched only if it exists: the source of a video
    /// or audio resource need not be a file at all.
    pub if_exists: bool,
}

/// The files that the stream of a resource watches, as path and
/// `if_exists`: the files that the resource is loaded from, and the source of
/// a video or audio resource if it is a file. The faces of a cube map are
/// watched in the order left, right, front, back, top, bottom.
pub open spec fn watched(config: ResourceConfig) -> Seq<(Seq<char>, bool)> {
    match config {
        ResourceConfig::Image(c) => seq![(c.image@, false)],
        ResourceConfig::Texture2D(c) => seq![(c.texture_2d@, false)],
        ResourceConfig::Texture3D(c) => seq![(c.texture_3d@, false)],
        ResourceConfig::Video(c) => seq![(c.video@, true)],
        ResourceConfig::Audio(c) => seq![(c.audio@, true)],
        ResourceConfig::Cubemap(c) => seq![
            (c.left@, false),
            (c.right@, false),
            (c.front@, false),
            (c.back@, false),
            (c.top@, false),
            (c.bottom@, false),
        ],
        _ => Seq::empty(),
    }
}

/// Lists the files that the stream of a resource watches.
pub fn watched_paths(config: &ResourceConfig) -> (paths: Vec<WatchedPath>)
    ensures
        paths@.len() == watched(*config).len(),
        forall|i: int|
            0 <= i < paths@.len() ==> ((#[trigger] paths@[i]).path@, paths@[i].if_exists)
                == watched(*config)[i],
{
    let mut paths: Vec<WatchedPath> = Vec::new();
    match config {
        ResourceConfig::Image(c) => {
            paths.push(WatchedPath { path: c.image.clone(), if_exists: false });
        },
        ResourceConfig::Texture2D(c) => {
            paths.push(WatchedPath { path: c.texture_2d.clone(), if_exists: false });
        },
        ResourceConfig::Texture3D(c) => {
            paths.push(WatchedPath { path: c.texture_3d.clone(), if_exists: false });
        },
        ResourceConfig::Video(c) => {
            paths.push(WatchedPath { path: c.video.clone(), if_exists: true });
        },
        ResourceConfig::Audio(c) => {
            paths.push(WatchedPath { path: c.audio.clone(), if_exists: true });
        },
        ResourceConfig::Cubemap(c) => {
            paths.push(WatchedPath { path: c.left.clone(), if_exists: false });
            paths.push(WatchedPath { path: c.right.clone(), if_exists: false });
            paths.push(WatchedPath { path: c.front.clone(), if_exists: false });
            paths.push(WatchedPath { path: c.back.clone(), if_exists: false });
            paths.push(WatchedPath { path: c.top.clone(), if_exists: false });
            paths.push(WatchedPath { path: c.bottom.clone(), if_exists: false });
        },
        _ => {},
    }
    paths
}

/// `result` is the error of a caller who gave the wrong number of files.
pub open spec fn is_file_count_error(result: Result<Option<ResourceData>, Error>) -> bool {
    match result {
        Ok(_) => false,
        Err(error) => error.cause is None && (error.kind matches ErrorKind::Bug(message)
            && message@ == file_count_message()),
    }
}

/// `result` is what loading a resource from its files comes to. Resources
/// that are not loaded from files give no update. An image or a raw texture
/// with any number of files but one is an error of the caller.
pub open spec fn resource_loaded(
    result: Result<Option<ResourceData>, Error>,
    config: ResourceConfig,
    images: Seq<Result<DecodedImage, String>>,
    blobs: Seq<Vec<u8>>,
) -> bool {
    match config {
        ResourceConfig::Image(c) => if images.len() == 1 {
            match result {
                Ok(Some(ResourceData::D2(data))) => image_loaded(
                    Ok(data),
                    c.image@,
                    c.flipv,
                    c.fliph,
                    images[0],
                ),
                Ok(_) => false,
                Err(error) => image_loaded(Err(error), c.image@, c.flipv, c.fliph, images[0]),
            }
        } else {
            is_file_count_error(result)
        },
        ResourceConfig::Texture2D(c) => if blobs.len() == 1 {
            match result {
                Ok(Some(data)) => texture_2d_loaded(Ok(data), c, blobs[0]),
                Ok(None) => false,
                Err(error) => texture_2d_loaded(Err(error), c, blobs[0]),
            }
        } else {
            is_file_count_error(result)
        },
        ResourceConfig::Texture3D(c) => if blobs.len() == 1 {
            match result {
                Ok(Some(data)) => texture_3d_loaded(Ok(data), c, blobs[0]),
                Ok(None) => false,
                Err(error) => texture_3d_loaded(Err(error), c, blobs[0]),
            }
        } else {
            is_file_count_error(result)
        },
        ResourceConfig::Cubemap(c) => match result {
            Ok(Some(data)) => cubemap_loaded(Ok(data), c, images),
            Ok(None) => false,
            Err(error) => cubemap_loaded(Err(error), c, images),
        },
        _ => result == Ok::<Option<ResourceData>, Error>(None),
    }
}

/// Loads a resource from its files: from what a decoder made of its image
/// files, given in the order of `image_files`, and from the bytes of its raw
/// files, given in the order of `blob_files`.
pub fn resource_from_config(
    config: &ResourceConfig,
    images: Vec<Result<DecodedImage, String>>,
    blobs: Vec<Vec<u8>>,
) -> (result: Result<Option<ResourceData>, Error>)
    ensures
        resource_loaded(result, *config, images@, blobs@),
{
    let mut blobs = blobs;
    match config {
        ResourceConfig::Image(c) => {
            if images.len() != 1 {
                return Err(Error::bug("the resource takes one file"));
            }
            match load_image(c.image.as_str(), c.flipv, c.fliph, &images[0]) {
                Ok(data) => Ok(Some(ResourceData::D2(data))),
                Err(error) => Err(error),
            }
        },
        ResourceConfig::Cubemap(c) => match load_cubemap(c, &images) {
            Ok(data) => Ok(Some(data)),
            Err(error) => Err(error),
        },
        ResourceConfig::Texture2D(c) => {
            if blobs.len() != 1 {
                return Err(Error::bug("the resource takes one file"));
            }
            let bytes = blobs.pop().unwrap();
            match load_texture_2d(c, bytes) {
                Ok(data) => Ok(Some(data)),
                Err(error) => Err(error),
            }
        },
        ResourceConfig::Texture3D(c) => {
            if blobs.len() != 1 {
                return Err(Error::bug("the resource takes one file"));
            }
            let bytes = blobs.pop().unwrap();
            match load_texture_3d(c, bytes) {
                Ok(data) => Ok(Some(data)),
                Err(error) => Err(error),
            }
        },
        _ => Ok(None),
    }
}

} // verus!
