use grimoire::config::{
    CubemapConfig, ImageConfig, KeyboardConfig, ResourceConfig, Texture2DConfig, Texture3DConfig,
    TextureFormat, VideoConfig,
};
use grimoire::error::ErrorKind;
use grimoire::resource::{ResourceCubemapFace, ResourceData, ResourceData2D};
use grimoire::stream::{
    blob_files, image_files, image_from_decoded, latest_frame, load_cubemap, load_image,
    load_texture_2d, load_texture_3d, resource_from_config, watched_paths, DecodedImage,
    PixelLayout,
};
use image::GenericImage;

fn png(pixels: &[u8], width: u32, height: u32, color: image::ColorType) -> Vec<u8> {
    let mut file = Vec::new();
    image::png::PNGEncoder::new(&mut file).encode(pixels, width, height, color).unwrap();
    file
}

// 3 pixels wide, 2 high, RGB
const RGB: [u8; 18] = [
    10, 11, 12, 20, 21, 22, 30, 31, 32, // top row
    40, 41, 42, 50, 51, 52, 60, 61, 62, // bottom row
];

/// What the decoder makes of the bytes of an image file, as plain values.
fn decode(file: &[u8]) -> Result<DecodedImage, String> {
    let decoded = image::load_from_memory(file).map_err(|err| err.to_string())?;
    let (width, height) = decoded.dimensions();
    let layout = match decoded {
        image::DynamicImage::ImageLuma8(_) => PixelLayout::Luma8,
        image::DynamicImage::ImageLumaA8(_) => PixelLayout::LumaA8,
        image::DynamicImage::ImageRgb8(_) => PixelLayout::Rgb8,
        image::DynamicImage::ImageRgba8(_) => PixelLayout::Rgba8,
    };
    Ok(DecodedImage { layout, width, height, pixels: decoded.raw_pixels() })
}

fn rgb_file() -> Result<DecodedImage, String> {
    decode(&png(&RGB, 3, 2, image::ColorType::RGB(8)))
}

#[test]
fn image_is_decoded_to_its_pixels() {
    let data = load_image("a.png", false, false, &rgb_file()).unwrap();
    assert_eq!(data.bytes, RGB.to_vec());
    assert_eq!((data.width, data.height), (3, 2));
    assert_eq!(data.format, TextureFormat::RGBU8);
    assert_eq!((data.xoffset, data.yoffset, data.subwidth, data.subheight), (0, 0, 3, 2));
    assert_eq!(data.time, Some(0));
}

#[test]
fn image_flips_upside_down() {
    let data = load_image("a.png", true, false, &rgb_file()).unwrap();
    assert_eq!(
        data.bytes,
        vec![40, 41, 42, 50, 51, 52, 60, 61, 62, 10, 11, 12, 20, 21, 22, 30, 31, 32]
    );
}

#[test]
fn image_mirrors() {
    let data = load_image("a.png", false, true, &rgb_file()).unwrap();
    assert_eq!(
        data.bytes,
        vec![30, 31, 32, 20, 21, 22, 10, 11, 12, 60, 61, 62, 50, 51, 52, 40, 41, 42]
    );
}

#[test]
fn image_flips_both_ways() {
    let data = load_image("a.png", true, true, &rgb_file()).unwrap();
    assert_eq!(
        data.bytes,
        vec![60, 61, 62, 50, 51, 52, 40, 41, 42, 30, 31, 32, 20, 21, 22, 10, 11, 12]
    );
}

#[test]
fn image_layouts_give_their_formats() {
    let gray = load_image(
        "g.png",
        false,
        false,
        &decode(&png(&[1, 2, 3, 4], 2, 2, image::ColorType::Gray(8))),
    )
    .unwrap();
    assert_eq!(gray.format, TextureFormat::RU8);
    assert_eq!(gray.bytes, vec![1, 2, 3, 4]);
    let gray_alpha = load_image(
        "ga.png",
        true,
        false,
        &decode(&png(&[1, 2, 3, 4], 1, 2, image::ColorType::GrayA(8))),
    )
    .unwrap();
    assert_eq!(gray_alpha.format, TextureFormat::RGU8);
    assert_eq!(gray_alpha.bytes, vec![3, 4, 1, 2]);
    let rgba = load_image(
        "rgba.png",
        false,
        true,
        &decode(&png(&[1, 2, 3, 4, 5, 6, 7, 8], 2, 1, image::ColorType::RGBA(8))),
    )
    .unwrap();
    assert_eq!(rgba.format, TextureFormat::RGBAU8);
    assert_eq!(rgba.bytes, vec![5, 6, 7, 8, 1, 2, 3, 4]);
}

#[test]
fn file_that_is_no_image_is_an_image_error() {
    let refused = decode(b"this is no image");
    let said = refused.clone().err().unwrap();
    let error = load_image("broken.png", true, false, &refused).err().unwrap();
    assert!(error.cause.is_none());
    match error.kind() {
        ErrorKind::Image(path, message) => {
            assert_eq!(path, "broken.png");
            assert_eq!(*message, said);
        }
        other => panic!("unexpected error {:?}", other),
    }
    let error = load_image("x.png", false, false, &Err(String::from("no such file")))
        .err()
        .unwrap();
    assert!(matches!(
        error.kind(),
        ErrorKind::Image(path, message) if path == "x.png" && message == "no such file"
    ));
}

#[test]
fn loading_leaves_the_decoded_image_as_it_is() {
    let decoded = rgb_file();
    let before = decoded.clone().unwrap().pixels;
    load_image("a.png", true, true, &decoded).unwrap();
    assert_eq!(decoded.unwrap().pixels, before);
}

#[test]
fn decoded_image_that_lacks_bytes_is_an_image_error() {
    let short = DecodedImage {
        layout: PixelLayout::Rgb8,
        width: 2,
        height: 2,
        pixels: vec![0; 11],
    };
    let error = image_from_decoded("short.png", true, true, short).err().unwrap();
    match error.kind() {
        ErrorKind::Image(path, message) => {
            assert_eq!(path, "short.png");
            assert_eq!(message, "the decoded image has not as many bytes as its size calls for");
        }
        other => panic!("unexpected error {:?}", other),
    }
}

#[test]
fn decoded_image_of_no_size_is_an_empty_update() {
    let empty =
        DecodedImage { layout: PixelLayout::Rgba8, width: 0, height: 5, pixels: vec![] };
    let data = image_from_decoded("empty.png", true, true, empty).unwrap();
    assert!(data.bytes.is_empty());
    assert_eq!((data.width, data.height), (0, 5));
}

#[test]
fn cube_map_loads_six_faces() {
    let config = CubemapConfig {
        right: String::from("r.png"),
        left: String::from("l.png"),
        top: String::from("t.png"),
        bottom: String::from("b.png"),
        back: String::from("k.png"),
        front: String::from("f.png"),
        flipv: false,
        fliph: false,
    };
    let files: Vec<Result<DecodedImage, String>> = (1..=6u8)
        .map(|value| decode(&png(&[value, value, value], 1, 1, image::ColorType::RGB(8))))
        .collect();
    let data = load_cubemap(&config, &files).unwrap();
    let faces = match data {
        ResourceData::Cube(faces) => faces,
        other => panic!("unexpected data {:?}", other),
    };
    let order: Vec<ResourceCubemapFace> = faces.iter().map(|(face, _)| *face).collect();
    assert_eq!(
        order,
        vec![
            ResourceCubemapFace::Right,
            ResourceCubemapFace::Left,
            ResourceCubemapFace::Top,
            ResourceCubemapFace::Bottom,
            ResourceCubemapFace::Front,
            ResourceCubemapFace::Back,
        ]
    );
    let firsts: Vec<u8> = faces.iter().map(|(_, data)| data.bytes[0]).collect();
    assert_eq!(firsts, vec![1, 2, 3, 4, 5, 6]);

    let mut broken = files.clone();
    broken[4] = decode(b"nothing");
    broken[5] = Err(String::from("later"));
    let error = load_cubemap(&config, &broken).err().unwrap();
    assert!(matches!(error.kind(), ErrorKind::Image(path, _) if path == "f.png"));

    let error = load_cubemap(&config, &files[..5].to_vec()).err().unwrap();
    assert!(matches!(
        error.kind(),
        ErrorKind::Bug(message) if message == "a cube map takes six image files"
    ));
}

#[test]
fn raw_texture_must_have_its_size() {
    let config = Texture2DConfig {
        texture_2d: String::from("t.raw"),
        width: 2,
        height: 3,
        format: TextureFormat::RGF32,
    };
    // six texels of two components of four bytes
    let data = load_texture_2d(&config, vec![7; 48]).unwrap();
    match data {
        ResourceData::D2(data) => {
            assert_eq!(data.bytes, vec![7; 48]);
            assert_eq!((data.width, data.height), (2, 3));
            assert_eq!(data.format, TextureFormat::RGF32);
            assert_eq!((data.xoffset, data.yoffset, data.subwidth, data.subheight), (0, 0, 2, 3));
            assert_eq!(data.time, Some(0));
        }
        other => panic!("unexpected data {:?}", other),
    }
    for length in [0usize, 12, 47, 49] {
        let error = load_texture_2d(&config, vec![7; length]).err().unwrap();
        assert!(matches!(
            error.kind(),
            ErrorKind::Io(path, message)
                if path == "t.raw"
                    && message == "the file has not as many bytes as the texture's size calls for"
        ));
    }
}

#[test]
fn raw_volume_must_have_its_size() {
    let config = Texture3DConfig {
        texture_3d: String::from("v.raw"),
        width: 2,
        height: 3,
        depth: 4,
        format: TextureFormat::RGBAU8,
    };
    let data = load_texture_3d(&config, vec![1; 96]).unwrap();
    match data {
        ResourceData::D3(data) => {
            assert_eq!(data.bytes.len(), 96);
            assert_eq!((data.width, data.height, data.depth), (2, 3, 4));
            assert_eq!((data.subwidth, data.subheight, data.subdepth), (2, 3, 4));
            assert_eq!((data.xoffset, data.yoffset, data.zoffset), (0, 0, 0));
        }
        other => panic!("unexpected data {:?}", other),
    }
    assert!(load_texture_3d(&config, vec![1; 95]).is_err());
    let halves = Texture3DConfig { format: TextureFormat::RF16, ..config };
    assert!(load_texture_3d(&halves, vec![1; 48]).is_ok());
    assert!(load_texture_3d(&halves, vec![1; 24]).is_err());
}

#[test]
fn resources_are_loaded_by_kind() {
    let image = ResourceConfig::Image(ImageConfig {
        image: String::from("a.png"),
        flipv: true,
        fliph: false,
    });
    match resource_from_config(&image, vec![rgb_file()], vec![]).unwrap() {
        Some(ResourceData::D2(data)) => assert_eq!(data.bytes[0], 40),
        other => panic!("unexpected data {:?}", other),
    }
    let error = resource_from_config(&image, vec![], vec![vec![1]]).err().unwrap();
    assert!(matches!(
        error.kind(),
        ErrorKind::Bug(message) if message == "the resource takes one file"
    ));
    let raw = ResourceConfig::Texture2D(Texture2DConfig {
        texture_2d: String::from("t.raw"),
        width: 1,
        height: 1,
        format: TextureFormat::RU8,
    });
    assert!(matches!(
        resource_from_config(&raw, vec![], vec![vec![9]]).unwrap(),
        Some(ResourceData::D2(_))
    ));
    assert!(resource_from_config(&raw, vec![], vec![vec![9], vec![9]]).is_err());
    assert!(resource_from_config(&raw, vec![rgb_file()], vec![]).is_err());
    let keyboard = ResourceConfig::Keyboard(KeyboardConfig { keyboard: true });
    assert!(resource_from_config(&keyboard, vec![], vec![]).unwrap().is_none());
    let video = ResourceConfig::Video(VideoConfig { video: String::from("v.mp4") });
    assert!(resource_from_config(&video, vec![rgb_file()], vec![vec![1]]).unwrap().is_none());
}

#[test]
fn files_of_a_resource() {
    let cube = ResourceConfig::Cubemap(CubemapConfig {
        right: String::from("r"),
        left: String::from("l"),
        top: String::from("t"),
        bottom: String::from("b"),
        back: String::from("k"),
        front: String::from("f"),
        flipv: true,
        fliph: false,
    });
    assert_eq!(image_files(&cube), vec!["r", "l", "t", "b", "f", "k"]);
    assert!(blob_files(&cube).is_empty());
    let watched: Vec<(String, bool)> =
        watched_paths(&cube).into_iter().map(|w| (w.path, w.if_exists)).collect();
    assert_eq!(
        watched,
        vec![
            (String::from("l"), false),
            (String::from("r"), false),
            (String::from("f"), false),
            (String::from("k"), false),
            (String::from("t"), false),
            (String::from("b"), false),
        ]
    );
    let image = ResourceConfig::Image(ImageConfig {
        image: String::from("a.png"),
        flipv: true,
        fliph: false,
    });
    assert_eq!(image_files(&image), vec!["a.png"]);
    assert!(blob_files(&image).is_empty());
    let volume = ResourceConfig::Texture3D(Texture3DConfig {
        texture_3d: String::from("v.raw"),
        width: 1,
        height: 1,
        depth: 1,
        format: TextureFormat::RU8,
    });
    assert_eq!(blob_files(&volume), vec!["v.raw"]);
    assert!(image_files(&volume).is_empty());
    let video = ResourceConfig::Video(VideoConfig { video: String::from("v.mp4") });
    assert!(image_files(&video).is_empty());
    assert!(blob_files(&video).is_empty());
    let watched: Vec<(String, bool)> =
        watched_paths(&video).into_iter().map(|w| (w.path, w.if_exists)).collect();
    assert_eq!(watched, vec![(String::from("v.mp4"), true)]);
    let keyboard = ResourceConfig::Keyboard(KeyboardConfig { keyboard: true });
    assert!(image_files(&keyboard).is_empty());
    assert!(watched_paths(&keyboard).is_empty());
}

#[test]
fn only_the_latest_frame_is_shown() {
    let frame = |value: u8| ResourceData2D {
        bytes: vec![value],
        width: 1,
        height: 1,
        format: TextureFormat::RU8,
        xoffset: 0,
        yoffset: 0,
        subwidth: 1,
        subheight: 1,
        time: Some(0),
    };
    assert!(latest_frame(vec![], 5).is_none());
    let latest = latest_frame(vec![frame(1), frame(2), frame(3)], 1_500_000_000).unwrap();
    assert_eq!(latest.bytes, vec![3]);
    assert_eq!(latest.time, Some(1_500_000_000));
}
