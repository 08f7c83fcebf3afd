use std::cell::Cell;
use std::io::Cursor;

use engine::resource::{
    load_image, load_plan, Error, FileInfo, ImageResource, Resource, ResourceData, ResourceManager,
};

fn encoded(width: u32, height: u32, format: image::ImageFormat) -> Vec<u8> {
    let mut pixels = image::RgbaImage::new(width, height);
    for (x, y, pixel) in pixels.enumerate_pixels_mut() {
        *pixel = image::Rgba([x as u8, y as u8, 7, 255]);
    }
    let mut bytes = Cursor::new(Vec::new());
    pixels.write_to(&mut bytes, format).unwrap();
    bytes.into_inner()
}

fn png_file(_: &'static str, _: &str) -> Result<FileInfo, std::io::Error> {
    Ok(FileInfo { is_file: true, extension: Some(String::from("png")) })
}

#[test]
fn image_resource_accessors() {
    let image = ImageResource { name: String::from("a.png"), width: 2, height: 3, buffer: vec![7; 24] };
    assert_eq!(image.size(), 24);
    assert_eq!(image.width(), 2);
    assert_eq!(image.height(), 3);
}

#[test]
fn resource_holds_its_data() {
    let text = Resource::new(ResourceData::Text(String::from("hello")));
    match text.data() {
        ResourceData::Text(value) => assert_eq!(value, "hello"),
        other => panic!("unexpected {other:?}"),
    }
    let shared = text.clone();
    match shared.data() {
        ResourceData::Text(value) => assert_eq!(value, "hello"),
        other => panic!("unexpected {other:?}"),
    }
}

#[test]
fn load_plan_accepts_png_and_bmp_files_only() {
    assert!(load_plan(true, Some("png")).is_ok());
    assert!(load_plan(true, Some("bmp")).is_ok());
    assert!(matches!(load_plan(true, Some("jpg")), Err(Error::UnsupportedExtension)));
    assert!(matches!(load_plan(true, Some("PNG")), Err(Error::UnsupportedExtension)));
    assert!(matches!(load_plan(true, None), Err(Error::UnsupportedExtension)));
    assert!(matches!(load_plan(false, Some("png")), Err(Error::ResourceNotFound)));
}

#[test]
fn load_image_decodes_png_to_rgba() {
    let bytes = encoded(3, 2, image::ImageFormat::Png);
    let read = |base: &'static str, path: &str| {
        assert_eq!(base, "assets");
        assert_eq!(path, "ball.png");
        Ok(bytes.clone())
    };
    let loaded = load_image("assets", "ball.png", true, Some("png"), read).unwrap();
    match loaded.data() {
        ResourceData::Image(img) => {
            assert_eq!(img.name, "ball.png");
            assert_eq!(img.width(), 3);
            assert_eq!(img.height(), 2);
            assert_eq!(img.size(), 3 * 2 * 4);
            assert_eq!(&img.buffer[0..4], &[0, 0, 7, 255]);
            assert_eq!(&img.buffer[4..8], &[1, 0, 7, 255]);
            assert_eq!(&img.buffer[12..16], &[0, 1, 7, 255]);
        }
        other => panic!("unexpected {other:?}"),
    }
}

#[test]
fn load_image_decodes_bmp_to_rgba() {
    let bytes = encoded(2, 2, image::ImageFormat::Bmp);
    let loaded = load_image("assets", "tile.bmp", true, Some("bmp"), |_: &'static str, _: &str| Ok(bytes)).unwrap();
    match loaded.data() {
        ResourceData::Image(img) => {
            assert_eq!((img.width(), img.height(), img.size()), (2, 2, 16));
            assert_eq!(&img.buffer[4..8], &[1, 0, 7, 255]);
        }
        other => panic!("unexpected {other:?}"),
    }
}

#[test]
fn load_image_errors() {
    let never = |_: &'static str, _: &str| -> Result<Vec<u8>, std::io::Error> { panic!("read") };
    assert!(matches!(load_image("a", "d", false, Some("png"), never), Err(Error::ResourceNotFound)));
    assert!(matches!(load_image("a", "n.txt", true, Some("txt"), never), Err(Error::UnsupportedExtension)));
    assert!(matches!(load_image("a", "n", true, None, never), Err(Error::UnsupportedExtension)));
    let missing = |_: &'static str, _: &str| Err(std::io::Error::from(std::io::ErrorKind::NotFound));
    match load_image("a", "gone.png", true, Some("png"), missing) {
        Err(Error::FsError(e)) => assert_eq!(e.kind(), std::io::ErrorKind::NotFound),
        other => panic!("unexpected {other:?}"),
    }
    let garbage = |_: &'static str, _: &str| Ok(vec![1, 2, 3, 4]);
    assert!(matches!(load_image("a", "bad.png", true, Some("png"), garbage), Err(Error::InvalidImage(_))));
    // A PNG named `.bmp` is decoded as a BMP, and fails.
    let png = encoded(1, 1, image::ImageFormat::Png);
    assert!(matches!(
        load_image("a", "odd.bmp", true, Some("bmp"), |_: &'static str, _: &str| Ok(png)),
        Err(Error::InvalidImage(_))
    ));
}

#[test]
fn second_get_is_served_from_the_cache() {
    let mut manager = ResourceManager::new("assets");
    assert_eq!(manager.base_path(), "assets");
    let bytes = encoded(2, 2, image::ImageFormat::Png);
    let reads = Cell::new(0);
    let read = |base: &'static str, path: &str| {
        assert_eq!(base, "assets");
        assert_eq!(path, "ball.png");
        reads.set(reads.get() + 1);
        Ok(bytes.clone())
    };
    let first = manager.get("ball.png", png_file, read).unwrap();
    let second = manager
        .get(
            "ball.png",
            |_: &'static str, _: &str| -> Result<FileInfo, std::io::Error> { panic!("stat twice") },
            |_: &'static str, _: &str| -> Result<Vec<u8>, std::io::Error> { panic!("read twice") },
        )
        .unwrap();
    assert_eq!(reads.get(), 1);
    match (first.data(), second.data()) {
        (ResourceData::Image(a), ResourceData::Image(b)) => {
            assert_eq!(a.width, 2);
            assert_eq!(a.name, "ball.png");
            assert!(std::ptr::eq(a, b));
        }
        _ => panic!("expected images"),
    }
    assert!(manager.cached("ball.png").is_some());
    assert!(manager.cached("cube.png").is_none());
}

#[test]
fn failed_loads_are_not_cached() {
    let mut manager = ResourceManager::new("assets");
    let stat_failed = |_: &'static str, _: &str| Err(std::io::Error::from(std::io::ErrorKind::NotFound));
    let no_read = |_: &'static str, _: &str| -> Result<Vec<u8>, std::io::Error> { panic!("read") };
    let result = manager.get("later.png", stat_failed, no_read);
    assert!(matches!(result, Err(Error::FsError(_))));
    assert!(manager.cached("later.png").is_none());
    let text = |_: &'static str, _: &str| Ok(FileInfo { is_file: true, extension: Some(String::from("txt")) });
    assert!(matches!(manager.get("later.png", text, no_read), Err(Error::UnsupportedExtension)));
    let dir = |_: &'static str, _: &str| Ok(FileInfo { is_file: false, extension: None });
    assert!(matches!(manager.get("later.png", dir, no_read), Err(Error::ResourceNotFound)));
    let bytes = encoded(1, 1, image::ImageFormat::Png);
    let result = manager.get("later.png", png_file, |_: &'static str, _: &str| Ok(bytes));
    assert!(result.is_ok());
    assert!(manager.cached("later.png").is_some());
}

#[test]
fn image_resource_describes_its_size() {
    let image = ImageResource { name: String::new(), width: 640, height: 480, buffer: Vec::new() };
    assert_eq!(image.describe(), "640x480 image");
}
