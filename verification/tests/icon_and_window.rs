use deskstream::icon::{icon_rgba, ico_entry};
use deskstream::local::{
    app_asset, centered_origin, forwards_lowercase_request_header, forwards_lowercase_response_header, Page,
};

fn png_2x2() -> Vec<u8> {
    let img = image::RgbaImage::from_pixel(2, 2, image::Rgba([1, 2, 3, 4]));
    let mut out = std::io::Cursor::new(Vec::new());
    img.write_to(&mut out, image::ImageFormat::Png).unwrap();
    out.into_inner()
}

fn ico(entries: &[(u8, &[u8])]) -> Vec<u8> {
    let mut head = vec![0u8, 0, 1, 0];
    head.extend_from_slice(&(entries.len() as u16).to_le_bytes());
    let mut offset = 6 + 16 * entries.len();
    let mut body = Vec::new();
    for (width, data) in entries {
        head.extend_from_slice(&[*width, *width, 0, 0, 1, 0, 32, 0]);
        head.extend_from_slice(&(data.len() as u32).to_le_bytes());
        head.extend_from_slice(&(offset as u32).to_le_bytes());
        offset += data.len();
        body.extend_from_slice(data);
    }
    head.extend_from_slice(&body);
    head
}

#[test]
fn icon_picks_the_32_pixel_png() {
    let png = png_2x2();
    let file = ico(&[(16, b"BMPDATA"), (32, &png), (48, b"later")]);
    let (off, size) = ico_entry(&file).unwrap();
    assert_eq!(&file[off..off + size], &png[..]);
    let (pixels, w, h) = icon_rgba(&file).unwrap();
    assert_eq!((w, h), (2, 2));
    assert_eq!(pixels, [1u8, 2, 3, 4].repeat(4));
}

#[test]
fn icon_without_32_pixel_entry_takes_the_widest() {
    let png = png_2x2();
    let file = ico(&[(16, b"small"), (64, &png), (48, b"mid")]);
    let (off, _) = ico_entry(&file).unwrap();
    assert_eq!(&file[off..off + 4], &png[..4]);
    assert!(icon_rgba(&file).is_some());
    // A chosen entry that is not PNG gives no icon.
    let bmp = ico(&[(32, b"BM not png")]);
    assert!(ico_entry(&bmp).is_some());
    assert!(icon_rgba(&bmp).is_none());
    // Truncated directories and out-of-range entries give nothing.
    assert!(ico_entry(&[0, 0, 1, 0]).is_none());
    assert!(ico_entry(&[0, 0, 1, 0, 2, 0, 1, 2]).is_none());
    let mut bad = ico(&[(32, b"abcd")]);
    bad.truncate(bad.len() - 1);
    assert!(ico_entry(&bad).is_none());
}

#[test]
fn app_window_assets_and_position() {
    assert_eq!(app_asset("/"), (Some(Page::Dashboard), "text/html"));
    assert_eq!(app_asset("/icon.ico"), (Some(Page::IconIco), "image/x-icon"));
    assert_eq!(app_asset("/other"), (None, "text/plain"));
    assert_eq!(centered_origin(1920, 1080, 1280, 800), (320, 140));
    assert_eq!(centered_origin(1024, 768, 1280, 800), (0, 0));
}

#[test]
fn lowercase_header_names_forwarded() {
    assert!(forwards_lowercase_request_header("content-type"));
    assert!(forwards_lowercase_request_header("accept"));
    assert!(!forwards_lowercase_request_header("cookie"));
    assert!(!forwards_lowercase_request_header("Accept"));
    assert!(forwards_lowercase_response_header("content-type"));
    assert!(!forwards_lowercase_response_header("set-cookie"));
}
