use gamma::{Gamma, Texture};

fn tiny_png() -> (Vec<u8>, Vec<u8>) {
    // A 2x2 RGBA image with four distinct opaque pixels, PNG-encoded.
    let raw: Vec<u8> = vec![
        255, 0, 0, 255, 0, 255, 0, 255, 0, 0, 255, 255, 255, 255, 255, 255,
    ];
    let img = image::RgbaImage::from_raw(2, 2, raw.clone()).expect("buffer matches 2x2 RGBA");
    let mut encoded: Vec<u8> = Vec::new();
    img.write_to(&mut std::io::Cursor::new(&mut encoded), image::ImageFormat::Png)
        .expect("PNG encoding succeeds");
    (encoded, raw)
}

#[test]
fn decoding_a_png_yields_its_pixels_and_dimensions() {
    let (encoded, raw) = tiny_png();
    let t = Texture::from_encoded_bytes(&encoded).expect("valid PNG decodes");
    assert_eq!(t.width, 2);
    assert_eq!(t.height, 2);
    assert_eq!(t.pixel_bytes().len(), 16);
    assert_eq!(t.pixel_bytes(), &raw);
}

#[test]
fn garbage_bytes_fail_to_decode() {
    let r = Texture::from_encoded_bytes(&[1, 2, 3, 4, 5]);
    assert!(r.is_err());
}

#[test]
fn loading_before_resume_reports_missing_device() {
    let (encoded, _) = tiny_png();
    let g = Gamma::new();
    let r = g.load_texture_from_bytes(&encoded);
    assert_eq!(r.err().as_deref(), Some("Device not initialized"));
}

#[test]
fn loading_after_resume_decodes() {
    let (encoded, _) = tiny_png();
    let mut g = Gamma::new();
    g.handle_resumed(800, 600);
    let t = g.load_texture_from_bytes(&encoded).expect("valid PNG decodes");
    assert_eq!((t.width, t.height), (2, 2));
    assert_eq!(t.rgba.len(), 4 * 2 * 2);
}

#[test]
fn decode_failure_carries_the_decoder_message() {
    let mut g = Gamma::new();
    g.handle_resumed(800, 600);
    let r = g.load_texture_from_bytes(&[0u8; 8]);
    let msg = r.err().expect("garbage bytes fail");
    assert!(msg.starts_with("Failed to decode image:"));
}
