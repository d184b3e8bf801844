use icon_gen::background::remove_icon_background;
use icon_gen::codec::{decode_image, encode_png};
use icon_gen::{IconError, Raster, Rgba};

#[test]
fn png_round_trip_keeps_every_pixel() {
    let mut data = Vec::new();
    for i in 0..(13u32 * 11) {
        data.extend_from_slice(&[(i * 5) as u8, (i * 11 % 256) as u8, 255 - (i as u8), (i * 17 % 256) as u8]);
    }
    let img = Raster::from_raw(13, 11, data).unwrap();
    let bytes = encode_png(&img).unwrap();
    assert_eq!(&bytes[0..8], &[0x89, b'P', b'N', b'G', 0x0d, 0x0a, 0x1a, 0x0a]);
    let back = decode_image(&bytes).unwrap();
    assert_eq!((back.width, back.height), (13, 11));
    assert_eq!(back.data, img.data);
}

#[test]
fn transformed_icon_survives_png_round_trip() {
    let mut data = [200u8, 200, 200, 255].repeat(64);
    data[36..40].copy_from_slice(&[128, 64, 32, 77]);
    let img = Raster::from_raw(8, 8, data).unwrap();
    let out = remove_icon_background(&img).unwrap();
    let back = decode_image(&encode_png(&out).unwrap()).unwrap();
    assert_eq!(back.data, out.data);
    assert_eq!(back.get_pixel(1, 1), Some(Rgba { r: 128, g: 64, b: 32, a: 77 }));
    assert_eq!(back.get_pixel(0, 0), Some(Rgba { r: 0, g: 0, b: 0, a: 0 }));
}

#[test]
fn garbage_does_not_decode() {
    assert!(matches!(decode_image(b"not an image"), Err(IconError::Codec(_))));
    assert!(matches!(decode_image(&[]), Err(IconError::Codec(_))));
}

#[test]
fn empty_image_does_not_encode() {
    let img = Raster::from_raw(0, 4, Vec::new()).unwrap();
    assert!(matches!(encode_png(&img), Err(IconError::Codec(_))));
}

#[test]
fn raw_buffer_must_match_size() {
    assert!(Raster::from_raw(2, 2, vec![0; 16]).is_some());
    assert!(Raster::from_raw(2, 2, vec![0; 15]).is_none());
    assert!(Raster::from_raw(2, 2, vec![0; 17]).is_none());
    assert!(Raster::from_raw(0, 0, Vec::new()).is_some());
    assert!(Raster::from_raw(u32::MAX, u32::MAX, Vec::new()).is_none());
}

#[test]
fn one_pixel_image_encodes() {
    let img = Raster::from_raw(1, 1, vec![1, 2, 3, 4]).unwrap();
    let back = decode_image(&encode_png(&img).unwrap()).unwrap();
    assert_eq!(back.data, vec![1, 2, 3, 4]);
}
