use icon_gen::background::{
    classify_pixel, is_background, remove_background, remove_icon_background, sample_reference,
    DEFAULT_THRESHOLD, SAMPLE_X, SAMPLE_Y,
};
use icon_gen::{IconError, Raster, Rgb, Rgba};

fn filled(width: u32, height: u32, p: Rgba) -> Raster {
    Raster::from_raw(width, height, [p.r, p.g, p.b, p.a].repeat((width * height) as usize)).unwrap()
}

fn set(img: &mut Raster, x: u32, y: u32, p: Rgba) {
    let i = ((y * img.width + x) * 4) as usize;
    img.data[i] = p.r;
    img.data[i + 1] = p.g;
    img.data[i + 2] = p.b;
    img.data[i + 3] = p.a;
}

const CLEAR: Rgba = Rgba { r: 0, g: 0, b: 0, a: 0 };

#[test]
fn defaults_are_pixel_five_five_and_thirty() {
    assert_eq!((SAMPLE_X, SAMPLE_Y), (5, 5));
    assert_eq!(DEFAULT_THRESHOLD, 30);
}

#[test]
fn background_test_is_strict_per_channel() {
    let reference = Rgb { r: 200, g: 200, b: 200 };
    assert!(is_background(Rgba { r: 200, g: 200, b: 200, a: 255 }, reference, 30));
    assert!(is_background(Rgba { r: 171, g: 229, b: 185, a: 9 }, reference, 30));
    assert!(!is_background(Rgba { r: 170, g: 200, b: 200, a: 255 }, reference, 30));
    assert!(!is_background(Rgba { r: 200, g: 230, b: 200, a: 255 }, reference, 30));
    assert!(!is_background(Rgba { r: 200, g: 200, b: 0, a: 255 }, reference, 30));
    assert!(!is_background(Rgba { r: 200, g: 200, b: 200, a: 255 }, reference, 0));
}

#[test]
fn classify_clears_background_and_keeps_the_rest() {
    let reference = Rgb { r: 10, g: 250, b: 0 };
    assert_eq!(classify_pixel(Rgba { r: 0, g: 255, b: 29, a: 200 }, reference, 30), CLEAR);
    let kept = Rgba { r: 41, g: 250, b: 0, a: 3 };
    assert_eq!(classify_pixel(kept, reference, 30), kept);
}

#[test]
fn grey_background_scenario() {
    let bg = Rgba { r: 200, g: 200, b: 200, a: 255 };
    let mut img = filled(10, 10, bg);
    let near = [
        Rgba { r: 171, g: 171, b: 171, a: 255 },
        Rgba { r: 229, g: 229, b: 229, a: 128 },
        Rgba { r: 185, g: 210, b: 222, a: 0 },
    ];
    let far = Rgba { r: 128, g: 64, b: 32, a: 77 };
    set(&mut img, 0, 0, near[0]);
    set(&mut img, 9, 0, near[1]);
    set(&mut img, 0, 9, near[2]);
    set(&mut img, 9, 9, far);
    let out = remove_icon_background(&img).unwrap();
    assert_eq!((out.width, out.height), (10, 10));
    for y in 0..9 {
        for x in 0..9 {
            assert_eq!(out.get_pixel(x, y), Some(CLEAR));
        }
    }
    assert_eq!(out.get_pixel(0, 0), Some(CLEAR));
    assert_eq!(out.get_pixel(9, 0), Some(CLEAR));
    assert_eq!(out.get_pixel(0, 9), Some(CLEAR));
    assert_eq!(out.get_pixel(9, 9), Some(far));
}

#[test]
fn every_pixel_is_cleared_or_copied() {
    let mut data = Vec::new();
    for i in 0..64u32 {
        data.extend_from_slice(&[(i * 7 % 256) as u8, (i * 13 % 256) as u8, (i * 29 % 256) as u8, (i * 3) as u8]);
    }
    let img = Raster::from_raw(8, 8, data).unwrap();
    let reference = Rgb { r: 100, g: 100, b: 100 };
    let out = remove_background(&img, reference, 60);
    let mut cleared = 0;
    for y in 0..8 {
        for x in 0..8 {
            let p = img.get_pixel(x, y).unwrap();
            let q = out.get_pixel(x, y).unwrap();
            let close = (p.r as i32 - 100).abs() < 60
                && (p.g as i32 - 100).abs() < 60
                && (p.b as i32 - 100).abs() < 60;
            if close {
                cleared += 1;
                assert_eq!(q, CLEAR);
            } else {
                assert_eq!(q, p);
            }
        }
    }
    assert!(cleared > 0 && cleared < 64);
}

#[test]
fn removal_twice_equals_removal_once() {
    let mut img = filled(7, 7, Rgba { r: 0, g: 0, b: 0, a: 255 });
    set(&mut img, 3, 3, Rgba { r: 5, g: 200, b: 5, a: 90 });
    set(&mut img, 6, 6, Rgba { r: 20, g: 20, b: 20, a: 1 });
    set(&mut img, 1, 6, Rgba { r: 0, g: 0, b: 0, a: 0 });
    let reference = sample_reference(&img, 5, 5).unwrap();
    let once = remove_background(&img, reference, 30);
    let twice = remove_background(&once, reference, 30);
    assert_eq!(twice.data, once.data);
    assert_eq!(once.get_pixel(3, 3), Some(Rgba { r: 5, g: 200, b: 5, a: 90 }));
    assert_eq!(once.get_pixel(6, 6), Some(CLEAR));
}

#[test]
fn reference_is_sampled_at_the_given_pixel() {
    let mut img = filled(6, 6, Rgba { r: 1, g: 2, b: 3, a: 4 });
    set(&mut img, 5, 5, Rgba { r: 200, g: 100, b: 50, a: 7 });
    assert_eq!(sample_reference(&img, 5, 5), Some(Rgb { r: 200, g: 100, b: 50 }));
    assert_eq!(sample_reference(&img, 0, 5), Some(Rgb { r: 1, g: 2, b: 3 }));
    assert_eq!(sample_reference(&img, 6, 0), None);
}

#[test]
fn small_image_has_no_sample_pixel() {
    let img = filled(5, 40, Rgba { r: 1, g: 2, b: 3, a: 4 });
    assert!(matches!(remove_icon_background(&img), Err(IconError::SampleOutsideImage)));
    let img = filled(40, 5, Rgba { r: 1, g: 2, b: 3, a: 4 });
    assert!(matches!(remove_icon_background(&img), Err(IconError::SampleOutsideImage)));
    let img = filled(6, 6, Rgba { r: 1, g: 2, b: 3, a: 4 });
    assert!(remove_icon_background(&img).is_ok());
}
