use dither::frame::{Image, Rgb8};
use dither::stream::Stream;
use dither::transform::{transform_frame, transform_frames};
use rand::rngs::StdRng;
use rand::RngExt;
use rand::SeedableRng;

fn px(r: u8, g: u8, b: u8) -> Rgb8 {
    Rgb8 { r, g, b }
}

const BLACK: Rgb8 = Rgb8 { r: 0, g: 0, b: 0 };
const WHITE: Rgb8 = Rgb8 { r: 255, g: 255, b: 255 };

fn bit_to_pixel(bit: bool) -> Rgb8 {
    if bit {
        BLACK
    } else {
        WHITE
    }
}

/// A varied 4x3 source image with black-origin and white-origin pixels mixed.
fn sample_image() -> Image {
    let pixels = vec![
        px(0, 10, 20),
        px(1, 10, 20),
        px(0, 0, 0),
        px(255, 255, 255),
        px(128, 30, 40),
        px(0, 200, 100),
        px(37, 0, 0),
        px(0, 255, 1),
        px(2, 2, 2),
        px(0, 1, 2),
        px(99, 98, 97),
        px(0, 0, 255),
    ];
    Image { width: 4, height: 3, pixels }
}

#[test]
fn stream_matches_rand_directly() {
    // The library's stream must reproduce rand's own draws exactly:
    // StdRng::seed_from_u64 + random_bool(0.5), one word per draw.
    for seed in [0u64, 12415, 7] {
        let mut theirs = StdRng::seed_from_u64(seed);
        let mut ours = Stream::new(seed);
        for _ in 0..200 {
            assert_eq!(ours.sample_bool(), theirs.random_bool(0.5));
        }
    }
}

#[test]
fn stream_is_reproducible() {
    let mut a = Stream::new(12415);
    let mut b = Stream::new(12415);
    let mut saw_true = false;
    let mut saw_false = false;
    for _ in 0..256 {
        let x = a.sample_bool();
        assert_eq!(x, b.sample_bool());
        if x {
            saw_true = true;
        } else {
            saw_false = true;
        }
    }
    // A fair coin that never varies would mean the draws are not being made.
    assert!(saw_true && saw_false);
}

#[test]
fn transform_is_deterministic() {
    let img = sample_image();
    let a = transform_frame(9, &img);
    let b = transform_frame(9, &img);
    assert_eq!(a.pixels, b.pixels);
    assert_eq!(a.width, 4);
    assert_eq!(a.height, 3);
}

#[test]
fn output_pixels_are_binary() {
    let img = sample_image();
    for frame in [0u32, 1, 2, 17] {
        let out = transform_frame(frame, &img);
        assert_eq!(out.pixels.len(), 12);
        for p in &out.pixels {
            assert!(*p == BLACK || *p == WHITE, "pixel was {:?}", p);
        }
    }
}

#[test]
fn only_red_channel_decides() {
    let a = sample_image();
    let mut b = sample_image();
    for p in b.pixels.iter_mut() {
        // keep red, scramble green and blue
        p.g = p.g.wrapping_add(91);
        p.b = p.b.wrapping_mul(3).wrapping_add(17);
    }
    for frame in [0u32, 3, 40] {
        let out_a = transform_frame(frame, &a);
        let out_b = transform_frame(frame, &b);
        assert_eq!(out_a.pixels, out_b.pixels);
    }
}

#[test]
fn black_origin_output_ignores_frame_index() {
    let img = sample_image();
    let at5 = transform_frame(5, &img);
    let at50 = transform_frame(50, &img);
    for (i, src) in img.pixels.iter().enumerate() {
        if src.r == 0 {
            assert_eq!(at5.pixels[i], at50.pixels[i]);
        }
    }
}

#[test]
fn frame_zero_burns_nothing() {
    // An all-white-origin image at frame 0 must follow the white stream
    // from its very first draw.
    let img = Image {
        width: 5,
        height: 2,
        pixels: vec![px(9, 0, 0); 10],
    };
    let out = transform_frame(0, &img);
    let mut white = Stream::new(0);
    for i in 0..10 {
        assert_eq!(out.pixels[i], bit_to_pixel(white.sample_bool()));
    }
}

#[test]
fn frame_k_burns_k_times_width() {
    // At frame 3 and width 5, the first white-origin pixel takes white
    // draw number 15.
    let img = Image {
        width: 5,
        height: 2,
        pixels: vec![px(9, 0, 0); 10],
    };
    let out = transform_frame(3, &img);
    let mut white = Stream::new(0);
    for _ in 0..15 {
        white.sample_bool();
    }
    for i in 0..10 {
        assert_eq!(out.pixels[i], bit_to_pixel(white.sample_bool()));
    }
}

#[test]
fn scenario_two_pixels_at_frame_one() {
    // 2x1 image, pixels [red=0,*,*] and [red=200,*,*], frame index 1:
    // burn 2 white draws, then one black draw for pixel (0,0) and one
    // white draw for pixel (1,0). Reference drawn from rand itself.
    let img = Image {
        width: 2,
        height: 1,
        pixels: vec![px(0, 77, 33), px(200, 1, 2)],
    };
    let out = transform_frame(1, &img);

    let mut white = StdRng::seed_from_u64(0);
    let mut black = StdRng::seed_from_u64(12415);
    white.random_bool(0.5);
    white.random_bool(0.5);
    let expected0 = bit_to_pixel(black.random_bool(0.5));
    let expected1 = bit_to_pixel(white.random_bool(0.5));

    assert_eq!(out.pixels, vec![expected0, expected1]);
}

#[test]
fn processes_every_frame_exactly_once() {
    let frames = vec![sample_image(), sample_image(), sample_image()];
    let outs = transform_frames(&frames);
    assert_eq!(outs.len(), 3);
    for (k, out) in outs.iter().enumerate() {
        let single = transform_frame(k as u32, &frames[k]);
        assert_eq!(out.pixels, single.pixels);
        assert_eq!(out.width, single.width);
        assert_eq!(out.height, single.height);
    }
}

#[test]
fn image_new_checks_the_grid() {
    let ok = Image::new(2, 2, vec![px(0, 0, 0); 4]);
    assert!(ok.is_some());
    let img = ok.unwrap();
    assert_eq!(img.width, 2);
    assert_eq!(img.height, 2);
    assert_eq!(img.pixels.len(), 4);

    assert!(Image::new(2, 2, vec![px(0, 0, 0); 3]).is_none());
    assert!(Image::new(0, 7, vec![px(0, 0, 0); 1]).is_none());
    assert!(Image::new(0, 7, Vec::new()).is_some());
}
