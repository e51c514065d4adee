use engiffen::{engiffen, ms, native_delay, sample_pixels, validate_dimensions, Error, Image};

fn solid(width: u32, height: u32, rgba: [u8; 4]) -> Image {
    let mut pixels: Vec<u8> = Vec::new();
    for _ in 0..(width as usize * height as usize) {
        pixels.extend_from_slice(&rgba);
    }
    Image::from_rgba(width, height, pixels).expect("buffer length matches dimensions")
}

fn from_pixels(width: u32, height: u32, colors: &[[u8; 4]]) -> Image {
    assert_eq!(colors.len(), width as usize * height as usize);
    let mut pixels: Vec<u8> = Vec::new();
    for c in colors {
        pixels.extend_from_slice(c);
    }
    Image::from_rgba(width, height, pixels).expect("buffer length matches dimensions")
}

#[test]
fn test_error_on_size_mismatch() {
    let imgs = vec![solid(100, 100, [1, 2, 3, 255]), solid(50, 50, [1, 2, 3, 255])];

    let res = engiffen(&imgs, 30, None);

    assert!(res.is_err());
    match res {
        Err(Error::Mismatch(one, another)) => {
            assert_eq!((one, another), ((100, 100), (50, 50)));
        }
        _ => unreachable!(),
    }
}

#[test]
fn test_empty_input() {
    let imgs: Vec<Image> = vec![];
    match engiffen(&imgs, 10, None) {
        Err(Error::EmptyInput) => {}
        _ => panic!("expected EmptyInput"),
    }
}

#[test]
fn test_first_mismatch_reported() {
    let imgs = vec![
        solid(10, 10, [0, 0, 0, 255]),
        solid(20, 20, [0, 0, 0, 255]),
        solid(30, 30, [0, 0, 0, 255]),
    ];
    match engiffen(&imgs, 10, None) {
        Err(Error::Mismatch(expected, actual)) => {
            assert_eq!(expected, (10, 10));
            assert_eq!(actual, (20, 20));
        }
        _ => panic!("expected Mismatch"),
    }
}

#[test]
fn test_validate_dimensions_ok() {
    let imgs = vec![solid(4, 3, [9, 9, 9, 255]), solid(4, 3, [1, 1, 1, 255])];
    assert_eq!(validate_dimensions(&imgs).unwrap(), (4, 3));
}

#[test]
fn test_delay_computation() {
    let imgs = vec![solid(2, 2, [10, 20, 30, 255])];

    let fast = engiffen(&imgs, 10, None).unwrap();
    assert_eq!(fast.delay, 100);
    assert_eq!(native_delay(fast.delay), 10);

    let slow = engiffen(&imgs, 30, None).unwrap();
    assert_eq!(slow.delay, 33);
    assert_eq!(native_delay(slow.delay), 3);
}

#[test]
fn test_round_trip_three_red_frames() {
    let red = [255, 0, 0, 255];
    let imgs = vec![solid(2, 2, red), solid(2, 2, red), solid(2, 2, red)];

    let gif = engiffen(&imgs, 10, None).unwrap();

    assert_eq!(gif.width, 2);
    assert_eq!(gif.height, 2);
    assert_eq!(gif.images.len(), 3);
    assert_eq!(gif.palette.len(), 768);
    assert!(gif.transparency.is_none());
    for frame in &gif.images {
        assert_eq!(frame.len(), 4);
        assert_eq!(frame, &gif.images[0]);
    }
    let entries: Vec<&[u8]> = gif.palette.chunks(3).collect();
    assert!(entries.contains(&&[255u8, 0, 0][..]));
}

#[test]
fn test_memoization_idempotent_indices() {
    let teal = [0, 128, 128, 255];
    let white = [255, 255, 255, 255];
    let img1 = from_pixels(2, 1, &[teal, white]);
    let img2 = from_pixels(2, 1, &[white, teal]);

    let gif = engiffen(&vec![img1, img2], 10, None).unwrap();

    // The same exact color maps to the same index wherever it occurs.
    assert_eq!(gif.images[0][0], gif.images[1][1]);
    assert_eq!(gif.images[0][1], gif.images[1][0]);
}

#[test]
fn test_transparency_marker() {
    let clear_black = [0, 0, 0, 0];
    let clear_blue = [10, 20, 200, 0];
    let red = [255, 0, 0, 255];
    let img1 = from_pixels(2, 1, &[clear_black, red]);
    let img2 = from_pixels(2, 1, &[red, clear_blue]);

    let gif = engiffen(&vec![img1, img2], 10, None).unwrap();

    let marker = gif.transparency.expect("a transparent pixel sets the marker");
    // Every pixel with alpha 0 maps to the single marker index.
    assert_eq!(gif.images[0][0], marker);
    assert_eq!(gif.images[1][1], marker);
}

#[test]
fn test_no_transparency_without_transparent_pixels() {
    let imgs = vec![solid(3, 3, [5, 6, 7, 9])];
    let gif = engiffen(&imgs, 10, None).unwrap();
    assert!(gif.transparency.is_none());
}

#[test]
fn test_sample_pixels_normalizes_alpha() {
    let img = from_pixels(
        2,
        2,
        &[[1, 2, 3, 255], [4, 5, 6, 128], [7, 8, 9, 0], [10, 11, 12, 255]],
    );
    let samples = sample_pixels(&vec![img], 1);
    assert_eq!(
        samples,
        vec![1, 2, 3, 255, 4, 5, 6, 255, 0, 0, 0, 0, 10, 11, 12, 255]
    );
}

#[test]
fn test_sample_pixels_stride() {
    let img = from_pixels(
        2,
        2,
        &[[1, 2, 3, 255], [4, 5, 6, 255], [7, 8, 9, 255], [10, 11, 12, 255]],
    );
    let samples = sample_pixels(&vec![img], 2);
    assert_eq!(samples, vec![1, 2, 3, 255]);
}

#[test]
fn test_sample_rate_changes_sampling_only() {
    let imgs = vec![solid(4, 4, [40, 50, 60, 255])];
    let gif = engiffen(&imgs, 10, Some(2)).unwrap();
    // Index mapping still visits every pixel.
    assert_eq!(gif.images[0].len(), 16);
}

#[test]
fn test_write_emits_decodable_stream() {
    let red = [255, 0, 0, 255];
    let imgs = vec![solid(2, 2, red), solid(2, 2, red), solid(2, 2, red)];
    let gif = engiffen(&imgs, 10, None).unwrap();

    let bytes = gif.write().expect("writing into memory succeeds");
    assert_eq!(&bytes[0..6], b"GIF89a");
    assert_eq!(*bytes.last().unwrap(), 0x3b);
    // The byte stream is a function of the animation's fields alone.
    assert_eq!(gif.write().unwrap(), bytes);

    let mut options = gif::DecodeOptions::new();
    options.set_color_output(gif::ColorOutput::Indexed);
    let mut decoder = options.read_info(bytes.as_slice()).unwrap();
    assert_eq!(decoder.width(), 2);
    assert_eq!(decoder.height(), 2);
    let mut frames: usize = 0;
    while let Some(frame) = decoder.read_next_frame().unwrap() {
        assert_eq!(frame.width, 2);
        assert_eq!(frame.height, 2);
        assert_eq!(frame.delay, 10);
        assert_eq!(frame.transparent, None);
        assert_eq!(&frame.buffer[..], &gif.images[frames][..]);
        frames += 1;
    }
    assert_eq!(frames, 3);
}

#[test]
fn test_write_carries_transparency() {
    let clear = [0, 0, 0, 0];
    let red = [255, 0, 0, 255];
    let imgs = vec![from_pixels(2, 1, &[clear, red])];
    let gif = engiffen(&imgs, 30, None).unwrap();
    let marker = gif.transparency.unwrap();

    let bytes = gif.write().unwrap();
    let mut options = gif::DecodeOptions::new();
    options.set_color_output(gif::ColorOutput::Indexed);
    let mut decoder = options.read_info(bytes.as_slice()).unwrap();
    let frame = decoder.read_next_frame().unwrap().unwrap();
    assert_eq!(frame.transparent, Some(marker));
    assert_eq!(frame.delay, 3);
}

#[test]
fn test_from_rgba_checks_length() {
    assert!(Image::from_rgba(2, 2, vec![0; 16]).is_some());
    assert!(Image::from_rgba(2, 2, vec![0; 15]).is_none());
    assert!(Image::from_rgba(2, 2, vec![0; 17]).is_none());
    let img = Image::from_rgba(1, 2, vec![1, 2, 3, 4, 5, 6, 7, 8]).unwrap();
    assert_eq!(img.width, 1);
    assert_eq!(img.height, 2);
    assert_eq!(img.pixels, vec![1, 2, 3, 4, 5, 6, 7, 8]);
}

#[test]
fn test_ms() {
    assert_eq!(ms(2, 500_000_000), 2500);
    assert_eq!(ms(0, 999_999), 0);
}

#[test]
fn test_error_descriptions() {
    assert_eq!(Error::EmptyInput.description(), "No frames sent for engiffening");
    assert_eq!(
        Error::Mismatch((1, 1), (2, 2)).description(),
        "Frames don't have the same dimensions"
    );
}
