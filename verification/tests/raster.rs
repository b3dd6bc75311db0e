use generation_loss::{ImageBuffer, PixelFormat};

#[test]
fn channel_counts_of_the_formats() {
    assert_eq!(PixelFormat::Luma8.channels(), 1);
    assert_eq!(PixelFormat::LumaA8.channels(), 2);
    assert_eq!(PixelFormat::Rgb8.channels(), 3);
    assert_eq!(PixelFormat::Rgba8.channels(), 4);
}

#[test]
fn format_from_channel_count() {
    assert_eq!(PixelFormat::from_channels(0), None);
    assert_eq!(PixelFormat::from_channels(1), Some(PixelFormat::Luma8));
    assert_eq!(PixelFormat::from_channels(2), Some(PixelFormat::LumaA8));
    assert_eq!(PixelFormat::from_channels(3), Some(PixelFormat::Rgb8));
    assert_eq!(PixelFormat::from_channels(4), Some(PixelFormat::Rgba8));
    assert_eq!(PixelFormat::from_channels(5), None);
    assert_eq!(PixelFormat::from_channels(255), None);
}

#[test]
fn only_rgb8_is_the_encoder_format() {
    assert!(PixelFormat::Rgb8.is_rgb8());
    assert!(!PixelFormat::Luma8.is_rgb8());
    assert!(!PixelFormat::LumaA8.is_rgb8());
    assert!(!PixelFormat::Rgba8.is_rgb8());
}

#[test]
fn new_keeps_the_parts() {
    let samples: Vec<u8> = vec![1, 2, 3, 4, 5, 6, 7, 8, 9, 10, 11, 12, 13, 14, 15, 16, 17, 18];
    let img = ImageBuffer::new(3, 2, PixelFormat::Rgb8, samples.clone()).unwrap();
    assert_eq!(img.width(), 3);
    assert_eq!(img.height(), 2);
    assert_eq!(img.format(), PixelFormat::Rgb8);
    assert_eq!(img.samples(), &samples);
    assert_eq!(img.into_samples(), samples);
}

#[test]
fn new_refuses_a_wrong_sample_count() {
    assert!(ImageBuffer::new(2, 2, PixelFormat::Rgb8, vec![0; 11]).is_none());
    assert!(ImageBuffer::new(2, 2, PixelFormat::Rgb8, vec![0; 13]).is_none());
    assert!(ImageBuffer::new(2, 2, PixelFormat::Rgb8, vec![0; 16]).is_none());
    assert!(ImageBuffer::new(2, 2, PixelFormat::Rgba8, vec![0; 12]).is_none());
    assert!(ImageBuffer::new(2, 2, PixelFormat::Luma8, Vec::new()).is_none());
    assert!(ImageBuffer::new(2, 2, PixelFormat::Rgb8, vec![0; 12]).is_some());
    assert!(ImageBuffer::new(2, 2, PixelFormat::Rgba8, vec![0; 16]).is_some());
    assert!(ImageBuffer::new(2, 2, PixelFormat::LumaA8, vec![0; 8]).is_some());
    assert!(ImageBuffer::new(2, 2, PixelFormat::Luma8, vec![0; 4]).is_some());
}

#[test]
fn new_refuses_an_empty_dimension() {
    assert!(ImageBuffer::new(0, 0, PixelFormat::Rgb8, Vec::new()).is_none());
    assert!(ImageBuffer::new(0, 4, PixelFormat::Rgb8, Vec::new()).is_none());
    assert!(ImageBuffer::new(4, 0, PixelFormat::Luma8, Vec::new()).is_none());
}

#[test]
fn new_refuses_dimensions_whose_product_wraps() {
    // 65536 * 65536 is 0 in 32 bits and 65536 * 65537 is 65536: neither empty
    // nor short sample vectors may pass for such rasters.
    assert!(ImageBuffer::new(65536, 65536, PixelFormat::Luma8, Vec::new()).is_none());
    assert!(ImageBuffer::new(65536, 65537, PixelFormat::Luma8, vec![0; 65536]).is_none());
    assert!(ImageBuffer::new(4294967295, 4294967295, PixelFormat::Rgba8, vec![0; 4]).is_none());
}

#[test]
fn clone_is_equal() {
    let img = ImageBuffer::new(2, 1, PixelFormat::LumaA8, vec![9, 8, 7, 6]).unwrap();
    let copy = img.clone();
    assert_eq!(copy, img);
    assert_eq!(copy.samples(), &vec![9, 8, 7, 6]);
}

#[test]
fn rgb8_is_not_touched_by_conversion() {
    let samples: Vec<u8> = vec![10, 20, 30, 40, 50, 60];
    let img = ImageBuffer::new(1, 2, PixelFormat::Rgb8, samples.clone()).unwrap();
    let rgb = img.clone().into_rgb8();
    assert_eq!(rgb, img);
    assert_eq!(rgb.into_samples(), samples);
}

#[test]
fn rgba8_loses_its_alpha() {
    let img = ImageBuffer::new(2, 1, PixelFormat::Rgba8, vec![10, 20, 30, 255, 40, 50, 60, 7]).unwrap();
    let rgb = img.into_rgb8();
    assert_eq!(rgb.width(), 2);
    assert_eq!(rgb.height(), 1);
    assert_eq!(rgb.format(), PixelFormat::Rgb8);
    assert_eq!(rgb.into_samples(), vec![10, 20, 30, 40, 50, 60]);
}

#[test]
fn luma8_is_spread_over_three_channels() {
    let img = ImageBuffer::new(3, 1, PixelFormat::Luma8, vec![0, 77, 255]).unwrap();
    let rgb = img.into_rgb8();
    assert_eq!(rgb.width(), 3);
    assert_eq!(rgb.height(), 1);
    assert_eq!(rgb.format(), PixelFormat::Rgb8);
    assert_eq!(rgb.into_samples(), vec![0, 0, 0, 77, 77, 77, 255, 255, 255]);
}

#[test]
fn luma_alpha8_is_spread_and_loses_its_alpha() {
    let img = ImageBuffer::new(1, 2, PixelFormat::LumaA8, vec![5, 200, 250, 0]).unwrap();
    let rgb = img.into_rgb8();
    assert_eq!(rgb.width(), 1);
    assert_eq!(rgb.height(), 2);
    assert_eq!(rgb.format(), PixelFormat::Rgb8);
    assert_eq!(rgb.into_samples(), vec![5, 5, 5, 250, 250, 250]);
}
