use image_squeeze::{
    aggregate, classify, completed_result, compress_data, compression_ratio, failed_result,
    file_result, image_kind, output_path, pending_result, pending_results, size_kb,
    CompressError, CompressImageResult, ImageKind, Strategy, PNG_PRESET,
};

fn sample_image() -> image::DynamicImage {
    let mut img = image::RgbImage::new(64, 48);
    for (x, y, p) in img.enumerate_pixels_mut() {
        *p = image::Rgb([(x * 3) as u8, (y * 5) as u8, 128]);
    }
    image::DynamicImage::ImageRgb8(img)
}

fn encoded(format: image::ImageFormat) -> Vec<u8> {
    let mut buf = std::io::Cursor::new(Vec::new());
    sample_image().write_to(&mut buf, format).unwrap();
    buf.into_inner()
}

#[test]
fn classify_supported_extensions() {
    assert_eq!(classify("/x/a.jpg"), Ok(Strategy::StructuralReencode));
    assert_eq!(classify("/x/a.jpeg"), Ok(Strategy::StructuralReencode));
    assert_eq!(classify("/x/a.bmp"), Ok(Strategy::StructuralReencode));
    assert_eq!(classify("/x/a.png"), Ok(Strategy::SpecializedRecompress));
    assert_eq!(image_kind("photo.jpeg"), Some(ImageKind::Jpeg));
    assert_eq!(image_kind("photo.bmp"), Some(ImageKind::Bmp));
    assert_eq!(image_kind("dir.v2/photo.png"), Some(ImageKind::Png));
}

#[test]
fn classify_rejects_unsupported() {
    assert_eq!(classify("/x/a.tiff"), Err(CompressError::UnsupportedFormat));
    assert_eq!(classify("/x/a.gif"), Err(CompressError::UnsupportedFormat));
    assert_eq!(classify("/x/a.PNG"), Err(CompressError::UnsupportedFormat));
    assert_eq!(classify("/x/noext"), Err(CompressError::UnsupportedFormat));
    assert_eq!(classify("/x.png/noext"), Err(CompressError::UnsupportedFormat));
    assert_eq!(classify("/x/.png"), Err(CompressError::UnsupportedFormat));
    assert_eq!(classify(""), Err(CompressError::UnsupportedFormat));
}

#[test]
fn unsupported_file_is_not_decoded() {
    // The bytes are a valid PNG, but the extension decides first.
    let data = encoded(image::ImageFormat::Png);
    assert_eq!(compress_data("/x/a.tiff", &data), Err(CompressError::UnsupportedFormat));
}

#[test]
fn output_path_inserts_tag() {
    assert_eq!(output_path("/a/b/photo.jpg"), Some("/a/b/photo.compressed.jpg".to_string()));
    assert_eq!(output_path("x.tar.png"), Some("x.tar.compressed.png".to_string()));
    assert_ne!(output_path("/a/b/photo.jpg"), Some("/a/b/photo.jpg".to_string()));
    assert_eq!(output_path("/a/b/photo"), None);
    assert_eq!(output_path("/a.b/photo"), None);
    assert_eq!(output_path("/a/.hidden"), None);
}

#[test]
fn ratio_examples() {
    assert_eq!(compression_ratio(100 * 1024, 60 * 1024), Some(4000));
    assert_eq!(compression_ratio(0, 60), None);
    assert_eq!(compression_ratio(0, 0), None);
    assert_eq!(compression_ratio(3, 2), Some(3333));
    assert_eq!(compression_ratio(3, 4), Some(-3333));
    assert_eq!(compression_ratio(10, 10), Some(0));
    assert_eq!(size_kb(2047), 1);
    assert_eq!(size_kb(1023), 0);
}

#[test]
fn completed_with_empty_input_has_no_ratio() {
    let r = completed_result("a.png".to_string(), "a.compressed.png".to_string(), 0, 10, 7);
    assert_eq!(r.compression_ratio, None);
    assert!(r.is_compressed);
    assert_eq!(r.duration_us, 7);
    let g = completed_result("b.png".to_string(), "b.compressed.png".to_string(), 100, 60, 7);
    assert_eq!(g.compression_ratio, Some(4000));
}

#[test]
fn empty_original_leaves_average_alone() {
    let a = completed_result("a.png".into(), "a.compressed.png".into(), 100 * 1024, 60 * 1024, 1);
    let e = completed_result("e.png".into(), "e.compressed.png".into(), 0, 0, 1);
    let s = aggregate(vec![a, e], 3);
    assert_eq!(s.succeeded, 2);
    assert_eq!(s.rated, 1);
    assert_eq!(s.average_ratio, 4000);
}

#[test]
fn output_is_the_encoder_output() {
    let bmp = encoded(image::ImageFormat::Bmp);
    let expected = {
        let img = image::load_from_memory_with_format(&bmp, image::ImageFormat::Bmp).unwrap();
        let mut buf = std::io::Cursor::new(Vec::new());
        img.write_to(&mut buf, image::ImageFormat::Bmp).unwrap();
        buf.into_inner()
    };
    assert_eq!(compress_data("/x/a.bmp", &bmp).unwrap(), expected);

    let png = encoded(image::ImageFormat::Png);
    let reencoded = {
        let img = image::load_from_memory_with_format(&png, image::ImageFormat::Png).unwrap();
        let mut buf = std::io::Cursor::new(Vec::new());
        img.write_to(&mut buf, image::ImageFormat::Png).unwrap();
        buf.into_inner()
    };
    let optimized =
        oxipng::optimize_from_memory(&reencoded, &oxipng::Options::from_preset(PNG_PRESET))
            .unwrap();
    let out = compress_data("/x/a.png", &png).unwrap();
    assert_eq!(out, optimized);
    assert!(out.len() <= reencoded.len());
}

#[test]
fn pending_reports_keep_input_order() {
    let inputs: Vec<String> = (1..=5).map(|i| format!("/p/img{}.png", i)).collect();
    let pending = pending_results(&inputs);
    assert_eq!(pending.len(), 5);
    for (r, input) in pending.iter().zip(inputs.iter()) {
        assert_eq!(&r.input_path, input);
        assert_eq!(&r.output_path, input);
        assert!(!r.is_compressed);
        assert_eq!(r.original_size, 0);
        assert_eq!(r.compressed_size, 0);
        assert_eq!(r.error, None);
    }
    let one = pending_result(&inputs[2]);
    assert_eq!(one.input_path, "/p/img3.png");
}

#[test]
fn png_is_optimized_and_decodes() {
    let data = encoded(image::ImageFormat::Png);
    let out = compress_data("/x/a.png", &data).unwrap();
    assert!(out.len() < data.len());
    let back = image::load_from_memory_with_format(&out, image::ImageFormat::Png).unwrap();
    assert_eq!(back.to_rgb8(), sample_image().to_rgb8());
}

#[test]
fn png_recompression_does_not_grow() {
    let data = encoded(image::ImageFormat::Png);
    let a = compress_data("/x/a.png", &data).unwrap();
    let b = compress_data("/x/a.compressed.png", &a).unwrap();
    assert!(b.len() <= a.len());
}

#[test]
fn bmp_and_jpeg_are_reencoded() {
    let bmp = encoded(image::ImageFormat::Bmp);
    let out = compress_data("/x/a.bmp", &bmp).unwrap();
    let back = image::load_from_memory_with_format(&out, image::ImageFormat::Bmp).unwrap();
    assert_eq!((back.width(), back.height()), (64, 48));

    let jpg = encoded(image::ImageFormat::Jpeg);
    let out = compress_data("/x/a.jpg", &jpg).unwrap();
    let back = image::load_from_memory_with_format(&out, image::ImageFormat::Jpeg).unwrap();
    assert_eq!((back.width(), back.height()), (64, 48));
}

#[test]
fn corrupt_input_is_unreadable() {
    let junk = vec![1u8, 2, 3, 4, 5];
    assert_eq!(compress_data("/x/a.png", &junk), Err(CompressError::UnreadableInput));
    assert_eq!(compress_data("/x/a.jpg", &junk), Err(CompressError::UnreadableInput));
    // A PNG named as a BMP is decoded as a BMP and fails.
    let png = encoded(image::ImageFormat::Png);
    assert_eq!(compress_data("/x/a.bmp", &png), Err(CompressError::UnreadableInput));
}

fn run_one(path: &str, data: &[u8]) -> CompressImageResult {
    let output = output_path(path);
    let outcome = compress_data(path, &data.to_vec())
        .map(|out| (data.len() as u64, out.len() as u64));
    file_result(path.to_string(), output, outcome, 5)
}

#[test]
fn batch_with_corrupt_middle_file() {
    let png = encoded(image::ImageFormat::Png);
    let bmp = encoded(image::ImageFormat::Bmp);
    let results = vec![
        run_one("/b/one.png", &png),
        run_one("/b/two.png", &[0u8, 1, 2, 3]),
        run_one("/b/three.bmp", &bmp),
    ];
    assert!(results[0].is_compressed);
    assert_eq!(results[0].output_path, "/b/one.compressed.png");
    assert_eq!(results[0].original_size, png.len() as u64 / 1024);
    assert!(!results[1].is_compressed);
    assert_eq!(results[1].error, Some(CompressError::UnreadableInput));
    assert!(results[2].is_compressed);
    assert_eq!(results[2].output_path, "/b/three.compressed.bmp");

    let expected_saved: i128 = [&results[0], &results[2]]
        .iter()
        .map(|r| r.original_size as i128 - r.compressed_size as i128)
        .sum();
    let expected_avg =
        (results[0].compression_ratio.unwrap() + results[2].compression_ratio.unwrap()) / 2;
    let summary = aggregate(results, 99);
    assert_eq!(summary.succeeded, 2);
    assert_eq!(summary.total_saved_kb, expected_saved);
    assert_eq!(summary.average_ratio, expected_avg);
    assert_eq!(summary.total_duration_us, 99);
    assert_eq!(summary.outcomes.len(), 3);
}

#[test]
fn aggregate_exact_values() {
    let a = completed_result("a.png".into(), "a.compressed.png".into(), 100 * 1024, 60 * 1024, 1);
    let b = completed_result("b.jpg".into(), "b.compressed.jpg".into(), 10 * 1024, 9 * 1024, 1);
    let c = failed_result("c.gif".into(), "c.gif".into(), CompressError::UnsupportedFormat);
    let s = aggregate(vec![a, c, b], 10);
    assert_eq!(s.succeeded, 2);
    assert_eq!(s.total_saved_kb, 41);
    assert_eq!(s.rated, 2);
    assert_eq!(s.average_ratio, (4000 + 1000) / 2);
}

#[test]
fn empty_selection_gives_zeroed_summary() {
    let inputs: Vec<String> = Vec::new();
    assert!(pending_results(&inputs).is_empty());
    let s = aggregate(Vec::new(), 0);
    assert_eq!(s.succeeded, 0);
    assert_eq!(s.total_saved_kb, 0);
    assert_eq!(s.average_ratio, 0);
    assert_eq!(s.rated, 0);
    assert!(s.outcomes.is_empty());
}

#[test]
fn failed_file_without_extension() {
    let r = file_result("/x/noext".to_string(), output_path("/x/noext"),
        Err(CompressError::UnsupportedFormat), 3);
    assert_eq!(r.output_path, "/x/noext");
    assert_eq!(r.error, Some(CompressError::UnsupportedFormat));
    assert_eq!(r.duration_us, 0);
    let w = failed_result("a.png".into(), "a.compressed.png".into(), CompressError::WriteFailure);
    assert_eq!(w.error, Some(CompressError::WriteFailure));
    let m = failed_result("a.png".into(), "a.compressed.png".into(), CompressError::MetadataReadFailure);
    assert_eq!(m.error, Some(CompressError::MetadataReadFailure));
}
