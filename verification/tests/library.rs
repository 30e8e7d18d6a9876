use bild::api_key::{ApiKey, ApiKeyError};
use bild::collector::{deletion_notice, should_delete, sweep_dir, SWEEP_INTERVAL_SECS};
use bild::config::{launch_plan, mebibytes, parse_unsigned, RateLimitGuard, SettingError, Settings};
use bild::convert::{
    decode_image, delay_to_ms, frame_timestamps, gif_to_webp, webp_encoder, ConversionError, DecodedImage, ImageLayout,
};
use bild::legacy;
use bild::paths::{
    animation_output_path, evaluate_file_from_path, image_output_path, mp4_candidate, upload_path,
    webp_candidate,
};
use bild::routes::{self, Converter, Removal, ReplyBody};
use bild::text::{str_eq, strip_all_exec};
use bild::token::{
    alphanumeric_string, authorization_header, decide_file_name, file_name, key_file_path, random_alphanumeric, saved_hint,
    Auth, NameDecision, FILE_NAME_LEN, TOKEN_LEN,
};
use bild::upload::{
    admit_upload, classify_sniffed, classify_upload, upload_limit, FileType, UploadRejection, PEEK_LEN,
};

use image::codecs::gif::GifEncoder;
use image::{Delay, DynamicImage, Frame, ImageOutputFormat, RgbImage, RgbaImage};
use std::io::Cursor;

fn alnum(s: &str) -> bool {
    s.chars().all(|c| c.is_ascii_alphanumeric())
}

fn png_bytes() -> Vec<u8> {
    let img = DynamicImage::ImageRgb8(RgbImage::from_pixel(3, 2, image::Rgb([10, 20, 30])));
    let mut out = Cursor::new(Vec::new());
    img.write_to(&mut out, ImageOutputFormat::Png).unwrap();
    out.into_inner()
}

fn gif_bytes(delays_ms: &[u32]) -> Vec<u8> {
    let mut out = Vec::new();
    {
        let mut enc = GifEncoder::new(&mut out);
        let frames: Vec<Frame> = delays_ms
            .iter()
            .enumerate()
            .map(|(i, d)| {
                Frame::from_parts(
                    RgbaImage::from_pixel(4, 3, image::Rgba([i as u8 * 40, 0, 0, 255])),
                    0,
                    0,
                    Delay::from_numer_denom_ms(*d, 1),
                )
            })
            .collect();
        enc.encode_frames(frames).unwrap();
    }
    out
}

// ---- text ----

#[test]
fn strip_removes_every_occurrence() {
    assert_eq!(strip_all_exec("Bearer abc", "Bearer "), "abc");
    assert_eq!(strip_all_exec("xBearer yBearer z", "Bearer "), "xyz");
    assert_eq!(strip_all_exec("abc", ""), "abc");
    assert_eq!(strip_all_exec("aaa", "aa"), "a");
}

#[test]
fn strip_matches_std_replace() {
    for (s, p) in [("BeBearer arer x", "Bearer "), ("", "ab"), ("ababab", "ab"), ("a.webp.webp", ".webp")] {
        assert_eq!(strip_all_exec(s, p), s.replace(p, ""));
    }
}

#[test]
fn str_eq_compares_characters() {
    assert!(str_eq("image/gif", "image/gif"));
    assert!(!str_eq("image/gif", "image/gi"));
    assert!(str_eq("", ""));
}

// ---- tokens ----

#[test]
fn auth_token_has_thirty_alphanumerics() {
    let a = Auth::new();
    assert_eq!(TOKEN_LEN, 30);
    assert_eq!(a.token.chars().count(), 30);
    assert!(alnum(&a.token));
}

#[test]
fn file_names_have_eight_alphanumerics() {
    for _ in 0..20 {
        let n = file_name();
        assert_eq!(n.len(), FILE_NAME_LEN);
        assert!(alnum(&n));
    }
}

#[test]
fn random_tokens_of_any_length() {
    assert_eq!(random_alphanumeric(0), "");
    let s = random_alphanumeric(500);
    assert_eq!(s.len(), 500);
    assert!(alnum(&s));
    assert_ne!(random_alphanumeric(30), random_alphanumeric(30));
}

#[test]
fn taken_names_are_redrawn() {
    assert!(matches!(decide_file_name("a".to_string(), true), NameDecision::Redraw));
    assert!(matches!(decide_file_name("a".to_string(), false), NameDecision::Accept(n) if n == "a"));
}

#[test]
fn drawn_bytes_become_characters() {
    assert_eq!(alphanumeric_string(&vec![b'A', b'z', b'0']), "Az0");
    assert_eq!(alphanumeric_string(&vec![]), "");
}

#[test]
fn auth_texts() {
    assert_eq!(key_file_path(), "/etc/bild-server/auth.key");
    assert_eq!(authorization_header("tok"), "Authorization: Bearer tok");
    assert_eq!(saved_hint(), "The token has also been saved to /etc/bild-server/auth.key");
}

// ---- api key ----

#[test]
fn missing_header_is_refused() {
    assert!(matches!(ApiKey::from_header(None, "secret"), Err(ApiKeyError::Missing)));
    assert_eq!(ApiKeyError::Missing.status(), 400);
    assert_eq!(ApiKeyError::Invalid.status(), 400);
}

#[test]
fn bearer_header_with_stored_token_is_accepted() {
    let k = ApiKey::from_header(Some("Bearer secret"), "secret");
    assert!(matches!(&k, Ok(key) if key.key() == "Bearer secret"));
}

#[test]
fn bare_stored_token_is_accepted() {
    assert!(ApiKey::from_header(Some("secret"), "secret").is_ok());
}

#[test]
fn wrong_token_is_invalid() {
    assert!(matches!(ApiKey::from_header(Some("Bearer other"), "secret"), Err(ApiKeyError::Invalid)));
    assert!(matches!(ApiKey::from_header(Some("Basic secret"), "secret"), Err(ApiKeyError::Invalid)));
    assert!(matches!(ApiKey::from_header(Some(""), "secret"), Err(ApiKeyError::Invalid)));
}

#[test]
fn every_bearer_is_removed() {
    assert!(ApiKey::from_header(Some("Bearer secBearer ret"), "secret").is_ok());
}

// ---- upload admission ----

#[test]
fn classification_rule() {
    assert!(matches!(classify_sniffed(true, false, Some("image/gif")), Ok(FileType::Gif)));
    assert!(matches!(classify_sniffed(true, true, Some("image/gif")), Ok(FileType::Gif)));
    assert!(matches!(classify_sniffed(true, false, Some("image/png")), Ok(FileType::Image)));
    assert!(matches!(classify_sniffed(false, true, Some("video/mp4")), Ok(FileType::Video("video/mp4"))));
    assert_eq!(classify_sniffed(false, false, Some("image/png")).err(), Some(UploadRejection::NeitherImageNorVideo));
    assert_eq!(classify_sniffed(true, false, None).err(), Some(UploadRejection::NoMimeType));
}

#[test]
fn classify_upload_sniffs_bytes() {
    assert_eq!(PEEK_LEN, 39);
    let gif = gif_bytes(&[100]);
    assert!(matches!(classify_upload(&gif[..PEEK_LEN.min(gif.len())]), Ok(FileType::Gif)));
    let png = png_bytes();
    assert!(matches!(classify_upload(&png[..PEEK_LEN]), Ok(FileType::Image)));
    let mut mp4 = vec![0u8, 0, 0, 0x18];
    mp4.extend_from_slice(b"ftypmp42");
    mp4.extend_from_slice(&[0u8; 27]);
    assert!(matches!(classify_upload(&mp4), Ok(FileType::Video(m)) if m == "video/mp4"));
    assert_eq!(classify_upload(b"just some text").err(), Some(UploadRejection::NeitherImageNorVideo));
    assert_eq!(classify_upload(b"").err(), Some(UploadRejection::NeitherImageNorVideo));
}

#[test]
fn rejection_messages() {
    assert_eq!(UploadRejection::NeitherImageNorVideo.message(), "upload is neither a video or an image");
    assert_eq!(UploadRejection::NoMimeType.message(), "could not extract mime type from file");
    assert_eq!(UploadRejection::TooLarge.message(), "file too large");
}

#[test]
fn upload_limit_defaults_to_twenty_mebibytes() {
    assert_eq!(upload_limit(None), 20 * 1024 * 1024);
    assert_eq!(upload_limit(Some(5)), 5);
}

#[test]
fn incomplete_upload_is_too_large() {
    let data = [1u8, 2, 3];
    assert_eq!(admit_upload(&data, false, FileType::Image).err(), Some(UploadRejection::TooLarge));
    let ok = admit_upload(&data, true, FileType::Gif).ok().unwrap();
    assert_eq!(ok.data, &data[..]);
    assert!(matches!(ok.file_type, FileType::Gif));
}

// ---- configuration ----

#[test]
fn parse_unsigned_like_std() {
    for s in ["0", "42", "+7", "255", "256", "", "+", "-1", " 1", "1 ", "4294967295", "4294967296", "00012", "1a"] {
        assert_eq!(parse_unsigned(s, 255), s.parse::<u8>().ok().map(u64::from), "{s}");
        assert_eq!(parse_unsigned(s, u32::MAX as u64), s.parse::<u32>().ok().map(u64::from), "{s}");
    }
    assert_eq!(parse_unsigned("18446744073709551615", u64::MAX), Some(u64::MAX));
    assert_eq!(parse_unsigned("18446744073709551616", u64::MAX), None);
}

#[test]
fn settings_defaults() {
    let s = Settings::from_values(None, None, None, None, None).ok().unwrap();
    assert_eq!(s.rate_limit, 2);
    assert_eq!(s.server_url, "http://localhost:1337");
    assert_eq!(s.upload_max_age_secs, 2 * 7 * 24 * 60 * 60);
    assert!(s.garbage_collector);
    assert_eq!(s.upload_max_size, 20);
}

#[test]
fn settings_from_values() {
    let s = Settings::from_values(Some("10"), Some("https://i.example"), Some("1"), Some("0"), Some("5"))
        .ok()
        .unwrap();
    assert_eq!(s.rate_limit, 10);
    assert_eq!(s.server_url, "https://i.example");
    assert_eq!(s.upload_max_age_secs, 604800);
    assert!(!s.garbage_collector);
    assert_eq!(s.upload_max_size, 5);
    let t = Settings::from_values(None, None, None, Some("yes"), None).ok().unwrap();
    assert!(!t.garbage_collector);
}

#[test]
fn settings_errors() {
    assert_eq!(Settings::from_values(Some("x"), None, None, None, None).err(), Some(SettingError::RateLimit));
    assert_eq!(Settings::from_values(None, None, Some("-2"), None, None).err(), Some(SettingError::FileAgeWeeks));
    assert_eq!(
        Settings::from_values(None, None, Some("18446744073709551615"), None, None).err(),
        Some(SettingError::FileAgeWeeks)
    );
    assert_eq!(Settings::from_values(None, None, None, None, Some("1MiB")).err(), Some(SettingError::UploadMaxSize));
    assert_eq!(
        Settings::from_values(None, None, None, None, Some("17592186044416")).err(),
        Some(SettingError::UploadMaxSize)
    );
    assert_eq!(Settings::from_values(Some("x"), None, None, None, Some("y")).err(), Some(SettingError::RateLimit));
}

#[test]
fn launch_plan_of_settings() {
    let s = Settings::from_values(Some("0"), None, None, Some("1"), Some("3")).ok().unwrap();
    let p = launch_plan(&s);
    assert!(p.run_collector);
    assert_eq!(p.data_form_limit, 3 * 1048576);
    assert_eq!(p.upload_image_limit, 3 * 1048576);
    assert_eq!(p.port, 1337);
    assert_eq!(p.requests_per_second, 1);
    assert_eq!(mebibytes(255), 255 * 1048576);
}

#[test]
fn zero_rate_limit_becomes_one() {
    assert_eq!(RateLimitGuard::requests_per_second(0), 1);
    assert_eq!(RateLimitGuard::requests_per_second(7), 7);
}

// ---- collector ----

#[test]
fn collector_deletes_files_at_least_as_old_as_the_limit() {
    assert!(!should_delete(99, 999_999_999, 100));
    assert!(should_delete(100, 0, 100));
    assert!(should_delete(2_000_000, 5, 1_209_600));
    assert!(!should_delete(1_000_000, 5, 1_209_600));
    assert_eq!(SWEEP_INTERVAL_SECS, 2 * 60 * 60);
    assert_eq!(sweep_dir(), "./uploads");
    assert_eq!(deletion_notice("abc.webp"), "[Garbage collector]: deleted file abc.webp");
}

// ---- conversion ----

#[test]
fn conversion_messages() {
    assert_eq!(ConversionError::IO.message(), "IO operation failed");
    assert_eq!(ConversionError::Decoder.message(), "Decoder failed");
    assert_eq!(ConversionError::Encoder("Unimplemented".to_string()).message(), "Encoder failed: Unimplemented");
    assert_eq!(ConversionError::AWebPEncoder.message(), "Encoder failed to encode image");
    assert_eq!(ConversionError::ParentNotFound("x/y".to_string()).message(), "Failed to find parent directory for x/y");
    assert_eq!(ConversionError::Ffmpeg.message(), "Failed to convert video file");
}

#[test]
fn delays_in_whole_milliseconds() {
    assert_eq!(delay_to_ms(100, 1), 100);
    assert_eq!(delay_to_ms(7, 2), 3);
    assert_eq!(delay_to_ms(u32::MAX, 1), i32::MAX);
}

#[test]
fn timestamps_are_running_sums() {
    let (ts, end) = frame_timestamps(&vec![100, 50, 0, 25]).unwrap();
    assert_eq!(ts, vec![0, 100, 150, 150]);
    assert_eq!(end, 175);
    let (ts, end) = frame_timestamps(&vec![]).unwrap();
    assert!(ts.is_empty());
    assert_eq!(end, 0);
    assert!(frame_timestamps(&vec![i32::MAX, 1]).is_none());
    assert_eq!(frame_timestamps(&vec![i32::MAX]).unwrap(), (vec![0], i32::MAX));
}

#[test]
fn large_upload_sizes_are_accepted() {
    let s = Settings::from_values(None, None, None, None, Some("256")).ok().unwrap();
    assert_eq!(s.upload_max_size, 256);
    assert_eq!(launch_plan(&s).upload_image_limit, 256 * 1048576);
    let t = Settings::from_values(None, None, None, None, Some("17592186044415")).ok().unwrap();
    assert_eq!(launch_plan(&t).data_form_limit, 17592186044415 * 1048576);
}

#[test]
fn decode_image_png_and_garbage() {
    let d = decode_image(&png_bytes()).ok().unwrap();
    assert_eq!(d.layout, ImageLayout::Rgb8);
    assert_eq!((d.width, d.height), (3, 2));
    assert_eq!(d.pixels, [10u8, 20, 30].repeat(6));
    assert_eq!(decode_image(b"not an image at all").err(), Some(ConversionError::Decoder));
}

#[test]
fn webp_encoder_refuses_gray_images() {
    let rgb = DecodedImage { layout: ImageLayout::Rgb8, width: 2, height: 2, pixels: vec![0; 12] };
    assert!(webp_encoder(&rgb).is_ok());
    let rgba = DecodedImage { layout: ImageLayout::Rgba8, width: 2, height: 2, pixels: vec![0; 16] };
    let encoded = webp_encoder(&rgba).ok().unwrap().encode_lossless();
    assert_eq!(&encoded[0..4], b"RIFF");
    let gray = DecodedImage { layout: ImageLayout::Luma8, width: 2, height: 2, pixels: vec![0; 4] };
    assert_eq!(webp_encoder(&gray).err(), Some(ConversionError::Encoder("Unimplemented".to_string())));
}

#[test]
fn gif_becomes_animated_webp() {
    let out = gif_to_webp(&gif_bytes(&[100, 200, 50])).unwrap();
    assert_eq!(&out[0..4], b"RIFF");
    assert_eq!(&out[8..12], b"WEBP");
}

#[test]
fn animated_webp_keeps_canvas_and_frames() {
    let out = gif_to_webp(&gif_bytes(&[100, 200, 50])).unwrap();
    let decoder = webp_animation::Decoder::new(&out).unwrap();
    assert_eq!(decoder.dimensions(), (4, 3));
    assert_eq!(decoder.into_iter().count(), 3);
}

#[test]
fn still_encoder_keeps_size_and_layout() {
    let rgb = DecodedImage { layout: ImageLayout::Rgb8, width: 3, height: 2, pixels: vec![7; 18] };
    let encoded = webp_encoder(&rgb).ok().unwrap().encode_lossless();
    let decoded = webp::Decoder::new(&encoded).decode().unwrap();
    assert_eq!((decoded.width(), decoded.height()), (3, 2));
    assert!(!decoded.is_alpha());
    let rgba = DecodedImage { layout: ImageLayout::Rgba8, width: 2, height: 5, pixels: vec![9; 40] };
    let encoded = webp_encoder(&rgba).ok().unwrap().encode_lossless();
    let decoded = webp::Decoder::new(&encoded).decode().unwrap();
    assert_eq!((decoded.width(), decoded.height()), (2, 5));
}

#[test]
fn gif_errors() {
    assert_eq!(gif_to_webp(b"GIF89a broken").err(), Some(ConversionError::Decoder));
    assert_eq!(gif_to_webp(&png_bytes()).err(), Some(ConversionError::Decoder));
    // Two frames without delay start at the same time, which the encoder refuses.
    assert_eq!(gif_to_webp(&gif_bytes(&[0, 0])).err(), Some(ConversionError::AWebPEncoder));
}

// ---- paths ----

#[test]
fn upload_paths() {
    assert_eq!(upload_path("abc"), "uploads/abc");
    assert_eq!(webp_candidate("abc"), "uploads/abc.webp");
    assert_eq!(mp4_candidate("abc"), "uploads/abc.mp4");
    assert_eq!(image_output_path("Ab12Cd34"), "uploads/Ab12Cd34.webp");
    assert_eq!(animation_output_path("Ab12Cd34"), "uploads//Ab12Cd34.webp");
}

#[test]
fn evaluate_file_priorities() {
    assert_eq!(evaluate_file_from_path("abc.png", false, false), Some("uploads/abc.png".to_string()));
    assert_eq!(evaluate_file_from_path("abc.png", true, true), Some("uploads/abc.png".to_string()));
    assert_eq!(evaluate_file_from_path("abc", true, true), Some("uploads/abc.webp".to_string()));
    assert_eq!(evaluate_file_from_path("abc", false, true), Some("uploads/abc.mp4".to_string()));
    assert_eq!(evaluate_file_from_path("abc", false, false), None);
}

#[test]
fn names_of_ordinary_components_stay_in_uploads() {
    assert_eq!(evaluate_file_from_path("a/b", true, false), Some("uploads/a/b.webp".to_string()));
    assert_eq!(evaluate_file_from_path("a/b", false, true), Some("uploads/a/b.mp4".to_string()));
    assert_eq!(evaluate_file_from_path("a/b.gif", false, false), Some("uploads/a/b.gif".to_string()));
}

// ---- routes ----

#[test]
fn file_route_serves_stored_upload() {
    let n = file_name();
    let r = routes::upload(&ApiKey::from_header(Some("k"), "k").ok().unwrap(), "http://h", Ok(n.clone()));
    let link = match r.body {
        ReplyBody::Links { link, .. } => link,
        _ => panic!("no links"),
    };
    let requested = link.strip_prefix("http://h/").unwrap();
    assert_eq!(routes::file(requested, true, true), Some(image_output_path(&n)));
    assert_eq!(routes::file(requested, false, true), Some(format!("uploads/{n}.mp4")));
    assert_eq!(routes::file(requested, false, false), None);
    assert_eq!(routes::file("x.png", false, false), Some("uploads/x.png".to_string()));
}

#[test]
fn redirects() {
    assert_eq!(routes::not_found().location, "/404");
    assert_eq!(routes::index().location, "https://bild.waalrus.xyz");
}

#[test]
fn default_catcher_message() {
    let r = routes::default(422, Some("bad form"));
    assert_eq!(r.status, 422);
    assert!(matches!(r.body, ReplyBody::Message(m) if m == "bad form"));
    let r = routes::default(500, None);
    assert!(matches!(r.body, ReplyBody::Message(m) if m.is_empty()));
}

#[test]
fn upload_reply_links() {
    let key = ApiKey::from_header(Some("k"), "k").ok().unwrap();
    assert_eq!(routes::token_validation(&key), 202);
    let r = routes::upload(&key, "http://localhost:1337", Ok("Ab12Cd34".to_string()));
    assert_eq!(r.status, 200);
    assert!(matches!(r.body, ReplyBody::Links { link, delete_link }
        if link == "http://localhost:1337/Ab12Cd34" && delete_link == "http://localhost:1337/delete/Ab12Cd34"));
    let r = routes::upload(&key, "x", Err(ConversionError::Decoder));
    assert_eq!(r.status, 500);
    assert!(matches!(r.body, ReplyBody::Message(m) if m == "Decoder failed"));
}

#[test]
fn delete_replies() {
    let key = ApiKey::from_header(Some("k"), "k").ok().unwrap();
    let r = routes::delete_upload(&key, "abc", Removal::NotFound);
    assert_eq!(r.status, 404);
    assert!(matches!(r.body, ReplyBody::Message(m) if m == "No such file"));
    let r = routes::delete_upload(&key, "abc", Removal::Removed);
    assert_eq!(r.status, 200);
    assert!(matches!(r.body, ReplyBody::Message(m) if m == "Deleted abc"));
    let r = routes::delete_upload(&key, "abc", Removal::Failed("denied".to_string()));
    assert_eq!(r.status, 500);
    assert!(matches!(r.body, ReplyBody::Message(m) if m == "denied"));
    assert_eq!(routes::get_delete(), "server/static/delete/index.html");
}

#[test]
fn converters_by_kind() {
    assert_eq!(routes::converter_for(&FileType::Gif), Converter::Animation);
    assert_eq!(routes::converter_for(&FileType::Image), Converter::Still);
    assert_eq!(routes::converter_for(&FileType::Video("video/mp4")), Converter::Unsupported);
}

// ---- first version ----

#[test]
fn legacy_pages_and_messages() {
    assert_eq!(legacy::not_found().file(), "error_pages/404.html");
    assert_eq!(legacy::internal_error().file(), "error_pages/500.html");
    assert_eq!(legacy::default("404 Not Found", "/x"), "Something went wrong: 404 Not Found (/x)");
    assert_eq!(legacy::temp_upload_path("abc"), "/tmp/abc.png");
}

#[test]
fn legacy_paths() {
    assert_eq!(legacy::file("abc"), "static/uploads/abc.webp");
    assert_eq!(legacy::file("abc.png"), "static/uploads/abc.png");
    assert_eq!(legacy::webp_target("n1.webp", false, "n2.webp"), "static/uploads/n1.webp");
    assert_eq!(legacy::webp_target("n1.webp", true, "n2.webp"), "static/uploads/n2.webp");
    assert_eq!(legacy::stored_name("n1.webp"), "n1");
    assert_eq!(
        legacy::webp_destination("n1.webp", false, "n2.webp"),
        ("static/uploads/n1.webp".to_string(), "n1".to_string())
    );
    assert_eq!(
        legacy::webp_destination("n1.webp", true, "n2.webp"),
        ("static/uploads/n2.webp".to_string(), "n2".to_string())
    );
}

#[test]
fn legacy_upload_reply() {
    let r = legacy::upload(Some("abc"));
    assert_eq!(r.status, 200);
    assert!(matches!(r.body, ReplyBody::Url(u) if u == "http://localhost:8000/i/abc"));
    let r = legacy::upload(None);
    assert_eq!(r.status, 500);
    assert!(matches!(r.body, ReplyBody::Message(m) if m == "failed to upload image"));
}

#[test]
fn legacy_decode_reads_png() {
    let d = legacy::legacy_decode(&png_bytes()).ok().unwrap();
    assert_eq!(d.layout, ImageLayout::Rgb8);
    assert_eq!(legacy::legacy_decode(&gif_bytes(&[100])).err(), Some(ConversionError::Decoder));
}

#[test]
fn stored_file_is_the_served_file() {
    let n = file_name();
    assert_eq!(image_output_path(&n), format!("uploads/{n}.webp"));
    assert_eq!(evaluate_file_from_path(&n, true, false), Some(format!("uploads/{n}.webp")));
    assert_eq!(animation_output_path(&n), format!("uploads//{n}.webp"));
}
