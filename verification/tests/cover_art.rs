use trackfetch::cover::{
    best_cover, copy_bytes, cover_url, detect_mime, mime_for_sniffed, size_rank, CoverArt,
    CoverArtCache, CoverDescriptor, CoverSize, ImageMime, IMAGE_ACCEPT, IMAGE_URL,
};

fn cover(id: &str, size: CoverSize) -> CoverDescriptor {
    CoverDescriptor { id: id.to_string(), size }
}

fn png() -> Vec<u8> {
    vec![0x89, 0x50, 0x4E, 0x47, 0x0D, 0x0A, 0x1A, 0x0A, 0, 0, 0, 13]
}

fn jpeg() -> Vec<u8> {
    vec![0xFF, 0xD8, 0xFF, 0xE0, 0, 16, 0x4A, 0x46, 0x49, 0x46]
}

fn webp() -> Vec<u8> {
    let mut body = b"RIFF".to_vec();
    body.extend_from_slice(&[36, 0, 0, 0]);
    body.extend_from_slice(b"WEBPVP8 ");
    body
}

#[test]
fn sizes_rank_from_default_to_extra_large() {
    assert_eq!(size_rank(CoverSize::Default), 0);
    assert_eq!(size_rank(CoverSize::Small), 1);
    assert_eq!(size_rank(CoverSize::Large), 2);
    assert_eq!(size_rank(CoverSize::ExtraLarge), 3);
}

#[test]
fn large_cover_is_taken_over_default() {
    let covers = vec![cover("d", CoverSize::Default), cover("l", CoverSize::Large)];
    assert_eq!(best_cover(&covers), Some(1));
    let covers = vec![cover("l", CoverSize::Large), cover("d", CoverSize::Default)];
    assert_eq!(best_cover(&covers), Some(0));
}

#[test]
fn last_of_equal_covers_is_taken() {
    let covers = vec![
        cover("a", CoverSize::Small),
        cover("b", CoverSize::ExtraLarge),
        cover("c", CoverSize::Large),
        cover("d", CoverSize::ExtraLarge),
        cover("e", CoverSize::Default),
    ];
    assert_eq!(best_cover(&covers), Some(3));
    assert_eq!(best_cover(&vec![cover("only", CoverSize::Default)]), Some(0));
}

#[test]
fn no_cover_among_none() {
    assert_eq!(best_cover(&Vec::new()), None);
}

#[test]
fn cover_address_is_base_and_identifier() {
    assert_eq!(IMAGE_URL, "https://i.scdn.co/image/");
    assert_eq!(cover_url("ab67616d0000b273"), "https://i.scdn.co/image/ab67616d0000b273");
    assert_eq!(cover_url(""), "https://i.scdn.co/image/");
    assert_eq!(IMAGE_ACCEPT, "image/avif,image/webp,image/apng,image/svg+xml,image/*,*/*;q=0.8");
}

#[test]
fn mime_is_sniffed_from_the_leading_bytes() {
    assert_eq!(detect_mime(&png()), ImageMime::Png);
    assert_eq!(detect_mime(&jpeg()), ImageMime::Jpeg);
    assert_eq!(detect_mime(&b"GIF89a\x01\x00\x01\x00".to_vec()), ImageMime::Gif);
    assert_eq!(detect_mime(&b"BM\x46\x00\x00\x00".to_vec()), ImageMime::Bmp);
    assert_eq!(detect_mime(&webp()), ImageMime::Unknown("image/webp".to_string()));
}

#[test]
fn mime_falls_back_to_jpeg() {
    assert_eq!(detect_mime(&vec![0, 1, 2, 3, 4, 5, 6, 7]), ImageMime::Jpeg);
    assert_eq!(detect_mime(&Vec::new()), ImageMime::Jpeg);
    assert_eq!(mime_for_sniffed(None), ImageMime::Jpeg);
}

#[test]
fn mime_names_are_read_without_regard_to_case() {
    assert_eq!(mime_for_sniffed(Some("image/png".to_string())), ImageMime::Png);
    assert_eq!(mime_for_sniffed(Some("IMAGE/PNG".to_string())), ImageMime::Png);
    assert_eq!(mime_for_sniffed(Some("image/jpeg".to_string())), ImageMime::Jpeg);
    assert_eq!(mime_for_sniffed(Some("image/jpg".to_string())), ImageMime::Jpeg);
    assert_eq!(mime_for_sniffed(Some("image/tiff".to_string())), ImageMime::Tiff);
    assert_eq!(mime_for_sniffed(Some("image/bmp".to_string())), ImageMime::Bmp);
    assert_eq!(mime_for_sniffed(Some("image/gif".to_string())), ImageMime::Gif);
    assert_eq!(
        mime_for_sniffed(Some("Text/Plain".to_string())),
        ImageMime::Unknown("Text/Plain".to_string())
    );
    assert_eq!(mime_for_sniffed(Some(String::new())), ImageMime::Unknown(String::new()));
}

#[test]
fn covers_are_copied_whole() {
    let unknown = ImageMime::Unknown("x/y".to_string());
    assert_eq!(unknown.duplicate(), unknown);
    assert_eq!(ImageMime::Gif.duplicate(), ImageMime::Gif);
    let art = CoverArt { data: vec![1, 2, 3], mime: ImageMime::Tiff };
    assert_eq!(art.duplicate(), art);
    assert_eq!(copy_bytes(&vec![5, 6]), vec![5u8, 6]);
    assert_eq!(copy_bytes(&Vec::new()), Vec::<u8>::new());
}

#[test]
fn cache_keeps_the_first_cover_of_an_identifier() {
    let mut cache = CoverArtCache::new();
    assert!(!cache.contains("c1"));
    assert_eq!(cache.get("c1"), None);
    let first = cache.store("c1", png());
    assert_eq!(first, CoverArt { data: png(), mime: ImageMime::Png });
    assert!(cache.contains("c1"));
    let again = cache.store("c1", jpeg());
    assert_eq!(again, first);
    assert_eq!(cache.get("c1"), Some(CoverArt { data: png(), mime: ImageMime::Png }));
}

#[test]
fn cache_keeps_covers_apart() {
    let mut cache = CoverArtCache::new();
    cache.store("a", png());
    cache.store("b", jpeg());
    cache.store("", vec![7]);
    assert_eq!(cache.get("a"), Some(CoverArt { data: png(), mime: ImageMime::Png }));
    assert_eq!(cache.get("b"), Some(CoverArt { data: jpeg(), mime: ImageMime::Jpeg }));
    assert_eq!(cache.get(""), Some(CoverArt { data: vec![7], mime: ImageMime::Jpeg }));
    assert_eq!(cache.get("c"), None);
    assert!(!cache.contains("A"));
}
