use trackfetch::cover::{CoverArt, CoverDescriptor, CoverSize, ImageMime};
use trackfetch::format::{AudioFiles, AudioFormat, FileId};
use trackfetch::tags::{
    artist_line, build_tags, tag_flavor, track_file_name, Picture, PictureRole, TagBundle, TagField,
    TagFlavor, TagKey,
};
use trackfetch::text::{decimal_text, join};
use trackfetch::track::{AlbumRef, TrackDescriptor};

fn track(artists: Vec<&str>, number: i32) -> TrackDescriptor {
    let mut files = AudioFiles::new();
    files.insert(AudioFormat::OggVorbis_320, FileId([3; 20]));
    TrackDescriptor {
        id: "4uLU6hMCjMI75M1A2tKUQC".to_string(),
        uri: "spotify:track:4uLU6hMCjMI75M1A2tKUQC".to_string(),
        name: "Song".to_string(),
        number,
        artists: artists.into_iter().map(|a| a.to_string()).collect(),
        album: AlbumRef { name: "X".to_string(), id: "album".to_string() },
        covers: vec![CoverDescriptor { id: "c".to_string(), size: CoverSize::Large }],
        files,
    }
}

#[test]
fn join_puts_the_separator_between_parts() {
    assert_eq!(join(&Vec::new(), " & "), "");
    assert_eq!(join(&vec!["A".to_string()], " & "), "A");
    assert_eq!(join(&vec!["A".to_string(), "B".to_string()], " & "), "A & B");
    assert_eq!(join(&vec!["A".to_string(), String::new(), "C".to_string()], "-"), "A--C");
    assert_eq!(join(&vec!["x".to_string(), "y".to_string()], ""), "xy");
}

#[test]
fn decimal_text_writes_integers() {
    assert_eq!(decimal_text(0), "0");
    assert_eq!(decimal_text(7), "7");
    assert_eq!(decimal_text(10), "10");
    assert_eq!(decimal_text(1234567890), "1234567890");
    assert_eq!(decimal_text(-1), "-1");
    assert_eq!(decimal_text(-405), "-405");
    assert_eq!(decimal_text(i32::MAX), "2147483647");
    assert_eq!(decimal_text(i32::MIN), "-2147483648");
}

#[test]
fn artists_are_joined_in_display_order() {
    assert_eq!(artist_line(&track(vec!["Zed", "Abe"], 1)), "Zed & Abe");
    assert_eq!(artist_line(&track(vec!["Solo"], 1)), "Solo");
    assert_eq!(artist_line(&track(vec![], 1)), "");
}

#[test]
fn file_name_follows_the_convention() {
    assert_eq!(
        track_file_name(&track(vec!["Zed", "Abe"], 1), "ogg"),
        "Zed & Abe - Song (4uLU6hMCjMI75M1A2tKUQC).ogg"
    );
    assert_eq!(track_file_name(&track(vec![], 1), "bin"), " - Song (4uLU6hMCjMI75M1A2tKUQC).bin");
}

#[test]
fn tag_flavor_goes_by_extension() {
    assert_eq!(tag_flavor("ogg"), TagFlavor::VorbisComments);
    assert_eq!(tag_flavor("flac"), TagFlavor::VorbisComments);
    assert_eq!(tag_flavor("mp3"), TagFlavor::Id3v2);
    assert_eq!(tag_flavor("aac"), TagFlavor::Id3v2);
    assert_eq!(tag_flavor("bin"), TagFlavor::Id3v2);
    assert_eq!(tag_flavor("OGG"), TagFlavor::Id3v2);
    assert_eq!(tag_flavor(""), TagFlavor::Id3v2);
}

#[test]
fn tags_hold_five_fields_and_the_cover() {
    let cover = CoverArt { data: vec![1, 2, 3], mime: ImageMime::Png };
    let tags = build_tags(&track(vec!["Zed", "Abe"], 12), "mp3", cover);
    let field = |key: TagKey, text: &str| TagField { key, text: text.to_string() };
    assert_eq!(
        tags,
        TagBundle {
            flavor: TagFlavor::Id3v2,
            fields: vec![
                field(TagKey::TrackTitle, "Song"),
                field(TagKey::AlbumTitle, "X"),
                field(TagKey::TrackArtist, "Zed & Abe"),
                field(TagKey::TrackNumber, "12"),
                field(TagKey::Isrc, "spotify:track:4uLU6hMCjMI75M1A2tKUQC"),
            ],
            picture: Picture {
                role: PictureRole::CoverFront,
                mime: ImageMime::Png,
                description: "cover".to_string(),
                data: vec![1, 2, 3],
            },
        }
    );
    let cover = CoverArt { data: Vec::new(), mime: ImageMime::Jpeg };
    assert_eq!(build_tags(&track(vec![], -3), "flac", cover).flavor, TagFlavor::VorbisComments);
}
