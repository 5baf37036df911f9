//! The output file's name and the tags that are written into it.

use crate::cover::{CoverArt, ImageMime, MimeKind};
use crate::format::{extension_of, AudioFormat};
use crate::text::{decimal_of, decimal_text, join, joined_text, texts_of};
use crate::track::TrackDescriptor;
use vstd::prelude::*;

verus! {

/// The tag format that a file takes.
#[derive(Clone, Copy, Debug, PartialEq, Eq, Structural)]
pub enum TagFlavor {
    VorbisComments,
    Id3v2,
}

/// What a text field of the tags holds.
#[derive(Clone, Copy, Debug, PartialEq, Eq, Structural)]
pub enum TagKey {
    TrackTitle,
    AlbumTitle,
    TrackArtist,
    TrackNumber,
    Isrc,
}

/// A text field of the tags.
#[derive(Debug, PartialEq, Eq)]
pub struct TagField {
    pub key: TagKey,
    pub text: String,
}

/// What an embedded picture shows.
#[derive(Clone, Copy, Debug, PartialEq, Eq, Structural)]
pub enum PictureRole {
    CoverFront,
}

/// A picture to embed.
#[derive(Debug, PartialEq, Eq)]
pub struct Picture {
    pub role: PictureRole,
    pub mime: ImageMime,
    pub description: String,
    pub data: Vec<u8>,
}

/// Everything that is written into one file's tags.
#[derive(Debug, PartialEq, Eq)]
pub struct TagBundle {
    pub flavor: TagFlavor,
    pub fields: Vec<TagField>,
    pub picture: Picture,
}

/// What a [`Picture`] stands for.
pub ghost struct PictureView {
    pub role: PictureRole,
    pub mime: MimeKind,
    pub description: Seq<char>,
    pub data: Seq<u8>,
}

/// What a [`TagBundle`] stands for.
pub ghost struct TagBundleView {
    pub flavor: TagFlavor,
    pub fields: Seq<(TagKey, Seq<char>)>,
    pub picture: PictureView,
}

impl View for Picture {
    type V = PictureView;

    open spec fn view(&self) -> PictureView {
        PictureView {
            role: self.role,
            mime: self.mime@,
            description: self.description@,
            data: self.data@,
        }
    }
}

impl View for TagBundle {
    type V = TagBundleView;

    open spec fn view(&self) -> TagBundleView {
        TagBundleView {
            flavor: self.flavor,
            fields: Seq::new(self.fields@.len(), |i: int| (self.fields@[i].key, self.fields@[i].text@)),
            picture: self.picture@,
        }
    }
}

/// The artists of a track in display order, joined by `" & "`.
pub open spec fn artist_line_of(track: TrackDescriptor) -> Seq<char> {
    joined_text(texts_of(track.artists@), " & "@)
}

/// The name of a track's file: `"{artists} - {name} ({id}).{extension}"`.
pub open spec fn file_name_of(track: TrackDescriptor, extension: Seq<char>) -> Seq<char> {
    artist_line_of(track) + " - "@ + track.name@ + " ("@ + track.id@ + ")."@ + extension
}

/// The tag format for a file extension: Vorbis comments for `ogg` and
/// `flac`, ID3v2 for every other.
pub open spec fn flavor_of(extension: Seq<char>) -> TagFlavor {
    if extension == "ogg"@ || extension == "flac"@ {
        TagFlavor::VorbisComments
    } else {
        TagFlavor::Id3v2
    }
}

/// The text fields of a track's tags, in the order in which they are written.
pub open spec fn tag_fields_of(track: TrackDescriptor) -> Seq<(TagKey, Seq<char>)> {
    seq![
        (TagKey::TrackTitle, track.name@),
        (TagKey::AlbumTitle, track.album.name@),
        (TagKey::TrackArtist, artist_line_of(track)),
        (TagKey::TrackNumber, decimal_of(track.number as int)),
        (TagKey::Isrc, track.uri@),
    ]
}

/// The tags of a track whose file has the given extension and whose cover
/// is `cover`: the five text fields and the cover as the one picture.
pub open spec fn tags_of(
    track: TrackDescriptor,
    extension: Seq<char>,
    cover: (Seq<u8>, MimeKind),
) -> TagBundleView {
    TagBundleView {
        flavor: flavor_of(extension),
        fields: tag_fields_of(track),
        picture: PictureView {
            role: PictureRole::CoverFront,
            mime: cover.1,
            description: "cover"@,
            data: cover.0,
        },
    }
}

/// The artists of `track`, joined by `" & "`.
pub fn artist_line(track: &TrackDescriptor) -> (line: String)
    ensures
        line@ == artist_line_of(*track),
{
    join(&track.artists, " & ")
}

/// The name of the file that `track` is saved in.
pub fn track_file_name(track: &TrackDescriptor, extension: &str) -> (name: String)
    ensures
        name@ == file_name_of(*track, extension@),
{
    let mut name = artist_line(track);
    name.append(" - ");
    name.append(track.name.as_str());
    name.append(" (");
    name.append(track.id.as_str());
    name.append(").");
    name.append(extension);
    name
}

/// The tag format for files with the given extension.
pub fn tag_flavor(extension: &str) -> (flavor: TagFlavor)
    ensures
        flavor == flavor_of(extension@),
{
    let given = String::from_str(extension);
    if given == String::from_str("ogg") || given == String::from_str("flac") {
        TagFlavor::VorbisComments
    } else {
        TagFlavor::Id3v2
    }
}

/// Builds the tags of `track` for a file with the given extension, with
/// `cover` as the front cover.
pub fn build_tags(track: &TrackDescriptor, extension: &str, cover: CoverArt) -> (tags: TagBundle)
    ensures
        tags@ == tags_of(*track, extension@, cover@),
{
    let mut fields: Vec<TagField> = Vec::new();
    fields.push(TagField { key: TagKey::TrackTitle, text: track.name.clone() });
    fields.push(TagField { key: TagKey::AlbumTitle, text: track.album.name.clone() });
    fields.push(TagField { key: TagKey::TrackArtist, text: artist_line(track) });
    fields.push(TagField { key: TagKey::TrackNumber, text: decimal_text(track.number) });
    fields.push(TagField { key: TagKey::Isrc, text: track.uri.clone() });
    let picture = Picture {
        role: PictureRole::CoverFront,
        mime: cover.mime,
        description: String::from_str("cover"),
        data: cover.data,
    };
    let tags = TagBundle { flavor: tag_flavor(extension), fields, picture };
    assert(tags@.fields =~= tag_fields_of(*track));
    tags
}

/// Files of the Vorbis and FLAC families take Vorbis comments, all other
/// files ID3v2.
pub proof fn lemma_flavor_by_family(format: AudioFormat)
    ensures
        flavor_of(extension_of(format)) == (match format {
            AudioFormat::OggVorbis_96
            | AudioFormat::OggVorbis_160
            | AudioFormat::OggVorbis_320
            | AudioFormat::Flac
            | AudioFormat::Flac_24Bit => TagFlavor::VorbisComments,
            _ => TagFlavor::Id3v2,
        }),
{
    reveal_strlit("ogg");
    reveal_strlit("mp3");
    reveal_strlit("aac");
    reveal_strlit("flac");
    reveal_strlit("bin");
    assert("mp3"@[0] == 'm');
    assert("aac"@[0] == 'a');
    assert("bin"@[0] == 'b');
    assert("ogg"@[0] == 'o');
    assert("flac"@[0] == 'f');
}

} // verus!
