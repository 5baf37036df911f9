//! What the catalogue says about an album and about a track.

use crate::cover::CoverDescriptor;
use crate::format::AudioFiles;
use vstd::prelude::*;

verus! {

/// The album that a track belongs to.
#[derive(Debug)]
pub struct AlbumRef {
    pub name: String,
    pub id: String,
}

/// A track as the catalogue describes it.
pub struct TrackDescriptor {
    /// External identifier of the track.
    pub id: String,
    /// The identifier in its long form, as it is written into the tags.
    pub uri: String,
    pub name: String,
    pub number: i32,
    /// Names of the artists, in display order.
    pub artists: Vec<String>,
    pub album: AlbumRef,
    /// The artwork that is available for the track.
    pub covers: Vec<CoverDescriptor>,
    /// The encodings that the track is available in.
    pub files: AudioFiles,
}

/// An album as the catalogue describes it.
#[derive(Debug)]
pub struct AlbumDescriptor {
    pub name: String,
    pub id: String,
    /// References to the tracks of the album, in catalogue order.
    pub tracks: Vec<String>,
}

} // verus!
