//! The pipelines: what to do next for a track, and for an album, given what
//! has happened so far.
//!
//! The work on streams, keys, files and the network is done by the caller.
//! A pipeline is handed each event and answers with its next state and the
//! action to perform.

use crate::cover::{
    best_cover, best_cover_of, cover_url, stored, CoverArt, CoverArtCache, MimeKind, IMAGE_URL,
};
use crate::format::{
    best_candidate, data_rate_of, extension_of, format_data_rate, get_extension_from_format,
    payload_offset, payload_offset_of, preference, select_format, EncodingCandidate, FileId,
};
use crate::tags::{build_tags, file_name_of, tags_of, track_file_name, TagBundle, TagBundleView};
use crate::track::{AlbumDescriptor, TrackDescriptor};
use vstd::prelude::*;

verus! {

/// Why a file was left without tags.
#[derive(Clone, Copy, Debug, PartialEq, Eq)]
pub enum TagFailure {
    /// The track has no cover.
    NoCover,
    /// The cover could not be fetched.
    CoverFetch,
    /// The tags could not be written.
    TagWrite,
}

/// How the work on one track ended.
#[derive(Clone, Copy, Debug, PartialEq, Eq)]
pub enum TrackOutcome {
    /// The file was written, decrypted and tagged.
    Success,
    /// The track is available in no supported format; nothing was written.
    SkippedUnsupported,
    /// The remote file could not be opened; nothing was written.
    SkippedOpenFailure,
    /// The window on the decrypted stream could not be opened; nothing was written.
    SkippedWindowFailure,
    /// The file was written, but it is less than it should be.
    Degraded {
        /// No key was obtained: the bytes were written as they came.
        undecrypted: bool,
        /// The file has no tags, for this reason.
        untagged: Option<TagFailure>,
    },
    /// The file could not be written.
    Fatal,
}

/// Where the work on a track stands.
#[derive(Clone, Copy, Debug, PartialEq, Eq)]
pub enum TrackState {
    SelectFormat,
    OpenRemote { choice: EncodingCandidate },
    FetchKey { choice: EncodingCandidate, length: u64 },
    DecryptWindow { choice: EncodingCandidate, keyed: bool },
    WriteBytes { choice: EncodingCandidate, keyed: bool },
    FetchCover { choice: EncodingCandidate, keyed: bool },
    EmbedTags { choice: EncodingCandidate, keyed: bool },
    Done { outcome: TrackOutcome },
}

/// What happened since the last action.
#[derive(Debug, PartialEq, Eq)]
pub enum TrackEvent {
    /// The work on the track starts.
    Begin,
    /// The remote file is open; its stream has this length.
    RemoteOpened { length: u64 },
    RemoteFailed,
    KeyObtained,
    KeyFailed,
    WindowOpened,
    WindowFailed,
    BytesWritten,
    WriteFailed,
    /// The cover was fetched; this is the body of the answer.
    CoverFetched { body: Vec<u8> },
    CoverFailed,
    TagsEmbedded,
    TagsFailed,
}

/// What to do next.
#[derive(Debug, PartialEq, Eq)]
pub enum TrackAction {
    /// Open the remote file, with the byte rate as a hint.
    OpenRemote { file: FileId, byte_rate: usize },
    /// Ask for the key of the file.
    FetchKey { file: FileId },
    /// Wrap the stream for decryption, with the key if `keyed`, and open
    /// the window on it.
    OpenWindow { keyed: bool, offset: u64, length: u64 },
    /// Create the file of this name in the album's directory and copy the
    /// window into it.
    WriteFile { name: String },
    /// Fetch the cover from this address.
    FetchCover { id: String, url: String },
    /// Write the tags into the file.
    EmbedTags { tags: TagBundle },
    /// The work on the track is over.
    Finish { outcome: TrackOutcome },
    /// The event does not belong to the state; nothing has changed.
    Ignore,
}

/// What a [`TrackEvent`] stands for.
pub ghost enum TrackEventView {
    Begin,
    RemoteOpened { length: u64 },
    RemoteFailed,
    KeyObtained,
    KeyFailed,
    WindowOpened,
    WindowFailed,
    BytesWritten,
    WriteFailed,
    CoverFetched { body: Seq<u8> },
    CoverFailed,
    TagsEmbedded,
    TagsFailed,
}

/// What a [`TrackAction`] stands for.
pub ghost enum TrackActionView {
    OpenRemote { file: FileId, byte_rate: usize },
    FetchKey { file: FileId },
    OpenWindow { keyed: bool, offset: u64, length: u64 },
    WriteFile { name: Seq<char> },
    FetchCover { id: Seq<char>, url: Seq<char> },
    EmbedTags { tags: TagBundleView },
    Finish { outcome: TrackOutcome },
    Ignore,
}

impl View for TrackEvent {
    type V = TrackEventView;

    open spec fn view(&self) -> TrackEventView {
        match self {
            TrackEvent::Begin => TrackEventView::Begin,
            TrackEvent::RemoteOpened { length } => TrackEventView::RemoteOpened { length: *length },
            TrackEvent::RemoteFailed => TrackEventView::RemoteFailed,
            TrackEvent::KeyObtained => TrackEventView::KeyObtained,
            TrackEvent::KeyFailed => TrackEventView::KeyFailed,
            TrackEvent::WindowOpened => TrackEventView::WindowOpened,
            TrackEvent::WindowFailed => TrackEventView::WindowFailed,
            TrackEvent::BytesWritten => TrackEventView::BytesWritten,
            TrackEvent::WriteFailed => TrackEventView::WriteFailed,
            TrackEvent::CoverFetched { body } => TrackEventView::CoverFetched { body: body@ },
            TrackEvent::CoverFailed => TrackEventView::CoverFailed,
            TrackEvent::TagsEmbedded => TrackEventView::TagsEmbedded,
            TrackEvent::TagsFailed => TrackEventView::TagsFailed,
        }
    }
}

impl View for TrackAction {
    type V = TrackActionView;

    open spec fn view(&self) -> TrackActionView {
        match self {
            TrackAction::OpenRemote { file, byte_rate } => TrackActionView::OpenRemote {
                file: *file,
                byte_rate: *byte_rate,
            },
            TrackAction::FetchKey { file } => TrackActionView::FetchKey { file: *file },
            TrackAction::OpenWindow { keyed, offset, length } => TrackActionView::OpenWindow {
                keyed: *keyed,
                offset: *offset,
                length: *length,
            },
            TrackAction::WriteFile { name } => TrackActionView::WriteFile { name: name@ },
            TrackAction::FetchCover { id, url } => TrackActionView::FetchCover { id: id@, url: url@ },
            TrackAction::EmbedTags { tags } => TrackActionView::EmbedTags { tags: tags@ },
            TrackAction::Finish { outcome } => TrackActionView::Finish { outcome: *outcome },
            TrackAction::Ignore => TrackActionView::Ignore,
        }
    }
}

/// One step of the track pipeline: the state it leads to, the action it
/// asks for, and the cover cache after it.
pub ghost struct TrackStep {
    pub state: TrackState,
    pub action: TrackActionView,
    pub covers: Map<Seq<char>, (Seq<u8>, MimeKind)>,
}

/// The step that ends the work on a track.
pub open spec fn finished(outcome: TrackOutcome, covers: Map<Seq<char>, (Seq<u8>, MimeKind)>) -> TrackStep {
    TrackStep {
        state: TrackState::Done { outcome },
        action: TrackActionView::Finish { outcome },
        covers,
    }
}

/// The outcome of a track whose file was written without tags.
pub open spec fn untagged(keyed: bool, failure: TagFailure) -> TrackOutcome {
    TrackOutcome::Degraded { undecrypted: !keyed, untagged: Some(failure) }
}

/// The outcome of a track whose file was written and tagged.
pub open spec fn tagged(keyed: bool) -> TrackOutcome {
    if keyed {
        TrackOutcome::Success
    } else {
        TrackOutcome::Degraded { undecrypted: true, untagged: None }
    }
}

/// The step that asks for the tags to be written, with the cover that the
/// cache holds for `id`.
pub open spec fn embed_step(
    covers: Map<Seq<char>, (Seq<u8>, MimeKind)>,
    track: TrackDescriptor,
    choice: EncodingCandidate,
    keyed: bool,
    id: Seq<char>,
) -> TrackStep {
    TrackStep {
        state: TrackState::EmbedTags { choice, keyed },
        action: TrackActionView::EmbedTags { tags: tags_of(track, extension_of(choice.format), covers[id]) },
        covers,
    }
}

/// The step after the file was written: the track's best cover is looked
/// up in the cache, and fetched only if the cache does not hold it.
pub open spec fn tagging_step(
    covers: Map<Seq<char>, (Seq<u8>, MimeKind)>,
    track: TrackDescriptor,
    choice: EncodingCandidate,
    keyed: bool,
) -> TrackStep {
    match best_cover_of(track.covers@) {
        None => finished(untagged(keyed, TagFailure::NoCover), covers),
        Some(i) => {
            let id = track.covers@[i].id@;
            if covers.contains_key(id) {
                embed_step(covers, track, choice, keyed, id)
            } else {
                TrackStep {
                    state: TrackState::FetchCover { choice, keyed },
                    action: TrackActionView::FetchCover { id, url: IMAGE_URL@ + id },
                    covers,
                }
            }
        },
    }
}

/// The step after the cover was fetched: the body is offered to the cache,
/// and the tags take the cover that the cache then holds.
pub open spec fn cover_step(
    covers: Map<Seq<char>, (Seq<u8>, MimeKind)>,
    track: TrackDescriptor,
    choice: EncodingCandidate,
    keyed: bool,
    body: Seq<u8>,
) -> TrackStep {
    match best_cover_of(track.covers@) {
        None => finished(untagged(keyed, TagFailure::NoCover), covers),
        Some(i) => {
            let id = track.covers@[i].id@;
            embed_step(stored(covers, id, body), track, choice, keyed, id)
        },
    }
}

/// The track pipeline: what follows from `event` in `state`.
pub open spec fn track_step(
    covers: Map<Seq<char>, (Seq<u8>, MimeKind)>,
    track: TrackDescriptor,
    state: TrackState,
    event: TrackEventView,
) -> TrackStep {
    match (state, event) {
        (TrackState::SelectFormat, TrackEventView::Begin) => match best_candidate(
            preference(),
            track.files@,
        ) {
            Some(choice) => TrackStep {
                state: TrackState::OpenRemote { choice },
                action: TrackActionView::OpenRemote {
                    file: choice.file,
                    byte_rate: data_rate_of(choice.format) as usize,
                },
                covers,
            },
            None => finished(TrackOutcome::SkippedUnsupported, covers),
        },
        (TrackState::OpenRemote { choice }, TrackEventView::RemoteOpened { length }) => TrackStep {
            state: TrackState::FetchKey { choice, length },
            action: TrackActionView::FetchKey { file: choice.file },
            covers,
        },
        (TrackState::OpenRemote { choice }, TrackEventView::RemoteFailed) => finished(
            TrackOutcome::SkippedOpenFailure,
            covers,
        ),
        (TrackState::FetchKey { choice, length }, TrackEventView::KeyObtained) => TrackStep {
            state: TrackState::DecryptWindow { choice, keyed: true },
            action: TrackActionView::OpenWindow {
                keyed: true,
                offset: payload_offset_of(choice.format) as u64,
                length,
            },
            covers,
        },
        (TrackState::FetchKey { choice, length }, TrackEventView::KeyFailed) => TrackStep {
            state: TrackState::DecryptWindow { choice, keyed: false },
            action: TrackActionView::OpenWindow {
                keyed: false,
                offset: payload_offset_of(choice.format) as u64,
                length,
            },
            covers,
        },
        (TrackState::DecryptWindow { choice, keyed }, TrackEventView::WindowOpened) => TrackStep {
            state: TrackState::WriteBytes { choice, keyed },
            action: TrackActionView::WriteFile { name: file_name_of(track, extension_of(choice.format)) },
            covers,
        },
        (TrackState::DecryptWindow { choice, keyed }, TrackEventView::WindowFailed) => finished(
            TrackOutcome::SkippedWindowFailure,
            covers,
        ),
        (TrackState::WriteBytes { choice, keyed }, TrackEventView::BytesWritten) => tagging_step(
            covers,
            track,
            choice,
            keyed,
        ),
        (TrackState::WriteBytes { choice, keyed }, TrackEventView::WriteFailed) => finished(
            TrackOutcome::Fatal,
            covers,
        ),
        (TrackState::FetchCover { choice, keyed }, TrackEventView::CoverFetched { body }) => cover_step(
            covers,
            track,
            choice,
            keyed,
            body,
        ),
        (TrackState::FetchCover { choice, keyed }, TrackEventView::CoverFailed) => finished(
            untagged(keyed, TagFailure::CoverFetch),
            covers,
        ),
        (TrackState::EmbedTags { choice, keyed }, TrackEventView::TagsEmbedded) => finished(
            tagged(keyed),
            covers,
        ),
        (TrackState::EmbedTags { choice, keyed }, TrackEventView::TagsFailed) => finished(
            untagged(keyed, TagFailure::TagWrite),
            covers,
        ),
        _ => TrackStep { state, action: TrackActionView::Ignore, covers },
    }
}

/// Whether the album goes on after a track that ended with `outcome`: it
/// does unless the track's file could not be written.
pub open spec fn album_goes_on(outcome: TrackOutcome) -> bool {
    !(outcome is Fatal)
}

/// What the cover lookup for a track found.
#[derive(Debug, PartialEq, Eq)]
pub enum CoverLookup {
    /// The track has no cover.
    NoCover,
    /// The cache holds the track's cover.
    Cached { art: CoverArt },
    /// The cover has to be fetched from `url`.
    Missing { id: String, url: String },
}

/// The owner of the cover cache, and the seat of the two pipelines.
pub struct Downloader {
    cover_cache: CoverArtCache,
}

impl View for Downloader {
    type V = Map<Seq<char>, (Seq<u8>, MimeKind)>;

    /// The covers fetched so far, by identifier.
    closed spec fn view(&self) -> Map<Seq<char>, (Seq<u8>, MimeKind)> {
        self.cover_cache@
    }
}

impl Downloader {
    /// A downloader that has fetched no cover yet.
    pub fn new() -> (downloader: Downloader)
        ensures
            downloader@ == Map::<Seq<char>, (Seq<u8>, MimeKind)>::empty(),
    {
        Downloader { cover_cache: CoverArtCache::new() }
    }

    /// Looks for the best cover of `track`: the cover of the highest size
    /// class, from the cache if it is there.
    pub fn get_cover(&self, track: &TrackDescriptor) -> (found: CoverLookup)
        ensures
            match best_cover_of(track.covers@) {
                None => found is NoCover,
                Some(i) => {
                    let id = track.covers@[i].id@;
                    if self@.contains_key(id) {
                        found matches CoverLookup::Cached { art } && art@ == self@[id]
                    } else {
                        found matches CoverLookup::Missing { id: wanted, url } && wanted@ == id && url@
                            == IMAGE_URL@ + id
                    }
                },
            },
    {
        match best_cover(&track.covers) {
            None => CoverLookup::NoCover,
            Some(i) => {
                let id = track.covers[i].id.as_str();
                match self.cover_cache.get(id) {
                    Some(art) => CoverLookup::Cached { art },
                    None => CoverLookup::Missing { id: String::from_str(id), url: cover_url(id) },
                }
            },
        }
    }

    /// Takes the fetched body of the cover `id` into the cache, unless the
    /// cache holds a cover for `id` already, and gives the cover that the
    /// cache holds for `id` then.
    pub fn download_cover(&mut self, id: &str, body: Vec<u8>) -> (art: CoverArt)
        ensures
            final(self)@ == stored(old(self)@, id@, body@),
            art@ == final(self)@[id@],
    {
        self.cover_cache.store(id, body)
    }

    /// The step after the file was written.
    fn plan_tags(&self, track: &TrackDescriptor, choice: EncodingCandidate, keyed: bool) -> (step: (
        TrackState,
        TrackAction,
    ))
        ensures
            step.0 == tagging_step(self@, *track, choice, keyed).state,
            step.1@ == tagging_step(self@, *track, choice, keyed).action,
    {
        match self.get_cover(track) {
            CoverLookup::NoCover => {
                let outcome = TrackOutcome::Degraded {
                    undecrypted: !keyed,
                    untagged: Some(TagFailure::NoCover),
                };
                (TrackState::Done { outcome }, TrackAction::Finish { outcome })
            },
            CoverLookup::Cached { art } => {
                let extension = get_extension_from_format(choice.format);
                let tags = build_tags(track, extension.as_str(), art);
                (TrackState::EmbedTags { choice, keyed }, TrackAction::EmbedTags { tags })
            },
            CoverLookup::Missing { id, url } => (
                TrackState::FetchCover { choice, keyed },
                TrackAction::FetchCover { id, url },
            ),
        }
    }

    /// The step after the cover was fetched.
    fn take_cover(
        &mut self,
        track: &TrackDescriptor,
        choice: EncodingCandidate,
        keyed: bool,
        body: Vec<u8>,
    ) -> (step: (TrackState, TrackAction))
        ensures
            step.0 == cover_step(old(self)@, *track, choice, keyed, body@).state,
            step.1@ == cover_step(old(self)@, *track, choice, keyed, body@).action,
            final(self)@ == cover_step(old(self)@, *track, choice, keyed, body@).covers,
    {
        match best_cover(&track.covers) {
            None => {
                let outcome = TrackOutcome::Degraded {
                    undecrypted: !keyed,
                    untagged: Some(TagFailure::NoCover),
                };
                (TrackState::Done { outcome }, TrackAction::Finish { outcome })
            },
            Some(i) => {
                let art = self.download_cover(track.covers[i].id.as_str(), body);
                let extension = get_extension_from_format(choice.format);
                let tags = build_tags(track, extension.as_str(), art);
                (TrackState::EmbedTags { choice, keyed }, TrackAction::EmbedTags { tags })
            },
        }
    }

    /// One step of the work on `track`: given the state that the work is
    /// in and the event that came, the state to go on from and the action
    /// to perform. Only a fetched cover changes the downloader: its body
    /// goes into the cover cache.
    ///
    /// The work starts in [`TrackState::SelectFormat`] with
    /// [`TrackEvent::Begin`] and is over with [`TrackAction::Finish`].
    pub fn download_track(&mut self, track: &TrackDescriptor, state: TrackState, event: TrackEvent) -> (step: (
        TrackState,
        TrackAction,
    ))
        ensures
            step.0 == track_step(old(self)@, *track, state, event@).state,
            step.1@ == track_step(old(self)@, *track, state, event@).action,
            final(self)@ == track_step(old(self)@, *track, state, event@).covers,
    {
        match state {
            TrackState::SelectFormat => match event {
                TrackEvent::Begin => match select_format(&track.files) {
                    Some(choice) => (
                        TrackState::OpenRemote { choice },
                        TrackAction::OpenRemote {
                            file: choice.file,
                            byte_rate: format_data_rate(choice.format),
                        },
                    ),
                    None => {
                        let outcome = TrackOutcome::SkippedUnsupported;
                        (TrackState::Done { outcome }, TrackAction::Finish { outcome })
                    },
                },
                _ => (state, TrackAction::Ignore),
            },
            TrackState::OpenRemote { choice } => match event {
                TrackEvent::RemoteOpened { length } => (
                    TrackState::FetchKey { choice, length },
                    TrackAction::FetchKey { file: choice.file },
                ),
                TrackEvent::RemoteFailed => {
                    let outcome = TrackOutcome::SkippedOpenFailure;
                    (TrackState::Done { outcome }, TrackAction::Finish { outcome })
                },
                _ => (state, TrackAction::Ignore),
            },
            TrackState::FetchKey { choice, length } => match event {
                TrackEvent::KeyObtained => (
                    TrackState::DecryptWindow { choice, keyed: true },
                    TrackAction::OpenWindow { keyed: true, offset: payload_offset(choice.format), length },
                ),
                TrackEvent::KeyFailed => (
                    TrackState::DecryptWindow { choice, keyed: false },
                    TrackAction::OpenWindow { keyed: false, offset: payload_offset(choice.format), length },
                ),
                _ => (state, TrackAction::Ignore),
            },
            TrackState::DecryptWindow { choice, keyed } => match event {
                TrackEvent::WindowOpened => {
                    let extension = get_extension_from_format(choice.format);
                    let name = track_file_name(track, extension.as_str());
                    (TrackState::WriteBytes { choice, keyed }, TrackAction::WriteFile { name })
                },
                TrackEvent::WindowFailed => {
                    let outcome = TrackOutcome::SkippedWindowFailure;
                    (TrackState::Done { outcome }, TrackAction::Finish { outcome })
                },
                _ => (state, TrackAction::Ignore),
            },
            TrackState::WriteBytes { choice, keyed } => match event {
                TrackEvent::BytesWritten => self.plan_tags(track, choice, keyed),
                TrackEvent::WriteFailed => {
                    let outcome = TrackOutcome::Fatal;
                    (TrackState::Done { outcome }, TrackAction::Finish { outcome })
                },
                _ => (state, TrackAction::Ignore),
            },
            TrackState::FetchCover { choice, keyed } => match event {
                TrackEvent::CoverFetched { body } => self.take_cover(track, choice, keyed, body),
                TrackEvent::CoverFailed => {
                    let outcome = TrackOutcome::Degraded {
                        undecrypted: !keyed,
                        untagged: Some(TagFailure::CoverFetch),
                    };
                    (TrackState::Done { outcome }, TrackAction::Finish { outcome })
                },
                _ => (state, TrackAction::Ignore),
            },
            TrackState::EmbedTags { choice, keyed } => match event {
                TrackEvent::TagsEmbedded => {
                    let outcome = if keyed {
                        TrackOutcome::Success
                    } else {
                        TrackOutcome::Degraded { undecrypted: true, untagged: None }
                    };
                    (TrackState::Done { outcome }, TrackAction::Finish { outcome })
                },
                TrackEvent::TagsFailed => {
                    let outcome = TrackOutcome::Degraded {
                        undecrypted: !keyed,
                        untagged: Some(TagFailure::TagWrite),
                    };
                    (TrackState::Done { outcome }, TrackAction::Finish { outcome })
                },
                _ => (state, TrackAction::Ignore),
            },
            TrackState::Done { outcome } => (state, TrackAction::Ignore),
        }
    }
}

/// Where the work on an album stands.
#[derive(Clone, Copy, Debug, PartialEq, Eq)]
pub enum AlbumState {
    Start,
    /// The album's directory is being created.
    Directory,
    /// The track at this place of the album's listing is being worked on.
    Track { index: usize },
    /// The work is over: every track was worked on, or it was broken off.
    Done { completed: bool },
}

/// What happened since the album's last action.
#[derive(Clone, Copy, Debug, PartialEq, Eq)]
pub enum AlbumEvent {
    /// The work on the album starts.
    Begin,
    /// The directory was asked for; whether it was there before is of no account.
    DirectoryReady,
    /// The work on the track is over.
    TrackFinished { outcome: TrackOutcome },
    /// The catalogue did not give the track's description.
    TrackUnresolved,
}

/// What to do next for the album.
#[derive(Debug, PartialEq, Eq)]
pub enum AlbumAction {
    /// Create the directory named like the album, if it is not there.
    CreateDirectory { name: String },
    /// Resolve the track of this reference and run the track pipeline on it.
    DownloadTrack { index: usize, reference: String },
    /// The work on the album is over.
    Finish { completed: bool },
    /// The event does not belong to the state; nothing has changed.
    Ignore,
}

/// What an [`AlbumAction`] stands for.
pub ghost enum AlbumActionView {
    CreateDirectory { name: Seq<char> },
    DownloadTrack { index: usize, reference: Seq<char> },
    Finish { completed: bool },
    Ignore,
}

impl View for AlbumAction {
    type V = AlbumActionView;

    open spec fn view(&self) -> AlbumActionView {
        match self {
            AlbumAction::CreateDirectory { name } => AlbumActionView::CreateDirectory { name: name@ },
            AlbumAction::DownloadTrack { index, reference } => AlbumActionView::DownloadTrack {
                index: *index,
                reference: reference@,
            },
            AlbumAction::Finish { completed } => AlbumActionView::Finish { completed: *completed },
            AlbumAction::Ignore => AlbumActionView::Ignore,
        }
    }
}

/// One step of the album pipeline.
pub ghost struct AlbumStep {
    pub state: AlbumState,
    pub action: AlbumActionView,
}

/// The step that turns to the track at place `index` of the listing, or
/// ends the work when the listing has no such place.
pub open spec fn turn_to(album: AlbumDescriptor, index: int) -> AlbumStep {
    if 0 <= index < album.tracks@.len() {
        AlbumStep {
            state: AlbumState::Track { index: index as usize },
            action: AlbumActionView::DownloadTrack {
                index: index as usize,
                reference: album.tracks@[index]@,
            },
        }
    } else {
        AlbumStep {
            state: AlbumState::Done { completed: true },
            action: AlbumActionView::Finish { completed: true },
        }
    }
}

/// The step that breaks the work on the album off.
pub open spec fn broken_off() -> AlbumStep {
    AlbumStep {
        state: AlbumState::Done { completed: false },
        action: AlbumActionView::Finish { completed: false },
    }
}

/// The album pipeline: what follows from `event` in `state`.
pub open spec fn album_step(album: AlbumDescriptor, state: AlbumState, event: AlbumEvent) -> AlbumStep {
    match (state, event) {
        (AlbumState::Start, AlbumEvent::Begin) => AlbumStep {
            state: AlbumState::Directory,
            action: AlbumActionView::CreateDirectory { name: album.name@ },
        },
        (AlbumState::Directory, AlbumEvent::DirectoryReady) => turn_to(album, 0),
        (AlbumState::Track { index }, AlbumEvent::TrackFinished { outcome }) => if album_goes_on(outcome) {
            turn_to(album, index + 1)
        } else {
            broken_off()
        },
        (AlbumState::Track { index }, AlbumEvent::TrackUnresolved) => broken_off(),
        _ => AlbumStep { state, action: AlbumActionView::Ignore },
    }
}

/// Whether the album goes on after a track that ended with `outcome`.
pub fn goes_on(outcome: TrackOutcome) -> (on: bool)
    ensures
        on == album_goes_on(outcome),
{
    match outcome {
        TrackOutcome::Fatal => false,
        _ => true,
    }
}

impl Downloader {
    /// The step that turns to the track at place `index`.
    fn turn_to_track(album: &AlbumDescriptor, index: usize) -> (step: (AlbumState, AlbumAction))
        ensures
            step.0 == turn_to(*album, index as int).state,
            step.1@ == turn_to(*album, index as int).action,
    {
        if index < album.tracks.len() {
            (
                AlbumState::Track { index },
                AlbumAction::DownloadTrack { index, reference: album.tracks[index].clone() },
            )
        } else {
            (AlbumState::Done { completed: true }, AlbumAction::Finish { completed: true })
        }
    }

    /// One step of the work on `album`: given the state that the work is
    /// in and the event that came, the state to go on from and the action
    /// to perform. The tracks are taken in the order of the listing, one
    /// after the other; the work is broken off when a track's file could
    /// not be written or a track could not be resolved, and goes on after
    /// every other outcome.
    ///
    /// The work starts in [`AlbumState::Start`] with [`AlbumEvent::Begin`]
    /// and is over with [`AlbumAction::Finish`].
    pub fn download_album(&self, album: &AlbumDescriptor, state: AlbumState, event: AlbumEvent) -> (step: (
        AlbumState,
        AlbumAction,
    ))
        ensures
            step.0 == album_step(*album, state, event).state,
            step.1@ == album_step(*album, state, event).action,
    {
        match state {
            AlbumState::Start => match event {
                AlbumEvent::Begin => (
                    AlbumState::Directory,
                    AlbumAction::CreateDirectory { name: album.name.clone() },
                ),
                _ => (state, AlbumAction::Ignore),
            },
            AlbumState::Directory => match event {
                AlbumEvent::DirectoryReady => Self::turn_to_track(album, 0),
                _ => (state, AlbumAction::Ignore),
            },
            AlbumState::Track { index } => match event {
                AlbumEvent::TrackFinished { outcome } => {
                    if !goes_on(outcome) {
                        (AlbumState::Done { completed: false }, AlbumAction::Finish { completed: false })
                    } else if index < album.tracks.len() {
                        Self::turn_to_track(album, index + 1)
                    } else {
                        (AlbumState::Done { completed: true }, AlbumAction::Finish { completed: true })
                    }
                },
                AlbumEvent::TrackUnresolved => (
                    AlbumState::Done { completed: false },
                    AlbumAction::Finish { completed: false },
                ),
                _ => (state, AlbumAction::Ignore),
            },
            AlbumState::Done { completed } => (state, AlbumAction::Ignore),
        }
    }
}

/// The actions that the track pipeline asks for, one for each of `events`,
/// when it is handed them in order.
pub open spec fn track_actions(
    covers: Map<Seq<char>, (Seq<u8>, MimeKind)>,
    track: TrackDescriptor,
    state: TrackState,
    events: Seq<TrackEventView>,
) -> Seq<TrackActionView>
    decreases events.len(),
{
    if events.len() == 0 {
        Seq::empty()
    } else {
        let step = track_step(covers, track, state, events[0]);
        seq![step.action] + track_actions(step.covers, track, step.state, events.drop_first())
    }
}

/// How far the work on a track has come.
pub open spec fn stage_of(state: TrackState) -> nat {
    match state {
        TrackState::SelectFormat => 0,
        TrackState::OpenRemote { .. } => 1,
        TrackState::FetchKey { .. } => 2,
        TrackState::DecryptWindow { .. } => 3,
        TrackState::WriteBytes { .. } => 4,
        TrackState::FetchCover { .. } => 5,
        TrackState::EmbedTags { .. } => 6,
        TrackState::Done { .. } => 7,
    }
}

/// The state of the album pipeline after it was started, the directory
/// was made, and the tracks ended with `outcomes`, in this order.
pub open spec fn album_state_after(album: AlbumDescriptor, outcomes: Seq<TrackOutcome>) -> AlbumState
    decreases outcomes.len(),
{
    if outcomes.len() == 0 {
        album_step(
            album,
            album_step(album, AlbumState::Start, AlbumEvent::Begin).state,
            AlbumEvent::DirectoryReady,
        ).state
    } else {
        album_step(
            album,
            album_state_after(album, outcomes.drop_last()),
            AlbumEvent::TrackFinished { outcome: outcomes.last() },
        ).state
    }
}

/// The action that the album pipeline asks for at the end of the same events.
pub open spec fn album_action_after(album: AlbumDescriptor, outcomes: Seq<TrackOutcome>) -> AlbumActionView {
    if outcomes.len() == 0 {
        album_step(
            album,
            album_step(album, AlbumState::Start, AlbumEvent::Begin).state,
            AlbumEvent::DirectoryReady,
        ).action
    } else {
        album_step(
            album,
            album_state_after(album, outcomes.drop_last()),
            AlbumEvent::TrackFinished { outcome: outcomes.last() },
        ).action
    }
}

/// A track that is available in no format of the preference order is
/// skipped at once, and no event that may follow makes the pipeline ask for
/// a file to be written, or for anything else.
pub proof fn lemma_unsupported_track_writes_nothing(
    covers: Map<Seq<char>, (Seq<u8>, MimeKind)>,
    track: TrackDescriptor,
    events: Seq<TrackEventView>,
)
    requires
        best_candidate(preference(), track.files@) is None,
    ensures
        track_step(covers, track, TrackState::SelectFormat, TrackEventView::Begin) == finished(
            TrackOutcome::SkippedUnsupported,
            covers,
        ),
        track_actions(covers, track, TrackState::SelectFormat, events).len() == events.len(),
        forall|i: int|
            0 <= i < events.len() ==> {
                let action = #[trigger] track_actions(covers, track, TrackState::SelectFormat, events)[i];
                action is Ignore || action == (TrackActionView::Finish {
                    outcome: TrackOutcome::SkippedUnsupported,
                })
            },
{
    lemma_idle_track_writes_nothing(covers, track, TrackState::SelectFormat, events);
}

/// The same, from either state that such a track can be in.
proof fn lemma_idle_track_writes_nothing(
    covers: Map<Seq<char>, (Seq<u8>, MimeKind)>,
    track: TrackDescriptor,
    state: TrackState,
    events: Seq<TrackEventView>,
)
    requires
        best_candidate(preference(), track.files@) is None,
        state is SelectFormat || state is Done,
    ensures
        track_actions(covers, track, state, events).len() == events.len(),
        forall|i: int|
            0 <= i < events.len() ==> {
                let action = #[trigger] track_actions(covers, track, state, events)[i];
                action is Ignore || action == (TrackActionView::Finish {
                    outcome: TrackOutcome::SkippedUnsupported,
                })
            },
    decreases events.len(),
{
    if events.len() > 0 {
        let step = track_step(covers, track, state, events[0]);
        let rest = track_actions(step.covers, track, step.state, events.drop_first());
        lemma_idle_track_writes_nothing(step.covers, track, step.state, events.drop_first());
        let all = track_actions(covers, track, state, events);
        assert(all == seq![step.action] + rest);
        assert forall|i: int| 0 <= i < events.len() implies {
            let action = #[trigger] all[i];
            action is Ignore || action == (TrackActionView::Finish {
                outcome: TrackOutcome::SkippedUnsupported,
            })
        } by {
            if i > 0 {
                assert(all[i] == rest[i - 1]);
            }
        }
    }
}

/// The pipeline of a track runs forward only: an event that belongs to the
/// state leads to a later stage, and any other event changes nothing.
pub proof fn lemma_track_runs_forward(
    covers: Map<Seq<char>, (Seq<u8>, MimeKind)>,
    track: TrackDescriptor,
    state: TrackState,
    event: TrackEventView,
)
    ensures
        ({
            let step = track_step(covers, track, state, event);
            if step.action is Ignore {
                step.state == state && step.covers == covers
            } else {
                stage_of(step.state) > stage_of(state)
            }
        }),
{
}

/// A file is written at one point only: when the window was opened, under
/// the name made of the track's artists, name, identifier and the
/// extension of the chosen format.
pub proof fn lemma_file_is_written_once(
    covers: Map<Seq<char>, (Seq<u8>, MimeKind)>,
    track: TrackDescriptor,
    state: TrackState,
    event: TrackEventView,
)
    ensures
        track_step(covers, track, state, event).action is WriteFile <==> (state is DecryptWindow && event
            is WindowOpened),
        state matches TrackState::DecryptWindow { choice, keyed } ==> (event is WindowOpened ==> track_step(
            covers,
            track,
            state,
            event,
        ).action == (TrackActionView::WriteFile { name: file_name_of(track, extension_of(choice.format)) })),
{
}

/// A cover is fetched once: when a track has taken a fetched cover into the
/// cache, a later track with the same best cover is not made to fetch it,
/// whatever other covers were cached in between, and its tags carry the
/// same bytes and the same MIME type as those of the first track.
pub proof fn lemma_shared_cover_is_fetched_once(
    covers: Map<Seq<char>, (Seq<u8>, MimeKind)>,
    first: TrackDescriptor,
    second: TrackDescriptor,
    first_choice: EncodingCandidate,
    first_keyed: bool,
    second_choice: EncodingCandidate,
    second_keyed: bool,
    body: Seq<u8>,
    other_id: Seq<char>,
    other_body: Seq<u8>,
)
    requires
        best_cover_of(first.covers@) matches Some(i) && best_cover_of(second.covers@) matches Some(j)
            && first.covers@[i].id@ == second.covers@[j].id@,
    ensures
        ({
            let fetched = cover_step(covers, first, first_choice, first_keyed, body);
            let later = stored(fetched.covers, other_id, other_body);
            let reused = tagging_step(later, second, second_choice, second_keyed);
            &&& fetched.action matches TrackActionView::EmbedTags { tags: first_tags }
            &&& reused.action matches TrackActionView::EmbedTags { tags: second_tags }
            &&& second_tags.picture == first_tags.picture
            &&& reused.covers == later
        }),
{
}

/// The album pipeline takes the tracks in the order of the listing: as
/// long as no track's file failed to be written, the track asked for after
/// `outcomes.len()` tracks is the next of the listing, and after the last
/// track the album is complete.
pub proof fn lemma_album_takes_every_track(album: AlbumDescriptor, outcomes: Seq<TrackOutcome>)
    requires
        outcomes.len() <= album.tracks@.len(),
        forall|i: int| 0 <= i < outcomes.len() ==> album_goes_on(outcomes[i]),
    ensures
        album_state_after(album, outcomes) == turn_to(album, outcomes.len() as int).state,
        album_action_after(album, outcomes) == turn_to(album, outcomes.len() as int).action,
    decreases outcomes.len(),
{
    assert(album.tracks.len() == album.tracks@.len());
    if outcomes.len() > 0 {
        lemma_album_takes_every_track(album, outcomes.drop_last());
        let before = outcomes.drop_last();
        assert(before.len() == outcomes.len() - 1);
        assert(album_state_after(album, before) == (AlbumState::Track {
            index: (outcomes.len() - 1) as usize,
        }));
        assert(album_goes_on(outcomes.last()));
    }
}

/// A track whose file could not be written ends the album: the pipeline
/// asks for nothing more, and ignores whatever comes after.
pub proof fn lemma_fatal_track_ends_album(
    album: AlbumDescriptor,
    outcomes: Seq<TrackOutcome>,
    event: AlbumEvent,
)
    requires
        0 < outcomes.len() <= album.tracks@.len(),
        forall|i: int| 0 <= i < outcomes.len() - 1 ==> album_goes_on(outcomes[i]),
        !album_goes_on(outcomes.last()),
    ensures
        album_state_after(album, outcomes) == (AlbumState::Done { completed: false }),
        album_action_after(album, outcomes) == (AlbumActionView::Finish { completed: false }),
        album_step(album, album_state_after(album, outcomes), event).action is Ignore,
{
    lemma_album_takes_every_track(album, outcomes.drop_last());
}

} // verus!
