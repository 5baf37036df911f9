//! Audio encodings, their fixed preference order, and the selection of the
//! best encoding that a track offers.

use crate::assoc::{first_index, lemma_first_index, lemma_first_index_push};
use vstd::prelude::*;

verus! {

/// One encoding of a track: a codec together with its bitrate tier.
#[allow(non_camel_case_types)]
#[derive(Clone, Copy, Debug, PartialEq, Eq, Structural)]
pub enum AudioFormat {
    OggVorbis_96,
    OggVorbis_160,
    OggVorbis_320,
    Mp3_256,
    Mp3_320,
    Mp3_160,
    Mp3_96,
    Mp3_160_Enc,
    Aac_24,
    Aac_48,
    Flac,
    XheAac_24,
    XheAac_16,
    XheAac_12,
    Flac_24Bit,
    Aac_160,
    Aac_320,
    Mp4_128,
    Other5,
}

/// Opaque handle of a remote file.
#[derive(Clone, Copy, Debug, PartialEq, Eq)]
pub struct FileId(pub [u8; 20]);

/// An encoding that a track is available in, with the remote file that holds it.
#[derive(Clone, Copy, Debug, PartialEq, Eq)]
pub struct EncodingCandidate {
    pub format: AudioFormat,
    pub file: FileId,
}

/// Number of bytes that precede the audio payload in a decrypted Vorbis stream.
pub const OGG_HEADER_END: u64 = 0xa7;

/// The preference order, best quality first.
pub open spec fn preference() -> Seq<AudioFormat> {
    seq![
        AudioFormat::Flac_24Bit,
        AudioFormat::Flac,
        AudioFormat::Aac_320,
        AudioFormat::Mp3_320,
        AudioFormat::Mp3_256,
        AudioFormat::OggVorbis_320,
        AudioFormat::Aac_160,
        AudioFormat::Mp3_160_Enc,
        AudioFormat::Mp3_160,
        AudioFormat::OggVorbis_160,
        AudioFormat::Mp4_128,
        AudioFormat::Aac_48,
        AudioFormat::Aac_24,
        AudioFormat::XheAac_24,
        AudioFormat::XheAac_16,
        AudioFormat::XheAac_12,
        AudioFormat::OggVorbis_96,
        AudioFormat::Mp3_96,
        AudioFormat::Other5,
    ]
}

/// Index of the first entry of `order`, at or after `from`, that `available`
/// has as a key; `None` when no such entry exists.
pub open spec fn first_available(
    order: Seq<AudioFormat>,
    available: Map<AudioFormat, FileId>,
    from: int,
) -> Option<int>
    decreases order.len() - from,
{
    if from < 0 || from >= order.len() {
        None
    } else if available.contains_key(order[from]) {
        Some(from)
    } else {
        first_available(order, available, from + 1)
    }
}

/// The candidate that ranks first in `order` among those in `available`.
pub open spec fn best_candidate(
    order: Seq<AudioFormat>,
    available: Map<AudioFormat, FileId>,
) -> Option<EncodingCandidate> {
    match first_available(order, available, 0) {
        Some(i) => Some(EncodingCandidate { format: order[i], file: available[order[i]] }),
        None => None,
    }
}

/// File extension of a format, by codec family.
pub open spec fn extension_of(format: AudioFormat) -> Seq<char> {
    match format {
        AudioFormat::OggVorbis_96 | AudioFormat::OggVorbis_160 | AudioFormat::OggVorbis_320 => "ogg"@,
        AudioFormat::Mp3_96
        | AudioFormat::Mp3_160
        | AudioFormat::Mp3_256
        | AudioFormat::Mp3_320
        | AudioFormat::Mp3_160_Enc => "mp3"@,
        AudioFormat::Aac_24
        | AudioFormat::Aac_48
        | AudioFormat::Aac_160
        | AudioFormat::Aac_320
        | AudioFormat::Mp4_128
        | AudioFormat::XheAac_12
        | AudioFormat::XheAac_16
        | AudioFormat::XheAac_24 => "aac"@,
        AudioFormat::Flac | AudioFormat::Flac_24Bit => "flac"@,
        AudioFormat::Other5 => "bin"@,
    }
}

/// Assumed average rate of a format, in units of 512 bytes per second.
pub open spec fn half_kib_per_second(format: AudioFormat) -> nat {
    match format {
        AudioFormat::OggVorbis_96 => 24,
        AudioFormat::OggVorbis_160 => 40,
        AudioFormat::OggVorbis_320 => 80,
        AudioFormat::Mp3_256 => 64,
        AudioFormat::Mp3_320 => 80,
        AudioFormat::Mp3_160 => 40,
        AudioFormat::Mp3_96 => 24,
        AudioFormat::Mp3_160_Enc => 40,
        AudioFormat::Aac_24 => 6,
        AudioFormat::Aac_48 => 12,
        AudioFormat::Aac_160 => 40,
        AudioFormat::Aac_320 => 80,
        AudioFormat::Mp4_128 => 32,
        AudioFormat::Other5 => 80,
        AudioFormat::Flac => 224,
        AudioFormat::XheAac_12 => 3,
        AudioFormat::XheAac_16 => 4,
        AudioFormat::XheAac_24 => 6,
        AudioFormat::Flac_24Bit => 6,
    }
}

/// Assumed average rate of a format, in bytes per second.
pub open spec fn data_rate_of(format: AudioFormat) -> nat {
    half_kib_per_second(format) * 512
}

/// Whether a format belongs to the Vorbis family.
pub open spec fn is_vorbis(format: AudioFormat) -> bool {
    format == AudioFormat::OggVorbis_96 || format == AudioFormat::OggVorbis_160 || format
        == AudioFormat::OggVorbis_320
}

/// Number of leading bytes of the decrypted stream that are not audio payload.
pub open spec fn payload_offset_of(format: AudioFormat) -> nat {
    if is_vorbis(format) {
        OGG_HEADER_END as nat
    } else {
        0
    }
}

/// The file extension of `format`.
pub fn get_extension_from_format(format: AudioFormat) -> (extension: String)
    ensures
        extension@ == extension_of(format),
{
    let extension = match format {
        AudioFormat::OggVorbis_96 | AudioFormat::OggVorbis_160 | AudioFormat::OggVorbis_320 => "ogg",
        AudioFormat::Mp3_96
        | AudioFormat::Mp3_160
        | AudioFormat::Mp3_256
        | AudioFormat::Mp3_320
        | AudioFormat::Mp3_160_Enc => "mp3",
        AudioFormat::Aac_24
        | AudioFormat::Aac_48
        | AudioFormat::Aac_160
        | AudioFormat::Aac_320
        | AudioFormat::Mp4_128
        | AudioFormat::XheAac_12
        | AudioFormat::XheAac_16
        | AudioFormat::XheAac_24 => "aac",
        AudioFormat::Flac | AudioFormat::Flac_24Bit => "flac",
        AudioFormat::Other5 => "bin",
    };
    String::from_str(extension)
}

/// The assumed average byte rate of `format`, a buffering hint for the
/// streaming side.
pub fn format_data_rate(format: AudioFormat) -> (rate: usize)
    ensures
        rate == data_rate_of(format),
{
    let half_kib: usize = match format {
        AudioFormat::OggVorbis_96 => 24,
        AudioFormat::OggVorbis_160 => 40,
        AudioFormat::OggVorbis_320 => 80,
        AudioFormat::Mp3_256 => 64,
        AudioFormat::Mp3_320 => 80,
        AudioFormat::Mp3_160 => 40,
        AudioFormat::Mp3_96 => 24,
        AudioFormat::Mp3_160_Enc => 40,
        AudioFormat::Aac_24 => 6,
        AudioFormat::Aac_48 => 12,
        AudioFormat::Aac_160 => 40,
        AudioFormat::Aac_320 => 80,
        AudioFormat::Mp4_128 => 32,
        AudioFormat::Other5 => 80,
        AudioFormat::Flac => 224,
        AudioFormat::XheAac_12 => 3,
        AudioFormat::XheAac_16 => 4,
        AudioFormat::XheAac_24 => 6,
        AudioFormat::Flac_24Bit => 6,
    };
    half_kib * 512
}

/// Whether `format` belongs to the Vorbis family.
pub fn is_ogg_vorbis(format: AudioFormat) -> (vorbis: bool)
    ensures
        vorbis == is_vorbis(format),
{
    match format {
        AudioFormat::OggVorbis_96 | AudioFormat::OggVorbis_160 | AudioFormat::OggVorbis_320 => true,
        _ => false,
    }
}

/// The number of leading bytes to skip in the decrypted stream of `format`.
pub fn payload_offset(format: AudioFormat) -> (offset: u64)
    ensures
        offset == payload_offset_of(format),
{
    if is_ogg_vorbis(format) {
        OGG_HEADER_END
    } else {
        0
    }
}

/// The preference order as a vector, best quality first.
pub fn format_preference() -> (order: Vec<AudioFormat>)
    ensures
        order@ == preference(),
{
    let mut order: Vec<AudioFormat> = Vec::new();
    order.push(AudioFormat::Flac_24Bit);
    order.push(AudioFormat::Flac);
    order.push(AudioFormat::Aac_320);
    order.push(AudioFormat::Mp3_320);
    order.push(AudioFormat::Mp3_256);
    order.push(AudioFormat::OggVorbis_320);
    order.push(AudioFormat::Aac_160);
    order.push(AudioFormat::Mp3_160_Enc);
    order.push(AudioFormat::Mp3_160);
    order.push(AudioFormat::OggVorbis_160);
    order.push(AudioFormat::Mp4_128);
    order.push(AudioFormat::Aac_48);
    order.push(AudioFormat::Aac_24);
    order.push(AudioFormat::XheAac_24);
    order.push(AudioFormat::XheAac_16);
    order.push(AudioFormat::XheAac_12);
    order.push(AudioFormat::OggVorbis_96);
    order.push(AudioFormat::Mp3_96);
    order.push(AudioFormat::Other5);
    assert(order@ =~= preference());
    order
}

/// The formats of a list of candidates, in the order of the list.
pub open spec fn formats_of(entries: Seq<EncodingCandidate>) -> Seq<AudioFormat> {
    Seq::new(entries.len(), |i: int| entries[i].format)
}

/// The encodings that a track is available in: a finite mapping from format
/// to remote file, with one file per format.
pub struct AudioFiles {
    entries: Vec<EncodingCandidate>,
}

impl View for AudioFiles {
    type V = Map<AudioFormat, FileId>;

    closed spec fn view(&self) -> Map<AudioFormat, FileId> {
        Map::new(
            |f: AudioFormat| first_index(formats_of(self.entries@), f, 0) is Some,
            |f: AudioFormat| self.entries@[first_index(formats_of(self.entries@), f, 0).unwrap()].file,
        )
    }
}

impl AudioFiles {
    /// A mapping without entries.
    pub fn new() -> (files: AudioFiles)
        ensures
            files@ == Map::<AudioFormat, FileId>::empty(),
    {
        let files = AudioFiles { entries: Vec::new() };
        assert(files@ =~= Map::<AudioFormat, FileId>::empty());
        files
    }

    /// Position of the first entry for `format`, if there is one.
    fn position(&self, format: AudioFormat) -> (found: Option<usize>)
        ensures
            match found {
                Some(i) => first_index(formats_of(self.entries@), format, 0) == Some(i as int),
                None => first_index(formats_of(self.entries@), format, 0) is None,
            },
    {
        let ghost formats = formats_of(self.entries@);
        let mut i: usize = 0;
        while i < self.entries.len()
            invariant
                i <= self.entries@.len(),
                formats == formats_of(self.entries@),
                first_index(formats, format, 0) == first_index(formats, format, i as int),
            decreases self.entries@.len() - i,
        {
            if self.entries[i].format == format {
                return Some(i);
            }
            i += 1;
        }
        None
    }

    /// The file recorded for `format`, if there is one.
    pub fn get(&self, format: AudioFormat) -> (file: Option<FileId>)
        ensures
            file == if self@.contains_key(format) {
                Some(self@[format])
            } else {
                None
            },
    {
        proof {
            lemma_first_index(formats_of(self.entries@), format, 0);
        }
        match self.position(format) {
            Some(i) => Some(self.entries[i].file),
            None => None,
        }
    }

    /// Records `file` for `format`, in place of any file recorded for it before.
    pub fn insert(&mut self, format: AudioFormat, file: FileId)
        ensures
            final(self)@ == old(self)@.insert(format, file),
    {
        let candidate = EncodingCandidate { format, file };
        let ghost before = self.entries@;
        proof {
            lemma_first_index(formats_of(before), format, 0);
        }
        match self.position(format) {
            Some(i) => {
                self.entries.set(i, candidate);
                proof {
                    assert(formats_of(self.entries@) =~= formats_of(before));
                    assert forall|f: AudioFormat| f != format && #[trigger] old(self)@.contains_key(
                        f,
                    ) implies final(self)@[f] == old(self)@[f] by {
                        lemma_first_index(formats_of(before), f, 0);
                    }
                    assert(final(self)@.dom() =~= old(self)@.insert(format, file).dom());
                    assert(final(self)@[format] == file);
                    assert(final(self)@ =~= old(self)@.insert(format, file));
                }
            },
            None => {
                self.entries.push(candidate);
                proof {
                    assert(formats_of(self.entries@) =~= formats_of(before).push(format));
                    assert forall|f: AudioFormat|
                        first_index(formats_of(self.entries@), f, 0) == (match first_index(
                            formats_of(before),
                            f,
                            0,
                        ) {
                            Some(i) => Some(i),
                            None => if f == format {
                                Some(before.len() as int)
                            } else {
                                None
                            },
                        }) by {
                        lemma_first_index_push(formats_of(before), format, f, 0);
                    }
                    assert forall|f: AudioFormat| #[trigger]
                        old(self)@.contains_key(f) implies final(self)@[f] == old(self)@[f] by {
                        lemma_first_index(formats_of(before), f, 0);
                    }
                    assert(final(self)@.dom() =~= old(self)@.insert(format, file).dom());
                    assert(final(self)@[format] == file);
                    assert(final(self)@ =~= old(self)@.insert(format, file));
                }
            },
        }
    }
}

/// Picks the encoding to download: the candidate of `files` whose format
/// comes first in the preference order, or `None` when `files` holds no
/// format of that order.
pub fn select_format(files: &AudioFiles) -> (choice: Option<EncodingCandidate>)
    ensures
        choice == best_candidate(preference(), files@),
{
    let order = format_preference();
    let mut i: usize = 0;
    while i < order.len()
        invariant
            i <= order@.len(),
            order@ == preference(),
            first_available(order@, files@, 0) == first_available(order@, files@, i as int),
        decreases order@.len() - i,
    {
        let format = order[i];
        match files.get(format) {
            Some(file) => {
                return Some(EncodingCandidate { format, file });
            },
            None => {},
        }
        i += 1;
    }
    None
}

/// A selection is the earliest entry of the order that is available: it is
/// available itself and no entry before it is.
pub proof fn lemma_first_available_is_earliest(
    order: Seq<AudioFormat>,
    available: Map<AudioFormat, FileId>,
    from: int,
)
    requires
        0 <= from,
    ensures
        match first_available(order, available, from) {
            Some(i) => {
                &&& from <= i < order.len()
                &&& available.contains_key(order[i])
                &&& forall|j: int| from <= j < i ==> !available.contains_key(#[trigger] order[j])
            },
            None => forall|j: int| from <= j < order.len() ==> !available.contains_key(#[trigger] order[j]),
        },
    decreases order.len() - from,
{
    if from < order.len() && !available.contains_key(order[from]) {
        lemma_first_available_is_earliest(order, available, from + 1);
    }
}

/// Whenever some entry of the order is available, a candidate is selected,
/// and it is the earliest such entry, with the file the mapping records for it.
pub proof fn lemma_selection_when_supported(available: Map<AudioFormat, FileId>, k: int)
    requires
        0 <= k < preference().len(),
        available.contains_key(preference()[k]),
    ensures
        best_candidate(preference(), available) matches Some(c) && exists|i: int|
            0 <= i <= k && c.format == preference()[i] && c.file == available[c.format] && forall|j: int|
                0 <= j < i ==> !available.contains_key(#[trigger] preference()[j]),
{
    lemma_first_available_is_earliest(preference(), available, 0);
    let i = first_available(preference(), available, 0).unwrap();
    assert(i <= k) by {
        if i > k {
            assert(!available.contains_key(preference()[k]));
        }
    }
}

/// When the mapping shares no entry with the order, nothing is selected.
pub proof fn lemma_no_selection_when_unsupported(available: Map<AudioFormat, FileId>)
    requires
        forall|j: int| 0 <= j < preference().len() ==> !available.contains_key(#[trigger] preference()[j]),
    ensures
        best_candidate(preference(), available) is None,
{
    lemma_first_available_is_earliest(preference(), available, 0);
}

} // verus!
