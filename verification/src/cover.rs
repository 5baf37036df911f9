//! Cover art: which of a track's covers to take, what kind of image a
//! fetched body is, and the cache that keeps each fetched cover.

use crate::assoc::{first_index, lemma_first_index, lemma_first_index_push};
use vstd::prelude::*;

verus! {

/// Size class of a cover image.
#[derive(Clone, Copy, Debug, PartialEq, Eq, Structural)]
pub enum CoverSize {
    Default,
    Small,
    Large,
    ExtraLarge,
}

/// One available artwork image: its identifier and its size class.
#[derive(Debug, PartialEq, Eq)]
pub struct CoverDescriptor {
    pub id: String,
    pub size: CoverSize,
}

/// MIME type of a picture.
#[derive(Debug, PartialEq, Eq)]
pub enum ImageMime {
    Png,
    Jpeg,
    Tiff,
    Bmp,
    Gif,
    /// Any other type, by its name.
    Unknown(String),
}

/// What an [`ImageMime`] stands for.
pub ghost enum MimeKind {
    Png,
    Jpeg,
    Tiff,
    Bmp,
    Gif,
    Unknown(Seq<char>),
}

impl View for ImageMime {
    type V = MimeKind;

    open spec fn view(&self) -> MimeKind {
        match self {
            ImageMime::Png => MimeKind::Png,
            ImageMime::Jpeg => MimeKind::Jpeg,
            ImageMime::Tiff => MimeKind::Tiff,
            ImageMime::Bmp => MimeKind::Bmp,
            ImageMime::Gif => MimeKind::Gif,
            ImageMime::Unknown(name) => MimeKind::Unknown(name@),
        }
    }
}

/// A fetched cover: the bytes of the image and its MIME type.
#[derive(Debug, PartialEq, Eq)]
pub struct CoverArt {
    pub data: Vec<u8>,
    pub mime: ImageMime,
}

impl View for CoverArt {
    type V = (Seq<u8>, MimeKind);

    open spec fn view(&self) -> (Seq<u8>, MimeKind) {
        (self.data@, self.mime@)
    }
}

/// Address under which cover images are served; a cover's identifier follows it.
pub const IMAGE_URL: &'static str = "https://i.scdn.co/image/";

/// The image types that a cover request says it accepts.
pub const IMAGE_ACCEPT: &'static str =
    "image/avif,image/webp,image/apng,image/svg+xml,image/*,*/*;q=0.8";

/// Ordinal rank of a size class: larger artwork ranks higher.
pub open spec fn rank_of(size: CoverSize) -> int {
    match size {
        CoverSize::Default => 0,
        CoverSize::Small => 1,
        CoverSize::Large => 2,
        CoverSize::ExtraLarge => 3,
    }
}

/// Whether `index` is the cover to take: none ranks above it, and every
/// later one ranks below it.
pub open spec fn is_best_cover(covers: Seq<CoverDescriptor>, index: int) -> bool {
    &&& 0 <= index < covers.len()
    &&& forall|j: int| 0 <= j < covers.len() ==> rank_of(covers[j].size) <= rank_of(covers[index].size)
    &&& forall|j: int| index < j < covers.len() ==> rank_of(covers[j].size) < rank_of(covers[index].size)
}

/// The index of the cover to take, if there is a cover.
pub open spec fn best_cover_of(covers: Seq<CoverDescriptor>) -> Option<int> {
    if exists|i: int| is_best_cover(covers, i) {
        Some(choose|i: int| is_best_cover(covers, i))
    } else {
        None
    }
}

/// At most one index is the cover to take.
pub proof fn lemma_best_cover_unique(covers: Seq<CoverDescriptor>, i: int, j: int)
    requires
        is_best_cover(covers, i),
        is_best_cover(covers, j),
    ensures
        i == j,
{
}

/// The MIME name that the leading bytes of `data` give away, if they give
/// one away: what `infer::get` finds, by its `mime_type`.
pub uninterp spec fn sniffed_mime(data: Seq<u8>) -> Option<Seq<char>>;

/// The MIME type that a MIME name denotes: what
/// `lofty::picture::MimeType::from_str` makes of it.
pub uninterp spec fn mime_of_text(text: Seq<char>) -> MimeKind;

/// The MIME type to record for a sniffing result: the type that the name
/// found denotes, and JPEG when nothing was found.
pub open spec fn mime_for(found: Option<Seq<char>>) -> MimeKind {
    match found {
        Some(name) => mime_of_text(name),
        None => MimeKind::Jpeg,
    }
}

/// The MIME type to record for an image body.
pub open spec fn detected_mime(data: Seq<u8>) -> MimeKind {
    mime_for(sniffed_mime(data))
}

/// A cache after it was offered `data` for `id`: an identifier that it
/// holds keeps its cover, a new one gets `data` with its detected type.
pub open spec fn stored(
    cache: Map<Seq<char>, (Seq<u8>, MimeKind)>,
    id: Seq<char>,
    data: Seq<u8>,
) -> Map<Seq<char>, (Seq<u8>, MimeKind)> {
    if cache.contains_key(id) {
        cache
    } else {
        cache.insert(id, (data, detected_mime(data)))
    }
}

/// The rank of `size`.
pub fn size_rank(size: CoverSize) -> (rank: i32)
    ensures
        rank == rank_of(size),
{
    match size {
        CoverSize::Default => 0,
        CoverSize::Small => 1,
        CoverSize::Large => 2,
        CoverSize::ExtraLarge => 3,
    }
}

/// The index of the cover to take: the one of the highest rank, and of
/// several such the last. `None` when there is no cover.
pub fn best_cover(covers: &Vec<CoverDescriptor>) -> (best: Option<usize>)
    ensures
        match best {
            Some(index) => is_best_cover(covers@, index as int) && best_cover_of(covers@) == Some(
                index as int,
            ),
            None => covers@.len() == 0 && best_cover_of(covers@) is None,
        },
{
    if covers.len() == 0 {
        return None;
    }
    let mut best: usize = 0;
    let mut i: usize = 1;
    while i < covers.len()
        invariant
            1 <= i <= covers@.len(),
            best < i,
            forall|j: int| 0 <= j < i ==> rank_of(covers@[j].size) <= rank_of(covers@[best as int].size),
            forall|j: int| best < j < i ==> rank_of(covers@[j].size) < rank_of(covers@[best as int].size),
        decreases covers@.len() - i,
    {
        if size_rank(covers[i].size) >= size_rank(covers[best].size) {
            best = i;
        }
        i += 1;
    }
    proof {
        let chosen = choose|k: int| is_best_cover(covers@, k);
        lemma_best_cover_unique(covers@, best as int, chosen);
    }
    Some(best)
}

/// The address of the cover `id`.
pub fn cover_url(id: &str) -> (url: String)
    ensures
        url@ == IMAGE_URL@ + id@,
{
    let mut url = String::from_str(IMAGE_URL);
    url.append(id);
    url
}

/// Asks `infer::get` what kind of file `data` starts like, and gives the
/// MIME name of its answer. The contract names the answer: it depends on
/// the bytes alone.
#[verifier::external_body]
fn sniff(data: &Vec<u8>) -> (found: Option<String>)
    ensures
        match found {
            Some(name) => sniffed_mime(data@) == Some(name@),
            None => sniffed_mime(data@) is None,
        },
{
    infer::get(data).map(|kind| kind.mime_type().to_string())
}

/// Has `lofty::picture::MimeType::from_str` read a MIME name. The contract
/// names the type that it makes of the name.
#[verifier::external_body]
fn mime_from_text(text: &str) -> (mime: ImageMime)
    ensures
        mime@ == mime_of_text(text@),
{
    match lofty::picture::MimeType::from_str(text) {
        lofty::picture::MimeType::Png => ImageMime::Png,
        lofty::picture::MimeType::Jpeg => ImageMime::Jpeg,
        lofty::picture::MimeType::Tiff => ImageMime::Tiff,
        lofty::picture::MimeType::Bmp => ImageMime::Bmp,
        lofty::picture::MimeType::Gif => ImageMime::Gif,
        other => ImageMime::Unknown(other.as_str().to_string()),
    }
}

/// The MIME type to record when sniffing found `found`: JPEG when it found
/// nothing.
pub fn mime_for_sniffed(found: Option<String>) -> (mime: ImageMime)
    ensures
        mime@ == mime_for(
            match found {
                Some(name) => Some(name@),
                None => None,
            },
        ),
{
    match found {
        Some(name) => mime_from_text(name.as_str()),
        None => ImageMime::Jpeg,
    }
}

/// The MIME type to record for the image body `data`.
pub fn detect_mime(data: &Vec<u8>) -> (mime: ImageMime)
    ensures
        mime@ == detected_mime(data@),
{
    mime_for_sniffed(sniff(data))
}

/// A copy of `bytes`.
pub fn copy_bytes(bytes: &Vec<u8>) -> (copy: Vec<u8>)
    ensures
        copy@ == bytes@,
{
    let mut copy: Vec<u8> = Vec::new();
    let mut i: usize = 0;
    while i < bytes.len()
        invariant
            i <= bytes@.len(),
            copy@ == bytes@.subrange(0, i as int),
        decreases bytes@.len() - i,
    {
        copy.push(bytes[i]);
        assert(copy@ =~= bytes@.subrange(0, i + 1));
        i += 1;
    }
    assert(copy@ =~= bytes@);
    copy
}

impl ImageMime {
    /// A copy of this type.
    pub fn duplicate(&self) -> (copy: ImageMime)
        ensures
            copy@ == self@,
    {
        match self {
            ImageMime::Png => ImageMime::Png,
            ImageMime::Jpeg => ImageMime::Jpeg,
            ImageMime::Tiff => ImageMime::Tiff,
            ImageMime::Bmp => ImageMime::Bmp,
            ImageMime::Gif => ImageMime::Gif,
            ImageMime::Unknown(name) => ImageMime::Unknown(name.clone()),
        }
    }
}

impl CoverArt {
    /// A copy of this cover.
    pub fn duplicate(&self) -> (copy: CoverArt)
        ensures
            copy@ == self@,
    {
        CoverArt { data: copy_bytes(&self.data), mime: self.mime.duplicate() }
    }
}

/// One cover of the cache.
struct CachedCover {
    id: String,
    art: CoverArt,
}

/// The identifiers of a list of cached covers, in the order of the list.
spec fn ids_of(entries: Seq<CachedCover>) -> Seq<Seq<char>> {
    Seq::new(entries.len(), |i: int| entries[i].id@)
}

/// The covers fetched so far, by identifier. A cover that is in the cache
/// stays in it as it is.
pub struct CoverArtCache {
    entries: Vec<CachedCover>,
}

impl View for CoverArtCache {
    type V = Map<Seq<char>, (Seq<u8>, MimeKind)>;

    closed spec fn view(&self) -> Map<Seq<char>, (Seq<u8>, MimeKind)> {
        Map::new(
            |id: Seq<char>| first_index(ids_of(self.entries@), id, 0) is Some,
            |id: Seq<char>| self.entries@[first_index(ids_of(self.entries@), id, 0).unwrap()].art@,
        )
    }
}

impl CoverArtCache {
    /// A cache without covers.
    pub fn new() -> (cache: CoverArtCache)
        ensures
            cache@ == Map::<Seq<char>, (Seq<u8>, MimeKind)>::empty(),
    {
        let cache = CoverArtCache { entries: Vec::new() };
        assert(cache@ =~= Map::<Seq<char>, (Seq<u8>, MimeKind)>::empty());
        cache
    }

    /// Position of the first cover cached for `id`, if there is one.
    fn position(&self, id: &String) -> (found: Option<usize>)
        ensures
            match found {
                Some(i) => first_index(ids_of(self.entries@), id@, 0) == Some(i as int),
                None => first_index(ids_of(self.entries@), id@, 0) is None,
            },
    {
        let ghost ids = ids_of(self.entries@);
        let mut i: usize = 0;
        while i < self.entries.len()
            invariant
                i <= self.entries@.len(),
                ids == ids_of(self.entries@),
                first_index(ids, id@, 0) == first_index(ids, id@, i as int),
            decreases self.entries@.len() - i,
        {
            if self.entries[i].id == *id {
                return Some(i);
            }
            i += 1;
        }
        None
    }

    /// Whether a cover is cached for `id`.
    pub fn contains(&self, id: &str) -> (cached: bool)
        ensures
            cached == self@.contains_key(id@),
    {
        let key = String::from_str(id);
        self.position(&key).is_some()
    }

    /// The cover cached for `id`, if there is one.
    pub fn get(&self, id: &str) -> (art: Option<CoverArt>)
        ensures
            match art {
                Some(cover) => self@.contains_key(id@) && cover@ == self@[id@],
                None => !self@.contains_key(id@),
            },
    {
        let key = String::from_str(id);
        proof {
            lemma_first_index(ids_of(self.entries@), id@, 0);
        }
        match self.position(&key) {
            Some(i) => Some(self.entries[i].art.duplicate()),
            None => None,
        }
    }

    /// Offers the fetched image body `data` for `id`. If no cover is cached
    /// for `id`, `data` is cached with its detected MIME type; a cover
    /// that is cached stays. Gives the cover that is cached for `id` then.
    pub fn store(&mut self, id: &str, data: Vec<u8>) -> (art: CoverArt)
        ensures
            final(self)@ == stored(old(self)@, id@, data@),
            art@ == final(self)@[id@],
    {
        let key = String::from_str(id);
        let ghost before = self.entries@;
        proof {
            lemma_first_index(ids_of(before), id@, 0);
        }
        match self.position(&key) {
            Some(i) => self.entries[i].art.duplicate(),
            None => {
                let mime = detect_mime(&data);
                let art = CoverArt { data, mime };
                let copy = art.duplicate();
                self.entries.push(CachedCover { id: key, art });
                proof {
                    assert(ids_of(self.entries@) =~= ids_of(before).push(id@));
                    assert forall|other: Seq<char>|
                        first_index(ids_of(self.entries@), other, 0) == (match first_index(
                            ids_of(before),
                            other,
                            0,
                        ) {
                            Some(i) => Some(i),
                            None => if other == id@ {
                                Some(before.len() as int)
                            } else {
                                None
                            },
                        }) by {
                        lemma_first_index_push(ids_of(before), id@, other, 0);
                    }
                    assert forall|other: Seq<char>| #[trigger]
                        old(self)@.contains_key(other) implies final(self)@[other] == old(self)@[other] by {
                        lemma_first_index(ids_of(before), other, 0);
                    }
                    assert(final(self)@.dom() =~= stored(old(self)@, id@, data@).dom());
                    assert(final(self)@[id@] == (data@, detected_mime(data@)));
                    assert(final(self)@ =~= stored(old(self)@, id@, data@));
                }
                copy
            },
        }
    }
}

/// A cover, once cached, is what every later request for its identifier
/// gets: offering the cache more covers, for this identifier or another,
/// does not change it.
pub proof fn lemma_cached_cover_is_stable(
    cache: Map<Seq<char>, (Seq<u8>, MimeKind)>,
    id: Seq<char>,
    other: Seq<char>,
    data: Seq<u8>,
)
    requires
        cache.contains_key(id),
    ensures
        stored(cache, other, data).contains_key(id),
        stored(cache, other, data)[id] == cache[id],
{
}

/// After a cover was offered for an identifier, the cache holds a cover for
/// it, so that no second fetch is asked for; the cover held is the first
/// one offered.
pub proof fn lemma_first_offer_is_kept(
    cache: Map<Seq<char>, (Seq<u8>, MimeKind)>,
    id: Seq<char>,
    first: Seq<u8>,
    second: Seq<u8>,
)
    requires
        !cache.contains_key(id),
    ensures
        stored(cache, id, first).contains_key(id),
        stored(cache, id, first)[id] == (first, detected_mime(first)),
        stored(stored(cache, id, first), id, second) == stored(cache, id, first),
{
}

} // verus!
