use vstd::prelude::*;
use crate::clock::now_utc_millis;
use crate::position::MILLIS_PER_SECOND;
use crate::timefmt::{chars_of, get_time_str, spec_time_str};

verus! {

/// The caller's display language, as far as this crate cares: Russian has
/// its own fallback wording, everything else reads the default.
#[derive(Clone, Copy, Debug, PartialEq, Eq, Structural)]
pub enum Locale {
    Ru,
    Other,
}

/// Who published a track, as far as the metadata resolver could tell.
#[derive(Clone, Debug)]
pub struct Author {
    pub name: Option<String>,
    pub url: Option<String>,
    pub thumbnail: Option<String>,
    pub verified: bool,
}

/// Which resolver produced a track's metadata.
#[derive(Clone, Copy, Debug, PartialEq, Eq, Structural)]
pub enum ParserType {
    YtDl,
    Ffprobe,
    Vk,
}

/// One chapter of a track: where it starts, the same offset pre-rendered
/// for display, and where it ends. The end offset is not part of the raw
/// metadata; it is inferred when the chapter list is built.
#[derive(Clone, Debug)]
pub struct Chapter {
    pub title: String,
    pub start_time_ms: u64,
    pub start_time_str: String,
    pub end_time_ms: u64,
}

/// A chapter as the metadata resolver reports it: the end offset may be
/// missing.
#[derive(Clone, Debug)]
pub struct RawChapter {
    pub title: String,
    pub start_time_ms: u64,
    pub end_time_ms: Option<u64>,
}

/// Immutable metadata of one playable track. Created once, when the
/// resolver's answer is turned into plain values; never mutated afterwards.
/// Timestamps are milliseconds since the epoch.
#[derive(Clone, Debug)]
pub struct Track {
    /// Queue-wide id, assigned from the guild's counter at enqueue time.
    pub id: u64,
    pub title: Option<String>,
    pub description: Option<String>,
    pub thumbnail: Option<String>,
    pub author: Author,
    /// Direct audio source URL handed to the transcoding process.
    pub url: String,
    pub views: Option<i64>,
    pub likes: Option<i64>,
    pub chapters: Vec<Chapter>,
    /// Canonical page the track was resolved from.
    pub webpage_url: String,
    pub duration_ms: Option<u64>,
    pub parse_time_ms: i64,
    pub parser_type: ParserType,
    pub edit_date_ms: Option<i64>,
}

/// Track metadata as the web front-end submits it: everything but the id,
/// which the guild's counter assigns.
#[derive(Clone, Debug)]
pub struct WebTrack {
    pub title: Option<String>,
    pub description: Option<String>,
    pub thumbnail: Option<String>,
    pub author: Author,
    pub url: String,
    pub views: Option<i64>,
    pub likes: Option<i64>,
    pub chapters: Vec<Chapter>,
    pub webpage_url: String,
    pub duration_ms: Option<u64>,
    pub parse_time_ms: i64,
    pub parser_type: ParserType,
    pub edit_date_ms: Option<i64>,
}

/// Track metadata as the VK resolver reports it.
#[derive(Clone, Debug)]
pub struct VkTrack {
    pub title: String,
    pub author: String,
    pub duration_ms: u64,
    pub webpage_url: String,
    pub url: String,
}

impl Track {
    /// Builds a track from a VK resolver answer, parsed at the present
    /// moment. Every field except the parse time is pinned by the input.
    pub fn from_vk(track: VkTrack, id: u64) -> (r: Self)
        ensures
            r.id == id,
            r.title == Some(track.title),
            r.description is None,
            r.thumbnail is None,
            r.author.name == Some(track.author),
            r.author.url is None,
            r.author.thumbnail is None,
            !r.author.verified,
            r.url == track.url,
            r.views is None,
            r.likes is None,
            r.chapters@ =~= Seq::<Chapter>::empty(),
            r.webpage_url == track.webpage_url,
            r.duration_ms == Some(track.duration_ms),
            r.parser_type == ParserType::Vk,
            r.edit_date_ms is None,
    {
        Track {
            id,
            title: Some(track.title),
            description: None,
            thumbnail: None,
            author: Author { name: Some(track.author), url: None, thumbnail: None, verified: false },
            url: track.url,
            views: None,
            likes: None,
            chapters: Vec::new(),
            webpage_url: track.webpage_url,
            duration_ms: Some(track.duration_ms),
            parse_time_ms: now_utc_millis(),
            parser_type: ParserType::Vk,
            edit_date_ms: None,
        }
    }

    /// Builds a track from a web submission by attaching the assigned id.
    pub fn from_web(track: WebTrack, id: u64) -> (r: Self)
        ensures
            r == (Track {
                id,
                title: track.title,
                description: track.description,
                thumbnail: track.thumbnail,
                author: track.author,
                url: track.url,
                views: track.views,
                likes: track.likes,
                chapters: track.chapters,
                webpage_url: track.webpage_url,
                duration_ms: track.duration_ms,
                parse_time_ms: track.parse_time_ms,
                parser_type: track.parser_type,
                edit_date_ms: track.edit_date_ms,
            }),
    {
        Track {
            id,
            title: track.title,
            description: track.description,
            thumbnail: track.thumbnail,
            author: track.author,
            url: track.url,
            views: track.views,
            likes: track.likes,
            chapters: track.chapters,
            webpage_url: track.webpage_url,
            duration_ms: track.duration_ms,
            parse_time_ms: track.parse_time_ms,
            parser_type: track.parser_type,
            edit_date_ms: track.edit_date_ms,
        }
    }
}

/// Where a chapter ends: its own end offset when the metadata gave one, the
/// next chapter's start otherwise, and the track's total duration for the
/// last chapter.
pub open spec fn spec_chapter_end(raw: Seq<RawChapter>, i: int, duration_ms: u64) -> u64 {
    match raw[i].end_time_ms {
        Some(end) => end,
        None => if i + 1 < raw.len() {
            raw[i + 1].start_time_ms
        } else {
            duration_ms
        },
    }
}

/// Builds the chapter list from raw metadata: titles and start offsets are
/// kept, each start offset is pre-rendered for display, and missing end
/// offsets are inferred from the next chapter's start or, for the last
/// chapter, from the track's duration.
pub fn build_chapters(raw: &Vec<RawChapter>, duration_ms: u64) -> (r: Vec<Chapter>)
    ensures
        r@.len() == raw@.len(),
        forall|i: int|
            0 <= i < raw@.len() ==> {
                &&& (#[trigger] r@[i]).title == raw@[i].title
                &&& r@[i].start_time_ms == raw@[i].start_time_ms
                &&& r@[i].start_time_str@ == spec_time_str(
                    raw@[i].start_time_ms as int / MILLIS_PER_SECOND as int,
                )
                &&& r@[i].end_time_ms == spec_chapter_end(raw@, i, duration_ms)
            },
{
    let mut out: Vec<Chapter> = Vec::new();
    let mut i: usize = 0;
    while i < raw.len()
        invariant
            i <= raw@.len(),
            out@.len() == i,
            forall|j: int|
                0 <= j < i ==> {
                    &&& (#[trigger] out@[j]).title == raw@[j].title
                    &&& out@[j].start_time_ms == raw@[j].start_time_ms
                    &&& out@[j].start_time_str@ == spec_time_str(
                        raw@[j].start_time_ms as int / MILLIS_PER_SECOND as int,
                    )
                    &&& out@[j].end_time_ms == spec_chapter_end(raw@, j, duration_ms)
                },
        decreases raw@.len() - i,
    {
        let end_time_ms = match raw[i].end_time_ms {
            Some(end) => end,
            None => if i + 1 < raw.len() {
                raw[i + 1].start_time_ms
            } else {
                duration_ms
            },
        };
        let chapter = Chapter {
            title: raw[i].title.clone(),
            start_time_ms: raw[i].start_time_ms,
            start_time_str: get_time_str(raw[i].start_time_ms / MILLIS_PER_SECOND),
            end_time_ms,
        };
        out.push(chapter);
        i = i + 1;
    }
    out
}

/// The displayed title: the track's own, or the locale's wording for an
/// unknown one.
pub open spec fn title_text(track: Track, locale: Locale) -> Seq<char> {
    match track.title {
        Some(t) => t@,
        None => if locale == Locale::Ru {
            "Название не известно"@
        } else {
            "Unknown title"@
        },
    }
}

/// The displayed author: the author's name, or the locale's wording for an
/// unknown one.
pub open spec fn author_text(track: Track, locale: Locale) -> Seq<char> {
    match track.author.name {
        Some(a) => a@,
        None => if locale == Locale::Ru {
            "Автор не известен"@
        } else {
            "Unknown author"@
        },
    }
}

/// One line naming a track: its title between backticks, then its author.
pub fn get_title_author_str(track: &Track, locale: Locale) -> (r: String)
    ensures
        r@ == "`"@ + title_text(*track, locale) + "` "@ + author_text(*track, locale),
{
    let mut out = String::new();
    out.append("`");
    match &track.title {
        Some(t) => out.append(t.as_str()),
        None => match locale {
            Locale::Ru => out.append("Название не известно"),
            Locale::Other => out.append("Unknown title"),
        },
    }
    out.append("` ");
    match &track.author.name {
        Some(a) => out.append(a.as_str()),
        None => match locale {
            Locale::Ru => out.append("Автор не известен"),
            Locale::Other => out.append("Unknown author"),
        },
    }
    proof {
        assert(out@ =~= "`"@ + title_text(*track, locale) + "` "@ + author_text(*track, locale));
    }
    out
}

/// Whether `lit` opens the window of `cs` that starts at `at`.
fn has_prefix_at(cs: &Vec<char>, at: usize, lit: &str) -> (r: bool)
    requires
        at <= cs@.len(),
    ensures
        r == lit@.is_prefix_of(cs@.skip(at as int)),
{
    let lcs = chars_of(lit);
    let n = cs.len();
    if n - at < lcs.len() {
        return false;
    }
    let mut i: usize = 0;
    while i < lcs.len()
        invariant
            at <= cs@.len(),
            n == cs@.len(),
            lcs@ == lit@,
            i <= lcs@.len(),
            lcs@.len() <= cs@.len() - at,
            forall|j: int| 0 <= j < i ==> lcs@[j] == cs@[at + j],
        decreases lcs@.len() - i,
    {
        if lcs[i] != cs[at + i] {
            proof {
                assert(cs@.skip(at as int)[i as int] == cs@[at + i]);
                assert(!lit@.is_prefix_of(cs@.skip(at as int)));
            }
            return false;
        }
        i = i + 1;
    }
    proof {
        assert(lit@ =~= cs@.skip(at as int).subrange(0, lit@.len() as int));
    }
    true
}

/// Whether a URL names the VK service: an optional scheme, an optional
/// `www` plus one joining character, then one of the two VK hosts and a
/// slash.
pub open spec fn spec_is_vk_url(s: Seq<char>) -> bool {
    let after_scheme = if "http://"@.is_prefix_of(s) {
        s.skip("http://"@.len() as int)
    } else if "https://"@.is_prefix_of(s) {
        s.skip("https://"@.len() as int)
    } else {
        s
    };
    let after_www = if "www"@.is_prefix_of(after_scheme) && after_scheme.len() >= 4 {
        after_scheme.skip(4)
    } else {
        after_scheme
    };
    "vk.com/"@.is_prefix_of(after_www) || "vkontakte.ru/"@.is_prefix_of(after_www)
}

/// Decides whether a URL belongs to the VK resolver, per
/// [`spec_is_vk_url`].
pub fn is_vk_url(url: &str) -> (r: bool)
    ensures
        r == spec_is_vk_url(url@),
{
    let cs = chars_of(url);
    let after_scheme: usize = if has_prefix_at(&cs, 0, "http://") {
        7
    } else if has_prefix_at(&cs, 0, "https://") {
        8
    } else {
        0
    };
    proof {
        reveal_strlit("http://");
        reveal_strlit("https://");
        assert(cs@.skip(0) =~= cs@);
        assert(cs@.skip(7).skip(0) =~= cs@.skip(7));
        assert(cs@.skip(8).skip(0) =~= cs@.skip(8));
    }
    let after_www: usize = if has_prefix_at(&cs, after_scheme, "www") && cs.len() - after_scheme
        >= 4 {
        proof {
            assert(cs@.skip(after_scheme as int).skip(4) =~= cs@.skip(after_scheme as int + 4));
        }
        after_scheme + 4
    } else {
        after_scheme
    };
    has_prefix_at(&cs, after_www, "vk.com/") || has_prefix_at(&cs, after_www, "vkontakte.ru/")
}

/// Whether the text is a resolvable address rather than a search query: it
/// opens with one of the three accepted schemes.
pub open spec fn spec_is_direct_url(s: Seq<char>) -> bool {
    "http://"@.is_prefix_of(s) || "https://"@.is_prefix_of(s) || "ftp://"@.is_prefix_of(s)
}

/// Decides whether the text is an address or a search query, per
/// [`spec_is_direct_url`].
pub fn is_direct_url(url: &str) -> (r: bool)
    ensures
        r == spec_is_direct_url(url@),
{
    let cs = chars_of(url);
    proof {
        assert(cs@.skip(0) =~= cs@);
    }
    has_prefix_at(&cs, 0, "http://") || has_prefix_at(&cs, 0, "https://") || has_prefix_at(
        &cs,
        0,
        "ftp://",
    )
}

/// A track list as the YouTube-style resolver reports it: the playlist's
/// own metadata and the page URL of each entry, to be resolved one by one.
#[derive(Clone, Debug)]
pub struct YtDlTracksPlaylist {
    pub title: Option<String>,
    pub description: Option<String>,
    pub thumbnail: Option<String>,
    pub author: Author,
    pub views: Option<i64>,
    pub webpage_url: String,
    pub edit_date_ms: Option<i64>,
    pub tracks: Vec<String>,
}

/// A track list as the VK resolver reports it.
#[derive(Clone, Debug)]
pub struct VkTracksPlaylist {
    pub tracks: Vec<VkTrack>,
}

/// Which kind of list, if any, a resolver answer carried. The player never
/// cares which variant produced a track, only that tracks arrive.
pub enum PlaylistType {
    Vk(VkTracksPlaylist),
    YtDl(YtDlTracksPlaylist),
    Missing,
}

} // verus!
