use guild_player::track::{
    build_chapters, get_title_author_str, is_direct_url, is_vk_url, Author, Chapter, Locale,
    ParserType, RawChapter, Track, VkTrack, WebTrack,
};

fn bare_author() -> Author {
    Author { name: None, url: None, thumbnail: None, verified: false }
}

#[test]
fn from_web_attaches_id() {
    let web = WebTrack {
        title: Some("a song".to_string()),
        description: Some("words".to_string()),
        thumbnail: None,
        author: Author {
            name: Some("someone".to_string()),
            url: Some("https://example.com/someone".to_string()),
            thumbnail: None,
            verified: true,
        },
        url: "https://cdn.example.com/a".to_string(),
        views: Some(100),
        likes: None,
        chapters: vec![Chapter {
            title: "start".to_string(),
            start_time_ms: 0,
            start_time_str: "0".to_string(),
            end_time_ms: 60_000,
        }],
        webpage_url: "https://example.com/a".to_string(),
        duration_ms: Some(60_000),
        parse_time_ms: 1_700_000_000_000,
        parser_type: ParserType::YtDl,
        edit_date_ms: Some(1_600_000_000_000),
    };
    let t = Track::from_web(web, 9);
    assert_eq!(t.id, 9);
    assert_eq!(t.title.as_deref(), Some("a song"));
    assert_eq!(t.url, "https://cdn.example.com/a");
    assert_eq!(t.author.name.as_deref(), Some("someone"));
    assert!(t.author.verified);
    assert_eq!(t.chapters.len(), 1);
    assert_eq!(t.duration_ms, Some(60_000));
    assert_eq!(t.parse_time_ms, 1_700_000_000_000);
    assert_eq!(t.edit_date_ms, Some(1_600_000_000_000));
}

#[test]
fn from_vk_maps_fields() {
    let vk = VkTrack {
        title: "a tune".to_string(),
        author: "an artist".to_string(),
        duration_ms: 123_000,
        webpage_url: "https://vk.com/a".to_string(),
        url: "https://cdn.vk.com/a".to_string(),
    };
    let t = Track::from_vk(vk, 4);
    assert_eq!(t.id, 4);
    assert_eq!(t.title.as_deref(), Some("a tune"));
    assert_eq!(t.author.name.as_deref(), Some("an artist"));
    assert!(!t.author.verified);
    assert_eq!(t.url, "https://cdn.vk.com/a");
    assert_eq!(t.webpage_url, "https://vk.com/a");
    assert_eq!(t.duration_ms, Some(123_000));
    assert_eq!(t.parser_type, ParserType::Vk);
    assert!(t.chapters.is_empty());
    assert!(t.edit_date_ms.is_none());
}

#[test]
fn chapters_infer_missing_ends() {
    let raw = vec![
        RawChapter { title: "one".to_string(), start_time_ms: 0, end_time_ms: None },
        RawChapter { title: "two".to_string(), start_time_ms: 90_000, end_time_ms: Some(100_000) },
        RawChapter { title: "three".to_string(), start_time_ms: 120_000, end_time_ms: None },
    ];
    let chapters = build_chapters(&raw, 180_000);
    assert_eq!(chapters.len(), 3);
    // A missing end is the next chapter's start.
    assert_eq!(chapters[0].end_time_ms, 90_000);
    // A given end is kept.
    assert_eq!(chapters[1].end_time_ms, 100_000);
    // The last missing end is the track's duration.
    assert_eq!(chapters[2].end_time_ms, 180_000);
    // Start offsets are pre-rendered for display.
    assert_eq!(chapters[0].start_time_str, "0");
    assert_eq!(chapters[1].start_time_str, "01:30");
    assert_eq!(chapters[2].start_time_str, "02:00");
    assert_eq!(chapters[2].title, "three");
}

fn named_track(title: Option<&str>, author: Option<&str>) -> Track {
    Track {
        id: 1,
        title: title.map(|s| s.to_string()),
        description: None,
        thumbnail: None,
        author: Author {
            name: author.map(|s| s.to_string()),
            url: None,
            thumbnail: None,
            verified: false,
        },
        url: String::new(),
        views: None,
        likes: None,
        chapters: Vec::new(),
        webpage_url: String::new(),
        duration_ms: None,
        parse_time_ms: 0,
        parser_type: ParserType::YtDl,
        edit_date_ms: None,
    }
}

#[test]
fn title_author_line() {
    let t = named_track(Some("a song"), Some("someone"));
    assert_eq!(get_title_author_str(&t, Locale::Other), "`a song` someone");
}

#[test]
fn title_author_fallbacks_by_locale() {
    let t = named_track(None, None);
    assert_eq!(get_title_author_str(&t, Locale::Other), "`Unknown title` Unknown author");
    assert_eq!(
        get_title_author_str(&t, Locale::Ru),
        "`Название не известно` Автор не известен"
    );
}

#[test]
fn vk_urls_recognised() {
    assert!(is_vk_url("https://vk.com/audio1"));
    assert!(is_vk_url("http://www.vkontakte.ru/a"));
    assert!(is_vk_url("vk.com/a"));
    assert!(is_vk_url("www.vk.com/a"));
    assert!(!is_vk_url("https://youtube.com/watch"));
    assert!(!is_vk_url("vk.com"));
    assert!(!is_vk_url("wwvk.com/a"));
    assert!(!is_vk_url("https://notvk.com/a"));
}

#[test]
fn direct_urls_recognised() {
    assert!(is_direct_url("https://example.com/x"));
    assert!(is_direct_url("http://example.com/x"));
    assert!(is_direct_url("ftp://example.com/x"));
    assert!(!is_direct_url("a few search words"));
    assert!(!is_direct_url("example.com/x"));
}
