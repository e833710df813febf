use memefs::config::MemeFSConfig;
use memefs::fs::Post;
use memefs::json::Json;
use memefs::listing::{
    candidate, candidate_of, candidates, get_memes, listing_url, probed_size, shown_extension,
    url_extension, Candidate, Probe,
};

fn object(members: Vec<(&str, Json)>) -> Json {
    Json::Object(members.into_iter().map(|(key, value)| (key.to_string(), value)).collect())
}

fn text(value: &str) -> Json {
    Json::Text(value.to_string())
}

fn entry(title: &str, url: &str, score: i64) -> Json {
    object(vec![
        ("kind", text("t3")),
        (
            "data",
            object(vec![
                ("title", text(title)),
                ("url", text(url)),
                ("score", Json::Number(Some(score))),
            ]),
        ),
    ])
}

fn listing(entries: Vec<Json>) -> Json {
    object(vec![
        ("kind", text("Listing")),
        ("data", object(vec![("children", Json::Array(entries))])),
    ])
}

fn kept(title: &str, url: &str, score: i64) -> Candidate {
    Candidate { title: title.to_string(), score, url: url.to_string() }
}

fn segments(parts: &[&str]) -> Option<Vec<String>> {
    Some(parts.iter().map(|part| part.to_string()).collect())
}

fn answered(length: &str) -> Probe {
    Probe::Answered { content_length: Some(length.as_bytes().to_vec()) }
}

#[test]
fn entry_without_an_extension_is_not_published() {
    let source = listing(vec![entry("Plain", "https://example.com/gallery/plain", 5)]);
    let chosen = candidates(&source).unwrap();
    assert!(chosen.is_empty());
    let posts = get_memes(&chosen, &vec![]);
    assert!(posts.is_empty());
}

#[test]
fn entries_with_known_extensions_are_kept_in_order() {
    let source = listing(vec![
        entry("Funny Cat", "https://i.example.com/abc.jpg", 10),
        entry("Page", "https://example.com/comments/1/page/", 9),
        entry("Clip", "https://v.example.com/x/y/clip.MP4?source=feed#t=1", 8),
        entry("Text", "https://example.com/notes.txt", 7),
        entry("Pic", "http://example.com/pic.png", -6),
    ]);
    assert_eq!(
        candidates(&source),
        Some(vec![
            kept("Funny Cat.jpg", "https://i.example.com/abc.jpg", 10),
            kept("Clip.mp4", "https://v.example.com/x/y/clip.MP4?source=feed#t=1", 8),
            kept("Pic.png", "http://example.com/pic.png", -6),
        ])
    );
}

#[test]
fn listing_without_entries_to_read_gives_no_answer() {
    assert_eq!(candidates(&Json::Null), None);
    assert_eq!(candidates(&object(vec![])), None);
    assert_eq!(candidates(&object(vec![("data", Json::Null)])), None);
    assert_eq!(candidates(&object(vec![("data", object(vec![]))])), None);
    assert_eq!(
        candidates(&object(vec![("data", object(vec![("children", text("none"))]))])),
        None
    );
    assert_eq!(
        candidates(&object(vec![("children", Json::Array(vec![]))])),
        None
    );
}

#[test]
fn listing_with_no_entries_gives_no_candidates() {
    assert_eq!(candidates(&listing(vec![])), Some(vec![]));
}

#[test]
fn entry_that_lacks_a_part_is_dropped_alone() {
    let no_url = object(vec![(
        "data",
        object(vec![("title", text("a")), ("score", Json::Number(Some(1)))]),
    )]);
    let no_title = object(vec![(
        "data",
        object(vec![("url", text("https://example.com/a.png")), ("score", Json::Number(Some(1)))]),
    )]);
    let no_score = object(vec![(
        "data",
        object(vec![("url", text("https://example.com/a.png")), ("title", text("a"))]),
    )]);
    let broken_score = object(vec![(
        "data",
        object(vec![
            ("url", text("https://example.com/a.png")),
            ("title", text("a")),
            ("score", Json::Number(None)),
        ]),
    )]);
    let url_is_no_text = object(vec![(
        "data",
        object(vec![
            ("url", Json::Number(Some(3))),
            ("title", text("a")),
            ("score", Json::Number(Some(1))),
        ]),
    )]);
    let no_data = object(vec![("title", text("a"))]);
    assert_eq!(candidate(&no_url), None);
    assert_eq!(candidate(&no_title), None);
    assert_eq!(candidate(&no_score), None);
    assert_eq!(candidate(&broken_score), None);
    assert_eq!(candidate(&url_is_no_text), None);
    assert_eq!(candidate(&no_data), None);
    assert_eq!(candidate(&Json::Null), None);
    let source = listing(vec![
        no_url,
        entry("Kept", "https://example.com/kept.webm", 3),
        no_title,
        Json::Null,
    ]);
    assert_eq!(
        candidates(&source),
        Some(vec![kept("Kept.webm", "https://example.com/kept.webm", 3)])
    );
}

#[test]
fn entry_whose_address_does_not_parse_is_dropped() {
    assert_eq!(candidate(&entry("a", "not an address.png", 1)), None);
    assert_eq!(candidate(&entry("a", "/relative/a.png", 1)), None);
    assert_eq!(candidate(&entry("a", "", 1)), None);
}

#[test]
fn entry_whose_address_has_no_path_segments_is_dropped() {
    assert_eq!(candidate(&entry("a", "data:image/a.png", 1)), None);
    assert_eq!(candidate(&entry("a", "mailto:someone@example.com.png", 1)), None);
}

#[test]
fn candidate_carries_title_address_and_score() {
    assert_eq!(
        candidate(&entry("Funny Cat", "https://i.example.com/abc.JPEG", 77)),
        Some(kept("Funny Cat.jpeg", "https://i.example.com/abc.JPEG", 77))
    );
}

#[test]
fn address_is_shown_under_the_extension_of_its_last_segment() {
    assert_eq!(url_extension("https://example.com/a/b/c.png"), Some("png"));
    assert_eq!(url_extension("https://example.com/c.JPG?width=100&format=gif"), Some("jpg"));
    assert_eq!(url_extension("https://example.com/c.webm#start.txt"), Some("webm"));
    assert_eq!(url_extension("https://example.com/archive.tar.mp4"), Some("mp4"));
    assert_eq!(url_extension("https://example.com/a.b/c.jpeg"), Some("jpeg"));
}

#[test]
fn address_without_a_known_extension_is_not_shown() {
    assert_eq!(url_extension("https://example.com"), None);
    assert_eq!(url_extension("https://example.com/"), None);
    assert_eq!(url_extension("https://example.com/a.png/"), None);
    assert_eq!(url_extension("https://example.com/a.png/b"), None);
    assert_eq!(url_extension("https://example.com/a.gif"), None);
    assert_eq!(url_extension("https://example.com/.png"), None);
    assert_eq!(url_extension("https://example.com/a?b=c.png"), None);
    assert_eq!(url_extension("https://example.png/a"), None);
    assert_eq!(url_extension("example.com/a.png"), None);
}

#[test]
fn extension_is_read_from_the_last_of_the_segments() {
    assert_eq!(shown_extension(&segments(&["a.gif", "b.png"])), Some("png"));
    assert_eq!(shown_extension(&segments(&["b.PNG"])), Some("png"));
    assert_eq!(shown_extension(&segments(&["a.png", "b"])), None);
    assert_eq!(shown_extension(&segments(&["a.png", ""])), None);
    assert_eq!(shown_extension(&segments(&[".."])), None);
    assert_eq!(shown_extension(&segments(&[])), None);
    assert_eq!(shown_extension(&None), None);
}

#[test]
fn candidate_is_made_of_all_its_parts() {
    let parts = segments(&["img", "abc.PNG"]);
    assert_eq!(
        candidate_of(Some("https://example.com/img/abc.PNG"), &parts, Some("A title"), Some(4)),
        Some(kept("A title.png", "https://example.com/img/abc.PNG", 4))
    );
    assert_eq!(candidate_of(None, &parts, Some("A title"), Some(4)), None);
    assert_eq!(candidate_of(Some("u"), &None, Some("A title"), Some(4)), None);
    assert_eq!(candidate_of(Some("u"), &segments(&["abc"]), Some("A title"), Some(4)), None);
    assert_eq!(candidate_of(Some("u"), &parts, None, Some(4)), None);
    assert_eq!(candidate_of(Some("u"), &parts, Some("A title"), None), None);
    assert_eq!(
        candidate_of(Some("u"), &parts, Some(""), Some(i64::MIN)),
        Some(kept(".png", "u", i64::MIN))
    );
}

#[test]
fn probe_without_a_length_gives_size_zero() {
    assert_eq!(probed_size(&Probe::Answered { content_length: None }), Some(0));
}

#[test]
fn probe_with_a_length_gives_that_size() {
    assert_eq!(probed_size(&answered("1000")), Some(1000));
    assert_eq!(probed_size(&answered("0")), Some(0));
}

#[test]
fn probe_that_failed_gives_no_size() {
    assert_eq!(probed_size(&Probe::Failed), None);
}

#[test]
fn probe_with_a_length_that_is_no_number_gives_no_size() {
    assert_eq!(probed_size(&answered("")), None);
    assert_eq!(probed_size(&answered("12 bytes")), None);
    assert_eq!(probed_size(&answered("99999999999999999999999")), None);
}

#[test]
fn posts_are_the_candidates_that_got_a_size() {
    let chosen = vec![
        kept("a.png", "https://example.com/a.png", 1),
        kept("b.jpg", "https://example.com/b.jpg", 2),
        kept("c.mp4", "https://example.com/c.mp4", 3),
        kept("d.webm", "https://example.com/d.webm", 4),
    ];
    let probes = vec![
        answered("10"),
        Probe::Failed,
        Probe::Answered { content_length: None },
        answered("ten"),
    ];
    assert_eq!(
        get_memes(&chosen, &probes),
        vec![
            Post {
                title: "a.png".to_string(),
                score: 1,
                url: "https://example.com/a.png".to_string(),
                size: 10,
            },
            Post {
                title: "c.mp4".to_string(),
                score: 3,
                url: "https://example.com/c.mp4".to_string(),
                size: 0,
            },
        ]
    );
}

#[test]
fn candidate_without_a_probe_is_not_published() {
    let chosen = vec![
        kept("a.png", "https://example.com/a.png", 1),
        kept("b.jpg", "https://example.com/b.jpg", 2),
    ];
    let posts = get_memes(&chosen, &vec![answered("5")]);
    assert_eq!(posts.len(), 1);
    assert_eq!(posts[0].title, "a.png");
    assert_eq!(posts[0].size, 5);
    assert!(get_memes(&chosen, &vec![]).is_empty());
    assert!(get_memes(&vec![], &vec![answered("5")]).is_empty());
}

#[test]
fn listing_is_asked_at_the_target_with_the_limit() {
    let config = MemeFSConfig::new(
        "/mnt/memes".to_string(),
        false,
        "https://www.reddit.com/r/memes".to_string(),
        20,
        600,
    );
    assert_eq!(listing_url(&config), "https://www.reddit.com/r/memes/.json?limit=20");
    let other = MemeFSConfig::new(String::new(), true, "http://localhost:8080/feed".to_string(), 65535, 1);
    assert_eq!(listing_url(&other), "http://localhost:8080/feed/.json?limit=65535");
    assert_eq!(listing_url(&MemeFSConfig::default()), "/.json?limit=0");
}
