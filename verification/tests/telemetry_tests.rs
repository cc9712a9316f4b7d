use loopfetch::color::hex_to_rgb;
use loopfetch::snapshot::{
    Disk, Media, Mem, RawDisk, TelemetrySnapshot, active_media, filter_disks, join_artists,
    media_from_raw, priority_of,
};
use loopfetch::style::{RawSpan, Word, lines_from_raw, make_word, max_line_width};
use loopfetch::text::{after_last_slash, str_contains, str_starts_with, u64_to_string};

fn media_named(name: &str) -> Media {
    Media {
        name: String::from(name),
        song: String::from("song"),
        artist: String::from("artist"),
        album: String::from("album"),
        art_url: String::from("art"),
        elapsed_s: 0,
        length_s: 0,
        paused: false,
    }
}

fn raw_disk(mnt: &str) -> RawDisk {
    RawDisk { mnt: String::from(mnt), mem: Mem { avail: 1, total: 2 } }
}

#[test]
fn color_parses_valid_hex() {
    assert_eq!(hex_to_rgb("#ff00aa"), Some((255, 0, 170)));
    assert_eq!(hex_to_rgb("00ff00"), Some((0, 255, 0)));
    assert_eq!(hex_to_rgb("#FFFFFF"), Some((255, 255, 255)));
}

#[test]
fn color_clamps_bad_pairs() {
    assert_eq!(hex_to_rgb("zz00aa"), Some((255, 0, 170)));
    assert_eq!(hex_to_rgb("#00zzaa"), Some((0, 0, 170)));
    assert_eq!(hex_to_rgb("#0000zz"), Some((0, 0, 0)));
}

#[test]
fn color_rejects_wrong_length() {
    assert_eq!(hex_to_rgb("#ff00a"), None);
    assert_eq!(hex_to_rgb("ff00a"), None);
    assert_eq!(hex_to_rgb(""), None);
    assert_eq!(hex_to_rgb("#ff00aaf"), None);
}

#[test]
fn color_strips_every_hash() {
    assert_eq!(hex_to_rgb("##ff00aa"), Some((255, 0, 170)));
}

#[test]
fn media_selection_prefers_priority_table() {
    let players = vec![media_named("vlc"), media_named("spotify")];
    assert_eq!(active_media(&players), Some(1));
}

#[test]
fn media_selection_defaults_to_first() {
    let players = vec![media_named("browser-x")];
    assert_eq!(active_media(&players), Some(0));
}

#[test]
fn media_selection_of_empty_is_none() {
    let players: Vec<Media> = Vec::new();
    assert_eq!(active_media(&players), None);
}

#[test]
fn media_selection_matches_substrings() {
    let players = vec![
        media_named("org.mpris.firefox"),
        media_named("mpv-wrapped"),
        media_named("something"),
    ];
    assert_eq!(active_media(&players), Some(1));
}

#[test]
fn media_selection_first_wins_ties() {
    let players = vec![media_named("vlc one"), media_named("vlc two")];
    assert_eq!(active_media(&players), Some(0));
}

#[test]
fn priority_values() {
    assert_eq!(priority_of("spotify"), 0);
    assert_eq!(priority_of("has vlc inside"), 1);
    assert_eq!(priority_of("nothing"), 6);
}

#[test]
fn disk_filtering_drops_reserved_and_names_root() {
    let raw = vec![
        raw_disk("/"),
        raw_disk("/boot/efi"),
        raw_disk("/home"),
        raw_disk("/run/user/1000"),
    ];
    let out: Vec<Disk> = filter_disks(&raw);
    assert_eq!(out.len(), 2);
    assert_eq!(out[0].name.as_str(), "root");
    assert_eq!(out[0].mnt.as_str(), "/");
    assert_eq!(out[1].name.as_str(), "home");
    assert_eq!(out[1].mnt.as_str(), "/home");
    assert_eq!(out[1].mem, Mem { avail: 1, total: 2 });
}

#[test]
fn disk_filtering_keeps_order_and_deep_names() {
    let raw = vec![raw_disk("/mnt/data/things"), raw_disk("/srv"), raw_disk("/tmp/x")];
    let out = filter_disks(&raw);
    assert_eq!(out.len(), 2);
    assert_eq!(out[0].name.as_str(), "things");
    assert_eq!(out[1].name.as_str(), "srv");
}

#[test]
fn join_artists_joins_or_falls_back() {
    let empty: Vec<String> = Vec::new();
    assert_eq!(join_artists(&empty).as_str(), "unknown");
    let one = vec![String::from("solo")];
    assert_eq!(join_artists(&one).as_str(), "solo");
    let three = vec![String::from("a"), String::from("b"), String::from("c")];
    assert_eq!(join_artists(&three).as_str(), "a, b, c");
}

#[test]
fn text_helpers() {
    assert!(str_contains("abcdef", "cde"));
    assert!(str_contains("abc", ""));
    assert!(!str_contains("abc", "abcd"));
    assert!(str_starts_with("/run/user", "/run"));
    assert!(!str_starts_with("/home", "/run"));
    assert_eq!(after_last_slash("/boot/efi"), "efi");
    assert_eq!(after_last_slash("plain"), "plain");
    assert_eq!(after_last_slash("/ends/"), "");
}

#[test]
fn numbers_render_in_decimal() {
    assert_eq!(u64_to_string(0).as_str(), "0");
    assert_eq!(u64_to_string(7).as_str(), "7");
    assert_eq!(u64_to_string(12345).as_str(), "12345");
    assert_eq!(u64_to_string(u64::MAX).as_str(), "18446744073709551615");
}

#[test]
fn media_from_raw_maps_and_falls_back() {
    let m = media_from_raw(
        "Spotify Premium",
        None,
        &vec![String::from("A"), String::from("B")],
        Some(String::from("Album X")),
        None,
        Some(42),
        None,
        None,
    );
    assert_eq!(m.name.as_str(), "spotify premium");
    assert_eq!(m.song.as_str(), "unknown");
    assert_eq!(m.artist.as_str(), "A, B");
    assert_eq!(m.album.as_str(), "Album X");
    assert_eq!(m.art_url.as_str(), "unknown");
    assert_eq!(m.elapsed_s, 42);
    assert_eq!(m.length_s, 0);
    assert!(m.paused, "an unavailable status counts as paused");
}

#[test]
fn media_from_raw_feeds_selection() {
    let m = media_from_raw(
        "VLC Media Player",
        Some(String::from("s")),
        &Vec::<String>::new(),
        None,
        None,
        None,
        None,
        Some(false),
    );
    assert!(!m.paused);
    assert_eq!(m.artist.as_str(), "unknown");
    assert_eq!(priority_of(m.name.as_str()), 1, "the lowercased identity matches the table");
    let players = vec![m];
    assert_eq!(active_media(&players), Some(0));
}

#[test]
fn make_word_falls_back_per_field() {
    let w: Word = make_word(&RawSpan {
        text: None,
        fg: Some(String::from("#00ff00")),
        bg: Some(String::from("bogus")),
        bold: Some(true),
        italic: None,
    });
    assert_eq!(w.text.as_str(), "");
    assert_eq!(w.style.fg, Some((0, 255, 0)));
    assert_eq!(w.style.bg, None);
    assert!(w.style.bold);
    assert!(!w.style.italic);
}

#[test]
fn lines_keep_indices() {
    let raw = vec![
        vec![],
        vec![RawSpan { text: Some(String::from("hi")), fg: None, bg: None, bold: None, italic: None }],
    ];
    let lines = lines_from_raw(&raw);
    assert_eq!(lines.len(), 2);
    assert_eq!(lines[0].len(), 0);
    assert_eq!(lines[1].len(), 1);
    assert_eq!(lines[1][0].text.as_str(), "hi");
}

#[test]
fn max_width_is_widest_line() {
    let raw = vec![
        vec![
            RawSpan { text: Some(String::from("ab")), fg: None, bg: None, bold: None, italic: None },
            RawSpan { text: Some(String::from("cde")), fg: None, bg: None, bold: None, italic: None },
        ],
        vec![RawSpan { text: Some(String::from("xyzw")), fg: None, bg: None, bold: None, italic: None }],
    ];
    let lines = lines_from_raw(&raw);
    assert_eq!(max_line_width(&lines), 5);
    let empty: Vec<Vec<Word>> = Vec::new();
    assert_eq!(max_line_width(&empty), 0);
}

#[test]
fn snapshot_default_holds_sentinels() {
    let s = TelemetrySnapshot::default();
    assert_eq!(s.user.as_str(), "unknown");
    assert_eq!(s.comp.as_str(), "unknown");
    assert_eq!(s.uptime, 0);
    assert!(s.desk_e.is_none());
    assert!(s.disks.is_empty());
    assert!(s.media.is_empty());
}
