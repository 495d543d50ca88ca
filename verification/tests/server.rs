use std::hash::{Hash, Hasher};

use presentations::cmd::{path_dirs, whereis};
use presentations::pptx_parser::{EmbeddedMedia, MediaType};
use presentations::server::{
    classify_entry, env_assignment, external_video_source, is_media_file, media_path_in_zip,
    path_file_name, pdf_page_count, svg_name, video_extension, video_output_name,
    videos_to_extract, wifi_interface_from_nmcli, EntryKind,
};
use presentations::watcher::{
    compute_version, hex_string, reload_after_rescan, reload_on_request, WatchActions, WatchEvent,
    WatcherState,
};

#[test]
fn media_files_by_extension() {
    for n in ["a.png", "b.JPG", "c.pptx", "d.PDF", "e.3gp", "f.av1", "x.y.mpeg"] {
        assert!(is_media_file(n), "{}", n);
    }
    for n in ["a.txt", "noext", "png.", "a.pptm"] {
        assert!(!is_media_file(n), "{}", n);
    }
    assert!(is_media_file("png"));
}

#[test]
fn folder_entries_are_classified() {
    assert_eq!(classify_entry(".hidden.png"), EntryKind::Skip);
    assert_eq!(classify_entry("notes.txt"), EntryKind::Skip);
    assert_eq!(classify_entry("Deck.PDF"), EntryKind::Pdf);
    assert_eq!(classify_entry("deck.pptx"), EntryKind::Pptx);
    assert_eq!(classify_entry("deck.PPT"), EntryKind::Ppt);
    assert_eq!(classify_entry("photo.webp"), EntryKind::Media);
}

#[test]
fn pdfinfo_page_count() {
    let out = "Title:          x\nPages:          12\nEncrypted:      no\n";
    assert_eq!(pdf_page_count(out), Some(12));
    assert_eq!(pdf_page_count("Pages: many\nPages: 3\n"), None);
    assert_eq!(pdf_page_count("Title: y\n"), None);
    assert_eq!(pdf_page_count("Pages: 4294967296\n"), None);
    assert_eq!(pdf_page_count("  Pages: 2\n"), None);
}

#[test]
fn nmcli_wifi_device() {
    let out = "lo:loopback\neth0:ethernet\nwlp2s0:wifi\nwlan1:wifi\n";
    assert_eq!(wifi_interface_from_nmcli(out).as_deref(), Some("wlp2s0"));
    assert_eq!(wifi_interface_from_nmcli("wl0:wireless-x\n").as_deref(), Some("wl0"));
    assert_eq!(wifi_interface_from_nmcli("eth0:ethernet\n"), None);
}

#[test]
fn env_lines() {
    assert_eq!(
        env_assignment("  PORT = 9000 "),
        Some(("PORT".to_string(), "9000".to_string()))
    );
    assert_eq!(
        env_assignment("A=b=c"),
        Some(("A".to_string(), "b=c".to_string()))
    );
    assert_eq!(env_assignment("# comment"), None);
}

#[test]
fn unix_file_names() {
    assert_eq!(path_file_name("/usr/bin/wpctl").as_deref(), Some("wpctl"));
    assert_eq!(path_file_name("../media/video1.mp4").as_deref(), Some("video1.mp4"));
    assert_eq!(path_file_name("dir/sub/").as_deref(), Some("sub"));
    assert_eq!(path_file_name("a/.").as_deref(), Some("a"));
    assert_eq!(path_file_name("a/.."), None);
    assert_eq!(path_file_name("/"), None);
}

#[test]
fn video_extensions() {
    assert_eq!(video_extension("/home/u/clip.MOV"), "MOV");
    assert_eq!(video_extension("/home/u/clip"), "mp4");
    assert_eq!(video_extension("/home/u/.hidden"), "mp4");
    assert_eq!(video_extension("a.tar.gz"), "gz");
    assert_eq!(video_extension("name."), "");
}

#[test]
fn media_inside_the_archive() {
    assert_eq!(media_path_in_zip("../media/video1.mp4").as_deref(), Some("ppt/media/video1.mp4"));
    assert_eq!(media_path_in_zip("video2.mp4").as_deref(), Some("ppt/media/video2.mp4"));
    assert_eq!(media_path_in_zip("media/.."), None);
    assert_eq!(
        external_video_source("file:///var/home/sergio/Descargas/video.mp4").as_deref(),
        Some("/var/home/sergio/Descargas/video.mp4")
    );
    assert_eq!(external_video_source("../media/v.mp4"), None);
}

#[test]
fn derived_file_names() {
    assert_eq!(video_output_name("deck", 3, 2, "mp4", true), "deck-3__video_2.mp4");
    assert_eq!(video_output_name("deck", 10, 1, "mov", false), "deck-10_video_1.mov");
    assert_eq!(svg_name("deck", 7), "deck_7.svg");
}

fn media(kind: MediaType, name: &str) -> EmbeddedMedia {
    EmbeddedMedia { media_type: kind, filename: name.to_string(), content_type: String::new() }
}

#[test]
fn each_video_is_taken_once_and_numbered() {
    let list = vec![
        media(MediaType::Video, "a.mp4"),
        media(MediaType::Audio, "s.mp3"),
        media(MediaType::Video, "a.mp4"),
        media(MediaType::Video, "b.mp4"),
    ];
    assert_eq!(
        videos_to_extract(&list),
        vec![("a.mp4".to_string(), 1), ("b.mp4".to_string(), 3)]
    );
    assert!(videos_to_extract(&vec![]).is_empty());
}

#[test]
fn program_lookup() {
    let files = vec![
        "/usr/local/bin/pactl2".to_string(),
        "/usr/bin/pactl".to_string(),
        "/bin/pactl".to_string(),
    ];
    assert_eq!(whereis(&files, "pactl").as_deref(), Some("/usr/bin/pactl"));
    assert_eq!(whereis(&files, "wpctl"), None);
    assert_eq!(
        path_dirs("/usr/bin::/bin"),
        vec!["/usr/bin".to_string(), String::new(), "/bin".to_string()]
    );
    assert_eq!(path_dirs(""), vec![String::new()]);
}

fn acts(broadcast_reload: bool, clear_version: bool, rescan: bool) -> WatchActions {
    WatchActions { broadcast_reload, clear_version, rescan }
}

#[test]
fn watcher_debounces_file_changes() {
    let mut w = WatcherState::new();
    assert!(!w.debounce_armed());
    assert_eq!(w.step(WatchEvent::FilesChanged), acts(false, false, false));
    assert!(w.debounce_armed());
    let a = w.step(WatchEvent::DebounceElapsed { accessible_now: true, converting: false });
    assert_eq!(a, acts(false, false, true));
    assert!(!w.debounce_armed());
}

#[test]
fn watcher_follows_the_folder() {
    let mut w = WatcherState::new();
    w.step(WatchEvent::FilesChanged);
    let a = w.step(WatchEvent::DebounceElapsed { accessible_now: false, converting: false });
    assert_eq!(a, acts(true, true, false));
    assert!(!w.folder_accessible);
    w.step(WatchEvent::FilesChanged);
    let a = w.step(WatchEvent::DebounceElapsed { accessible_now: false, converting: false });
    assert_eq!(a, acts(false, false, false));
    w.step(WatchEvent::FilesChanged);
    let a = w.step(WatchEvent::DebounceElapsed { accessible_now: true, converting: true });
    assert_eq!(a, acts(false, false, false));
    assert!(w.folder_accessible);
}

#[test]
fn watcher_mount_polls() {
    let mut w = WatcherState::new();
    assert_eq!(w.step(WatchEvent::MountPolled { is_mounted: true, converting: false }), acts(false, false, false));
    assert_eq!(w.step(WatchEvent::MountPolled { is_mounted: false, converting: false }), acts(true, false, false));
    assert!(!w.folder_accessible);
    assert_eq!(w.step(WatchEvent::MountPolled { is_mounted: true, converting: true }), acts(false, false, false));
    assert!(w.folder_accessible);
}

#[test]
fn version_rules() {
    assert!(reload_after_rescan("", "abc"));
    assert!(!reload_after_rescan("abc", "abc"));
    assert!(!reload_on_request("", "abc"));
    assert!(reload_on_request("abd", "abc"));
    assert!(!reload_on_request("abc", "abc"));
}

#[test]
fn versions_in_hex() {
    assert_eq!(hex_string(0), "0");
    assert_eq!(hex_string(255), "ff");
    assert_eq!(hex_string(0x1a2b), "1a2b");
    assert_eq!(hex_string(u64::MAX), "ffffffffffffffff");
    let a = vec![("x.png".to_string(), "x.png".to_string())];
    let b = vec![("y.png".to_string(), "y.png".to_string())];
    assert_eq!(compute_version(&a), compute_version(&a.clone()));
    assert_ne!(compute_version(&a), compute_version(&b));
    let v = compute_version(&a);
    assert!(!v.is_empty() && v.chars().all(|c| c.is_ascii_hexdigit() && !c.is_ascii_uppercase()));
}

#[test]
fn version_matches_std_hashing() {
    let entries = vec![
        ("a.png".to_string(), "a.png".to_string()),
        ("deck_1.svg".to_string(), "deck_1.svg".to_string()),
    ];
    let mut h = std::collections::hash_map::DefaultHasher::new();
    for (k, n) in &entries {
        k.hash(&mut h);
        n.hash(&mut h);
    }
    assert_eq!(compute_version(&entries), format!("{:x}", h.finish()));
}
