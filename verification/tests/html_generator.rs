use presentations::html_generator::{generate_html, html_escape, PresentationFile};

fn file(name: &str, size: u64) -> PresentationFile {
    PresentationFile { name: name.to_string(), path: name.to_string(), size }
}

#[test]
fn test_file_type_detection() {
    let video_file = PresentationFile {
        name: "PRESENTACION 1.1.mp4".to_string(),
        path: "/path/to/file.mp4".to_string(),
        size: 1024,
    };
    assert!(video_file.is_video());
    assert!(!video_file.is_image());

    let image_file = PresentationFile {
        name: "PRESENTACION 1.0.png".to_string(),
        path: "/path/to/file.png".to_string(),
        size: 2048,
    };
    assert!(image_file.is_image());
    assert!(!image_file.is_video());
}

#[test]
fn test_html_generation() {
    let files = vec![
        PresentationFile {
            name: "PRESENTACION-1.0.png".to_string(),
            path: "PRESENTACION-1.0.png".to_string(),
            size: 1024,
        },
        PresentationFile {
            name: "PRESENTACION-1.1.mp4".to_string(),
            path: "PRESENTACION-1.1.mp4".to_string(),
            size: 2048,
        },
    ];

    let html = generate_html(files);
    assert!(html.contains(r#"data-background-image="PRESENTACION-1.0.png""#));
    assert!(html.contains(r#"data-background-size="contain""#));
    assert!(html.contains(r#"data-background-video="PRESENTACION-1.1.mp4""#));
    assert!(html.contains("data-autoplay"));
    assert!(html.contains(r#"data-background-size="cover""#));
    assert!(html.contains("Reveal.initialize"));
}

#[test]
fn extension_is_case_insensitive() {
    assert!(file("CLIP.MP4", 1).is_video());
    assert!(file("Photo.JpEg", 1).is_image());
    assert!(!file("notes.txt", 1).is_image());
    assert!(!file("mp4", 1).is_image());
    // the whole name is the extension when there is no dot
    assert!(file("mp4", 1).is_video());
}

#[test]
fn only_the_last_extension_counts() {
    assert!(!file("movie.mp4.txt", 1).is_video());
    assert!(file("archive.txt.webm", 1).is_video());
    assert!(!file("trailing.", 1).is_image());
}

#[test]
fn no_file_is_video_and_image() {
    for n in ["a.mp4", "a.mov", "a.webm", "a.webp", "a.png", "a.svg", "a.ogg", "x"] {
        let f = file(n, 0);
        assert!(!(f.is_video() && f.is_image()));
    }
}

#[test]
fn escape_replaces_markup_characters() {
    assert_eq!(html_escape("a&b<c>d\"e'f"), "a&amp;b&lt;c&gt;d&quot;e&#x27;f");
    assert_eq!(html_escape("plain"), "plain");
    assert_eq!(html_escape(""), "");
    let e = html_escape("<<'\">>");
    assert!(!e.contains('<') && !e.contains('>') && !e.contains('"') && !e.contains('\''));
}

#[test]
fn page_orders_slides_by_name_and_drops_other_files() {
    let html = generate_html(vec![
        file("b.png", 1),
        file("notes.txt", 1),
        file("a.mp4", 1),
        file("C.jpg", 1),
    ]);
    let a = html.find("\"a.mp4\"").unwrap();
    let b = html.find("\"b.png\"").unwrap();
    let c = html.find("\"C.jpg\"").unwrap();
    // byte order: upper case before lower case
    assert!(c < a && a < b);
    assert!(!html.contains("notes.txt"));
    assert_eq!(html.matches("<section").count(), 3);
}

#[test]
fn page_escapes_file_names() {
    let html = generate_html(vec![file("a\"b<c>.png", 1)]);
    assert!(html.contains("data-background-image=\"a&quot;b&lt;c&gt;.png\""));
}

#[test]
fn empty_folder_gives_page_without_slides() {
    let html = generate_html(vec![]);
    assert!(html.starts_with("<!doctype html>"));
    assert!(html.ends_with("</html>"));
    assert!(!html.contains("<section"));
    assert!(html.contains("Presentación"));
}

#[test]
fn video_slide_has_exact_markup() {
    let html = generate_html(vec![file("v.webm", 1)]);
    let expected = "\n                <section\n                    data-background-video=\"v.webm\"\n                    data-autoplay\n                    data-background-size=\"cover\"\n                    data-background-video-loop\n                ></section>";
    assert!(html.contains(expected));
}

#[test]
fn page_ignores_order_and_other_files() {
    let files1 = vec![file("b.mp4", 1), file("a.png", 2), file("a.png", 3)];
    let files2 = vec![
        file("notes.txt", 4),
        file("a.png", 5),
        file("b.mp4", 6),
        file("deck.pdf", 7),
        file("a.png", 8),
    ];
    assert_eq!(generate_html(files1), generate_html(files2));
}
