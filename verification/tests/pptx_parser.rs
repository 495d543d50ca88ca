use std::io::Write;

use presentations::pptx_parser::presentation::{AnimationTimings, SlideTimings};
use presentations::pptx_parser::slides::Relationship;
use presentations::pptx_parser::{
    Animation, AnimationTrigger, AnimationType, Direction, EmbeddedMedia, MediaType,
    PptxInfo, PptxParseError, PptxParser, SlideInfo, Transition, TransitionType,
};

#[test]
fn test_animation_type_from_str() {
    assert!(matches!(AnimationType::from("fade"), AnimationType::Fade));
    assert!(matches!(AnimationType::from("fly"), AnimationType::Fly));
}

#[test]
fn test_direction_from_str() {
    assert_eq!(Direction::from("left"), Direction::Left);
    assert_eq!(Direction::from("right"), Direction::Right);
    assert_eq!(Direction::from("up"), Direction::Up);
    assert_eq!(Direction::from("tl"), Direction::TopLeft);
}

#[test]
fn test_transition_type_parse() {
    // No direction
    assert_eq!(
        TransitionType::parse(Some("fade"), None),
        TransitionType::Fade
    );
    assert_eq!(
        TransitionType::parse(Some("morph"), None),
        TransitionType::Morph
    );

    // With direction
    assert_eq!(
        TransitionType::parse(Some("push"), Some("left")),
        TransitionType::Push(Direction::Left)
    );
    assert_eq!(
        TransitionType::parse(Some("wipe"), Some("right")),
        TransitionType::Wipe(Direction::Right)
    );

    // Zoom center
    assert_eq!(
        TransitionType::parse(Some("zoom"), Some("center")),
        TransitionType::ZoomCenter
    );
}

#[test]
fn test_transition_has_direction() {
    assert!(TransitionType::Push(Direction::Left).has_direction());
    assert!(TransitionType::Wipe(Direction::Right).has_direction());
    assert!(!TransitionType::Fade.has_direction());
    assert!(!TransitionType::Morph.has_direction());
}

#[test]
fn test_transition_direction() {
    assert_eq!(
        TransitionType::Push(Direction::Left).direction(),
        Some(&Direction::Left)
    );
    assert_eq!(TransitionType::Fade.direction(), None);
}

#[test]
fn test_guess_audio_type() {
    assert_eq!(PptxParser::guess_audio_type("sound.mp3"), "audio/mpeg");
    assert_eq!(PptxParser::guess_audio_type("sound.wav"), "audio/wav");
}

#[test]
fn test_guess_video_type() {
    assert_eq!(PptxParser::guess_video_type("video.mp4"), "video/mp4");
    assert_eq!(PptxParser::guess_video_type("video.mov"), "video/quicktime");
}

#[test]
fn trys() {
    // "Extlst-test.pptx" is not shipped: its content is read as nothing
    let bytes: Vec<u8> = Vec::new();
    let a = PptxParser::parse_bytes(bytes).map(|raw| raw.slide_count);
    println!("{:?}", a);
}

#[test]
fn test_video_extraction() {
    let slide_xml = r#"<?xml version="1.0" encoding="UTF-8" standalone="yes"?>
<p:sld xmlns:a="http://schemas.openxmlformats.org/drawingml/2006/main" xmlns:p="http://schemas.openxmlformats.org/presentationml/2006/main" xmlns:r="http://schemas.openxmlformats.org/officeDocument/2006/relationships" xmlns:p14="http://schemas.microsoft.com/office/powerpoint/2010/main">
  <p:cSld>
    <p:spTree>
      <p:pic>
        <p:nvPicPr>
          <p:cNvPr id="65" name="">
            <a:hlinkClick r:id="" action="ppaction://media"/>
          </p:cNvPr>
          <p:cNvPicPr/>
          <p:nvPr>
            <a:videoFile r:link="rId6"/>
            <p:extLst>
              <p:ext uri="{DAA4B4D4-6D71-4841-9C94-3DE7FCFB9230}">
                <p14:media r:link="rId7"/>
              </p:ext>
            </p:extLst>
          </p:nvPr>
        </p:nvPicPr>
        <p:blipFill>
          <a:blip r:embed="rId8"></a:blip>
          <a:stretch><a:fillRect/></a:stretch>
        </p:blipFill>
        <p:spPr>
          <a:xfrm>
            <a:off x="1551960" y="1732320"/>
            <a:ext cx="6095520" cy="3428640"/>
          </a:xfrm>
          <a:prstGeom prst="rect"><a:avLst/></a:prstGeom>
          <a:ln w="0"><a:noFill/></a:ln>
        </p:spPr>
      </p:pic>
    </p:spTree>
  </p:cSld>
</p:sld>"#;

    let rels = vec![
        Relationship {
            id: "rId6".to_string(),
            target: "file:///var/home/sergio/Descargas/video.mp4".to_string(),
            rel_type: "http://schemas.openxmlformats.org/officeDocument/2006/relationships/video"
                .to_string(),
        },
        Relationship {
            id: "rId7".to_string(),
            target: "file:///var/home/sergio/Descargas/video.mp4".to_string(),
            rel_type: "http://schemas.microsoft.com/office/2007/relationships/media".to_string(),
        },
    ];

    let media = PptxParser::parse_embedded_media(slide_xml, &rels).unwrap();
    // Should find 2 media references (rId6 from videoFile and rId7 from p14:media)
    assert_eq!(
        media.len(),
        2,
        "Should find videoFile and p14:media references"
    );
    assert!(matches!(media[0].media_type, MediaType::Video));
    assert!(media[0].filename.contains("video.mp4"));
    assert!(matches!(media[1].media_type, MediaType::Video));
    assert!(media[1].filename.contains("video.mp4"));
}

// ---------------------------------------------------------------------

fn zip_of(entries: &[(&str, &str)]) -> Vec<u8> {
    let mut w = zip::ZipWriter::new(std::io::Cursor::new(Vec::new()));
    let options = zip::write::SimpleFileOptions::default()
        .compression_method(zip::CompressionMethod::Stored);
    for (name, text) in entries {
        w.start_file(*name, options).unwrap();
        w.write_all(text.as_bytes()).unwrap();
    }
    w.finish().unwrap().into_inner()
}

const PRESENTATION: &str = r#"<p:presentation xmlns:p="p"><p:sldIdLst><p:sldId id="256"/><p:sldId id="257"/></p:sldIdLst></p:presentation>"#;

const SLIDE_1: &str = r#"<p:sld xmlns:p="p" xmlns:r="http://schemas.openxmlformats.org/officeDocument/2006/relationships">
<p:transition type="PUSH" dir="u" dur="0.7"/>
<p:timing><p:tnLst><p:par><p:cTn>
  <p:childTnLst>
    <p:animEffect presetID="ignored"/>
    <p:set spid="4" presetClass="entr" cond="withPrev" dur="1"/>
    <p:anim presetID="Wheel" tgtEl="7" delay="0.5" cond="afterPrevious"><p:animClr/></p:anim>
  </p:childTnLst>
</p:cTn></p:par></p:tnLst></p:timing>
<p:audio name="Sound.WAV"/>
<p:media r:link="rId2"/>
<p:media r:link="rId2"/>
</p:sld>"#;

const SLIDE_1_RELS: &str = r#"<Relationships><Relationship Id="rId2" Target="../media/clip.ogg" Type="http://x/relationships/audio"/><Relationship Id="rId2" Target="../media/clip.mkv" Type="http://x/relationships/video"/></Relationships>"#;

#[test]
fn archive_is_read_slide_by_slide() {
    let bytes = zip_of(&[
        ("ppt/presentation.xml", PRESENTATION),
        ("ppt/slides/slide1.xml", SLIDE_1),
        ("ppt/slides/_rels/slide1.xml.rels", SLIDE_1_RELS),
    ]);
    let raw = PptxParser::parse_bytes(bytes).unwrap();
    assert_eq!(raw.slide_count, 2);
    assert_eq!(raw.slides.len(), 2);

    let s1 = &raw.slides[0];
    assert_eq!(s1.slide_number, 1);
    let t = s1.transition.as_ref().unwrap();
    assert_eq!(t.transition_type, TransitionType::Push(Direction::Up));
    assert_eq!(t.duration.as_deref(), Some("0.7"));

    // every animation node once in document order, then again those reached
    // from the root without entering an animation node (the nested animClr is not)
    let kinds: Vec<String> = s1.animations.iter().map(|a| format!("{:?}", a.animation_type)).collect();
    assert_eq!(kinds, vec!["Appear", "Wheel", "Fade", "Appear", "Wheel"]);
    assert_eq!(s1.animations[0].trigger, AnimationTrigger::WithPrevious);
    assert_eq!(s1.animations[0].target_element.as_deref(), Some("4"));
    assert_eq!(s1.animations[0].subtype.as_deref(), Some("entr"));
    assert_eq!(s1.animations[1].trigger, AnimationTrigger::AfterPrevious);
    assert_eq!(s1.animations[1].target_element.as_deref(), Some("7"));
    assert_eq!(s1.animations[1].delay.as_deref(), Some("0.5"));
    assert_eq!(s1.animations[2].trigger, AnimationTrigger::OnClick);

    // the later declaration of rId2 wins, and it is followed once
    assert_eq!(s1.embedded_media.len(), 2);
    assert_eq!(s1.embedded_media[0].media_type, MediaType::Audio);
    assert_eq!(s1.embedded_media[0].filename, "Sound.WAV");
    assert_eq!(s1.embedded_media[0].content_type, "audio/wav");
    assert_eq!(s1.embedded_media[1].media_type, MediaType::Video);
    assert_eq!(s1.embedded_media[1].filename, "../media/clip.mkv");
    assert_eq!(s1.embedded_media[1].content_type, "video/x-matroska");

    // slide 2 has no part: an empty slide
    let s2 = &raw.slides[1];
    assert_eq!(s2.slide_number, 2);
    assert!(s2.animations.is_empty() && s2.transition.is_none() && s2.embedded_media.is_empty());

    let timings = vec![
        SlideTimings {
            animations: vec![
                AnimationTimings { duration_ms: Some(1000), delay_ms: None },
                AnimationTimings { duration_ms: None, delay_ms: Some(500) },
                AnimationTimings { duration_ms: None, delay_ms: None },
                AnimationTimings { duration_ms: Some(1000), delay_ms: None },
                AnimationTimings { duration_ms: None, delay_ms: Some(500) },
            ],
            transition_ms: Some(700),
        },
        SlideTimings { animations: vec![], transition_ms: None },
    ];
    let info = raw.finish(timings);
    assert_eq!(info.slides[0].animations[1].duration_ms, 500);
    assert_eq!(info.slides[0].animations[1].delay_ms, 500);
    assert_eq!(info.slides[0].animations[2].delay_ms, 0);
    assert_eq!(info.slides[0].transition.as_ref().unwrap().duration_ms, 700);

    let summary = PptxParser::get_summary(&info);
    assert_eq!(
        summary,
        "Presentation with 2 slides\n\nSlide 1: 5 animations [Appear, Wheel, Fade, Appear, Wheel], 1 audio, 1 video, Push(Up) (700ms)\nSlide 2: no transition\n"
    );
}

#[test]
fn missing_presentation_part_is_reported() {
    let bytes = zip_of(&[("ppt/slides/slide1.xml", SLIDE_1)]);
    match PptxParser::parse_bytes(bytes) {
        Err(PptxParseError::MissingFile(f)) => assert_eq!(f, "ppt/presentation.xml"),
        other => panic!("unexpected {:?}", other.map(|r| r.slide_count)),
    }
}

#[test]
fn malformed_slide_is_an_xml_error() {
    let bytes = zip_of(&[
        ("ppt/presentation.xml", PRESENTATION),
        ("ppt/slides/slide2.xml", "<p:sld><unclosed></p:sld>"),
    ]);
    let e = PptxParser::parse_bytes(bytes).err().unwrap();
    assert!(matches!(e, PptxParseError::XmlParse(_)));
    assert!(e.message().starts_with("XML parse error: "));
}

#[test]
fn bytes_that_are_no_archive_do_not_open() {
    assert!(matches!(
        PptxParser::parse_bytes(b"not a zip".to_vec()),
        Err(PptxParseError::Zip(_))
    ));
}

#[test]
fn error_messages() {
    assert_eq!(PptxParseError::MissingFile("x".to_string()).message(), "Missing file: x");
    let io = PptxParseError::from(std::io::Error::new(std::io::ErrorKind::Other, "boom"));
    assert_eq!(io.message(), "IO error: boom");
}

#[test]
fn animation_names_are_case_insensitive() {
    assert!(matches!(AnimationType::from("RandomBars"), AnimationType::RandomBars));
    assert!(matches!(AnimationType::from("NONE"), AnimationType::NoAnimation));
    assert!(matches!(AnimationType::from(""), AnimationType::NoAnimation));
    match AnimationType::from("Sparkle") {
        AnimationType::Other(s) => assert_eq!(s, "sparkle"),
        other => panic!("unexpected {:?}", other),
    }
}

#[test]
fn unknown_directions_default_to_right() {
    assert_eq!(Direction::from("sideways"), Direction::Right);
    assert_eq!(Direction::from("BOTTOM_LEFT"), Direction::BottomLeft);
    assert_eq!(Direction::from("C"), Direction::Center);
}

#[test]
fn transition_defaults() {
    assert_eq!(TransitionType::parse(None, None), TransitionType::NoTransition);
    assert_eq!(TransitionType::parse(Some("cover"), None), TransitionType::Cover(Direction::Right));
    assert_eq!(TransitionType::parse(Some("zoom"), None), TransitionType::Zoom(Direction::Center));
    assert_eq!(TransitionType::parse(Some("zoom"), Some("l")), TransitionType::Zoom(Direction::Left));
    assert_eq!(TransitionType::parse(Some("Pull"), Some("d")), TransitionType::Uncover(Direction::Down));
    assert_eq!(TransitionType::parse(Some("Dissolve"), None), TransitionType::Other("dissolve".to_string()));
    assert_eq!(TransitionType::parse(Some(""), Some("l")), TransitionType::NoTransition);
}

#[test]
fn direction_matches_has_direction() {
    for t in [
        TransitionType::Fade,
        TransitionType::ZoomCenter,
        TransitionType::Zoom(Direction::Up),
        TransitionType::Pan(Direction::Left),
        TransitionType::Other("x".to_string()),
    ] {
        assert_eq!(t.has_direction(), t.direction().is_some());
    }
}

#[test]
fn media_type_guesses() {
    assert_eq!(PptxParser::guess_audio_type("a.M4A"), "audio/mp4");
    assert_eq!(PptxParser::guess_audio_type("noext"), "audio/mpeg");
    assert_eq!(PptxParser::guess_video_type("b.QT"), "video/quicktime");
    assert_eq!(PptxParser::guess_video_type("b.unknown"), "video/mp4");
    assert_eq!(PptxParser::guess_video_type("b.wmv"), "video/x-ms-wmv");
}

#[test]
fn default_trigger_is_click() {
    assert_eq!(AnimationTrigger::default(), AnimationTrigger::OnClick);
}

#[test]
fn summary_of_other_types_uses_debug_text() {
    let info = PptxInfo {
        slide_count: 1,
        slides: vec![SlideInfo {
            slide_number: 7,
            animations: vec![Animation {
                animation_type: AnimationType::Other("my \"fx\"".to_string()),
                subtype: None,
                duration_ms: 500,
                trigger: AnimationTrigger::OnClick,
                target_element: None,
                delay_ms: 0,
            }],
            transition: Some(Transition {
                transition_type: TransitionType::Other("x".to_string()),
                duration_ms: 0,
            }),
            embedded_media: vec![EmbeddedMedia {
                media_type: MediaType::Video,
                filename: "v.mp4".to_string(),
                content_type: "video/mp4".to_string(),
            }],
        }],
    };
    assert_eq!(
        PptxParser::get_summary(&info),
        "Presentation with 1 slides\n\nSlide 7: 1 animations [Other(\"my \\\"fx\\\"\")], 1 video, Other(\"x\") (0ms)\n"
    );
}

#[test]
fn malformed_slide_xml_gives_no_media() {
    let rels: Vec<Relationship> = Vec::new();
    match PptxParser::parse_embedded_media("<p:sld><p:pic></p:sld>", &rels) {
        Err(PptxParseError::XmlParse(m)) => assert!(!m.is_empty()),
        other => panic!("unexpected {:?}", other.map(|v| v.len())),
    }
}

#[test]
fn transition_names_ignore_case() {
    assert_eq!(TransitionType::parse(Some("PuSh"), Some("L")), TransitionType::Push(Direction::Left));
    assert_eq!(TransitionType::parse(Some("push"), Some("l")), TransitionType::Push(Direction::Left));
    assert_eq!(TransitionType::parse(Some("ZOOM"), Some("C")), TransitionType::ZoomCenter);
    assert_eq!(TransitionType::parse(Some("Zoom"), None).direction(), Some(&Direction::Center));
    assert_eq!(TransitionType::parse(Some("WIPE"), None).direction(), Some(&Direction::Right));
    assert_eq!(TransitionType::parse(Some("fade"), Some("l")).direction(), None);
}

#[test]
fn summary_has_one_line_per_slide() {
    let bytes = zip_of(&[
        ("ppt/presentation.xml", PRESENTATION),
        ("ppt/slides/slide1.xml", SLIDE_1),
        ("ppt/slides/_rels/slide1.xml.rels", SLIDE_1_RELS),
    ]);
    let raw = PptxParser::parse_bytes(bytes).unwrap();
    let timings = raw
        .slides
        .iter()
        .map(|s| SlideTimings {
            animations: s
                .animations
                .iter()
                .map(|_| AnimationTimings { duration_ms: None, delay_ms: None })
                .collect(),
            transition_ms: None,
        })
        .collect();
    let info = raw.finish(timings);
    let summary = PptxParser::get_summary(&info);
    assert_eq!(summary.matches('\n').count(), info.slides.len() + 2);
}
