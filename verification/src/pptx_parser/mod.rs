//! PPTX analysis: slide count, animations, transitions and embedded media
//! of a PowerPoint file, read from its ZIP container and slide XML.

pub mod archive;
pub mod presentation;
pub mod slides;
pub mod summary;
pub mod xml;

use vstd::prelude::*;

use crate::text::{ascii_lowered, is_ascii_text, lemma_ascii_lowered_twice, 
    last_segment, last_segment_of, lowercase, push_str, starts_with, str_eq, to_lowercase,
};

verus! {

/// Parsed information about a PPTX presentation.
#[derive(Debug)]
pub struct PptxInfo {
    pub slide_count: u32,
    pub slides: Vec<SlideInfo>,
}

/// Information about a single slide.
#[derive(Debug, Clone)]
pub struct SlideInfo {
    pub slide_number: u32,
    pub animations: Vec<Animation>,
    pub transition: Option<Transition>,
    pub embedded_media: Vec<EmbeddedMedia>,
}

/// Embedded media (audio/video) in a slide.
#[derive(Debug, Clone)]
pub struct EmbeddedMedia {
    pub media_type: MediaType,
    pub filename: String,
    pub content_type: String,
}

/// Type of embedded media.
#[derive(Debug, Clone, Copy, PartialEq, Eq, Structural)]
pub enum MediaType {
    Audio,
    Video,
}

/// Animation information.
#[derive(Debug, Clone)]
pub struct Animation {
    pub animation_type: AnimationType,
    pub subtype: Option<String>,
    pub duration_ms: u32,
    pub trigger: AnimationTrigger,
    pub target_element: Option<String>,
    pub delay_ms: u32,
}

/// Types of animations in PowerPoint.
#[derive(Debug, Clone)]
pub enum AnimationType {
    Appear,
    Fade,
    Fly,
    Float,
    Split,
    Wipe,
    Shape,
    Wheel,
    RandomBars,
    GrowAndShrink,
    Zoom,
    Swivel,
    Bounce,
    Credits,
    NoAnimation,
    Other(String),
}

/// The animation names that have a variant of their own.
pub open spec fn is_known_animation_name(lower: Seq<char>) -> bool {
    lower == "appear"@ || lower == "fade"@ || lower == "fly"@ || lower == "float"@ || lower
        == "split"@ || lower == "wipe"@ || lower == "shape"@ || lower == "wheel"@ || lower
        == "randombars"@ || lower == "growandshrink"@ || lower == "zoom"@ || lower == "swivel"@
        || lower == "bounce"@ || lower == "credits"@ || lower == ""@ || lower == "none"@
}

/// `t` is the animation type named by the lower-cased name `lower`.
pub open spec fn animation_type_named(t: AnimationType, lower: Seq<char>) -> bool {
    match t {
        AnimationType::Appear => lower == "appear"@,
        AnimationType::Fade => lower == "fade"@,
        AnimationType::Fly => lower == "fly"@,
        AnimationType::Float => lower == "float"@,
        AnimationType::Split => lower == "split"@,
        AnimationType::Wipe => lower == "wipe"@,
        AnimationType::Shape => lower == "shape"@,
        AnimationType::Wheel => lower == "wheel"@,
        AnimationType::RandomBars => lower == "randombars"@,
        AnimationType::GrowAndShrink => lower == "growandshrink"@,
        AnimationType::Zoom => lower == "zoom"@,
        AnimationType::Swivel => lower == "swivel"@,
        AnimationType::Bounce => lower == "bounce"@,
        AnimationType::Credits => lower == "credits"@,
        AnimationType::NoAnimation => lower == ""@ || lower == "none"@,
        AnimationType::Other(s) => s@ == lower && !is_known_animation_name(lower),
    }
}

impl AnimationType {
    /// The animation type for a (case-insensitive) PowerPoint animation name;
    /// names without a variant of their own are kept, lower-cased, in `Other`.
    pub fn from_name(s: &str) -> (r: AnimationType)
        ensures
            animation_type_named(r, lowercase(s@)),
            is_ascii_text(s@) ==> animation_type_named(r, ascii_lowered(s@)),
    {
        let l = to_lowercase(s);
        let x = l.as_str();
        if str_eq(x, "appear") {
            AnimationType::Appear
        } else if str_eq(x, "fade") {
            AnimationType::Fade
        } else if str_eq(x, "fly") {
            AnimationType::Fly
        } else if str_eq(x, "float") {
            AnimationType::Float
        } else if str_eq(x, "split") {
            AnimationType::Split
        } else if str_eq(x, "wipe") {
            AnimationType::Wipe
        } else if str_eq(x, "shape") {
            AnimationType::Shape
        } else if str_eq(x, "wheel") {
            AnimationType::Wheel
        } else if str_eq(x, "randombars") {
            AnimationType::RandomBars
        } else if str_eq(x, "growandshrink") {
            AnimationType::GrowAndShrink
        } else if str_eq(x, "zoom") {
            AnimationType::Zoom
        } else if str_eq(x, "swivel") {
            AnimationType::Swivel
        } else if str_eq(x, "bounce") {
            AnimationType::Bounce
        } else if str_eq(x, "credits") {
            AnimationType::Credits
        } else if str_eq(x, "") || str_eq(x, "none") {
            AnimationType::NoAnimation
        } else {
            AnimationType::Other(l)
        }
    }
}

impl<'a> From<&'a str> for AnimationType {
    fn from(s: &'a str) -> (r: AnimationType)
        ensures
            animation_type_named(r, lowercase(s@)),
    {
        AnimationType::from_name(s)
    }
}

/// `from_spec` names a type that `s` names; the `String` that `Other` holds
/// is known only by its view, so the conversion is not claimed to equal it,
/// and `from` states `animation_type_named` itself.
impl<'a> vstd::std_specs::convert::FromSpecImpl<&'a str> for AnimationType {
    open spec fn obeys_from_spec() -> bool {
        false
    }

    open spec fn from_spec(s: &'a str) -> AnimationType {
        choose|t: AnimationType| animation_type_named(t, lowercase(s@))
    }
}

/// Animation trigger types.
#[derive(Debug, Clone, Copy, PartialEq, Eq, Structural)]
pub enum AnimationTrigger {
    OnClick,
    WithPrevious,
    AfterPrevious,
    AfterDuration(u32),
}

impl Default for AnimationTrigger {
    fn default() -> (r: AnimationTrigger)
        ensures
            r == AnimationTrigger::OnClick,
    {
        AnimationTrigger::OnClick
    }
}

/// Direction for transitions that support it.
#[derive(Debug, Clone, Copy, PartialEq, Eq, Structural)]
pub enum Direction {
    Left,
    Right,
    Up,
    Down,
    TopLeft,
    TopRight,
    BottomLeft,
    BottomRight,
    Center,
}

/// The direction named by the lower-cased name `lower` (`Right` for names
/// that are not directions).
pub open spec fn direction_named(lower: Seq<char>) -> Direction {
    if lower == "l"@ || lower == "left"@ {
        Direction::Left
    } else if lower == "r"@ || lower == "right"@ {
        Direction::Right
    } else if lower == "u"@ || lower == "up"@ {
        Direction::Up
    } else if lower == "d"@ || lower == "down"@ {
        Direction::Down
    } else if lower == "tl"@ || lower == "topleft"@ || lower == "top_left"@ {
        Direction::TopLeft
    } else if lower == "tr"@ || lower == "topright"@ || lower == "top_right"@ {
        Direction::TopRight
    } else if lower == "bl"@ || lower == "bottomleft"@ || lower == "bottom_left"@ {
        Direction::BottomLeft
    } else if lower == "br"@ || lower == "bottomright"@ || lower == "bottom_right"@ {
        Direction::BottomRight
    } else if lower == "c"@ || lower == "center"@ {
        Direction::Center
    } else {
        Direction::Right
    }
}

impl Direction {
    /// The direction for a (case-insensitive) PowerPoint direction name.
    pub fn from_name(s: &str) -> (r: Direction)
        ensures
            r == direction_named(lowercase(s@)),
            is_ascii_text(s@) ==> r == direction_named(ascii_lowered(s@)),
    {
        let l = to_lowercase(s);
        let x = l.as_str();
        if str_eq(x, "l") || str_eq(x, "left") {
            Direction::Left
        } else if str_eq(x, "r") || str_eq(x, "right") {
            Direction::Right
        } else if str_eq(x, "u") || str_eq(x, "up") {
            Direction::Up
        } else if str_eq(x, "d") || str_eq(x, "down") {
            Direction::Down
        } else if str_eq(x, "tl") || str_eq(x, "topleft") || str_eq(x, "top_left") {
            Direction::TopLeft
        } else if str_eq(x, "tr") || str_eq(x, "topright") || str_eq(x, "top_right") {
            Direction::TopRight
        } else if str_eq(x, "bl") || str_eq(x, "bottomleft") || str_eq(x, "bottom_left") {
            Direction::BottomLeft
        } else if str_eq(x, "br") || str_eq(x, "bottomright") || str_eq(x, "bottom_right") {
            Direction::BottomRight
        } else if str_eq(x, "c") || str_eq(x, "center") {
            Direction::Center
        } else {
            Direction::Right
        }
    }
}

impl<'a> From<&'a str> for Direction {
    fn from(s: &'a str) -> (r: Direction)
        ensures
            r == direction_named(lowercase(s@)),
    {
        Direction::from_name(s)
    }
}

impl<'a> vstd::std_specs::convert::FromSpecImpl<&'a str> for Direction {
    open spec fn obeys_from_spec() -> bool {
        true
    }

    open spec fn from_spec(s: &'a str) -> Direction {
        direction_named(lowercase(s@))
    }
}

/// Slide transition information.
#[derive(Debug, Clone)]
pub struct Transition {
    pub transition_type: TransitionType,
    pub duration_ms: u32,
}

/// Slide transition types in PowerPoint; the direction is embedded only for
/// transitions that support it.
#[derive(Debug, Clone, PartialEq)]
pub enum TransitionType {
    NoTransition,
    Fade,
    Cut,
    RandomBars,
    Newsflash,
    Vortex,
    Shred,
    Switch,
    Flip,
    Gallery,
    Ripple,
    Honeycomb,
    Cube,
    Box,
    Accordion,
    Frame,
    Glitter,
    Airplane,
    FerrisWheel,
    ConveyorBelt,
    Clock,
    Wheel,
    Comb,
    Morph,
    ZoomCenter,
    Rotate,
    Push(Direction),
    Cover(Direction),
    Uncover(Direction),
    PeelOff(Direction),
    PageCurl(Direction),
    Wipe(Direction),
    Split(Direction),
    Reveal(Direction),
    Doors(Direction),
    Window(Direction),
    Pan(Direction),
    Zoom(Direction),
    Other(String),
}

/// The transition that `TransitionType::parse` gives for the lower-cased
/// type name `lower` and the parsed direction `dir`.
pub open spec fn transition_named(t: TransitionType, lower: Seq<char>, dir: Option<Direction>) -> bool {
    if lower == ""@ || lower == "none"@ {
        t == TransitionType::NoTransition
    } else if lower == "fade"@ {
        t == TransitionType::Fade
    } else if lower == "cut"@ || lower == "cutthroughblack"@ {
        t == TransitionType::Cut
    } else if lower == "randombars"@ || lower == "random_bars"@ {
        t == TransitionType::RandomBars
    } else if lower == "newsflash"@ {
        t == TransitionType::Newsflash
    } else if lower == "vortex"@ {
        t == TransitionType::Vortex
    } else if lower == "shred"@ {
        t == TransitionType::Shred
    } else if lower == "switch"@ {
        t == TransitionType::Switch
    } else if lower == "flip"@ {
        t == TransitionType::Flip
    } else if lower == "gallery"@ {
        t == TransitionType::Gallery
    } else if lower == "ripple"@ {
        t == TransitionType::Ripple
    } else if lower == "honeycomb"@ {
        t == TransitionType::Honeycomb
    } else if lower == "cube"@ {
        t == TransitionType::Cube
    } else if lower == "box"@ {
        t == TransitionType::Box
    } else if lower == "accordion"@ {
        t == TransitionType::Accordion
    } else if lower == "frame"@ {
        t == TransitionType::Frame
    } else if lower == "glitter"@ {
        t == TransitionType::Glitter
    } else if lower == "airplane"@ {
        t == TransitionType::Airplane
    } else if lower == "ferriswheel"@ || lower == "ferris_wheel"@ {
        t == TransitionType::FerrisWheel
    } else if lower == "conveyorbelt"@ || lower == "conveyor_belt"@ {
        t == TransitionType::ConveyorBelt
    } else if lower == "clock"@ {
        t == TransitionType::Clock
    } else if lower == "wheel"@ {
        t == TransitionType::Wheel
    } else if lower == "comb"@ {
        t == TransitionType::Comb
    } else if lower == "morph"@ {
        t == TransitionType::Morph
    } else if lower == "rotate"@ {
        t == TransitionType::Rotate
    } else if lower == "push"@ || lower == "pushthroughblack"@ {
        t == TransitionType::Push(dir.unwrap_or(Direction::Right))
    } else if lower == "cover"@ {
        t == TransitionType::Cover(dir.unwrap_or(Direction::Right))
    } else if lower == "uncover"@ || lower == "pull"@ {
        t == TransitionType::Uncover(dir.unwrap_or(Direction::Right))
    } else if lower == "peeloff"@ || lower == "peel_off"@ {
        t == TransitionType::PeelOff(dir.unwrap_or(Direction::Right))
    } else if lower == "pagecurl"@ || lower == "page_curl"@ {
        t == TransitionType::PageCurl(dir.unwrap_or(Direction::Right))
    } else if lower == "wipe"@ {
        t == TransitionType::Wipe(dir.unwrap_or(Direction::Right))
    } else if lower == "split"@ {
        t == TransitionType::Split(dir.unwrap_or(Direction::Right))
    } else if lower == "reveal"@ {
        t == TransitionType::Reveal(dir.unwrap_or(Direction::Right))
    } else if lower == "doors"@ {
        t == TransitionType::Doors(dir.unwrap_or(Direction::Right))
    } else if lower == "window"@ {
        t == TransitionType::Window(dir.unwrap_or(Direction::Right))
    } else if lower == "pan"@ {
        t == TransitionType::Pan(dir.unwrap_or(Direction::Right))
    } else if lower == "zoom"@ {
        if dir == Some(Direction::Center) {
            t == TransitionType::ZoomCenter
        } else {
            t == TransitionType::Zoom(dir.unwrap_or(Direction::Center))
        }
    } else {
        t matches TransitionType::Other(s) && s@ == lower
    }
}

/// An optional string slice as an optional character sequence.
pub open spec fn str_opt_view(o: Option<&str>) -> Option<Seq<char>> {
    match o {
        Some(s) => Some(s@),
        None => None,
    }
}

/// The direction attribute, parsed.
pub open spec fn direction_attr(dir_attr: Option<Seq<char>>) -> Option<Direction> {
    match dir_attr {
        Some(d) => Some(direction_named(lowercase(d))),
        None => None,
    }
}

/// The lower-cased transition type attribute (`"none"` when absent).
pub open spec fn transition_type_name(type_attr: Option<Seq<char>>) -> Seq<char> {
    match type_attr {
        Some(t) => lowercase(t),
        None => lowercase("none"@),
    }
}

/// The transitions that carry a direction.
pub open spec fn transition_has_direction(t: TransitionType) -> bool {
    match t {
        TransitionType::Push(_) => true,
        TransitionType::Cover(_) => true,
        TransitionType::Uncover(_) => true,
        TransitionType::PeelOff(_) => true,
        TransitionType::PageCurl(_) => true,
        TransitionType::Wipe(_) => true,
        TransitionType::Split(_) => true,
        TransitionType::Reveal(_) => true,
        TransitionType::Doors(_) => true,
        TransitionType::Window(_) => true,
        TransitionType::Pan(_) => true,
        TransitionType::Zoom(_) => true,
        _ => false,
    }
}

/// The direction a transition carries, if any.
pub open spec fn transition_direction(t: TransitionType) -> Option<Direction> {
    match t {
        TransitionType::Push(d) => Some(d),
        TransitionType::Cover(d) => Some(d),
        TransitionType::Uncover(d) => Some(d),
        TransitionType::PeelOff(d) => Some(d),
        TransitionType::PageCurl(d) => Some(d),
        TransitionType::Wipe(d) => Some(d),
        TransitionType::Split(d) => Some(d),
        TransitionType::Reveal(d) => Some(d),
        TransitionType::Doors(d) => Some(d),
        TransitionType::Window(d) => Some(d),
        TransitionType::Pan(d) => Some(d),
        TransitionType::Zoom(d) => Some(d),
        _ => None,
    }
}

impl TransitionType {
    /// Parse transition type and direction from string attributes: the type
    /// is matched case-insensitively (absent means `none`), the direction as
    /// `Direction::from` reads it; directional transitions without a
    /// direction get `Right` (`Center` for zoom), and zoom towards the
    /// center is `ZoomCenter`.
    pub fn parse(type_attr: Option<&str>, dir_attr: Option<&str>) -> (r: TransitionType)
        ensures
            transition_named(
                r,
                transition_type_name(str_opt_view(type_attr)),
                direction_attr(str_opt_view(dir_attr)),
            ),
            match type_attr {
                Some(t) => is_ascii_text(t@) ==> transition_type_name(str_opt_view(type_attr))
                    == ascii_lowered(t@),
                None => true,
            },
            match dir_attr {
                Some(d) => is_ascii_text(d@) ==> direction_attr(str_opt_view(dir_attr)) == Some(
                    direction_named(ascii_lowered(d@)),
                ),
                None => true,
            },
    {
        let l = match type_attr {
            Some(t) => to_lowercase(t),
            None => to_lowercase("none"),
        };
        let dir = match dir_attr {
            Some(d) => Some(Direction::from_name(d)),
            None => None,
        };
        let x = l.as_str();
        if str_eq(x, "") || str_eq(x, "none") {
            TransitionType::NoTransition
        } else if str_eq(x, "fade") {
            TransitionType::Fade
        } else if str_eq(x, "cut") || str_eq(x, "cutthroughblack") {
            TransitionType::Cut
        } else if str_eq(x, "randombars") || str_eq(x, "random_bars") {
            TransitionType::RandomBars
        } else if str_eq(x, "newsflash") {
            TransitionType::Newsflash
        } else if str_eq(x, "vortex") {
            TransitionType::Vortex
        } else if str_eq(x, "shred") {
            TransitionType::Shred
        } else if str_eq(x, "switch") {
            TransitionType::Switch
        } else if str_eq(x, "flip") {
            TransitionType::Flip
        } else if str_eq(x, "gallery") {
            TransitionType::Gallery
        } else if str_eq(x, "ripple") {
            TransitionType::Ripple
        } else if str_eq(x, "honeycomb") {
            TransitionType::Honeycomb
        } else if str_eq(x, "cube") {
            TransitionType::Cube
        } else if str_eq(x, "box") {
            TransitionType::Box
        } else if str_eq(x, "accordion") {
            TransitionType::Accordion
        } else if str_eq(x, "frame") {
            TransitionType::Frame
        } else if str_eq(x, "glitter") {
            TransitionType::Glitter
        } else if str_eq(x, "airplane") {
            TransitionType::Airplane
        } else if str_eq(x, "ferriswheel") || str_eq(x, "ferris_wheel") {
            TransitionType::FerrisWheel
        } else if str_eq(x, "conveyorbelt") || str_eq(x, "conveyor_belt") {
            TransitionType::ConveyorBelt
        } else if str_eq(x, "clock") {
            TransitionType::Clock
        } else if str_eq(x, "wheel") {
            TransitionType::Wheel
        } else if str_eq(x, "comb") {
            TransitionType::Comb
        } else if str_eq(x, "morph") {
            TransitionType::Morph
        } else if str_eq(x, "rotate") {
            TransitionType::Rotate
        } else if str_eq(x, "push") || str_eq(x, "pushthroughblack") {
            TransitionType::Push(dir.unwrap_or(Direction::Right))
        } else if str_eq(x, "cover") {
            TransitionType::Cover(dir.unwrap_or(Direction::Right))
        } else if str_eq(x, "uncover") || str_eq(x, "pull") {
            TransitionType::Uncover(dir.unwrap_or(Direction::Right))
        } else if str_eq(x, "peeloff") || str_eq(x, "peel_off") {
            TransitionType::PeelOff(dir.unwrap_or(Direction::Right))
        } else if str_eq(x, "pagecurl") || str_eq(x, "page_curl") {
            TransitionType::PageCurl(dir.unwrap_or(Direction::Right))
        } else if str_eq(x, "wipe") {
            TransitionType::Wipe(dir.unwrap_or(Direction::Right))
        } else if str_eq(x, "split") {
            TransitionType::Split(dir.unwrap_or(Direction::Right))
        } else if str_eq(x, "reveal") {
            TransitionType::Reveal(dir.unwrap_or(Direction::Right))
        } else if str_eq(x, "doors") {
            TransitionType::Doors(dir.unwrap_or(Direction::Right))
        } else if str_eq(x, "window") {
            TransitionType::Window(dir.unwrap_or(Direction::Right))
        } else if str_eq(x, "pan") {
            TransitionType::Pan(dir.unwrap_or(Direction::Right))
        } else if str_eq(x, "zoom") {
            match dir {
                Some(Direction::Center) => TransitionType::ZoomCenter,
                _ => TransitionType::Zoom(dir.unwrap_or(Direction::Center)),
            }
        } else {
            TransitionType::Other(l)
        }
    }

    /// Returns true if this transition supports direction.
    pub fn has_direction(&self) -> (r: bool)
        ensures
            r == transition_has_direction(*self),
    {
        match self {
            TransitionType::Push(_) => true,
            TransitionType::Cover(_) => true,
            TransitionType::Uncover(_) => true,
            TransitionType::PeelOff(_) => true,
            TransitionType::PageCurl(_) => true,
            TransitionType::Wipe(_) => true,
            TransitionType::Split(_) => true,
            TransitionType::Reveal(_) => true,
            TransitionType::Doors(_) => true,
            TransitionType::Window(_) => true,
            TransitionType::Pan(_) => true,
            TransitionType::Zoom(_) => true,
            _ => false,
        }
    }

    /// Get direction if this transition supports it.
    pub fn direction(&self) -> (r: Option<&Direction>)
        ensures
            match r {
                Some(d) => transition_direction(*self) == Some(*d),
                None => transition_direction(*self) is None,
            },
    {
        match self {
            TransitionType::Push(d) => Some(d),
            TransitionType::Cover(d) => Some(d),
            TransitionType::Uncover(d) => Some(d),
            TransitionType::PeelOff(d) => Some(d),
            TransitionType::PageCurl(d) => Some(d),
            TransitionType::Wipe(d) => Some(d),
            TransitionType::Split(d) => Some(d),
            TransitionType::Reveal(d) => Some(d),
            TransitionType::Doors(d) => Some(d),
            TransitionType::Window(d) => Some(d),
            TransitionType::Pan(d) => Some(d),
            TransitionType::Zoom(d) => Some(d),
            _ => None,
        }
    }
}

/// MIME type of audio with the lower-cased extension `ext`.
pub open spec fn audio_content_type(ext: Seq<char>) -> Seq<char> {
    if ext == "mp3"@ {
        "audio/mpeg"@
    } else if ext == "wav"@ {
        "audio/wav"@
    } else if ext == "wma"@ {
        "audio/x-ms-wma"@
    } else if ext == "m4a"@ {
        "audio/mp4"@
    } else if ext == "aac"@ {
        "audio/aac"@
    } else if ext == "ogg"@ {
        "audio/ogg"@
    } else {
        "audio/mpeg"@
    }
}

/// MIME type of video with the lower-cased extension `ext`.
pub open spec fn video_content_type(ext: Seq<char>) -> Seq<char> {
    if ext == "mp4"@ || ext == "m4v"@ {
        "video/mp4"@
    } else if ext == "avi"@ {
        "video/x-msvideo"@
    } else if ext == "wmv"@ {
        "video/x-ms-wmv"@
    } else if ext == "mov"@ || ext == "qt"@ {
        "video/quicktime"@
    } else if ext == "mkv"@ {
        "video/x-matroska"@
    } else if ext == "flv"@ {
        "video/x-flv"@
    } else if ext == "webm"@ {
        "video/webm"@
    } else {
        "video/mp4"@
    }
}

/// Main PPTX parser.
pub struct PptxParser;

impl PptxParser {
    /// MIME type guessed from the extension of a audio file name.
    pub fn guess_audio_type(filename: &str) -> (r: String)
        ensures
            r@ == audio_content_type(lowercase(last_segment(filename@, '.'))),
    {
        let seg = last_segment_of(filename, '.');
        let l = to_lowercase(seg.as_str());
        let x = l.as_str();
        let mut r = String::new();
        if str_eq(x, "mp3") {
            push_str(&mut r, "audio/mpeg");
        } else if str_eq(x, "wav") {
            push_str(&mut r, "audio/wav");
        } else if str_eq(x, "wma") {
            push_str(&mut r, "audio/x-ms-wma");
        } else if str_eq(x, "m4a") {
            push_str(&mut r, "audio/mp4");
        } else if str_eq(x, "aac") {
            push_str(&mut r, "audio/aac");
        } else if str_eq(x, "ogg") {
            push_str(&mut r, "audio/ogg");
        } else {
            push_str(&mut r, "audio/mpeg");
        }
        r
    }

    /// MIME type guessed from the extension of a video file name.
    pub fn guess_video_type(filename: &str) -> (r: String)
        ensures
            r@ == video_content_type(lowercase(last_segment(filename@, '.'))),
    {
        let seg = last_segment_of(filename, '.');
        let l = to_lowercase(seg.as_str());
        let x = l.as_str();
        let mut r = String::new();
        if str_eq(x, "mp4") || str_eq(x, "m4v") {
            push_str(&mut r, "video/mp4");
        } else if str_eq(x, "avi") {
            push_str(&mut r, "video/x-msvideo");
        } else if str_eq(x, "wmv") {
            push_str(&mut r, "video/x-ms-wmv");
        } else if str_eq(x, "mov") || str_eq(x, "qt") {
            push_str(&mut r, "video/quicktime");
        } else if str_eq(x, "mkv") {
            push_str(&mut r, "video/x-matroska");
        } else if str_eq(x, "flv") {
            push_str(&mut r, "video/x-flv");
        } else if str_eq(x, "webm") {
            push_str(&mut r, "video/webm");
        } else {
            push_str(&mut r, "video/mp4");
        }
        r
    }
}

/// A transition carries a direction exactly when it is of a directional kind.
pub proof fn lemma_has_direction_iff_direction(t: TransitionType)
    ensures
        transition_has_direction(t) <==> transition_direction(t) is Some,
{
}

/// Type names are matched case-insensitively: for an ASCII name, the name
/// and its lower-cased form describe the same transitions (`parse` reads
/// both as the same lower-cased name), and so do their directions.
pub proof fn lemma_parse_ignores_case(t: Seq<char>, d: Seq<char>)
    requires
        is_ascii_text(t),
        is_ascii_text(d),
    ensures
        is_ascii_text(ascii_lowered(t)),
        is_ascii_text(ascii_lowered(d)),
        forall|r: TransitionType, dir: Option<Direction>|
            transition_named(r, ascii_lowered(ascii_lowered(t)), dir) <==> transition_named(
                r,
                ascii_lowered(t),
                dir,
            ),
        direction_named(ascii_lowered(ascii_lowered(d))) == direction_named(ascii_lowered(d)),
{
    lemma_ascii_lowered_twice(t);
    lemma_ascii_lowered_twice(d);
}

/// The (lower-cased) transition type names of transitions that carry a
/// direction, zoom aside.
pub open spec fn is_directional_name(lower: Seq<char>) -> bool {
    lower == "push"@ || lower == "pushthroughblack"@ || lower == "cover"@ || lower == "uncover"@ || lower == "pull"@ || lower == "peeloff"@ || lower == "peel_off"@ || lower == "pagecurl"@ || lower == "page_curl"@ || lower == "wipe"@ || lower == "split"@ || lower == "reveal"@ || lower == "doors"@ || lower == "window"@ || lower == "pan"@
}

/// What `TransitionType::parse` gives carries the direction asked for: a
/// directional transition carries the parsed direction (`Right` when none
/// is given); zoom carries it too (`Center` when none), except that zoom
/// towards the center is `ZoomCenter`, which carries none; no other type
/// name gives a direction.
pub proof fn lemma_parse_direction(t: TransitionType, lower: Seq<char>, dir: Option<Direction>)
    requires
        transition_named(t, lower, dir),
    ensures
        is_directional_name(lower) ==> transition_direction(t) == Some(dir.unwrap_or(Direction::Right)),
        lower == "zoom"@ ==> transition_direction(t) == (if dir == Some(Direction::Center) {
            None
        } else {
            Some(dir.unwrap_or(Direction::Center))
        }),
        !is_directional_name(lower) && lower != "zoom"@ ==> transition_direction(t) is None,
{
    reveal_strlit("");
    reveal_strlit("none");
    reveal_strlit("fade");
    reveal_strlit("cut");
    reveal_strlit("cutthroughblack");
    reveal_strlit("randombars");
    reveal_strlit("random_bars");
    reveal_strlit("newsflash");
    reveal_strlit("vortex");
    reveal_strlit("shred");
    reveal_strlit("switch");
    reveal_strlit("flip");
    reveal_strlit("gallery");
    reveal_strlit("ripple");
    reveal_strlit("honeycomb");
    reveal_strlit("cube");
    reveal_strlit("box");
    reveal_strlit("accordion");
    reveal_strlit("frame");
    reveal_strlit("glitter");
    reveal_strlit("airplane");
    reveal_strlit("ferriswheel");
    reveal_strlit("ferris_wheel");
    reveal_strlit("conveyorbelt");
    reveal_strlit("conveyor_belt");
    reveal_strlit("clock");
    reveal_strlit("wheel");
    reveal_strlit("comb");
    reveal_strlit("morph");
    reveal_strlit("rotate");
    reveal_strlit("push");
    reveal_strlit("pushthroughblack");
    reveal_strlit("cover");
    reveal_strlit("uncover");
    reveal_strlit("pull");
    reveal_strlit("peeloff");
    reveal_strlit("peel_off");
    reveal_strlit("pagecurl");
    reveal_strlit("page_curl");
    reveal_strlit("wipe");
    reveal_strlit("split");
    reveal_strlit("reveal");
    reveal_strlit("doors");
    reveal_strlit("window");
    reveal_strlit("pan");
    reveal_strlit("zoom");
    assert(""@.len() == 0);
    assert("none"@.len() == 4 && "none"@[0] == 'n' && "none"@[3] == 'e');
    assert("fade"@.len() == 4 && "fade"@[0] == 'f' && "fade"@[3] == 'e');
    assert("cut"@.len() == 3 && "cut"@[0] == 'c' && "cut"@[2] == 't');
    assert("cutthroughblack"@.len() == 15 && "cutthroughblack"@[0] == 'c' && "cutthroughblack"@[14] == 'k');
    assert("randombars"@.len() == 10 && "randombars"@[0] == 'r' && "randombars"@[9] == 's');
    assert("random_bars"@.len() == 11 && "random_bars"@[0] == 'r' && "random_bars"@[10] == 's');
    assert("newsflash"@.len() == 9 && "newsflash"@[0] == 'n' && "newsflash"@[8] == 'h');
    assert("vortex"@.len() == 6 && "vortex"@[0] == 'v' && "vortex"@[5] == 'x');
    assert("shred"@.len() == 5 && "shred"@[0] == 's' && "shred"@[4] == 'd');
    assert("switch"@.len() == 6 && "switch"@[0] == 's' && "switch"@[5] == 'h');
    assert("flip"@.len() == 4 && "flip"@[0] == 'f' && "flip"@[3] == 'p');
    assert("gallery"@.len() == 7 && "gallery"@[0] == 'g' && "gallery"@[6] == 'y');
    assert("ripple"@.len() == 6 && "ripple"@[0] == 'r' && "ripple"@[5] == 'e');
    assert("honeycomb"@.len() == 9 && "honeycomb"@[0] == 'h' && "honeycomb"@[8] == 'b');
    assert("cube"@.len() == 4 && "cube"@[0] == 'c' && "cube"@[3] == 'e');
    assert("box"@.len() == 3 && "box"@[0] == 'b' && "box"@[2] == 'x');
    assert("accordion"@.len() == 9 && "accordion"@[0] == 'a' && "accordion"@[8] == 'n');
    assert("frame"@.len() == 5 && "frame"@[0] == 'f' && "frame"@[4] == 'e');
    assert("glitter"@.len() == 7 && "glitter"@[0] == 'g' && "glitter"@[6] == 'r');
    assert("airplane"@.len() == 8 && "airplane"@[0] == 'a' && "airplane"@[7] == 'e');
    assert("ferriswheel"@.len() == 11 && "ferriswheel"@[0] == 'f' && "ferriswheel"@[10] == 'l');
    assert("ferris_wheel"@.len() == 12 && "ferris_wheel"@[0] == 'f' && "ferris_wheel"@[11] == 'l');
    assert("conveyorbelt"@.len() == 12 && "conveyorbelt"@[0] == 'c' && "conveyorbelt"@[11] == 't');
    assert("conveyor_belt"@.len() == 13 && "conveyor_belt"@[0] == 'c' && "conveyor_belt"@[12] == 't');
    assert("clock"@.len() == 5 && "clock"@[0] == 'c' && "clock"@[4] == 'k');
    assert("wheel"@.len() == 5 && "wheel"@[0] == 'w' && "wheel"@[4] == 'l');
    assert("comb"@.len() == 4 && "comb"@[0] == 'c' && "comb"@[3] == 'b');
    assert("morph"@.len() == 5 && "morph"@[0] == 'm' && "morph"@[4] == 'h');
    assert("rotate"@.len() == 6 && "rotate"@[0] == 'r' && "rotate"@[5] == 'e');
    assert("push"@.len() == 4 && "push"@[0] == 'p' && "push"@[3] == 'h');
    assert("pushthroughblack"@.len() == 16 && "pushthroughblack"@[0] == 'p' && "pushthroughblack"@[15] == 'k');
    assert("cover"@.len() == 5 && "cover"@[0] == 'c' && "cover"@[4] == 'r');
    assert("uncover"@.len() == 7 && "uncover"@[0] == 'u' && "uncover"@[6] == 'r');
    assert("pull"@.len() == 4 && "pull"@[0] == 'p' && "pull"@[3] == 'l');
    assert("peeloff"@.len() == 7 && "peeloff"@[0] == 'p' && "peeloff"@[6] == 'f');
    assert("peel_off"@.len() == 8 && "peel_off"@[0] == 'p' && "peel_off"@[7] == 'f');
    assert("pagecurl"@.len() == 8 && "pagecurl"@[0] == 'p' && "pagecurl"@[7] == 'l');
    assert("page_curl"@.len() == 9 && "page_curl"@[0] == 'p' && "page_curl"@[8] == 'l');
    assert("wipe"@.len() == 4 && "wipe"@[0] == 'w' && "wipe"@[3] == 'e');
    assert("split"@.len() == 5 && "split"@[0] == 's' && "split"@[4] == 't');
    assert("reveal"@.len() == 6 && "reveal"@[0] == 'r' && "reveal"@[5] == 'l');
    assert("doors"@.len() == 5 && "doors"@[0] == 'd' && "doors"@[4] == 's');
    assert("window"@.len() == 6 && "window"@[0] == 'w' && "window"@[5] == 'w');
    assert("pan"@.len() == 3 && "pan"@[0] == 'p' && "pan"@[2] == 'n');
    assert("zoom"@.len() == 4 && "zoom"@[0] == 'z' && "zoom"@[3] == 'm');
}

/// The transition type names without a direction, each with the transition
/// `TransitionType::parse` gives for it (the lower-cased name `lower`).
pub proof fn lemma_transition_names_plain(t: TransitionType, lower: Seq<char>, dir: Option<Direction>)
    requires
        transition_named(t, lower, dir),
    ensures
        (lower == ""@ || lower == "none"@) ==> t == TransitionType::NoTransition,
        lower == "fade"@ ==> t == TransitionType::Fade,
        (lower == "cut"@ || lower == "cutthroughblack"@) ==> t == TransitionType::Cut,
        (lower == "randombars"@ || lower == "random_bars"@) ==> t == TransitionType::RandomBars,
        lower == "newsflash"@ ==> t == TransitionType::Newsflash,
        lower == "vortex"@ ==> t == TransitionType::Vortex,
        lower == "shred"@ ==> t == TransitionType::Shred,
        lower == "switch"@ ==> t == TransitionType::Switch,
        lower == "flip"@ ==> t == TransitionType::Flip,
        lower == "gallery"@ ==> t == TransitionType::Gallery,
        lower == "ripple"@ ==> t == TransitionType::Ripple,
        lower == "honeycomb"@ ==> t == TransitionType::Honeycomb,
        lower == "cube"@ ==> t == TransitionType::Cube,
        lower == "box"@ ==> t == TransitionType::Box,
        lower == "accordion"@ ==> t == TransitionType::Accordion,
        lower == "frame"@ ==> t == TransitionType::Frame,
        lower == "glitter"@ ==> t == TransitionType::Glitter,
        lower == "airplane"@ ==> t == TransitionType::Airplane,
        (lower == "ferriswheel"@ || lower == "ferris_wheel"@) ==> t == TransitionType::FerrisWheel,
        (lower == "conveyorbelt"@ || lower == "conveyor_belt"@) ==> t == TransitionType::ConveyorBelt,
        lower == "clock"@ ==> t == TransitionType::Clock,
        lower == "wheel"@ ==> t == TransitionType::Wheel,
        lower == "comb"@ ==> t == TransitionType::Comb,
        lower == "morph"@ ==> t == TransitionType::Morph,
        lower == "rotate"@ ==> t == TransitionType::Rotate,
{
    reveal_strlit("");
    reveal_strlit("none");
    reveal_strlit("fade");
    reveal_strlit("cut");
    reveal_strlit("cutthroughblack");
    reveal_strlit("randombars");
    reveal_strlit("random_bars");
    reveal_strlit("newsflash");
    reveal_strlit("vortex");
    reveal_strlit("shred");
    reveal_strlit("switch");
    reveal_strlit("flip");
    reveal_strlit("gallery");
    reveal_strlit("ripple");
    reveal_strlit("honeycomb");
    reveal_strlit("cube");
    reveal_strlit("box");
    reveal_strlit("accordion");
    reveal_strlit("frame");
    reveal_strlit("glitter");
    reveal_strlit("airplane");
    reveal_strlit("ferriswheel");
    reveal_strlit("ferris_wheel");
    reveal_strlit("conveyorbelt");
    reveal_strlit("conveyor_belt");
    reveal_strlit("clock");
    reveal_strlit("wheel");
    reveal_strlit("comb");
    reveal_strlit("morph");
    reveal_strlit("rotate");
    reveal_strlit("push");
    reveal_strlit("pushthroughblack");
    reveal_strlit("cover");
    reveal_strlit("uncover");
    reveal_strlit("pull");
    reveal_strlit("peeloff");
    reveal_strlit("peel_off");
    reveal_strlit("pagecurl");
    reveal_strlit("page_curl");
    reveal_strlit("wipe");
    reveal_strlit("split");
    reveal_strlit("reveal");
    reveal_strlit("doors");
    reveal_strlit("window");
    reveal_strlit("pan");
    reveal_strlit("zoom");
    assert(""@.len() == 0);
    assert("none"@.len() == 4 && "none"@[0] == 'n' && "none"@[3] == 'e');
    assert("fade"@.len() == 4 && "fade"@[0] == 'f' && "fade"@[3] == 'e');
    assert("cut"@.len() == 3 && "cut"@[0] == 'c' && "cut"@[2] == 't');
    assert("cutthroughblack"@.len() == 15 && "cutthroughblack"@[0] == 'c' && "cutthroughblack"@[14] == 'k');
    assert("randombars"@.len() == 10 && "randombars"@[0] == 'r' && "randombars"@[9] == 's');
    assert("random_bars"@.len() == 11 && "random_bars"@[0] == 'r' && "random_bars"@[10] == 's');
    assert("newsflash"@.len() == 9 && "newsflash"@[0] == 'n' && "newsflash"@[8] == 'h');
    assert("vortex"@.len() == 6 && "vortex"@[0] == 'v' && "vortex"@[5] == 'x');
    assert("shred"@.len() == 5 && "shred"@[0] == 's' && "shred"@[4] == 'd');
    assert("switch"@.len() == 6 && "switch"@[0] == 's' && "switch"@[5] == 'h');
    assert("flip"@.len() == 4 && "flip"@[0] == 'f' && "flip"@[3] == 'p');
    assert("gallery"@.len() == 7 && "gallery"@[0] == 'g' && "gallery"@[6] == 'y');
    assert("ripple"@.len() == 6 && "ripple"@[0] == 'r' && "ripple"@[1] == 'i' && "ripple"@[5] == 'e');
    assert("honeycomb"@.len() == 9 && "honeycomb"@[0] == 'h' && "honeycomb"@[8] == 'b');
    assert("cube"@.len() == 4 && "cube"@[0] == 'c' && "cube"@[3] == 'e');
    assert("box"@.len() == 3 && "box"@[0] == 'b' && "box"@[2] == 'x');
    assert("accordion"@.len() == 9 && "accordion"@[0] == 'a' && "accordion"@[8] == 'n');
    assert("frame"@.len() == 5 && "frame"@[0] == 'f' && "frame"@[4] == 'e');
    assert("glitter"@.len() == 7 && "glitter"@[0] == 'g' && "glitter"@[6] == 'r');
    assert("airplane"@.len() == 8 && "airplane"@[0] == 'a' && "airplane"@[7] == 'e');
    assert("ferriswheel"@.len() == 11 && "ferriswheel"@[0] == 'f' && "ferriswheel"@[10] == 'l');
    assert("ferris_wheel"@.len() == 12 && "ferris_wheel"@[0] == 'f' && "ferris_wheel"@[11] == 'l');
    assert("conveyorbelt"@.len() == 12 && "conveyorbelt"@[0] == 'c' && "conveyorbelt"@[11] == 't');
    assert("conveyor_belt"@.len() == 13 && "conveyor_belt"@[0] == 'c' && "conveyor_belt"@[12] == 't');
    assert("clock"@.len() == 5 && "clock"@[0] == 'c' && "clock"@[4] == 'k');
    assert("wheel"@.len() == 5 && "wheel"@[0] == 'w' && "wheel"@[4] == 'l');
    assert("comb"@.len() == 4 && "comb"@[0] == 'c' && "comb"@[3] == 'b');
    assert("morph"@.len() == 5 && "morph"@[0] == 'm' && "morph"@[4] == 'h');
    assert("rotate"@.len() == 6 && "rotate"@[0] == 'r' && "rotate"@[1] == 'o' && "rotate"@[5] == 'e');
    assert("push"@.len() == 4 && "push"@[0] == 'p' && "push"@[3] == 'h');
    assert("pushthroughblack"@.len() == 16 && "pushthroughblack"@[0] == 'p' && "pushthroughblack"@[15] == 'k');
    assert("cover"@.len() == 5 && "cover"@[0] == 'c' && "cover"@[4] == 'r');
    assert("uncover"@.len() == 7 && "uncover"@[0] == 'u' && "uncover"@[6] == 'r');
    assert("pull"@.len() == 4 && "pull"@[0] == 'p' && "pull"@[3] == 'l');
    assert("peeloff"@.len() == 7 && "peeloff"@[0] == 'p' && "peeloff"@[6] == 'f');
    assert("peel_off"@.len() == 8 && "peel_off"@[0] == 'p' && "peel_off"@[7] == 'f');
    assert("pagecurl"@.len() == 8 && "pagecurl"@[0] == 'p' && "pagecurl"@[7] == 'l');
    assert("page_curl"@.len() == 9 && "page_curl"@[0] == 'p' && "page_curl"@[8] == 'l');
    assert("wipe"@.len() == 4 && "wipe"@[0] == 'w' && "wipe"@[3] == 'e');
    assert("split"@.len() == 5 && "split"@[0] == 's' && "split"@[4] == 't');
    assert("reveal"@.len() == 6 && "reveal"@[0] == 'r' && "reveal"@[5] == 'l');
    assert("doors"@.len() == 5 && "doors"@[0] == 'd' && "doors"@[4] == 's');
    assert("window"@.len() == 6 && "window"@[0] == 'w' && "window"@[5] == 'w');
    assert("pan"@.len() == 3 && "pan"@[0] == 'p' && "pan"@[2] == 'n');
    assert("zoom"@.len() == 4 && "zoom"@[0] == 'z' && "zoom"@[3] == 'm');
}

/// The transition type names with a direction, each with the transition
/// `TransitionType::parse` gives for it: the direction asked for, `Right`
/// when none; zoom towards the center is `ZoomCenter`, other zooms keep
/// their direction (`Center` when none); every other name is kept in
/// `Other`.
pub proof fn lemma_transition_names_directional(t: TransitionType, lower: Seq<char>, dir: Option<Direction>)
    requires
        transition_named(t, lower, dir),
    ensures
        (lower == "push"@ || lower == "pushthroughblack"@) ==> t == TransitionType::Push(dir.unwrap_or(Direction::Right)),
        lower == "cover"@ ==> t == TransitionType::Cover(dir.unwrap_or(Direction::Right)),
        (lower == "uncover"@ || lower == "pull"@) ==> t == TransitionType::Uncover(dir.unwrap_or(Direction::Right)),
        (lower == "peeloff"@ || lower == "peel_off"@) ==> t == TransitionType::PeelOff(dir.unwrap_or(Direction::Right)),
        (lower == "pagecurl"@ || lower == "page_curl"@) ==> t == TransitionType::PageCurl(dir.unwrap_or(Direction::Right)),
        lower == "wipe"@ ==> t == TransitionType::Wipe(dir.unwrap_or(Direction::Right)),
        lower == "split"@ ==> t == TransitionType::Split(dir.unwrap_or(Direction::Right)),
        lower == "reveal"@ ==> t == TransitionType::Reveal(dir.unwrap_or(Direction::Right)),
        lower == "doors"@ ==> t == TransitionType::Doors(dir.unwrap_or(Direction::Right)),
        lower == "window"@ ==> t == TransitionType::Window(dir.unwrap_or(Direction::Right)),
        lower == "pan"@ ==> t == TransitionType::Pan(dir.unwrap_or(Direction::Right)),
        lower == "zoom"@ ==> t == (if dir == Some(Direction::Center) {
            TransitionType::ZoomCenter
        } else {
            TransitionType::Zoom(dir.unwrap_or(Direction::Center))
        }),
        !(lower == ""@ || lower == "none"@ || lower == "fade"@ || lower == "cut"@ || lower == "cutthroughblack"@ || lower == "randombars"@ || lower == "random_bars"@ || lower == "newsflash"@ || lower == "vortex"@ || lower == "shred"@ || lower == "switch"@ || lower == "flip"@ || lower == "gallery"@ || lower == "ripple"@ || lower == "honeycomb"@ || lower == "cube"@ || lower == "box"@ || lower == "accordion"@ || lower == "frame"@ || lower == "glitter"@ || lower == "airplane"@ || lower == "ferriswheel"@ || lower == "ferris_wheel"@ || lower == "conveyorbelt"@ || lower == "conveyor_belt"@ || lower == "clock"@ || lower == "wheel"@ || lower == "comb"@ || lower == "morph"@ || lower == "rotate"@ || lower == "push"@ || lower == "pushthroughblack"@ || lower == "cover"@ || lower == "uncover"@ || lower == "pull"@ || lower == "peeloff"@ || lower == "peel_off"@ || lower == "pagecurl"@ || lower == "page_curl"@ || lower == "wipe"@ || lower == "split"@ || lower == "reveal"@ || lower == "doors"@ || lower == "window"@ || lower == "pan"@ || lower == "zoom"@) ==> (t matches TransitionType::Other(s) && s@ == lower),
{
    reveal_strlit("");
    reveal_strlit("none");
    reveal_strlit("fade");
    reveal_strlit("cut");
    reveal_strlit("cutthroughblack");
    reveal_strlit("randombars");
    reveal_strlit("random_bars");
    reveal_strlit("newsflash");
    reveal_strlit("vortex");
    reveal_strlit("shred");
    reveal_strlit("switch");
    reveal_strlit("flip");
    reveal_strlit("gallery");
    reveal_strlit("ripple");
    reveal_strlit("honeycomb");
    reveal_strlit("cube");
    reveal_strlit("box");
    reveal_strlit("accordion");
    reveal_strlit("frame");
    reveal_strlit("glitter");
    reveal_strlit("airplane");
    reveal_strlit("ferriswheel");
    reveal_strlit("ferris_wheel");
    reveal_strlit("conveyorbelt");
    reveal_strlit("conveyor_belt");
    reveal_strlit("clock");
    reveal_strlit("wheel");
    reveal_strlit("comb");
    reveal_strlit("morph");
    reveal_strlit("rotate");
    reveal_strlit("push");
    reveal_strlit("pushthroughblack");
    reveal_strlit("cover");
    reveal_strlit("uncover");
    reveal_strlit("pull");
    reveal_strlit("peeloff");
    reveal_strlit("peel_off");
    reveal_strlit("pagecurl");
    reveal_strlit("page_curl");
    reveal_strlit("wipe");
    reveal_strlit("split");
    reveal_strlit("reveal");
    reveal_strlit("doors");
    reveal_strlit("window");
    reveal_strlit("pan");
    reveal_strlit("zoom");
    assert(""@.len() == 0);
    assert("none"@.len() == 4 && "none"@[0] == 'n' && "none"@[3] == 'e');
    assert("fade"@.len() == 4 && "fade"@[0] == 'f' && "fade"@[3] == 'e');
    assert("cut"@.len() == 3 && "cut"@[0] == 'c' && "cut"@[2] == 't');
    assert("cutthroughblack"@.len() == 15 && "cutthroughblack"@[0] == 'c' && "cutthroughblack"@[14] == 'k');
    assert("randombars"@.len() == 10 && "randombars"@[0] == 'r' && "randombars"@[9] == 's');
    assert("random_bars"@.len() == 11 && "random_bars"@[0] == 'r' && "random_bars"@[10] == 's');
    assert("newsflash"@.len() == 9 && "newsflash"@[0] == 'n' && "newsflash"@[8] == 'h');
    assert("vortex"@.len() == 6 && "vortex"@[0] == 'v' && "vortex"@[5] == 'x');
    assert("shred"@.len() == 5 && "shred"@[0] == 's' && "shred"@[4] == 'd');
    assert("switch"@.len() == 6 && "switch"@[0] == 's' && "switch"@[5] == 'h');
    assert("flip"@.len() == 4 && "flip"@[0] == 'f' && "flip"@[3] == 'p');
    assert("gallery"@.len() == 7 && "gallery"@[0] == 'g' && "gallery"@[6] == 'y');
    assert("ripple"@.len() == 6 && "ripple"@[0] == 'r' && "ripple"@[1] == 'i' && "ripple"@[5] == 'e');
    assert("honeycomb"@.len() == 9 && "honeycomb"@[0] == 'h' && "honeycomb"@[8] == 'b');
    assert("cube"@.len() == 4 && "cube"@[0] == 'c' && "cube"@[3] == 'e');
    assert("box"@.len() == 3 && "box"@[0] == 'b' && "box"@[2] == 'x');
    assert("accordion"@.len() == 9 && "accordion"@[0] == 'a' && "accordion"@[8] == 'n');
    assert("frame"@.len() == 5 && "frame"@[0] == 'f' && "frame"@[4] == 'e');
    assert("glitter"@.len() == 7 && "glitter"@[0] == 'g' && "glitter"@[6] == 'r');
    assert("airplane"@.len() == 8 && "airplane"@[0] == 'a' && "airplane"@[7] == 'e');
    assert("ferriswheel"@.len() == 11 && "ferriswheel"@[0] == 'f' && "ferriswheel"@[10] == 'l');
    assert("ferris_wheel"@.len() == 12 && "ferris_wheel"@[0] == 'f' && "ferris_wheel"@[11] == 'l');
    assert("conveyorbelt"@.len() == 12 && "conveyorbelt"@[0] == 'c' && "conveyorbelt"@[11] == 't');
    assert("conveyor_belt"@.len() == 13 && "conveyor_belt"@[0] == 'c' && "conveyor_belt"@[12] == 't');
    assert("clock"@.len() == 5 && "clock"@[0] == 'c' && "clock"@[4] == 'k');
    assert("wheel"@.len() == 5 && "wheel"@[0] == 'w' && "wheel"@[4] == 'l');
    assert("comb"@.len() == 4 && "comb"@[0] == 'c' && "comb"@[3] == 'b');
    assert("morph"@.len() == 5 && "morph"@[0] == 'm' && "morph"@[4] == 'h');
    assert("rotate"@.len() == 6 && "rotate"@[0] == 'r' && "rotate"@[1] == 'o' && "rotate"@[5] == 'e');
    assert("push"@.len() == 4 && "push"@[0] == 'p' && "push"@[3] == 'h');
    assert("pushthroughblack"@.len() == 16 && "pushthroughblack"@[0] == 'p' && "pushthroughblack"@[15] == 'k');
    assert("cover"@.len() == 5 && "cover"@[0] == 'c' && "cover"@[4] == 'r');
    assert("uncover"@.len() == 7 && "uncover"@[0] == 'u' && "uncover"@[6] == 'r');
    assert("pull"@.len() == 4 && "pull"@[0] == 'p' && "pull"@[3] == 'l');
    assert("peeloff"@.len() == 7 && "peeloff"@[0] == 'p' && "peeloff"@[6] == 'f');
    assert("peel_off"@.len() == 8 && "peel_off"@[0] == 'p' && "peel_off"@[7] == 'f');
    assert("pagecurl"@.len() == 8 && "pagecurl"@[0] == 'p' && "pagecurl"@[7] == 'l');
    assert("page_curl"@.len() == 9 && "page_curl"@[0] == 'p' && "page_curl"@[8] == 'l');
    assert("wipe"@.len() == 4 && "wipe"@[0] == 'w' && "wipe"@[3] == 'e');
    assert("split"@.len() == 5 && "split"@[0] == 's' && "split"@[4] == 't');
    assert("reveal"@.len() == 6 && "reveal"@[0] == 'r' && "reveal"@[5] == 'l');
    assert("doors"@.len() == 5 && "doors"@[0] == 'd' && "doors"@[4] == 's');
    assert("window"@.len() == 6 && "window"@[0] == 'w' && "window"@[5] == 'w');
    assert("pan"@.len() == 3 && "pan"@[0] == 'p' && "pan"@[2] == 'n');
    assert("zoom"@.len() == 4 && "zoom"@[0] == 'z' && "zoom"@[3] == 'm');
}

/// The PowerPoint animation names, each with the animation type it names
/// (the lower-cased name `lower`); every other name is kept in `Other`.
pub proof fn lemma_animation_names(t: AnimationType, lower: Seq<char>)
    requires
        animation_type_named(t, lower),
    ensures
        lower == "appear"@ ==> t == AnimationType::Appear,
        lower == "fade"@ ==> t == AnimationType::Fade,
        lower == "fly"@ ==> t == AnimationType::Fly,
        lower == "float"@ ==> t == AnimationType::Float,
        lower == "split"@ ==> t == AnimationType::Split,
        lower == "wipe"@ ==> t == AnimationType::Wipe,
        lower == "shape"@ ==> t == AnimationType::Shape,
        lower == "wheel"@ ==> t == AnimationType::Wheel,
        lower == "randombars"@ ==> t == AnimationType::RandomBars,
        lower == "growandshrink"@ ==> t == AnimationType::GrowAndShrink,
        lower == "zoom"@ ==> t == AnimationType::Zoom,
        lower == "swivel"@ ==> t == AnimationType::Swivel,
        lower == "bounce"@ ==> t == AnimationType::Bounce,
        lower == "credits"@ ==> t == AnimationType::Credits,
        (lower == ""@ || lower == "none"@) ==> t == AnimationType::NoAnimation,
        !(lower == "appear"@ || lower == "fade"@ || lower == "fly"@ || lower == "float"@ || lower == "split"@ || lower == "wipe"@ || lower == "shape"@ || lower == "wheel"@ || lower == "randombars"@ || lower == "growandshrink"@ || lower == "zoom"@ || lower == "swivel"@ || lower == "bounce"@ || lower == "credits"@ || lower == ""@ || lower == "none"@) ==> (t matches AnimationType::Other(s) && s@ == lower),
{
    reveal_strlit("appear");
    reveal_strlit("fade");
    reveal_strlit("fly");
    reveal_strlit("float");
    reveal_strlit("split");
    reveal_strlit("wipe");
    reveal_strlit("shape");
    reveal_strlit("wheel");
    reveal_strlit("randombars");
    reveal_strlit("growandshrink");
    reveal_strlit("zoom");
    reveal_strlit("swivel");
    reveal_strlit("bounce");
    reveal_strlit("credits");
    reveal_strlit("");
    reveal_strlit("none");
    assert("appear"@.len() == 6 && "appear"@[0] == 'a' && "appear"@[5] == 'r');
    assert("fade"@.len() == 4 && "fade"@[0] == 'f' && "fade"@[3] == 'e');
    assert("fly"@.len() == 3 && "fly"@[0] == 'f' && "fly"@[2] == 'y');
    assert("float"@.len() == 5 && "float"@[0] == 'f' && "float"@[4] == 't');
    assert("split"@.len() == 5 && "split"@[0] == 's' && "split"@[4] == 't');
    assert("wipe"@.len() == 4 && "wipe"@[0] == 'w' && "wipe"@[3] == 'e');
    assert("shape"@.len() == 5 && "shape"@[0] == 's' && "shape"@[4] == 'e');
    assert("wheel"@.len() == 5 && "wheel"@[0] == 'w' && "wheel"@[4] == 'l');
    assert("randombars"@.len() == 10 && "randombars"@[0] == 'r' && "randombars"@[9] == 's');
    assert("growandshrink"@.len() == 13 && "growandshrink"@[0] == 'g' && "growandshrink"@[12] == 'k');
    assert("zoom"@.len() == 4 && "zoom"@[0] == 'z' && "zoom"@[3] == 'm');
    assert("swivel"@.len() == 6 && "swivel"@[0] == 's' && "swivel"@[5] == 'l');
    assert("bounce"@.len() == 6 && "bounce"@[0] == 'b' && "bounce"@[5] == 'e');
    assert("credits"@.len() == 7 && "credits"@[0] == 'c' && "credits"@[6] == 's');
    assert(""@.len() == 0);
    assert("none"@.len() == 4 && "none"@[0] == 'n' && "none"@[3] == 'e');
}

/// The direction names, each with the direction it names (the lower-cased
/// name `lower`); every other name is `Right`.
pub proof fn lemma_direction_names(lower: Seq<char>)
    ensures
        (lower == "l"@ || lower == "left"@) ==> direction_named(lower) == Direction::Left,
        (lower == "r"@ || lower == "right"@) ==> direction_named(lower) == Direction::Right,
        (lower == "u"@ || lower == "up"@) ==> direction_named(lower) == Direction::Up,
        (lower == "d"@ || lower == "down"@) ==> direction_named(lower) == Direction::Down,
        (lower == "tl"@ || lower == "topleft"@ || lower == "top_left"@) ==> direction_named(lower) == Direction::TopLeft,
        (lower == "tr"@ || lower == "topright"@ || lower == "top_right"@) ==> direction_named(lower) == Direction::TopRight,
        (lower == "bl"@ || lower == "bottomleft"@ || lower == "bottom_left"@) ==> direction_named(lower) == Direction::BottomLeft,
        (lower == "br"@ || lower == "bottomright"@ || lower == "bottom_right"@) ==> direction_named(lower) == Direction::BottomRight,
        (lower == "c"@ || lower == "center"@) ==> direction_named(lower) == Direction::Center,
        !(lower == "l"@ || lower == "left"@ || lower == "r"@ || lower == "right"@ || lower == "u"@ || lower == "up"@ || lower == "d"@ || lower == "down"@ || lower == "tl"@ || lower == "topleft"@ || lower == "top_left"@ || lower == "tr"@ || lower == "topright"@ || lower == "top_right"@ || lower == "bl"@ || lower == "bottomleft"@ || lower == "bottom_left"@ || lower == "br"@ || lower == "bottomright"@ || lower == "bottom_right"@ || lower == "c"@ || lower == "center"@) ==> direction_named(lower) == Direction::Right,
{
    reveal_strlit("l");
    reveal_strlit("left");
    reveal_strlit("r");
    reveal_strlit("right");
    reveal_strlit("u");
    reveal_strlit("up");
    reveal_strlit("d");
    reveal_strlit("down");
    reveal_strlit("tl");
    reveal_strlit("topleft");
    reveal_strlit("top_left");
    reveal_strlit("tr");
    reveal_strlit("topright");
    reveal_strlit("top_right");
    reveal_strlit("bl");
    reveal_strlit("bottomleft");
    reveal_strlit("bottom_left");
    reveal_strlit("br");
    reveal_strlit("bottomright");
    reveal_strlit("bottom_right");
    reveal_strlit("c");
    reveal_strlit("center");
    assert("l"@.len() == 1 && "l"@[0] == 'l');
    assert("left"@.len() == 4 && "left"@[0] == 'l' && "left"@[3] == 't');
    assert("r"@.len() == 1 && "r"@[0] == 'r');
    assert("right"@.len() == 5 && "right"@[0] == 'r' && "right"@[4] == 't');
    assert("u"@.len() == 1 && "u"@[0] == 'u');
    assert("up"@.len() == 2 && "up"@[0] == 'u' && "up"@[1] == 'p');
    assert("d"@.len() == 1 && "d"@[0] == 'd');
    assert("down"@.len() == 4 && "down"@[0] == 'd' && "down"@[3] == 'n');
    assert("tl"@.len() == 2 && "tl"@[0] == 't' && "tl"@[1] == 'l');
    assert("topleft"@.len() == 7 && "topleft"@[0] == 't' && "topleft"@[6] == 't');
    assert("top_left"@.len() == 8 && "top_left"@[0] == 't' && "top_left"@[3] == '_' && "top_left"@[7] == 't');
    assert("tr"@.len() == 2 && "tr"@[0] == 't' && "tr"@[1] == 'r');
    assert("topright"@.len() == 8 && "topright"@[0] == 't' && "topright"@[3] == 'r' && "topright"@[7] == 't');
    assert("top_right"@.len() == 9 && "top_right"@[0] == 't' && "top_right"@[8] == 't');
    assert("bl"@.len() == 2 && "bl"@[0] == 'b' && "bl"@[1] == 'l');
    assert("bottomleft"@.len() == 10 && "bottomleft"@[0] == 'b' && "bottomleft"@[9] == 't');
    assert("bottom_left"@.len() == 11 && "bottom_left"@[0] == 'b' && "bottom_left"@[6] == '_' && "bottom_left"@[10] == 't');
    assert("br"@.len() == 2 && "br"@[0] == 'b' && "br"@[1] == 'r');
    assert("bottomright"@.len() == 11 && "bottomright"@[0] == 'b' && "bottomright"@[6] == 'r' && "bottomright"@[10] == 't');
    assert("bottom_right"@.len() == 12 && "bottom_right"@[0] == 'b' && "bottom_right"@[11] == 't');
    assert("c"@.len() == 1 && "c"@[0] == 'c');
    assert("center"@.len() == 6 && "center"@[0] == 'c' && "center"@[5] == 'r');
}

/// The MIME types of audio by (lower-cased) extension: `audio/mpeg` for any
/// other.
pub proof fn lemma_audio_content_types(ext: Seq<char>)
    ensures
        ext == "mp3"@ ==> audio_content_type(ext) == "audio/mpeg"@,
        ext == "wav"@ ==> audio_content_type(ext) == "audio/wav"@,
        ext == "wma"@ ==> audio_content_type(ext) == "audio/x-ms-wma"@,
        ext == "m4a"@ ==> audio_content_type(ext) == "audio/mp4"@,
        ext == "aac"@ ==> audio_content_type(ext) == "audio/aac"@,
        ext == "ogg"@ ==> audio_content_type(ext) == "audio/ogg"@,
        !(ext == "mp3"@ || ext == "wav"@ || ext == "wma"@ || ext == "m4a"@ || ext == "aac"@ || ext == "ogg"@) ==> audio_content_type(ext) == "audio/mpeg"@,
{
    reveal_strlit("mp3");
    reveal_strlit("wav");
    reveal_strlit("wma");
    reveal_strlit("m4a");
    reveal_strlit("aac");
    reveal_strlit("ogg");
    assert("mp3"@.len() == 3 && "mp3"@[0] == 'm' && "mp3"@[2] == '3');
    assert("wav"@.len() == 3 && "wav"@[0] == 'w' && "wav"@[2] == 'v');
    assert("wma"@.len() == 3 && "wma"@[0] == 'w' && "wma"@[2] == 'a');
    assert("m4a"@.len() == 3 && "m4a"@[0] == 'm' && "m4a"@[2] == 'a');
    assert("aac"@.len() == 3 && "aac"@[0] == 'a' && "aac"@[2] == 'c');
    assert("ogg"@.len() == 3 && "ogg"@[0] == 'o' && "ogg"@[2] == 'g');
}

/// The MIME types of video by (lower-cased) extension: `video/mp4` for any
/// other.
pub proof fn lemma_video_content_types(ext: Seq<char>)
    ensures
        (ext == "mp4"@ || ext == "m4v"@) ==> video_content_type(ext) == "video/mp4"@,
        ext == "avi"@ ==> video_content_type(ext) == "video/x-msvideo"@,
        ext == "wmv"@ ==> video_content_type(ext) == "video/x-ms-wmv"@,
        (ext == "mov"@ || ext == "qt"@) ==> video_content_type(ext) == "video/quicktime"@,
        ext == "mkv"@ ==> video_content_type(ext) == "video/x-matroska"@,
        ext == "flv"@ ==> video_content_type(ext) == "video/x-flv"@,
        ext == "webm"@ ==> video_content_type(ext) == "video/webm"@,
        !(ext == "mp4"@ || ext == "m4v"@ || ext == "avi"@ || ext == "wmv"@ || ext == "mov"@ || ext == "qt"@ || ext == "mkv"@ || ext == "flv"@ || ext == "webm"@) ==> video_content_type(ext) == "video/mp4"@,
{
    reveal_strlit("mp4");
    reveal_strlit("m4v");
    reveal_strlit("avi");
    reveal_strlit("wmv");
    reveal_strlit("mov");
    reveal_strlit("qt");
    reveal_strlit("mkv");
    reveal_strlit("flv");
    reveal_strlit("webm");
    assert("mp4"@.len() == 3 && "mp4"@[0] == 'm' && "mp4"@[2] == '4');
    assert("m4v"@.len() == 3 && "m4v"@[0] == 'm' && "m4v"@[1] == '4' && "m4v"@[2] == 'v');
    assert("avi"@.len() == 3 && "avi"@[0] == 'a' && "avi"@[2] == 'i');
    assert("wmv"@.len() == 3 && "wmv"@[0] == 'w' && "wmv"@[2] == 'v');
    assert("mov"@.len() == 3 && "mov"@[0] == 'm' && "mov"@[1] == 'o' && "mov"@[2] == 'v');
    assert("qt"@.len() == 2 && "qt"@[0] == 'q' && "qt"@[1] == 't');
    assert("mkv"@.len() == 3 && "mkv"@[0] == 'm' && "mkv"@[1] == 'k' && "mkv"@[2] == 'v');
    assert("flv"@.len() == 3 && "flv"@[0] == 'f' && "flv"@[2] == 'v');
    assert("webm"@.len() == 4 && "webm"@[0] == 'w' && "webm"@[3] == 'm');
}

/// Error type for PPTX parsing.
#[derive(Debug)]
pub enum PptxParseError {
    Io(std::io::Error),
    Zip(zip::result::ZipError),
    XmlParse(String),
    MissingFile(String),
}

/// `Display` of an I/O error; its text comes from the operating system and
/// is not stated here.
#[verifier::external_body]
fn io_error_text(e: &std::io::Error) -> String {
    e.to_string()
}

/// `Display` of a ZIP error; it may carry an I/O error's text and is not
/// stated here.
#[verifier::external_body]
fn zip_error_text(e: &zip::result::ZipError) -> String {
    e.to_string()
}

impl PptxParseError {
    /// The error's message, as its `Display` prints it.
    pub fn message(&self) -> (r: String)
        ensures
            match self {
                PptxParseError::Io(_) => starts_with(r@, "IO error: "@),
                PptxParseError::Zip(_) => starts_with(r@, "ZIP error: "@),
                PptxParseError::XmlParse(m) => r@ == "XML parse error: "@ + m@,
                PptxParseError::MissingFile(m) => r@ == "Missing file: "@ + m@,
            },
    {
        let mut r = String::new();
        match self {
            PptxParseError::Io(e) => {
                push_str(&mut r, "IO error: ");
                let t = io_error_text(e);
                push_str(&mut r, t.as_str());
                assert(r@.take("IO error: "@.len() as int) =~= "IO error: "@);
            },
            PptxParseError::Zip(e) => {
                push_str(&mut r, "ZIP error: ");
                let t = zip_error_text(e);
                push_str(&mut r, t.as_str());
                assert(r@.take("ZIP error: "@.len() as int) =~= "ZIP error: "@);
            },
            PptxParseError::XmlParse(m) => {
                push_str(&mut r, "XML parse error: ");
                push_str(&mut r, m.as_str());
            },
            PptxParseError::MissingFile(m) => {
                push_str(&mut r, "Missing file: ");
                push_str(&mut r, m.as_str());
            },
        }
        r
    }
}

impl From<std::io::Error> for PptxParseError {
    fn from(e: std::io::Error) -> PptxParseError {
        PptxParseError::Io(e)
    }
}

impl vstd::std_specs::convert::FromSpecImpl<std::io::Error> for PptxParseError {
    open spec fn obeys_from_spec() -> bool {
        true
    }

    open spec fn from_spec(e: std::io::Error) -> PptxParseError {
        PptxParseError::Io(e)
    }
}

impl From<zip::result::ZipError> for PptxParseError {
    fn from(e: zip::result::ZipError) -> PptxParseError {
        PptxParseError::Zip(e)
    }
}

impl vstd::std_specs::convert::FromSpecImpl<zip::result::ZipError> for PptxParseError {
    open spec fn obeys_from_spec() -> bool {
        true
    }

    open spec fn from_spec(e: zip::result::ZipError) -> PptxParseError {
        PptxParseError::Zip(e)
    }
}

} // verus!
