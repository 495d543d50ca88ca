//! A plain-text summary of a parsed presentation.

use vstd::prelude::*;

use super::{
    Animation, AnimationType, Direction, EmbeddedMedia, MediaType, PptxInfo, PptxParser, SlideInfo,
    Transition, TransitionType,
};
use crate::text::{decimal, decimal_string, push_str};

verus! {

/// `format!("{:?}", s)` for a string: the string quoted, with `Debug`
/// escapes.
pub uninterp spec fn str_debug(s: Seq<char>) -> Seq<char>;

/// The text holds no line break.
pub open spec fn no_line_break(s: Seq<char>) -> bool {
    forall|i: int| 0 <= i < s.len() ==> s[i] != '\n'
}

/// The number of line breaks in a text.
pub open spec fn line_breaks(s: Seq<char>) -> nat
    decreases s.len(),
{
    if s.len() == 0 {
        0
    } else {
        line_breaks(s.drop_last()) + if s.last() == '\n' {
            1nat
        } else {
            0nat
        }
    }
}

/// `Debug` of a `str` (`format!("{:?}", s)`): its text, quoted and escaped
/// as `str::escape_debug` does, is a function of the string alone, named
/// `str_debug`; a line break is escaped (as `\\n`), so the text holds none.
#[verifier::external_body]
fn debug_quoted(s: &str) -> (r: String)
    ensures
        r@ == str_debug(s@),
        no_line_break(r@),
{
    format!("{:?}", s)
}

/// The `Debug` text of a direction.
pub open spec fn direction_debug(d: Direction) -> Seq<char> {
    match d {
        Direction::Left => "Left"@,
        Direction::Right => "Right"@,
        Direction::Up => "Up"@,
        Direction::Down => "Down"@,
        Direction::TopLeft => "TopLeft"@,
        Direction::TopRight => "TopRight"@,
        Direction::BottomLeft => "BottomLeft"@,
        Direction::BottomRight => "BottomRight"@,
        Direction::Center => "Center"@,
    }
}

/// The `Debug` text of an animation type.
pub open spec fn animation_debug(t: AnimationType) -> Seq<char> {
    match t {
        AnimationType::Appear => "Appear"@,
        AnimationType::Fade => "Fade"@,
        AnimationType::Fly => "Fly"@,
        AnimationType::Float => "Float"@,
        AnimationType::Split => "Split"@,
        AnimationType::Wipe => "Wipe"@,
        AnimationType::Shape => "Shape"@,
        AnimationType::Wheel => "Wheel"@,
        AnimationType::RandomBars => "RandomBars"@,
        AnimationType::GrowAndShrink => "GrowAndShrink"@,
        AnimationType::Zoom => "Zoom"@,
        AnimationType::Swivel => "Swivel"@,
        AnimationType::Bounce => "Bounce"@,
        AnimationType::Credits => "Credits"@,
        AnimationType::NoAnimation => "None"@,
        AnimationType::Other(s) => "Other("@ + str_debug(s@) + ")"@,
    }
}

/// The `Debug` text of a transition type.
pub open spec fn transition_debug(t: TransitionType) -> Seq<char> {
    match t {
        TransitionType::NoTransition => "None"@,
        TransitionType::Fade => "Fade"@,
        TransitionType::Cut => "Cut"@,
        TransitionType::RandomBars => "RandomBars"@,
        TransitionType::Newsflash => "Newsflash"@,
        TransitionType::Vortex => "Vortex"@,
        TransitionType::Shred => "Shred"@,
        TransitionType::Switch => "Switch"@,
        TransitionType::Flip => "Flip"@,
        TransitionType::Gallery => "Gallery"@,
        TransitionType::Ripple => "Ripple"@,
        TransitionType::Honeycomb => "Honeycomb"@,
        TransitionType::Cube => "Cube"@,
        TransitionType::Box => "Box"@,
        TransitionType::Accordion => "Accordion"@,
        TransitionType::Frame => "Frame"@,
        TransitionType::Glitter => "Glitter"@,
        TransitionType::Airplane => "Airplane"@,
        TransitionType::FerrisWheel => "FerrisWheel"@,
        TransitionType::ConveyorBelt => "ConveyorBelt"@,
        TransitionType::Clock => "Clock"@,
        TransitionType::Wheel => "Wheel"@,
        TransitionType::Comb => "Comb"@,
        TransitionType::Morph => "Morph"@,
        TransitionType::ZoomCenter => "ZoomCenter"@,
        TransitionType::Rotate => "Rotate"@,
        TransitionType::Push(d) => "Push("@ + direction_debug(d) + ")"@,
        TransitionType::Cover(d) => "Cover("@ + direction_debug(d) + ")"@,
        TransitionType::Uncover(d) => "Uncover("@ + direction_debug(d) + ")"@,
        TransitionType::PeelOff(d) => "PeelOff("@ + direction_debug(d) + ")"@,
        TransitionType::PageCurl(d) => "PageCurl("@ + direction_debug(d) + ")"@,
        TransitionType::Wipe(d) => "Wipe("@ + direction_debug(d) + ")"@,
        TransitionType::Split(d) => "Split("@ + direction_debug(d) + ")"@,
        TransitionType::Reveal(d) => "Reveal("@ + direction_debug(d) + ")"@,
        TransitionType::Doors(d) => "Doors("@ + direction_debug(d) + ")"@,
        TransitionType::Window(d) => "Window("@ + direction_debug(d) + ")"@,
        TransitionType::Pan(d) => "Pan("@ + direction_debug(d) + ")"@,
        TransitionType::Zoom(d) => "Zoom("@ + direction_debug(d) + ")"@,
        TransitionType::Other(s) => "Other("@ + str_debug(s@) + ")"@,
    }
}

/// Joining two texts without line breaks gives none.
proof fn lemma_no_break_add(a: Seq<char>, b: Seq<char>)
    requires
        no_line_break(a),
        no_line_break(b),
    ensures
        no_line_break(a + b),
{
    assert forall|i: int| 0 <= i < (a + b).len() implies (a + b)[i] != '\n' by {
        if i < a.len() {
            assert((a + b)[i] == a[i]);
        } else {
            assert((a + b)[i] == b[i - a.len()]);
        }
    }
}

proof fn lemma_direction_debug_no_break(d: Direction)
    ensures
        no_line_break(direction_debug(d)),
{
    reveal_strlit("BottomLeft");
    reveal_strlit("BottomRight");
    reveal_strlit("Center");
    reveal_strlit("Down");
    reveal_strlit("Left");
    reveal_strlit("Right");
    reveal_strlit("TopLeft");
    reveal_strlit("TopRight");
    reveal_strlit("Up");
}

proof fn lemma_animation_debug_no_break(t: AnimationType)
    requires
        t matches AnimationType::Other(x) ==> no_line_break(str_debug(x@)),
    ensures
        no_line_break(animation_debug(t)),
{
    reveal_strlit(")");
    reveal_strlit("Appear");
    reveal_strlit("Bounce");
    reveal_strlit("Credits");
    reveal_strlit("Fade");
    reveal_strlit("Float");
    reveal_strlit("Fly");
    reveal_strlit("GrowAndShrink");
    reveal_strlit("None");
    reveal_strlit("Other(");
    reveal_strlit("RandomBars");
    reveal_strlit("Shape");
    reveal_strlit("Split");
    reveal_strlit("Swivel");
    reveal_strlit("Wheel");
    reveal_strlit("Wipe");
    reveal_strlit("Zoom");
    if let AnimationType::Other(x) = t {
        lemma_no_break_add("Other("@, str_debug(x@));
        lemma_no_break_add("Other("@ + str_debug(x@), ")"@);
    }
}

#[verifier::spinoff_prover]
#[verifier::rlimit(60)]
proof fn lemma_transition_debug_no_break(t: TransitionType)
    requires
        t matches TransitionType::Other(x) ==> no_line_break(str_debug(x@)),
    ensures
        no_line_break(transition_debug(t)),
{
    match t {
        TransitionType::NoTransition => {
            reveal_strlit("None");
        },
        TransitionType::Fade => {
            reveal_strlit("Fade");
        },
        TransitionType::Cut => {
            reveal_strlit("Cut");
        },
        TransitionType::RandomBars => {
            reveal_strlit("RandomBars");
        },
        TransitionType::Newsflash => {
            reveal_strlit("Newsflash");
        },
        TransitionType::Vortex => {
            reveal_strlit("Vortex");
        },
        TransitionType::Shred => {
            reveal_strlit("Shred");
        },
        TransitionType::Switch => {
            reveal_strlit("Switch");
        },
        TransitionType::Flip => {
            reveal_strlit("Flip");
        },
        TransitionType::Gallery => {
            reveal_strlit("Gallery");
        },
        TransitionType::Ripple => {
            reveal_strlit("Ripple");
        },
        TransitionType::Honeycomb => {
            reveal_strlit("Honeycomb");
        },
        TransitionType::Cube => {
            reveal_strlit("Cube");
        },
        TransitionType::Box => {
            reveal_strlit("Box");
        },
        TransitionType::Accordion => {
            reveal_strlit("Accordion");
        },
        TransitionType::Frame => {
            reveal_strlit("Frame");
        },
        TransitionType::Glitter => {
            reveal_strlit("Glitter");
        },
        TransitionType::Airplane => {
            reveal_strlit("Airplane");
        },
        TransitionType::FerrisWheel => {
            reveal_strlit("FerrisWheel");
        },
        TransitionType::ConveyorBelt => {
            reveal_strlit("ConveyorBelt");
        },
        TransitionType::Clock => {
            reveal_strlit("Clock");
        },
        TransitionType::Wheel => {
            reveal_strlit("Wheel");
        },
        TransitionType::Comb => {
            reveal_strlit("Comb");
        },
        TransitionType::Morph => {
            reveal_strlit("Morph");
        },
        TransitionType::ZoomCenter => {
            reveal_strlit("ZoomCenter");
        },
        TransitionType::Rotate => {
            reveal_strlit("Rotate");
        },
        TransitionType::Push(d) => {
            reveal_strlit("Push(");
            reveal_strlit(")");
            lemma_direction_debug_no_break(d);
            lemma_no_break_add("Push("@, direction_debug(d));
            lemma_no_break_add("Push("@ + direction_debug(d), ")"@);
        },
        TransitionType::Cover(d) => {
            reveal_strlit("Cover(");
            reveal_strlit(")");
            lemma_direction_debug_no_break(d);
            lemma_no_break_add("Cover("@, direction_debug(d));
            lemma_no_break_add("Cover("@ + direction_debug(d), ")"@);
        },
        TransitionType::Uncover(d) => {
            reveal_strlit("Uncover(");
            reveal_strlit(")");
            lemma_direction_debug_no_break(d);
            lemma_no_break_add("Uncover("@, direction_debug(d));
            lemma_no_break_add("Uncover("@ + direction_debug(d), ")"@);
        },
        TransitionType::PeelOff(d) => {
            reveal_strlit("PeelOff(");
            reveal_strlit(")");
            lemma_direction_debug_no_break(d);
            lemma_no_break_add("PeelOff("@, direction_debug(d));
            lemma_no_break_add("PeelOff("@ + direction_debug(d), ")"@);
        },
        TransitionType::PageCurl(d) => {
            reveal_strlit("PageCurl(");
            reveal_strlit(")");
            lemma_direction_debug_no_break(d);
            lemma_no_break_add("PageCurl("@, direction_debug(d));
            lemma_no_break_add("PageCurl("@ + direction_debug(d), ")"@);
        },
        TransitionType::Wipe(d) => {
            reveal_strlit("Wipe(");
            reveal_strlit(")");
            lemma_direction_debug_no_break(d);
            lemma_no_break_add("Wipe("@, direction_debug(d));
            lemma_no_break_add("Wipe("@ + direction_debug(d), ")"@);
        },
        TransitionType::Split(d) => {
            reveal_strlit("Split(");
            reveal_strlit(")");
            lemma_direction_debug_no_break(d);
            lemma_no_break_add("Split("@, direction_debug(d));
            lemma_no_break_add("Split("@ + direction_debug(d), ")"@);
        },
        TransitionType::Reveal(d) => {
            reveal_strlit("Reveal(");
            reveal_strlit(")");
            lemma_direction_debug_no_break(d);
            lemma_no_break_add("Reveal("@, direction_debug(d));
            lemma_no_break_add("Reveal("@ + direction_debug(d), ")"@);
        },
        TransitionType::Doors(d) => {
            reveal_strlit("Doors(");
            reveal_strlit(")");
            lemma_direction_debug_no_break(d);
            lemma_no_break_add("Doors("@, direction_debug(d));
            lemma_no_break_add("Doors("@ + direction_debug(d), ")"@);
        },
        TransitionType::Window(d) => {
            reveal_strlit("Window(");
            reveal_strlit(")");
            lemma_direction_debug_no_break(d);
            lemma_no_break_add("Window("@, direction_debug(d));
            lemma_no_break_add("Window("@ + direction_debug(d), ")"@);
        },
        TransitionType::Pan(d) => {
            reveal_strlit("Pan(");
            reveal_strlit(")");
            lemma_direction_debug_no_break(d);
            lemma_no_break_add("Pan("@, direction_debug(d));
            lemma_no_break_add("Pan("@ + direction_debug(d), ")"@);
        },
        TransitionType::Zoom(d) => {
            reveal_strlit("Zoom(");
            reveal_strlit(")");
            lemma_direction_debug_no_break(d);
            lemma_no_break_add("Zoom("@, direction_debug(d));
            lemma_no_break_add("Zoom("@ + direction_debug(d), ")"@);
        },
        TransitionType::Other(x) => {
            reveal_strlit("Other(");
            reveal_strlit(")");
            lemma_no_break_add("Other("@, str_debug(x@));
            lemma_no_break_add("Other("@ + str_debug(x@), ")"@);
        },
    }
}

fn direction_debug_string(d: &Direction) -> (r: String)
    ensures
        r@ == direction_debug(*d),
{
    let mut r = String::new();
    match d {
        Direction::Left => push_str(&mut r, "Left"),
        Direction::Right => push_str(&mut r, "Right"),
        Direction::Up => push_str(&mut r, "Up"),
        Direction::Down => push_str(&mut r, "Down"),
        Direction::TopLeft => push_str(&mut r, "TopLeft"),
        Direction::TopRight => push_str(&mut r, "TopRight"),
        Direction::BottomLeft => push_str(&mut r, "BottomLeft"),
        Direction::BottomRight => push_str(&mut r, "BottomRight"),
        Direction::Center => push_str(&mut r, "Center"),
    }
    r
}

/// The `Debug` text of an animation type.
pub fn animation_debug_string(t: &AnimationType) -> (r: String)
    ensures
        r@ == animation_debug(*t),
        no_line_break(animation_debug(*t)),
{
    let mut r = String::new();
    match t {
        AnimationType::Appear => push_str(&mut r, "Appear"),
        AnimationType::Fade => push_str(&mut r, "Fade"),
        AnimationType::Fly => push_str(&mut r, "Fly"),
        AnimationType::Float => push_str(&mut r, "Float"),
        AnimationType::Split => push_str(&mut r, "Split"),
        AnimationType::Wipe => push_str(&mut r, "Wipe"),
        AnimationType::Shape => push_str(&mut r, "Shape"),
        AnimationType::Wheel => push_str(&mut r, "Wheel"),
        AnimationType::RandomBars => push_str(&mut r, "RandomBars"),
        AnimationType::GrowAndShrink => push_str(&mut r, "GrowAndShrink"),
        AnimationType::Zoom => push_str(&mut r, "Zoom"),
        AnimationType::Swivel => push_str(&mut r, "Swivel"),
        AnimationType::Bounce => push_str(&mut r, "Bounce"),
        AnimationType::Credits => push_str(&mut r, "Credits"),
        AnimationType::NoAnimation => push_str(&mut r, "None"),
        AnimationType::Other(s) => {
            push_str(&mut r, "Other(");
            let q = debug_quoted(s.as_str());
            push_str(&mut r, q.as_str());
            push_str(&mut r, ")");
        },
    }
    proof {
        lemma_animation_debug_no_break(*t);
    }
    r
}

/// The `Debug` text of a transition type.
pub fn transition_debug_string(t: &TransitionType) -> (r: String)
    ensures
        r@ == transition_debug(*t),
        no_line_break(transition_debug(*t)),
{
    let mut r = String::new();
    match t {
        TransitionType::NoTransition => push_str(&mut r, "None"),
        TransitionType::Fade => push_str(&mut r, "Fade"),
        TransitionType::Cut => push_str(&mut r, "Cut"),
        TransitionType::RandomBars => push_str(&mut r, "RandomBars"),
        TransitionType::Newsflash => push_str(&mut r, "Newsflash"),
        TransitionType::Vortex => push_str(&mut r, "Vortex"),
        TransitionType::Shred => push_str(&mut r, "Shred"),
        TransitionType::Switch => push_str(&mut r, "Switch"),
        TransitionType::Flip => push_str(&mut r, "Flip"),
        TransitionType::Gallery => push_str(&mut r, "Gallery"),
        TransitionType::Ripple => push_str(&mut r, "Ripple"),
        TransitionType::Honeycomb => push_str(&mut r, "Honeycomb"),
        TransitionType::Cube => push_str(&mut r, "Cube"),
        TransitionType::Box => push_str(&mut r, "Box"),
        TransitionType::Accordion => push_str(&mut r, "Accordion"),
        TransitionType::Frame => push_str(&mut r, "Frame"),
        TransitionType::Glitter => push_str(&mut r, "Glitter"),
        TransitionType::Airplane => push_str(&mut r, "Airplane"),
        TransitionType::FerrisWheel => push_str(&mut r, "FerrisWheel"),
        TransitionType::ConveyorBelt => push_str(&mut r, "ConveyorBelt"),
        TransitionType::Clock => push_str(&mut r, "Clock"),
        TransitionType::Wheel => push_str(&mut r, "Wheel"),
        TransitionType::Comb => push_str(&mut r, "Comb"),
        TransitionType::Morph => push_str(&mut r, "Morph"),
        TransitionType::ZoomCenter => push_str(&mut r, "ZoomCenter"),
        TransitionType::Rotate => push_str(&mut r, "Rotate"),
        TransitionType::Push(d) => {
            push_str(&mut r, "Push(");
            let x = direction_debug_string(d);
            push_str(&mut r, x.as_str());
            push_str(&mut r, ")");
        },
        TransitionType::Cover(d) => {
            push_str(&mut r, "Cover(");
            let x = direction_debug_string(d);
            push_str(&mut r, x.as_str());
            push_str(&mut r, ")");
        },
        TransitionType::Uncover(d) => {
            push_str(&mut r, "Uncover(");
            let x = direction_debug_string(d);
            push_str(&mut r, x.as_str());
            push_str(&mut r, ")");
        },
        TransitionType::PeelOff(d) => {
            push_str(&mut r, "PeelOff(");
            let x = direction_debug_string(d);
            push_str(&mut r, x.as_str());
            push_str(&mut r, ")");
        },
        TransitionType::PageCurl(d) => {
            push_str(&mut r, "PageCurl(");
            let x = direction_debug_string(d);
            push_str(&mut r, x.as_str());
            push_str(&mut r, ")");
        },
        TransitionType::Wipe(d) => {
            push_str(&mut r, "Wipe(");
            let x = direction_debug_string(d);
            push_str(&mut r, x.as_str());
            push_str(&mut r, ")");
        },
        TransitionType::Split(d) => {
            push_str(&mut r, "Split(");
            let x = direction_debug_string(d);
            push_str(&mut r, x.as_str());
            push_str(&mut r, ")");
        },
        TransitionType::Reveal(d) => {
            push_str(&mut r, "Reveal(");
            let x = direction_debug_string(d);
            push_str(&mut r, x.as_str());
            push_str(&mut r, ")");
        },
        TransitionType::Doors(d) => {
            push_str(&mut r, "Doors(");
            let x = direction_debug_string(d);
            push_str(&mut r, x.as_str());
            push_str(&mut r, ")");
        },
        TransitionType::Window(d) => {
            push_str(&mut r, "Window(");
            let x = direction_debug_string(d);
            push_str(&mut r, x.as_str());
            push_str(&mut r, ")");
        },
        TransitionType::Pan(d) => {
            push_str(&mut r, "Pan(");
            let x = direction_debug_string(d);
            push_str(&mut r, x.as_str());
            push_str(&mut r, ")");
        },
        TransitionType::Zoom(d) => {
            push_str(&mut r, "Zoom(");
            let x = direction_debug_string(d);
            push_str(&mut r, x.as_str());
            push_str(&mut r, ")");
        },
        TransitionType::Other(s) => {
            push_str(&mut r, "Other(");
            let q = debug_quoted(s.as_str());
            push_str(&mut r, q.as_str());
            push_str(&mut r, ")");
        },
    }
    proof {
        lemma_transition_debug_no_break(*t);
    }
    r
}

/// `parts` joined with `sep` between consecutive parts.
pub open spec fn joined(parts: Seq<Seq<char>>, sep: Seq<char>) -> Seq<char>
    decreases parts.len(),
{
    if parts.len() == 0 {
        Seq::empty()
    } else if parts.len() == 1 {
        parts[0]
    } else {
        joined(parts.drop_last(), sep) + sep + parts.last()
    }
}

/// Number of media entries of this kind.
pub open spec fn count_kind(media: Seq<EmbeddedMedia>, kind: MediaType) -> nat
    decreases media.len(),
{
    if media.len() == 0 {
        0
    } else {
        count_kind(media.drop_last(), kind) + if media.last().media_type == kind {
            1nat
        } else {
            0nat
        }
    }
}

/// The animations part of a slide's line.
pub open spec fn animations_summary(anims: Seq<Animation>) -> Seq<char> {
    if anims.len() == 0 {
        Seq::empty()
    } else {
        decimal(anims.len()) + " animations ["@ + joined(
            anims.map_values(|a: Animation| animation_debug(a.animation_type)),
            ", "@,
        ) + "], "@
    }
}

/// The media part of a slide's line.
pub open spec fn media_summary(media: Seq<EmbeddedMedia>) -> Seq<char> {
    let audio = count_kind(media, MediaType::Audio);
    let video = count_kind(media, MediaType::Video);
    (if audio > 0 {
        decimal(audio) + " audio, "@
    } else {
        Seq::empty()
    }) + (if video > 0 {
        decimal(video) + " video, "@
    } else {
        Seq::empty()
    })
}

/// The transition part of a slide's line.
pub open spec fn transition_summary(t: Option<Transition>) -> Seq<char> {
    match t {
        Some(t) => transition_debug(t.transition_type) + " ("@ + decimal(t.duration_ms as nat)
            + "ms)"@,
        None => "no transition"@,
    }
}

/// One slide's line of the summary.
pub open spec fn slide_summary(s: SlideInfo) -> Seq<char> {
    "Slide "@ + decimal(s.slide_number as nat) + ": "@ + animations_summary(s.animations@)
        + media_summary(s.embedded_media@) + transition_summary(s.transition) + "\n"@
}

/// The lines of these slides.
pub open spec fn slides_summary(slides: Seq<SlideInfo>) -> Seq<char>
    decreases slides.len(),
{
    if slides.len() == 0 {
        Seq::empty()
    } else {
        slides_summary(slides.drop_last()) + slide_summary(slides.last())
    }
}

/// The summary of a presentation.
pub open spec fn presentation_summary(info: PptxInfo) -> Seq<char> {
    "Presentation with "@ + decimal(info.slide_count as nat) + " slides\n\n"@ + slides_summary(
        info.slides@,
    )
}

/// Decimal digits hold no line break.
proof fn lemma_decimal_no_break(n: nat)
    ensures
        no_line_break(decimal(n)),
{
    crate::text::lemma_decimal_digits(n);
}

proof fn lemma_joined_no_break(parts: Seq<Seq<char>>, sep: Seq<char>)
    requires
        forall|k: int| 0 <= k < parts.len() ==> no_line_break(#[trigger] parts[k]),
        no_line_break(sep),
    ensures
        no_line_break(joined(parts, sep)),
    decreases parts.len(),
{
    if parts.len() > 1 {
        let rest = parts.drop_last();
        assert forall|k: int| 0 <= k < rest.len() implies no_line_break(#[trigger] rest[k]) by {
            assert(rest[k] == parts[k]);
        }
        lemma_joined_no_break(rest, sep);
        lemma_no_break_add(joined(rest, sep), sep);
        assert(no_line_break(parts[parts.len() - 1]));
        lemma_no_break_add(joined(rest, sep) + sep, parts.last());
    } else if parts.len() == 1 {
        assert(no_line_break(parts[0]));
    }
}

proof fn lemma_media_no_break(media: Seq<EmbeddedMedia>)
    ensures
        no_line_break(media_summary(media)),
{
    reveal_strlit(" audio, ");
    reveal_strlit(" video, ");
    let audio = count_kind(media, MediaType::Audio);
    let video = count_kind(media, MediaType::Video);
    lemma_decimal_no_break(audio);
    lemma_decimal_no_break(video);
    lemma_no_break_add(decimal(audio), " audio, "@);
    lemma_no_break_add(decimal(video), " video, "@);
    let a = if audio > 0 {
        decimal(audio) + " audio, "@
    } else {
        Seq::<char>::empty()
    };
    let v = if video > 0 {
        decimal(video) + " video, "@
    } else {
        Seq::<char>::empty()
    };
    lemma_no_break_add(a, v);
}

proof fn lemma_line_breaks_add(a: Seq<char>, b: Seq<char>)
    ensures
        line_breaks(a + b) == line_breaks(a) + line_breaks(b),
    decreases b.len(),
{
    if b.len() == 0 {
        assert(a + b =~= a);
    } else {
        lemma_line_breaks_add(a, b.drop_last());
        assert((a + b).drop_last() =~= a + b.drop_last());
    }
}

proof fn lemma_no_break_count(s: Seq<char>)
    requires
        no_line_break(s),
    ensures
        line_breaks(s) == 0,
    decreases s.len(),
{
    if s.len() > 0 {
        lemma_no_break_count(s.drop_last());
    }
}

/// A slide's line ends the only line break it holds.
proof fn lemma_slide_line(s: SlideInfo)
    requires
        no_line_break(animations_summary(s.animations@)),
        no_line_break(transition_summary(s.transition)),
    ensures
        line_breaks(slide_summary(s)) == 1,
{
    reveal_strlit("Slide ");
    reveal_strlit(": ");
    reveal_strlit("\n");
    let a = "Slide "@ + decimal(s.slide_number as nat);
    lemma_decimal_no_break(s.slide_number as nat);
    lemma_no_break_add("Slide "@, decimal(s.slide_number as nat));
    lemma_no_break_add(a, ": "@);
    let b = a + ": "@ + animations_summary(s.animations@);
    lemma_no_break_add(a + ": "@, animations_summary(s.animations@));
    lemma_media_no_break(s.embedded_media@);
    let c = b + media_summary(s.embedded_media@);
    lemma_no_break_add(b, media_summary(s.embedded_media@));
    let d = c + transition_summary(s.transition);
    lemma_no_break_add(c, transition_summary(s.transition));
    lemma_no_break_count(d);
    lemma_line_breaks_add(d, "\n"@);
    assert(line_breaks("\n"@) == 1) by {
        assert("\n"@.len() == 1 && "\n"@[0] == '\n');
        assert("\n"@.drop_last() =~= Seq::<char>::empty());
        assert(line_breaks("\n"@.drop_last()) == 0);
    }
}

/// The lines of the slides: one per slide.
proof fn lemma_slides_lines(slides: Seq<SlideInfo>)
    requires
        forall|k: int| 0 <= k < slides.len() ==> line_breaks(slide_summary(#[trigger] slides[k])) == 1,
    ensures
        line_breaks(slides_summary(slides)) == slides.len(),
    decreases slides.len(),
{
    if slides.len() > 0 {
        let rest = slides.drop_last();
        assert forall|k: int| 0 <= k < rest.len() implies line_breaks(
            slide_summary(#[trigger] rest[k]),
        ) == 1 by {
            assert(rest[k] == slides[k]);
        }
        lemma_slides_lines(rest);
        assert(line_breaks(slide_summary(slides[slides.len() - 1])) == 1);
        lemma_line_breaks_add(slides_summary(rest), slide_summary(slides.last()));
    }
}

fn append_animations(out: &mut String, anims: &Vec<Animation>)
    ensures
        final(out)@ == old(out)@ + animations_summary(anims@),
        no_line_break(animations_summary(anims@)),
{
    if anims.len() == 0 {
        assert(old(out)@ + Seq::<char>::empty() =~= old(out)@);
        return;
    }
    let ghost start = out@;
    let ghost names = anims@.map_values(|a: Animation| animation_debug(a.animation_type));
    let d = decimal_string(anims.len() as u64);
    push_str(out, d.as_str());
    push_str(out, " animations [");
    let ghost mid = out@;
    let mut i: usize = 0;
    while i < anims.len()
        invariant
            0 < anims.len(),
            i <= anims.len(),
            names == anims@.map_values(|a: Animation| animation_debug(a.animation_type)),
            out@ == mid + joined(names.take(i as int), ", "@),
            forall|k: int| 0 <= k < i ==> no_line_break(#[trigger] names[k]),
        decreases anims.len() - i,
    {
        let ghost before = out@;
        if i > 0 {
            push_str(out, ", ");
        }
        let t = animation_debug_string(&anims[i].animation_type);
        push_str(out, t.as_str());
        assert(names.take(i + 1).drop_last() =~= names.take(i as int));
        if i == 0 {
            assert(joined(names.take(0), ", "@) =~= Seq::<char>::empty());
            assert(out@ =~= mid + joined(names.take(i + 1), ", "@));
        } else {
            assert(out@ =~= mid + joined(names.take(i + 1), ", "@));
        }
        i = i + 1;
    }
    assert(names.take(anims.len() as int) =~= names);
    push_str(out, "], ");
    assert(out@ =~= start + animations_summary(anims@));
    proof {
        reveal_strlit(", ");
        reveal_strlit(" animations [");
        reveal_strlit("], ");
        lemma_joined_no_break(names, ", "@);
        lemma_decimal_no_break(anims@.len());
        lemma_no_break_add(decimal(anims@.len()), " animations ["@);
        lemma_no_break_add(decimal(anims@.len()) + " animations ["@, joined(names, ", "@));
        lemma_no_break_add(
            decimal(anims@.len()) + " animations ["@ + joined(names, ", "@),
            "], "@,
        );
    }
}

fn count_media(media: &Vec<EmbeddedMedia>, kind: MediaType) -> (n: usize)
    ensures
        n == count_kind(media@, kind),
{
    let mut n: usize = 0;
    let mut i: usize = 0;
    while i < media.len()
        invariant
            i <= media.len(),
            n == count_kind(media@.take(i as int), kind),
            n <= i,
        decreases media.len() - i,
    {
        assert(media@.take(i + 1).drop_last() =~= media@.take(i as int));
        if media[i].media_type == kind {
            n = n + 1;
        }
        i = i + 1;
    }
    assert(media@.take(media.len() as int) =~= media@);
    n
}

fn append_media(out: &mut String, media: &Vec<EmbeddedMedia>)
    ensures
        final(out)@ == old(out)@ + media_summary(media@),
        no_line_break(media_summary(media@)),
{
    proof {
        lemma_media_no_break(media@);
    }
    let ghost start = out@;
    if media.len() > 0 {
        let audio = count_media(media, MediaType::Audio);
        let video = count_media(media, MediaType::Video);
        if audio > 0 {
            let a = decimal_string(audio as u64);
            push_str(out, a.as_str());
            push_str(out, " audio, ");
        }
        if video > 0 {
            let v = decimal_string(video as u64);
            push_str(out, v.as_str());
            push_str(out, " video, ");
        }
        assert(out@ =~= start + media_summary(media@));
    } else {
        assert(count_kind(media@, MediaType::Audio) == 0);
        assert(count_kind(media@, MediaType::Video) == 0);
        assert(out@ =~= start + media_summary(media@));
    }
}

fn append_transition(out: &mut String, transition: &Option<Transition>)
    ensures
        final(out)@ == old(out)@ + transition_summary(*transition),
        no_line_break(transition_summary(*transition)),
{
    let ghost start = out@;
    match transition {
        Some(t) => {
            let ty = transition_debug_string(&t.transition_type);
            push_str(out, ty.as_str());
            push_str(out, " (");
            let ms = decimal_string(t.duration_ms as u64);
            push_str(out, ms.as_str());
            push_str(out, "ms)");
            proof {
                reveal_strlit(" (");
                reveal_strlit("ms)");
                let td = transition_debug(t.transition_type);
                let dm = decimal(t.duration_ms as nat);
                lemma_decimal_no_break(t.duration_ms as nat);
                lemma_no_break_add(td, " ("@);
                lemma_no_break_add(td + " ("@, dm);
                lemma_no_break_add(td + " ("@ + dm, "ms)"@);
            }
        },
        None => {
            push_str(out, "no transition");
            proof {
                reveal_strlit("no transition");
            }
        },
    }
    assert(out@ =~= start + transition_summary(*transition));
}

fn append_slide(out: &mut String, s: &SlideInfo)
    ensures
        final(out)@ == old(out)@ + slide_summary(*s),
        line_breaks(slide_summary(*s)) == 1,
{
    let ghost start = out@;
    push_str(out, "Slide ");
    let d = decimal_string(s.slide_number as u64);
    push_str(out, d.as_str());
    push_str(out, ": ");
    append_animations(out, &s.animations);
    append_media(out, &s.embedded_media);
    append_transition(out, &s.transition);
    push_str(out, "\n");
    assert(out@ =~= start + slide_summary(*s));
    proof {
        lemma_slide_line(*s);
    }
}

impl PptxParser {
    /// A plain-text summary: the slide count, then one line per slide with
    /// its animations, media counts and transition.
    pub fn get_summary(info: &PptxInfo) -> (r: String)
        ensures
            r@ == presentation_summary(*info),
            line_breaks(r@) == info.slides@.len() + 2,
    {
        let mut summary = String::new();
        push_str(&mut summary, "Presentation with ");
        let d = decimal_string(info.slide_count as u64);
        push_str(&mut summary, d.as_str());
        push_str(&mut summary, " slides\n\n");
        let ghost head = summary@;
        let mut i: usize = 0;
        while i < info.slides.len()
            invariant
                i <= info.slides.len(),
                summary@ == head + slides_summary(info.slides@.take(i as int)),
                forall|k: int| 0 <= k < i ==> line_breaks(slide_summary(#[trigger] info.slides@[k])) == 1,
            decreases info.slides.len() - i,
        {
            append_slide(&mut summary, &info.slides[i]);
            assert(info.slides@.take(i + 1).drop_last() =~= info.slides@.take(i as int));
            assert(summary@ =~= head + slides_summary(info.slides@.take(i + 1)));
            i = i + 1;
        }
        assert(info.slides@.take(info.slides.len() as int) =~= info.slides@);
        proof {
            reveal_strlit("Presentation with ");
            reveal_strlit(" slides\n\n");
            lemma_slides_lines(info.slides@);
            let d = decimal(info.slide_count as nat);
            lemma_decimal_no_break(info.slide_count as nat);
            lemma_no_break_add("Presentation with "@, d);
            lemma_no_break_count("Presentation with "@ + d);
            let tail = " slides\n\n"@;
            assert(line_breaks(tail) == 2) by {
                assert(tail.len() == 9 && tail[8] == '\n' && tail[7] == '\n');
                let t1 = tail.drop_last();
                let t2 = t1.drop_last();
                assert forall|i: int| 0 <= i < t2.len() implies t2[i] != '\n' by {
                    assert(t2[i] == tail[i]);
                }
                lemma_no_break_count(t2);
                assert(t1.last() == '\n');
                assert(tail.last() == '\n');
                assert(line_breaks(t1) == line_breaks(t2) + 1);
                assert(line_breaks(tail) == line_breaks(t1) + 1);
            }
            lemma_line_breaks_add("Presentation with "@ + d, tail);
            lemma_line_breaks_add("Presentation with "@ + d + tail, slides_summary(info.slides@));
        }
        summary
    }
}

} // verus!
