//! A whole presentation: the slide count from `ppt/presentation.xml`, then
//! each slide's relationships and content, in slide order.

use vstd::prelude::*;

use super::archive::{archive_texts, open_archive, read_entry_text, zip_entries_of, PptxArchive};
use super::slides::{
    animations_at, first_named, media_scan, media_view, parse_animations, parse_embedded_media,
    parse_relationships, parse_transition, relationship_view, relationships_within, slide_animation_positions,
    transition_of, RawAnimation, RawTransition, Relationship,
};
use super::xml::{nodes_view, parse_xml, xml_document, XmlNode, XmlNodeView};
use super::{
    Animation, EmbeddedMedia, MediaType, PptxInfo, PptxParseError, PptxParser, SlideInfo,
    Transition,
};
use crate::text::{decimal, decimal_string, push_str, str_eq};

verus! {

/// A slide with its time attributes still as text.
#[derive(Debug)]
pub struct RawSlide {
    pub slide_number: u32,
    pub animations: Vec<RawAnimation>,
    pub transition: Option<RawTransition>,
    pub embedded_media: Vec<EmbeddedMedia>,
}

/// A presentation with its time attributes still as text.
#[derive(Debug)]
pub struct RawPptx {
    pub slide_count: u32,
    pub slides: Vec<RawSlide>,
}

/// Why reading a presentation stops.
pub ghost enum Failure {
    /// A part could not be read as text.
    Io,
    /// A part is not well-formed XML; the parser's message.
    Xml(Seq<char>),
    /// A required part is absent.
    Missing(Seq<char>),
}

/// The failure an error reports (`None` for an archive that does not open).
pub open spec fn failure_of(e: PptxParseError) -> Option<Failure> {
    match e {
        PptxParseError::Io(_) => Some(Failure::Io),
        PptxParseError::Zip(_) => None,
        PptxParseError::XmlParse(m) => Some(Failure::Xml(m@)),
        PptxParseError::MissingFile(m) => Some(Failure::Missing(m@)),
    }
}

/// The nodes of part `name`: `None` when the archive has no such entry.
pub open spec fn part_nodes(texts: Map<Seq<char>, Option<Seq<char>>>, name: Seq<char>) -> Result<
    Option<Seq<XmlNodeView>>,
    Failure,
> {
    if !texts.dom().contains(name) {
        Ok(None)
    } else {
        match texts[name] {
            None => Err(Failure::Io),
            Some(t) => match xml_document(t) {
                Ok(ns) => Ok(Some(ns)),
                Err(m) => Err(Failure::Xml(m)),
            },
        }
    }
}

/// The part that lists the slides.
pub const PRESENTATION_PART: &'static str = "ppt/presentation.xml";

/// Path of slide `k`'s XML.
pub open spec fn slide_part(k: nat) -> Seq<char> {
    "ppt/slides/slide"@ + decimal(k) + ".xml"@
}

/// Path of slide `k`'s relationships.
pub open spec fn slide_rels_part(k: nat) -> Seq<char> {
    "ppt/slides/_rels/slide"@ + decimal(k) + ".xml.rels"@
}

/// Number of nodes, below `k`, with local name `name`.
pub open spec fn count_named(nodes: Seq<XmlNodeView>, name: Seq<char>, k: int) -> nat
    decreases k,
{
    if k <= 0 {
        0
    } else {
        count_named(nodes, name, k - 1) + if nodes[k - 1].name == name {
            1nat
        } else {
            0nat
        }
    }
}

/// The slide count: the number of `sldId` nodes of the presentation part,
/// kept in 32 bits.
pub open spec fn slide_count_of(texts: Map<Seq<char>, Option<Seq<char>>>) -> Result<u32, Failure> {
    match part_nodes(texts, PRESENTATION_PART@) {
        Err(f) => Err(f),
        Ok(None) => Err(Failure::Missing(PRESENTATION_PART@)),
        Ok(Some(ns)) => Ok((count_named(ns, "sldId"@, ns.len() as int) % 0x1_0000_0000) as u32),
    }
}

/// What slide `k` is read from: its relationships (none without a `.rels`
/// part) and its nodes (`None` without a slide part).
pub ghost struct SlideParts {
    pub rels: Seq<(Seq<char>, Seq<char>, Seq<char>)>,
    pub nodes: Option<Seq<XmlNodeView>>,
}

/// Reading slide `k`: relationships first, then the slide itself.
pub open spec fn slide_parts(texts: Map<Seq<char>, Option<Seq<char>>>, k: nat) -> Result<
    SlideParts,
    Failure,
> {
    match part_nodes(texts, slide_rels_part(k)) {
        Err(f) => Err(f),
        Ok(r) => {
            let rels = match r {
                Some(ns) => relationships_within(ns, ns.len() as int),
                None => Seq::empty(),
            };
            match part_nodes(texts, slide_part(k)) {
                Err(f) => Err(f),
                Ok(n) => Ok(SlideParts { rels, nodes: n }),
            }
        },
    }
}

/// The first failure among slides `1..=n`.
pub open spec fn slides_failure(texts: Map<Seq<char>, Option<Seq<char>>>, n: nat) -> Option<Failure>
    decreases n,
{
    if n == 0 {
        None
    } else {
        match slides_failure(texts, (n - 1) as nat) {
            Some(f) => Some(f),
            None => match slide_parts(texts, n) {
                Err(f) => Some(f),
                Ok(_) => None,
            },
        }
    }
}

/// `s` is slide `k` as read from `parts`.
pub open spec fn slide_from(s: RawSlide, k: nat, parts: SlideParts) -> bool {
    &&& s.slide_number == k
    &&& match parts.nodes {
        None => s.animations@.len() == 0 && s.transition is None && s.embedded_media@.len() == 0,
        Some(ns) => {
            &&& animations_at(s.animations@, ns, slide_animation_positions(ns))
            &&& match first_named(ns, "transition"@, ns.len() as int) {
                Some(i) => s.transition matches Some(t) && 0 <= i < ns.len() && transition_of(
                    t,
                    ns[i],
                ),
                None => s.transition is None,
            }
            &&& s.embedded_media@.map_values(|m: EmbeddedMedia| media_view(m)) == media_scan(
                ns,
                parts.rels,
                ns.len() as int,
            ).0
        },
    }
}

/// `s` is what reading slide `k` gives.
pub open spec fn slide_read(texts: Map<Seq<char>, Option<Seq<char>>>, s: RawSlide, k: nat) -> bool {
    match slide_parts(texts, k) {
        Ok(parts) => slide_from(s, k, parts),
        Err(_) => false,
    }
}

/// `r` is what reading a whole presentation from an archive holding `texts`
/// gives: every listed slide, or the first failure met.
pub open spec fn parsed_from(
    texts: Map<Seq<char>, Option<Seq<char>>>,
    r: Result<RawPptx, PptxParseError>,
) -> bool {
    match r {
        Ok(info) => {
            &&& slide_count_of(texts) == Ok::<u32, Failure>(info.slide_count)
            &&& slides_failure(texts, info.slide_count as nat) is None
            &&& info.slides@.len() == info.slide_count
            &&& forall|k: int|
                0 <= k < info.slide_count ==> slide_read(
                    texts,
                    #[trigger] info.slides@[k],
                    (k + 1) as nat,
                )
        },
        Err(e) => match slide_count_of(texts) {
            Err(f) => failure_of(e) == Some(f),
            Ok(n) => slides_failure(texts, n as nat) matches Some(f) && failure_of(e) == Some(f),
        },
    }
}

fn part_path(prefix: &str, k: u32, suffix: &str) -> (r: String)
    ensures
        r@ == prefix@ + decimal(k as nat) + suffix@,
{
    let mut r = String::new();
    push_str(&mut r, prefix);
    let d = decimal_string(k as u64);
    push_str(&mut r, d.as_str());
    push_str(&mut r, suffix);
    r
}

/// Reads and parses one XML part.
fn read_part(archive: &mut PptxArchive, name: &str) -> (r: Result<Option<Vec<XmlNode>>, PptxParseError>)
    ensures
        archive_texts(*final(archive)) == archive_texts(*old(archive)),
        match r {
            Ok(Some(v)) => part_nodes(archive_texts(*old(archive)), name@) == Ok::<
                Option<Seq<XmlNodeView>>,
                Failure,
            >(Some(nodes_view(v@))),
            Ok(None) => part_nodes(archive_texts(*old(archive)), name@) == Ok::<
                Option<Seq<XmlNodeView>>,
                Failure,
            >(None),
            Err(e) => part_nodes(archive_texts(*old(archive)), name@) matches Err(f) && failure_of(e)
                == Some(f),
        },
{
    match read_entry_text(archive, name) {
        None => Ok(None),
        Some(Err(e)) => Err(PptxParseError::Io(e)),
        Some(Ok(text)) => match parse_xml(text.as_str()) {
            Ok(v) => Ok(Some(v)),
            Err(m) => Err(PptxParseError::XmlParse(m)),
        },
    }
}

impl PptxParser {
    /// Number of slides listed in `ppt/presentation.xml`.
    pub fn get_slide_count(archive: &mut PptxArchive) -> (r: Result<u32, PptxParseError>)
        ensures
            archive_texts(*final(archive)) == archive_texts(*old(archive)),
            match r {
                Ok(n) => slide_count_of(archive_texts(*old(archive))) == Ok::<u32, Failure>(n),
                Err(e) => slide_count_of(archive_texts(*old(archive))) matches Err(f) && failure_of(
                    e,
                ) == Some(f),
            },
    {
        let nodes = match read_part(archive, PRESENTATION_PART) {
            Err(e) => {
                return Err(e);
            },
            Ok(None) => {
                let mut m = String::new();
                push_str(&mut m, PRESENTATION_PART);
                return Err(PptxParseError::MissingFile(m));
            },
            Ok(Some(v)) => v,
        };
        let ghost ns = nodes_view(nodes@);
        let mut count: u64 = 0;
        let mut i: usize = 0;
        while i < nodes.len()
            invariant
                i <= nodes.len(),
                ns == nodes_view(nodes@),
                count == count_named(ns, "sldId"@, i as int),
                count <= i,
            decreases nodes.len() - i,
        {
            assert(ns[i as int] == nodes@[i as int]@);
            if str_eq(nodes[i].name.as_str(), "sldId") {
                count = count + 1;
            }
            i = i + 1;
        }
        Ok((count % 0x1_0000_0000u64) as u32)
    }

    /// Reads slide `k`: its relationships, then its animations, transition
    /// and media.
    pub fn parse_slide(archive: &mut PptxArchive, k: u32) -> (r: Result<RawSlide, PptxParseError>)
        ensures
            archive_texts(*final(archive)) == archive_texts(*old(archive)),
            match r {
                Ok(s) => slide_read(archive_texts(*old(archive)), s, k as nat),
                Err(e) => slide_parts(archive_texts(*old(archive)), k as nat) matches Err(f)
                    && failure_of(e) == Some(f),
            },
    {
        let ghost texts = archive_texts(*old(archive));
        let rels_path = part_path("ppt/slides/_rels/slide", k, ".xml.rels");
        assert(rels_path@ == slide_rels_part(k as nat));
        let rels: Vec<Relationship> = match read_part(archive, rels_path.as_str()) {
            Err(e) => {
                return Err(e);
            },
            Ok(None) => {
                let v: Vec<Relationship> = Vec::new();
                assert(v@.map_values(|x: Relationship| relationship_view(x)) =~= Seq::empty());
                v
            },
            Ok(Some(v)) => parse_relationships(&v),
        };
        assert(part_nodes(texts, slide_rels_part(k as nat)) is Ok);
        assert(rels@.map_values(|x: Relationship| relationship_view(x)) == match part_nodes(
            texts,
            slide_rels_part(k as nat),
        ) {
            Ok(Some(ns)) => relationships_within(ns, ns.len() as int),
            _ => Seq::empty(),
        });
        let slide_path = part_path("ppt/slides/slide", k, ".xml");
        assert(slide_path@ == slide_part(k as nat));
        match read_part(archive, slide_path.as_str()) {
            Err(e) => Err(e),
            Ok(None) => Ok(
                RawSlide {
                    slide_number: k,
                    animations: Vec::new(),
                    transition: None,
                    embedded_media: Vec::new(),
                },
            ),
            Ok(Some(v)) => {
                let animations = parse_animations(&v);
                let transition = parse_transition(&v);
                let embedded_media = parse_embedded_media(&v, &rels);
                Ok(RawSlide { slide_number: k, animations, transition, embedded_media })
            },
        }
    }

    /// Reads a whole presentation from its archive. Fails with the first
    /// failure met: the presentation part missing, unreadable or malformed,
    /// then, slide by slide, a relationships or slide part unreadable or
    /// malformed; absent slide parts give empty slides.
    pub fn parse_archive(archive: &mut PptxArchive) -> (r: Result<RawPptx, PptxParseError>)
        ensures
            archive_texts(*final(archive)) == archive_texts(*old(archive)),
            parsed_from(archive_texts(*old(archive)), r),
    {
        let ghost texts = archive_texts(*old(archive));
        let slide_count = match PptxParser::get_slide_count(archive) {
            Ok(n) => n,
            Err(e) => {
                return Err(e);
            },
        };
        let mut slides: Vec<RawSlide> = Vec::new();
        let mut k: u32 = 0;
        while k < slide_count
            invariant
                k <= slide_count,
                texts == archive_texts(*old(archive)),
                archive_texts(*archive) == texts,
                slide_count_of(texts) == Ok::<u32, Failure>(slide_count),
                slides@.len() == k,
                slides_failure(texts, k as nat) is None,
                forall|j: int|
                    0 <= j < k ==> slide_read(texts, #[trigger] slides@[j], (j + 1) as nat),
            decreases slide_count - k,
        {
            let slide = match PptxParser::parse_slide(archive, k + 1) {
                Ok(s) => s,
                Err(e) => {
                    assert(slides_failure(texts, (k + 1) as nat) == failure_of(e));
                    proof {
                        lemma_failure_persists(texts, (k + 1) as nat, slide_count as nat);
                    }
                    return Err(e);
                },
            };
            let ghost before = slides@;
            slides.push(slide);
            assert forall|j: int| 0 <= j < k + 1 implies slide_read(
                texts,
                #[trigger] slides@[j],
                (j + 1) as nat,
            ) by {
                if j < k {
                    assert(slides@[j] == before[j]);
                }
            }
            k = k + 1;
        }
        Ok(RawPptx { slide_count, slides })
    }
}

impl PptxParser {
    /// Opens the bytes of a PPTX file as an archive and reads the
    /// presentation from it. Bytes that do not open as an archive give the
    /// `Zip` error; otherwise the result is what `parse_archive` gives for
    /// the archive they open to.
    pub fn parse_bytes(bytes: Vec<u8>) -> (r: Result<RawPptx, PptxParseError>)
        ensures
            match zip_entries_of(bytes@) {
                None => r matches Err(PptxParseError::Zip(_)),
                Some(texts) => parsed_from(texts, r),
            },
    {
        match open_archive(bytes) {
            Err(e) => Err(PptxParseError::Zip(e)),
            Ok(mut archive) => PptxParser::parse_archive(&mut archive),
        }
    }

    /// The media a slide's XML embeds, given the slide's relationships; XML
    /// that is not well formed gives the parser's message.
    pub fn parse_embedded_media(xml: &str, rels: &Vec<Relationship>) -> (r: Result<
        Vec<EmbeddedMedia>,
        PptxParseError,
    >)
        ensures
            match xml_document(xml@) {
                Ok(ns) => r matches Ok(v) && v@.map_values(|m: EmbeddedMedia| media_view(m))
                    == media_scan(
                    ns,
                    rels@.map_values(|x: Relationship| relationship_view(x)),
                    ns.len() as int,
                ).0,
                Err(m) => r matches Err(PptxParseError::XmlParse(e)) && e@ == m,
            },
    {
        match parse_xml(xml) {
            Ok(nodes) => Ok(parse_embedded_media(&nodes, rels)),
            Err(m) => Err(PptxParseError::XmlParse(m)),
        }
    }
}

/// Once a slide fails, every later count sees that failure first.
proof fn lemma_failure_persists(texts: Map<Seq<char>, Option<Seq<char>>>, k: nat, n: nat)
    requires
        k <= n,
        slides_failure(texts, k) is Some,
    ensures
        slides_failure(texts, n) == slides_failure(texts, k),
    decreases n - k,
{
    if k < n {
        lemma_failure_persists(texts, k, (n - 1) as nat);
    }
}

// ---------------------------------------------------------------------
// Durations
// ---------------------------------------------------------------------

/// The durations of an animation, as read from its `dur` and `delay`
/// attributes (`None` when absent or unreadable).
#[derive(Debug, Clone, Copy)]
pub struct AnimationTimings {
    pub duration_ms: Option<u32>,
    pub delay_ms: Option<u32>,
}

/// The durations of a slide: one entry per animation, and the transition's.
#[derive(Debug, Clone)]
pub struct SlideTimings {
    pub animations: Vec<AnimationTimings>,
    pub transition_ms: Option<u32>,
}

/// `a` is `r` with its durations: 500 ms and no delay by default.
pub open spec fn animation_finished(a: Animation, r: RawAnimation, t: AnimationTimings) -> bool {
    &&& a.animation_type == r.animation_type
    &&& a.subtype == r.subtype
    &&& a.trigger == r.trigger
    &&& a.target_element == r.target_element
    &&& a.duration_ms == t.duration_ms.unwrap_or(500)
    &&& a.delay_ms == t.delay_ms.unwrap_or(0)
}

/// `t` is `r` with its duration: one second by default.
pub open spec fn transition_finished(t: Transition, r: RawTransition, ms: Option<u32>) -> bool {
    t.transition_type == r.transition_type && t.duration_ms == ms.unwrap_or(1000)
}

/// `s` is `r` with its durations.
pub open spec fn slide_finished(s: SlideInfo, r: RawSlide, t: SlideTimings) -> bool {
    &&& s.slide_number == r.slide_number
    &&& s.embedded_media == r.embedded_media
    &&& match r.transition {
        None => s.transition is None,
        Some(rt) => s.transition matches Some(st) && transition_finished(st, rt, t.transition_ms),
    }
    &&& s.animations@.len() == r.animations@.len()
    &&& forall|i: int|
        0 <= i < r.animations@.len() ==> animation_finished(
            #[trigger] s.animations@[i],
            r.animations@[i],
            t.animations@[i],
        )
}

/// The timings fit the slide: one entry per animation.
pub open spec fn timings_fit(r: RawSlide, t: SlideTimings) -> bool {
    t.animations@.len() == r.animations@.len()
}

impl RawAnimation {
    /// The animation with its durations.
    pub fn finish(self, timings: AnimationTimings) -> (a: Animation)
        ensures
            animation_finished(a, self, timings),
    {
        Animation {
            animation_type: self.animation_type,
            subtype: self.subtype,
            duration_ms: match timings.duration_ms {
                Some(d) => d,
                None => 500,
            },
            trigger: self.trigger,
            target_element: self.target_element,
            delay_ms: match timings.delay_ms {
                Some(d) => d,
                None => 0,
            },
        }
    }
}

impl RawTransition {
    /// The transition with its duration.
    pub fn finish(self, duration_ms: Option<u32>) -> (t: Transition)
        ensures
            transition_finished(t, self, duration_ms),
    {
        Transition {
            transition_type: self.transition_type,
            duration_ms: match duration_ms {
                Some(d) => d,
                None => 1000,
            },
        }
    }
}

impl RawSlide {
    /// The slide with its durations.
    pub fn finish(self, timings: SlideTimings) -> (s: SlideInfo)
        requires
            timings_fit(self, timings),
        ensures
            slide_finished(s, self, timings),
    {
        let ghost raws0 = self.animations@;
        let ghost ts0 = timings.animations@;
        let mut raws = self.animations;
        let mut ts = timings.animations;
        let mut animations: Vec<Animation> = Vec::new();
        while raws.len() > 0
            invariant
                raws@.len() == ts@.len(),
                animations@.len() + raws@.len() == raws0.len(),
                raws0.len() == ts0.len(),
                raws@ == raws0.skip(animations@.len() as int),
                ts@ == ts0.skip(animations@.len() as int),
                forall|i: int|
                    0 <= i < animations@.len() ==> animation_finished(
                        #[trigger] animations@[i],
                        raws0[i],
                        ts0[i],
                    ),
            decreases raws@.len(),
        {
            let ghost k: int = animations@.len() as int;
            let r = raws.remove(0);
            let t = ts.remove(0);
            assert(r == raws0[k]);
            assert(t == ts0[k]);
            animations.push(r.finish(t));
            assert(raws@ =~= raws0.skip(k + 1int));
            assert(ts@ =~= ts0.skip(k + 1int));
        }
        let transition = match self.transition {
            Some(rt) => Some(rt.finish(timings.transition_ms)),
            None => None,
        };
        SlideInfo {
            slide_number: self.slide_number,
            animations,
            transition,
            embedded_media: self.embedded_media,
        }
    }
}

impl RawPptx {
    /// The presentation with the durations of each slide.
    pub fn finish(self, timings: Vec<SlideTimings>) -> (info: PptxInfo)
        requires
            timings@.len() == self.slides@.len(),
            forall|i: int| 0 <= i < timings@.len() ==> timings_fit(self.slides@[i], #[trigger] timings@[i]),
        ensures
            info.slide_count == self.slide_count,
            info.slides@.len() == self.slides@.len(),
            forall|i: int|
                0 <= i < info.slides@.len() ==> slide_finished(
                    #[trigger] info.slides@[i],
                    self.slides@[i],
                    timings@[i],
                ),
    {
        let ghost raws0 = self.slides@;
        let ghost ts0 = timings@;
        let mut raws = self.slides;
        let mut ts = timings;
        let mut slides: Vec<SlideInfo> = Vec::new();
        while raws.len() > 0
            invariant
                raws@.len() == ts@.len(),
                slides@.len() + raws@.len() == raws0.len(),
                raws0.len() == ts0.len(),
                raws@ == raws0.skip(slides@.len() as int),
                ts@ == ts0.skip(slides@.len() as int),
                forall|i: int| 0 <= i < ts0.len() ==> timings_fit(raws0[i], #[trigger] ts0[i]),
                forall|i: int|
                    0 <= i < slides@.len() ==> slide_finished(
                        #[trigger] slides@[i],
                        raws0[i],
                        ts0[i],
                    ),
            decreases raws@.len(),
        {
            let ghost k: int = slides@.len() as int;
            let r = raws.remove(0);
            let t = ts.remove(0);
            assert(r == raws0[k]);
            assert(t == ts0[k]);
            slides.push(r.finish(t));
            assert(raws@ =~= raws0.skip(k + 1int));
            assert(ts@ =~= ts0.skip(k + 1int));
        }
        PptxInfo { slide_count: self.slide_count, slides }
    }
}

} // verus!
