//! What one slide's XML says: its animations, its transition and the media
//! it embeds. Time attributes are kept as the text of the attribute; they
//! are read as durations by the caller.

use vstd::prelude::*;

use super::xml::{
    attribute, attribute_ns, attribute_value, attribute_value_ns, nodes_view, opt_view, XmlNode,
    XmlNodeView,
};
use super::{
    audio_content_type, video_content_type, EmbeddedMedia, MediaType, PptxParser,
    animation_type_named, direction_attr, transition_named, transition_type_name, AnimationTrigger,
    AnimationType, TransitionType,
};
use crate::text::{has_substring, last_segment, lowercase, str_contains, str_eq};

verus! {

/// An animation of a slide, with its `dur` and `delay` attributes as text.
#[derive(Debug, Clone)]
pub struct RawAnimation {
    pub animation_type: AnimationType,
    pub subtype: Option<String>,
    pub trigger: AnimationTrigger,
    pub target_element: Option<String>,
    pub duration: Option<String>,
    pub delay: Option<String>,
}

/// The transition of a slide, with its `dur` attribute as text.
#[derive(Debug, Clone)]
pub struct RawTransition {
    pub transition_type: TransitionType,
    pub duration: Option<String>,
}

// ---------------------------------------------------------------------
// Animations
// ---------------------------------------------------------------------

/// Tags of the timing nodes that describe an animation effect.
pub open spec fn is_animation_tag(name: Seq<char>) -> bool {
    name == "anim"@ || name == "animMotion"@ || name == "animScale"@ || name == "animRot"@ || name
        == "animClr"@ || name == "set"@
}

/// The animation type a timing node stands for when it names no preset.
pub open spec fn tag_animation_type(name: Seq<char>) -> AnimationType {
    if name == "animMotion"@ {
        AnimationType::Fly
    } else if name == "animScale"@ {
        AnimationType::GrowAndShrink
    } else if name == "animRot"@ {
        AnimationType::Swivel
    } else if name == "animClr"@ {
        AnimationType::Fade
    } else if name == "set"@ {
        AnimationType::Appear
    } else {
        AnimationType::NoAnimation
    }
}

/// The trigger named by a `cond` attribute (a click when absent or unknown).
pub open spec fn trigger_named(cond: Option<Seq<char>>) -> AnimationTrigger {
    match cond {
        Some(c) => if c == "withPrevious"@ || c == "withPrev"@ {
            AnimationTrigger::WithPrevious
        } else if c == "afterPrevious"@ || c == "afterPrev"@ {
            AnimationTrigger::AfterPrevious
        } else {
            AnimationTrigger::OnClick
        },
        None => AnimationTrigger::OnClick,
    }
}

/// `a` is the animation that the timing node `n` describes.
pub open spec fn animation_of(a: RawAnimation, n: XmlNodeView) -> bool {
    let at = n.attributes;
    &&& match attribute_value(at, "presetID"@) {
        Some(p) => animation_type_named(a.animation_type, lowercase(p)),
        None => a.animation_type == tag_animation_type(n.name),
    }
    &&& opt_view(a.duration) == attribute_value(at, "dur"@)
    &&& opt_view(a.delay) == attribute_value(at, "delay"@)
    &&& a.trigger == trigger_named(attribute_value(at, "cond"@))
    &&& opt_view(a.target_element) == match attribute_value(at, "spid"@) {
        Some(x) => Some(x),
        None => attribute_value(at, "tgtEl"@),
    }
    &&& opt_view(a.subtype) == attribute_value(at, "presetClass"@)
}

/// Positions, below `k`, of the animation nodes of the document.
pub open spec fn animation_positions(nodes: Seq<XmlNodeView>, k: int) -> Seq<int>
    decreases k,
{
    if k <= 0 {
        Seq::empty()
    } else if is_animation_tag(nodes[k - 1].name) {
        animation_positions(nodes, k - 1).push(k - 1)
    } else {
        animation_positions(nodes, k - 1)
    }
}

/// Node `j` lies below node `r`, and no animation node stands between them.
/// (Parents precede their children in document order; a parent link that
/// does not is not followed.)
pub open spec fn below_without_animation(nodes: Seq<XmlNodeView>, j: int, r: int) -> bool
    decreases j,
{
    if !(0 <= j < nodes.len()) {
        false
    } else {
        match nodes[j].parent {
            None => false,
            Some(p) => if p == r {
                true
            } else if !(0 <= p < j) {
                false
            } else if is_animation_tag(nodes[p].name) {
                false
            } else {
                below_without_animation(nodes, p, r)
            },
        }
    }
}

/// Positions, below `k`, of the animation nodes found by descending from `r`
/// without entering animation nodes.
pub open spec fn nested_animation_positions(nodes: Seq<XmlNodeView>, r: int, k: int) -> Seq<int>
    decreases k,
{
    if k <= 0 {
        Seq::empty()
    } else if is_animation_tag(nodes[k - 1].name) && below_without_animation(nodes, k - 1, r) {
        nested_animation_positions(nodes, r, k - 1).push(k - 1)
    } else {
        nested_animation_positions(nodes, r, k - 1)
    }
}

/// The first element child of the document node, among the first `k` nodes.
pub open spec fn root_element_within(nodes: Seq<XmlNodeView>, k: int) -> Option<int>
    decreases k,
{
    if k <= 0 {
        None
    } else {
        match root_element_within(nodes, k - 1) {
            Some(i) => Some(i),
            None => if nodes[k - 1].parent == Some(0int) && nodes[k - 1].is_element {
                Some(k - 1)
            } else {
                None
            },
        }
    }
}

/// Once found below `i`, the root element stays the one found.
proof fn lemma_root_element_found(nodes: Seq<XmlNodeView>, i: int, k: int)
    requires
        i <= k,
        root_element_within(nodes, i) is Some,
    ensures
        root_element_within(nodes, k) == root_element_within(nodes, i),
    decreases k - i,
{
    if i < k {
        lemma_root_element_found(nodes, i, k - 1);
    }
}

/// The document's root element.
pub open spec fn root_element(nodes: Seq<XmlNodeView>) -> Option<int> {
    root_element_within(nodes, nodes.len() as int)
}

/// The nodes whose animations a slide lists, in that order: every
/// animation node of the document, then (again) those reached by descending
/// from the root element without entering animation nodes.
pub open spec fn slide_animation_positions(nodes: Seq<XmlNodeView>) -> Seq<int> {
    animation_positions(nodes, nodes.len() as int) + match root_element(nodes) {
        Some(r) => nested_animation_positions(nodes, r, nodes.len() as int),
        None => Seq::empty(),
    }
}

/// `anims` are the animations of the nodes at `positions`, in order.
pub open spec fn animations_at(anims: Seq<RawAnimation>, nodes: Seq<XmlNodeView>, positions: Seq<int>) -> bool {
    &&& anims.len() == positions.len()
    &&& forall|k: int|
        0 <= k < anims.len() ==> 0 <= #[trigger] positions[k] < nodes.len() && animation_of(
            anims[k],
            nodes[positions[k]],
        )
}

/// An animation node without a `presetID` takes its type from its tag:
/// `animMotion` flies, `animScale` grows and shrinks, `animRot` swivels,
/// `animClr` fades, `set` appears; any other tag is no animation.
pub proof fn lemma_tag_animation_types(a: RawAnimation, n: XmlNodeView)
    requires
        animation_of(a, n),
        attribute_value(n.attributes, "presetID"@) is None,
    ensures
        n.name == "animMotion"@ ==> a.animation_type == AnimationType::Fly,
        n.name == "animScale"@ ==> a.animation_type == AnimationType::GrowAndShrink,
        n.name == "animRot"@ ==> a.animation_type == AnimationType::Swivel,
        n.name == "animClr"@ ==> a.animation_type == AnimationType::Fade,
        n.name == "set"@ ==> a.animation_type == AnimationType::Appear,
        !(n.name == "animMotion"@ || n.name == "animScale"@ || n.name == "animRot"@ || n.name == "animClr"@ || n.name == "set"@) ==> a.animation_type == AnimationType::NoAnimation,
{
    reveal_strlit("animMotion");
    reveal_strlit("animScale");
    reveal_strlit("animRot");
    reveal_strlit("animClr");
    reveal_strlit("set");
    assert("animMotion"@.len() == 10 && "animMotion"@[0] == 'a' && "animMotion"@[9] == 'n');
    assert("animScale"@.len() == 9 && "animScale"@[0] == 'a' && "animScale"@[8] == 'e');
    assert("animRot"@.len() == 7 && "animRot"@[0] == 'a' && "animRot"@[6] == 't');
    assert("animClr"@.len() == 7 && "animClr"@[0] == 'a' && "animClr"@[6] == 'r');
    assert("set"@.len() == 3 && "set"@[0] == 's' && "set"@[2] == 't');
}

/// The trigger of an animation by its `cond` attribute: with the previous
/// one, after the previous one, or (any other value, or none) on a click.
pub proof fn lemma_trigger_names(c: Seq<char>)
    ensures
        (c == "withPrevious"@ || c == "withPrev"@) ==> trigger_named(Some(c)) == AnimationTrigger::WithPrevious,
        (c == "afterPrevious"@ || c == "afterPrev"@) ==> trigger_named(Some(c)) == AnimationTrigger::AfterPrevious,
        !(c == "withPrevious"@ || c == "withPrev"@ || c == "afterPrevious"@ || c == "afterPrev"@) ==> trigger_named(Some(c)) == AnimationTrigger::OnClick,
        trigger_named(None) == AnimationTrigger::OnClick,
{
    reveal_strlit("withPrevious");
    reveal_strlit("withPrev");
    reveal_strlit("afterPrevious");
    reveal_strlit("afterPrev");
    assert("withPrevious"@.len() == 12 && "withPrevious"@[0] == 'w' && "withPrevious"@[11] == 's');
    assert("withPrev"@.len() == 8 && "withPrev"@[0] == 'w' && "withPrev"@[7] == 'v');
    assert("afterPrevious"@.len() == 13 && "afterPrevious"@[0] == 'a' && "afterPrevious"@[12] == 's');
    assert("afterPrev"@.len() == 9 && "afterPrev"@[0] == 'a' && "afterPrev"@[8] == 'v');
}

fn is_animation_tag_str(name: &str) -> (r: bool)
    ensures
        r == is_animation_tag(name@),
{
    str_eq(name, "anim") || str_eq(name, "animMotion") || str_eq(name, "animScale") || str_eq(
        name,
        "animRot",
    ) || str_eq(name, "animClr") || str_eq(name, "set")
}

fn animation_trigger(node: &XmlNode) -> (r: AnimationTrigger)
    ensures
        r == trigger_named(attribute_value(node@.attributes, "cond"@)),
{
    match attribute(node, "cond") {
        Some(c) => if str_eq(c.as_str(), "withPrevious") || str_eq(c.as_str(), "withPrev") {
            AnimationTrigger::WithPrevious
        } else if str_eq(c.as_str(), "afterPrevious") || str_eq(c.as_str(), "afterPrev") {
            AnimationTrigger::AfterPrevious
        } else {
            AnimationTrigger::OnClick
        },
        None => AnimationTrigger::OnClick,
    }
}

/// The animation that a timing node describes.
pub fn extract_animation(node: &XmlNode) -> (r: RawAnimation)
    ensures
        animation_of(r, node@),
{
    let animation_type = match attribute(node, "presetID") {
        Some(p) => AnimationType::from_name(p.as_str()),
        None => {
            let t = node.name.as_str();
            if str_eq(t, "animMotion") {
                AnimationType::Fly
            } else if str_eq(t, "animScale") {
                AnimationType::GrowAndShrink
            } else if str_eq(t, "animRot") {
                AnimationType::Swivel
            } else if str_eq(t, "animClr") {
                AnimationType::Fade
            } else if str_eq(t, "set") {
                AnimationType::Appear
            } else {
                AnimationType::NoAnimation
            }
        },
    };
    let duration = attribute(node, "dur");
    let delay = attribute(node, "delay");
    let trigger = animation_trigger(node);
    let target_element = match attribute(node, "spid") {
        Some(x) => Some(x),
        None => attribute(node, "tgtEl"),
    };
    let subtype = attribute(node, "presetClass");
    RawAnimation { animation_type, subtype, trigger, target_element, duration, delay }
}

fn below_without_animation_exec(nodes: &Vec<XmlNode>, j: usize, r: usize) -> (b: bool)
    requires
        j < nodes.len(),
    ensures
        b == below_without_animation(nodes_view(nodes@), j as int, r as int),
{
    let ghost ns = nodes_view(nodes@);
    let mut cur = j;
    loop
        invariant
            cur < nodes.len(),
            ns == nodes_view(nodes@),
            below_without_animation(ns, j as int, r as int) == below_without_animation(
                ns,
                cur as int,
                r as int,
            ),
        decreases cur,
    {
        assert(ns[cur as int] == nodes@[cur as int]@);
        match nodes[cur].parent {
            None => {
                return false;
            },
            Some(p) => {
                if p == r {
                    return true;
                }
                if p >= cur {
                    return false;
                }
                assert(ns[p as int] == nodes@[p as int]@);
                if is_animation_tag_str(nodes[p].name.as_str()) {
                    return false;
                }
                cur = p;
            },
        }
    }
}

fn root_element_exec(nodes: &Vec<XmlNode>) -> (r: Option<usize>)
    ensures
        match r {
            Some(i) => root_element(nodes_view(nodes@)) == Some(i as int) && i < nodes.len(),
            None => root_element(nodes_view(nodes@)) is None,
        },
{
    let ghost ns = nodes_view(nodes@);
    let mut i: usize = 0;
    while i < nodes.len()
        invariant
            i <= nodes.len(),
            ns == nodes_view(nodes@),
            root_element_within(ns, i as int) is None,
        decreases nodes.len() - i,
    {
        assert(ns[i as int] == nodes@[i as int]@);
        if nodes[i].parent == Some(0usize) && nodes[i].is_element {
            assert(root_element_within(ns, i + 1) == Some(i as int));
            proof {
                lemma_root_element_found(ns, i + 1, nodes.len() as int);
            }
            return Some(i);
        }
        i = i + 1;
    }
    None
}

/// The animations of a slide document.
pub fn parse_animations(nodes: &Vec<XmlNode>) -> (r: Vec<RawAnimation>)
    ensures
        animations_at(r@, nodes_view(nodes@), slide_animation_positions(nodes_view(nodes@))),
{
    let ghost ns = nodes_view(nodes@);
    let mut out: Vec<RawAnimation> = Vec::new();
    let mut i: usize = 0;
    while i < nodes.len()
        invariant
            i <= nodes.len(),
            ns == nodes_view(nodes@),
            ns.len() == nodes.len(),
            animations_at(out@, ns, animation_positions(ns, i as int)),
        decreases nodes.len() - i,
    {
        assert(ns[i as int] == nodes@[i as int]@);
        if is_animation_tag_str(nodes[i].name.as_str()) {
            out.push(extract_animation(&nodes[i]));
        }
        i = i + 1;
    }
    let ghost first = animation_positions(ns, nodes.len() as int);
    let ghost first_len = out.len();
    match root_element_exec(nodes) {
        Some(root) => {
            let mut j: usize = 0;
            while j < nodes.len()
                invariant
                    j <= nodes.len(),
                    root < nodes.len(),
                    ns == nodes_view(nodes@),
                    ns.len() == nodes.len(),
                    animations_at(
                        out@,
                        ns,
                        first + nested_animation_positions(ns, root as int, j as int),
                    ),
                decreases nodes.len() - j,
            {
                assert(ns[j as int] == nodes@[j as int]@);
                let ghost before = nested_animation_positions(ns, root as int, j as int);
                if is_animation_tag_str(nodes[j].name.as_str()) && below_without_animation_exec(
                    nodes,
                    j,
                    root,
                ) {
                    out.push(extract_animation(&nodes[j]));
                    assert(first + before.push(j as int) =~= (first + before).push(j as int));
                }
                j = j + 1;
            }
        },
        None => {
            assert(first + Seq::<int>::empty() =~= first);
        },
    }
    out
}


// ---------------------------------------------------------------------
// Transition
// ---------------------------------------------------------------------

/// Position of the first node, below `k`, with local name `name`.
pub open spec fn first_named(nodes: Seq<XmlNodeView>, name: Seq<char>, k: int) -> Option<int>
    decreases k,
{
    if k <= 0 {
        None
    } else {
        match first_named(nodes, name, k - 1) {
            Some(i) => Some(i),
            None => if nodes[k - 1].name == name {
                Some(k - 1)
            } else {
                None
            },
        }
    }
}

/// Once found below `i`, the first node named `name` stays the one found.
proof fn lemma_first_named_found(nodes: Seq<XmlNodeView>, name: Seq<char>, i: int, k: int)
    requires
        i <= k,
        first_named(nodes, name, i) is Some,
    ensures
        first_named(nodes, name, k) == first_named(nodes, name, i),
    decreases k - i,
{
    if i < k {
        lemma_first_named_found(nodes, name, i, k - 1);
    }
}

/// `t` is the transition that the `transition` node `n` describes.
pub open spec fn transition_of(t: RawTransition, n: XmlNodeView) -> bool {
    let at = n.attributes;
    let type_attr = match attribute_value(at, "type"@) {
        Some(x) => Some(x),
        None => attribute_value(at, "prst"@),
    };
    &&& transition_named(
        t.transition_type,
        transition_type_name(type_attr),
        direction_attr(attribute_value(at, "dir"@)),
    )
    &&& opt_view(t.duration) == attribute_value(at, "dur"@)
}

/// The slide transition: the one the first `transition` node describes.
pub fn parse_transition(nodes: &Vec<XmlNode>) -> (r: Option<RawTransition>)
    ensures
        match first_named(nodes_view(nodes@), "transition"@, nodes.len() as int) {
            Some(i) => r matches Some(t) && 0 <= i < nodes.len() && transition_of(
                t,
                nodes_view(nodes@)[i],
            ),
            None => r is None,
        },
{
    let ghost ns = nodes_view(nodes@);
    let mut i: usize = 0;
    while i < nodes.len()
        invariant
            i <= nodes.len(),
            ns == nodes_view(nodes@),
            first_named(ns, "transition"@, i as int) is None,
        decreases nodes.len() - i,
    {
        assert(ns[i as int] == nodes@[i as int]@);
        if str_eq(nodes[i].name.as_str(), "transition") {
            let node = &nodes[i];
            let type_attr = match attribute(node, "type") {
                Some(x) => Some(x),
                None => attribute(node, "prst"),
            };
            let dir_attr = attribute(node, "dir");
            let transition_type = TransitionType::parse(
                match &type_attr {
                    Some(x) => Some(x.as_str()),
                    None => None,
                },
                match &dir_attr {
                    Some(x) => Some(x.as_str()),
                    None => None,
                },
            );
            let duration = attribute(node, "dur");
            assert(first_named(ns, "transition"@, i + 1) == Some(i as int));
            proof {
                lemma_first_named_found(ns, "transition"@, i + 1, nodes.len() as int);
            }
            return Some(RawTransition { transition_type, duration });
        }
        i = i + 1;
    }
    None
}

// ---------------------------------------------------------------------
// Relationships
// ---------------------------------------------------------------------

/// A relationship of a slide: id, target and type.
#[derive(Debug, Clone)]
pub struct Relationship {
    pub id: String,
    pub target: String,
    pub rel_type: String,
}

/// A relationship as a value: id, target, type.
pub open spec fn relationship_view(r: Relationship) -> (Seq<char>, Seq<char>, Seq<char>) {
    (r.id@, r.target@, r.rel_type@)
}

/// The relationships declared by the `Relationship` nodes below `k` that
/// carry an `Id`, a `Target` and a `Type`.
pub open spec fn relationships_within(nodes: Seq<XmlNodeView>, k: int) -> Seq<
    (Seq<char>, Seq<char>, Seq<char>),
>
    decreases k,
{
    if k <= 0 {
        Seq::empty()
    } else {
        let rest = relationships_within(nodes, k - 1);
        let at = nodes[k - 1].attributes;
        if nodes[k - 1].name == "Relationship"@ && attribute_value(at, "Id"@) is Some
            && attribute_value(at, "Target"@) is Some && attribute_value(at, "Type"@) is Some {
            rest.push(
                (
                    attribute_value(at, "Id"@)->0,
                    attribute_value(at, "Target"@)->0,
                    attribute_value(at, "Type"@)->0,
                ),
            )
        } else {
            rest
        }
    }
}

/// Target and type of relationship `id`: a later declaration of the same id
/// replaces an earlier one.
pub open spec fn relationship_lookup(rels: Seq<(Seq<char>, Seq<char>, Seq<char>)>, id: Seq<char>) -> Option<
    (Seq<char>, Seq<char>),
>
    decreases rels.len(),
{
    if rels.len() == 0 {
        None
    } else if rels.last().0 == id {
        Some((rels.last().1, rels.last().2))
    } else {
        relationship_lookup(rels.drop_last(), id)
    }
}

/// Relationships of a slide, from its `.rels` document.
pub fn parse_relationships(nodes: &Vec<XmlNode>) -> (r: Vec<Relationship>)
    ensures
        r@.map_values(|x: Relationship| relationship_view(x)) == relationships_within(
            nodes_view(nodes@),
            nodes.len() as int,
        ),
{
    let ghost ns = nodes_view(nodes@);
    let mut out: Vec<Relationship> = Vec::new();
    let mut i: usize = 0;
    while i < nodes.len()
        invariant
            i <= nodes.len(),
            ns == nodes_view(nodes@),
            out@.map_values(|x: Relationship| relationship_view(x)) == relationships_within(
                ns,
                i as int,
            ),
        decreases nodes.len() - i,
    {
        assert(ns[i as int] == nodes@[i as int]@);
        let node = &nodes[i];
        if str_eq(node.name.as_str(), "Relationship") {
            let id = attribute(node, "Id");
            let target = attribute(node, "Target");
            let rel_type = attribute(node, "Type");
            match (id, target, rel_type) {
                (Some(id), Some(target), Some(rel_type)) => {
                    let ghost before = out@.map_values(|x: Relationship| relationship_view(x));
                    out.push(Relationship { id, target, rel_type });
                    assert(out@.map_values(|x: Relationship| relationship_view(x)) =~= before.push(
                        (id@, target@, rel_type@),
                    ));
                },
                _ => {},
            }
        }
        i = i + 1;
    }
    out
}

fn lookup_relationship(rels: &Vec<Relationship>, id: &str) -> (r: Option<(String, String)>)
    ensures
        match r {
            Some((t, ty)) => relationship_lookup(
                rels@.map_values(|x: Relationship| relationship_view(x)),
                id@,
            ) == Some((t@, ty@)),
            None => relationship_lookup(
                rels@.map_values(|x: Relationship| relationship_view(x)),
                id@,
            ) is None,
        },
{
    let ghost rs = rels@.map_values(|x: Relationship| relationship_view(x));
    let mut i = rels.len();
    assert(rs.take(i as int) =~= rs);
    while i > 0
        invariant
            i <= rels.len(),
            rs == rels@.map_values(|x: Relationship| relationship_view(x)),
            relationship_lookup(rs, id@) == relationship_lookup(rs.take(i as int), id@),
        decreases i,
    {
        let ghost t = rs.take(i as int);
        assert(t.last() == relationship_view(rels@[i - 1]));
        assert(t.drop_last() =~= rs.take(i - 1));
        if str_eq(rels[i - 1].id.as_str(), id) {
            return Some((rels[i - 1].target.clone(), rels[i - 1].rel_type.clone()));
        }
        i = i - 1;
    }
    None
}

// ---------------------------------------------------------------------
// Embedded media
// ---------------------------------------------------------------------

/// Namespace URI of relationship attributes (`r:`).
pub const NS_REL: &'static str = "http://schemas.openxmlformats.org/officeDocument/2006/relationships";

/// The lower-cased extension of a file name.
pub open spec fn extension_of(name: Seq<char>) -> Seq<char> {
    lowercase(last_segment(name, '.'))
}

/// An embedded media entry as a value: kind, file name, content type.
pub open spec fn media_view(m: EmbeddedMedia) -> (MediaType, Seq<char>, Seq<char>) {
    (m.media_type, m.filename@, m.content_type@)
}

/// MIME type of a media file of this kind.
pub open spec fn content_type_for(kind: MediaType, name: Seq<char>) -> Seq<char> {
    match kind {
        MediaType::Video => video_content_type(extension_of(name)),
        MediaType::Audio => audio_content_type(extension_of(name)),
    }
}

/// Kind of the media that a `media` reference links to: by relationship type
/// first, then by whether the file name has a video MIME type.
pub open spec fn linked_media_kind(target: Seq<char>, rel_type: Seq<char>) -> MediaType {
    if has_substring(rel_type, "/video"@) {
        MediaType::Video
    } else if has_substring(rel_type, "/audio"@) {
        MediaType::Audio
    } else if video_content_type(extension_of(target)) != "application/octet-stream"@ {
        MediaType::Video
    } else {
        MediaType::Audio
    }
}

/// The media found in the first `k` nodes, and the relationship ids already
/// used: `videoFile` and `media` references are followed through the
/// relationships, each id once; `audio` and `video` elements name their file.
pub open spec fn media_scan(
    nodes: Seq<XmlNodeView>,
    rels: Seq<(Seq<char>, Seq<char>, Seq<char>)>,
    k: int,
) -> (Seq<(MediaType, Seq<char>, Seq<char>)>, Seq<Seq<char>>)
    decreases k,
{
    if k <= 0 {
        (Seq::empty(), Seq::empty())
    } else {
        let (m, seen) = media_scan(nodes, rels, k - 1);
        let n = nodes[k - 1];
        if n.name == "videoFile"@ || n.name == "media"@ {
            match attribute_value_ns(n.attributes, NS_REL@, "link"@) {
                Some(rid) => match relationship_lookup(rels, rid) {
                    Some((target, rel_type)) => if seen.contains(rid) {
                        (m, seen)
                    } else {
                        let kind = if n.name == "videoFile"@ {
                            MediaType::Video
                        } else {
                            linked_media_kind(target, rel_type)
                        };
                        (m.push((kind, target, content_type_for(kind, target))), seen.push(rid))
                    },
                    None => (m, seen),
                },
                None => (m, seen),
            }
        } else if n.name == "audio"@ || n.name == "video"@ {
            match attribute_value(n.attributes, "name"@) {
                Some(x) => {
                    let kind = if n.name == "audio"@ {
                        MediaType::Audio
                    } else {
                        MediaType::Video
                    };
                    (m.push((kind, x, content_type_for(kind, x))), seen)
                },
                None => (m, seen),
            }
        } else {
            (m, seen)
        }
    }
}

/// Following a media reference that was not followed before: a
/// `videoFile` reference adds a video; a `media` reference adds an audio
/// file when its relationship type names audio and not video, and a video
/// otherwise; each with the target as file name and the MIME type of its
/// kind for the target's extension.
pub proof fn lemma_media_link(
    nodes: Seq<XmlNodeView>,
    rels: Seq<(Seq<char>, Seq<char>, Seq<char>)>,
    k: int,
    rid: Seq<char>,
    target: Seq<char>,
    rel_type: Seq<char>,
)
    requires
        0 < k <= nodes.len(),
        nodes[k - 1].name == "media"@ || nodes[k - 1].name == "videoFile"@,
        attribute_value_ns(nodes[k - 1].attributes, NS_REL@, "link"@) == Some(rid),
        relationship_lookup(rels, rid) == Some((target, rel_type)),
        !media_scan(nodes, rels, k - 1).1.contains(rid),
    ensures
        media_scan(nodes, rels, k).1 == media_scan(nodes, rels, k - 1).1.push(rid),
        nodes[k - 1].name == "videoFile"@ ==> media_scan(nodes, rels, k).0 == media_scan(
            nodes,
            rels,
            k - 1,
        ).0.push((MediaType::Video, target, video_content_type(extension_of(target)))),
        nodes[k - 1].name == "media"@ && has_substring(rel_type, "/audio"@) && !has_substring(
            rel_type,
            "/video"@,
        ) ==> media_scan(nodes, rels, k).0 == media_scan(nodes, rels, k - 1).0.push(
            (MediaType::Audio, target, audio_content_type(extension_of(target))),
        ),
        nodes[k - 1].name == "media"@ && !(has_substring(rel_type, "/audio"@) && !has_substring(
            rel_type,
            "/video"@,
        )) ==> media_scan(nodes, rels, k).0 == media_scan(nodes, rels, k - 1).0.push(
            (MediaType::Video, target, video_content_type(extension_of(target))),
        ),
{
    reveal_strlit("media");
    reveal_strlit("videoFile");
    reveal_strlit("video/mp4");
    reveal_strlit("video/x-msvideo");
    reveal_strlit("video/x-ms-wmv");
    reveal_strlit("video/quicktime");
    reveal_strlit("video/x-matroska");
    reveal_strlit("video/x-flv");
    reveal_strlit("video/webm");
    reveal_strlit("application/octet-stream");
    assert("media"@.len() == 5 && "media"@[0] == 'm' && "media"@[4] == 'a');
    assert("videoFile"@.len() == 9 && "videoFile"@[0] == 'v' && "videoFile"@[8] == 'e');
    assert("video/mp4"@.len() == 9 && "video/mp4"@[0] == 'v' && "video/mp4"@[8] == '4');
    assert("video/x-msvideo"@.len() == 15 && "video/x-msvideo"@[0] == 'v' && "video/x-msvideo"@[14] == 'o');
    assert("video/x-ms-wmv"@.len() == 14 && "video/x-ms-wmv"@[0] == 'v' && "video/x-ms-wmv"@[13] == 'v');
    assert("video/quicktime"@.len() == 15 && "video/quicktime"@[0] == 'v' && "video/quicktime"@[14] == 'e');
    assert("video/x-matroska"@.len() == 16 && "video/x-matroska"@[0] == 'v' && "video/x-matroska"@[15] == 'a');
    assert("video/x-flv"@.len() == 11 && "video/x-flv"@[0] == 'v' && "video/x-flv"@[10] == 'v');
    assert("video/webm"@.len() == 10 && "video/webm"@[0] == 'v' && "video/webm"@[9] == 'm');
    assert("application/octet-stream"@.len() == 24 && "application/octet-stream"@[0] == 'a' && "application/octet-stream"@[23] == 'm');
}

/// A reference already followed adds nothing.
pub proof fn lemma_media_link_once(
    nodes: Seq<XmlNodeView>,
    rels: Seq<(Seq<char>, Seq<char>, Seq<char>)>,
    k: int,
    rid: Seq<char>,
)
    requires
        0 < k <= nodes.len(),
        nodes[k - 1].name == "media"@ || nodes[k - 1].name == "videoFile"@,
        attribute_value_ns(nodes[k - 1].attributes, NS_REL@, "link"@) == Some(rid),
        media_scan(nodes, rels, k - 1).1.contains(rid),
    ensures
        media_scan(nodes, rels, k) == media_scan(nodes, rels, k - 1),
{
}

/// An `audio` element adds an audio file and a `video` element a video, by
/// its `name` attribute, with the MIME type of its kind.
pub proof fn lemma_media_element(
    nodes: Seq<XmlNodeView>,
    rels: Seq<(Seq<char>, Seq<char>, Seq<char>)>,
    k: int,
    x: Seq<char>,
)
    requires
        0 < k <= nodes.len(),
        attribute_value(nodes[k - 1].attributes, "name"@) == Some(x),
    ensures
        nodes[k - 1].name == "audio"@ ==> media_scan(nodes, rels, k).0 == media_scan(nodes, rels, k - 1).0.push(
            (MediaType::Audio, x, audio_content_type(extension_of(x))),
        ),
        nodes[k - 1].name == "video"@ ==> media_scan(nodes, rels, k).0 == media_scan(nodes, rels, k - 1).0.push(
            (MediaType::Video, x, video_content_type(extension_of(x))),
        ),
{
    reveal_strlit("media");
    reveal_strlit("videoFile");
    reveal_strlit("audio");
    reveal_strlit("video");
    assert("media"@.len() == 5 && "media"@[0] == 'm' && "media"@[4] == 'a');
    assert("videoFile"@.len() == 9 && "videoFile"@[0] == 'v' && "videoFile"@[8] == 'e');
    assert("audio"@.len() == 5 && "audio"@[0] == 'a' && "audio"@[4] == 'o');
    assert("video"@.len() == 5 && "video"@[0] == 'v' && "video"@[4] == 'o');
}

fn contains_string(v: &Vec<String>, s: &str) -> (r: bool)
    ensures
        r == v@.map_values(|x: String| x@).contains(s@),
{
    let ghost vs = v@.map_values(|x: String| x@);
    let mut i: usize = 0;
    while i < v.len()
        invariant
            i <= v.len(),
            vs == v@.map_values(|x: String| x@),
            forall|j: int| 0 <= j < i ==> vs[j] != s@,
        decreases v.len() - i,
    {
        if str_eq(v[i].as_str(), s) {
            assert(vs[i as int] == s@);
            return true;
        }
        i = i + 1;
    }
    false
}

fn media_entry(kind: MediaType, name: &String) -> (m: EmbeddedMedia)
    ensures
        media_view(m) == (kind, name@, content_type_for(kind, name@)),
{
    let content_type = match kind {
        MediaType::Video => PptxParser::guess_video_type(name.as_str()),
        MediaType::Audio => PptxParser::guess_audio_type(name.as_str()),
    };
    EmbeddedMedia { media_type: kind, filename: name.clone(), content_type }
}

/// The media embedded in a slide document, given the slide's relationships.
pub fn parse_embedded_media(nodes: &Vec<XmlNode>, rels: &Vec<Relationship>) -> (r: Vec<EmbeddedMedia>)
    ensures
        r@.map_values(|m: EmbeddedMedia| media_view(m)) == media_scan(
            nodes_view(nodes@),
            rels@.map_values(|x: Relationship| relationship_view(x)),
            nodes.len() as int,
        ).0,
{
    let ghost ns = nodes_view(nodes@);
    let ghost rs = rels@.map_values(|x: Relationship| relationship_view(x));
    let mut media: Vec<EmbeddedMedia> = Vec::new();
    let mut seen: Vec<String> = Vec::new();
    let mut i: usize = 0;
    while i < nodes.len()
        invariant
            i <= nodes.len(),
            ns == nodes_view(nodes@),
            rs == rels@.map_values(|x: Relationship| relationship_view(x)),
            media@.map_values(|m: EmbeddedMedia| media_view(m)) == media_scan(ns, rs, i as int).0,
            seen@.map_values(|x: String| x@) == media_scan(ns, rs, i as int).1,
        decreases nodes.len() - i,
    {
        assert(ns[i as int] == nodes@[i as int]@);
        let node = &nodes[i];
        let ghost m0 = media@.map_values(|m: EmbeddedMedia| media_view(m));
        let ghost s0 = seen@.map_values(|x: String| x@);
        let is_video_file = str_eq(node.name.as_str(), "videoFile");
        if is_video_file || str_eq(node.name.as_str(), "media") {
            match attribute_ns(node, NS_REL, "link") {
                Some(rid) => match lookup_relationship(rels, rid.as_str()) {
                    Some((target, rel_type)) => {
                        if !contains_string(&seen, rid.as_str()) {
                            let kind = if is_video_file {
                                MediaType::Video
                            } else if str_contains(rel_type.as_str(), "/video") {
                                MediaType::Video
                            } else if str_contains(rel_type.as_str(), "/audio") {
                                MediaType::Audio
                            } else {
                                let guessed = PptxParser::guess_video_type(target.as_str());
                                if !str_eq(guessed.as_str(), "application/octet-stream") {
                                    MediaType::Video
                                } else {
                                    MediaType::Audio
                                }
                            };
                            let entry = media_entry(kind, &target);
                            media.push(entry);
                            seen.push(rid);
                            assert(media@.map_values(|m: EmbeddedMedia| media_view(m)) =~= m0.push(
                                media_view(entry),
                            ));
                            assert(seen@.map_values(|x: String| x@) =~= s0.push(rid@));
                        }
                    },
                    None => {},
                },
                None => {},
            }
        } else {
            let is_audio = str_eq(node.name.as_str(), "audio");
            if is_audio || str_eq(node.name.as_str(), "video") {
                match attribute(node, "name") {
                    Some(x) => {
                        let kind = if is_audio {
                            MediaType::Audio
                        } else {
                            MediaType::Video
                        };
                        let entry = media_entry(kind, &x);
                        media.push(entry);
                        assert(media@.map_values(|m: EmbeddedMedia| media_view(m)) =~= m0.push(
                            media_view(entry),
                        ));
                    },
                    None => {},
                }
            }
        }
        i = i + 1;
    }
    media
}

} // verus!
