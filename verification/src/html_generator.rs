//! Reveal.js page generation from the media files of a presentation folder.

use vstd::prelude::*;

use vstd::relations::sorted_by;

use crate::sorting::{name_order, sort_names};
use crate::text::{chars_of, last_segment, last_segment_of, lowercase, push_char, push_str, str_eq, string_of, to_lowercase};

verus! {

/// A file of the presentations folder, as the page generator sees it.
#[derive(Debug, Clone)]
pub struct PresentationFile {
    pub name: String,
    pub path: String,
    pub size: u64,
}

/// The extension of a file name as the classifiers compare it: the text
/// after the last `.` (the whole name when there is none), lower-cased.
pub open spec fn extension_of(name: Seq<char>) -> Seq<char> {
    lowercase(last_segment(name, '.'))
}

/// Extensions played as background videos.
pub open spec fn is_video_extension(e: Seq<char>) -> bool {
    e == "mp4"@ || e == "mov"@ || e == "avi"@ || e == "webm"@ || e == "ogg"@ || e == "mkv"@
}

/// Extensions shown as background images.
pub open spec fn is_image_extension(e: Seq<char>) -> bool {
    e == "png"@ || e == "jpg"@ || e == "jpeg"@ || e == "gif"@ || e == "svg"@ || e == "webp"@
}

/// A file of this name is shown as a video.
pub open spec fn is_video_name(name: Seq<char>) -> bool {
    is_video_extension(extension_of(name))
}

/// A file of this name is shown as an image.
pub open spec fn is_image_name(name: Seq<char>) -> bool {
    is_image_extension(extension_of(name))
}

/// A file of this name becomes a slide.
pub open spec fn is_slide_name(name: Seq<char>) -> bool {
    is_image_name(name) || is_video_name(name)
}

fn is_video_extension_str(e: &str) -> (r: bool)
    ensures
        r == is_video_extension(e@),
{
    str_eq(e, "mp4") || str_eq(e, "mov") || str_eq(e, "avi") || str_eq(e, "webm") || str_eq(
        e,
        "ogg",
    ) || str_eq(e, "mkv")
}

fn is_image_extension_str(e: &str) -> (r: bool)
    ensures
        r == is_image_extension(e@),
{
    str_eq(e, "png") || str_eq(e, "jpg") || str_eq(e, "jpeg") || str_eq(e, "gif") || str_eq(
        e,
        "svg",
    ) || str_eq(e, "webp")
}

fn extension_str(name: &str) -> (r: String)
    ensures
        r@ == extension_of(name@),
{
    let seg = last_segment_of(name, '.');
    to_lowercase(seg.as_str())
}

/// Whether a file name is shown as a video.
pub fn name_is_video(name: &str) -> (r: bool)
    ensures
        r == is_video_name(name@),
{
    let e = extension_str(name);
    is_video_extension_str(e.as_str())
}

/// Whether a file name is shown as an image.
pub fn name_is_image(name: &str) -> (r: bool)
    ensures
        r == is_image_name(name@),
{
    let e = extension_str(name);
    is_image_extension_str(e.as_str())
}

impl PresentationFile {
    /// Check if this is a video file based on extension.
    pub fn is_video(&self) -> (r: bool)
        ensures
            r == is_video_name(self.name@),
    {
        name_is_video(self.name.as_str())
    }

    /// Check if this is an image file based on extension.
    pub fn is_image(&self) -> (r: bool)
        ensures
            r == is_image_name(self.name@),
    {
        name_is_image(self.name.as_str())
    }
}

// ---------------------------------------------------------------------
// Escaping
// ---------------------------------------------------------------------

/// The HTML text for one character of a file name.
pub open spec fn escape_char(c: char) -> Seq<char> {
    if c == '&' {
        "&amp;"@
    } else if c == '<' {
        "&lt;"@
    } else if c == '>' {
        "&gt;"@
    } else if c == '"' {
        "&quot;"@
    } else if c == '\'' {
        "&#x27;"@
    } else {
        seq![c]
    }
}

/// `s` with `&`, `<`, `>`, `"` and `'` replaced by their character references.
pub open spec fn html_escaped(s: Seq<char>) -> Seq<char>
    decreases s.len(),
{
    if s.len() == 0 {
        s
    } else {
        html_escaped(s.drop_last()) + escape_char(s.last())
    }
}

/// Escapes text for use inside an HTML attribute value.
pub fn html_escape(text: &str) -> (r: String)
    ensures
        r@ == html_escaped(text@),
{
    let v = chars_of(text);
    let mut out = String::new();
    let mut i: usize = 0;
    while i < v.len()
        invariant
            i <= v.len(),
            v@ == text@,
            out@ == html_escaped(v@.take(i as int)),
        decreases v.len() - i,
    {
        let c = v[i];
        if c == '&' {
            push_str(&mut out, "&amp;");
        } else if c == '<' {
            push_str(&mut out, "&lt;");
        } else if c == '>' {
            push_str(&mut out, "&gt;");
        } else if c == '"' {
            push_str(&mut out, "&quot;");
        } else if c == '\'' {
            push_str(&mut out, "&#x27;");
        } else {
            push_char(&mut out, c);
            assert(out@ =~= html_escaped(v@.take(i as int)) + seq![c]);
        }
        assert(v@.take(i + 1).drop_last() =~= v@.take(i as int));
        i = i + 1;
    }
    assert(v@.take(v.len() as int) =~= v@);
    out
}

// ---------------------------------------------------------------------
// Page
// ---------------------------------------------------------------------

/// Everything of the page before the first slide.
pub const REVEAL_HEAD: &'static str = r#"<!doctype html>
<html lang="es">
    <head>
        <meta charset="utf-8" />
        <meta
            name="viewport"
            content="width=device-width, initial-scale=1.0, maximum-scale=1.0, user-scalable=no"
        />

        <title>Presentación</title>

        <link
            rel="stylesheet"
            href="https://cdnjs.cloudflare.com/ajax/libs/reveal.js/4.5.0/reveal.min.css"
        />
        <link
            rel="stylesheet"
            href="https://cdnjs.cloudflare.com/ajax/libs/reveal.js/4.5.0/theme/black.min.css"
        />

        <style>
            :root {
            --r-background-color: #0b0b0b; /* Replace with your hex code */
            }
            /* Ensures videos and images fill the screen properly */
            .reveal .slides section {
                height: 100%;
            }
            /* This forces the video to stretch/scale to fill the entire viewport */
            .reveal .backgrounds video {
                width: 100% !important;
                height: 100% !important;
                object-fit: cover !important;
            }
        </style>
    </head>
    <body>
        <div class="reveal">
            <div class="slides">"#;

/// Everything of the page after the last slide.
pub const REVEAL_TAIL: &'static str = r#"
            </div>
        </div>

        <script src="https://cdnjs.cloudflare.com/ajax/libs/reveal.js/4.5.0/reveal.js"></script>

        <script>
            Reveal.initialize({
                // The magic happens here:
                transition: "slide", // global transition style (none/fade/slide/convex/concave/zoom)
                transitionSpeed: "default", // default/fast/slow
                // This controls the movement of the background images/videos
                backgroundTransition: "slide",

                // Full screen configuration
                width: "100%",
                height: "100%",
                margin: 0,
                minScale: 1,
                maxScale: 1,

                // Media Autoplay
                autoPlayMedia: true,
                hash: true,
            });
        </script>
    </body>
</html>"#;

/// Put before each slide section.
pub const SLIDE_INDENT: &'static str = "\n                ";

/// Start of a video slide, up to the file name.
pub const VIDEO_SECTION_START: &'static str = "<section\n                    data-background-video=\"";

/// End of a video slide, after the file name.
pub const VIDEO_SECTION_END: &'static str = "\"\n                    data-autoplay\n                    data-background-size=\"cover\"\n                    data-background-video-loop\n                ></section>";

/// Start of an image slide, up to the file name.
pub const IMAGE_SECTION_START: &'static str = "<section\n                    data-background-image=\"";

/// End of an image slide, after the file name.
pub const IMAGE_SECTION_END: &'static str = "\"\n                    data-background-size=\"contain\"\n                ></section>";

/// The section of a file that is neither image nor video.
pub const EMPTY_SECTION: &'static str = "<section></section>";

/// The Reveal.js section for a file of this name.
pub open spec fn slide_section(name: Seq<char>) -> Seq<char> {
    if is_video_name(name) {
        VIDEO_SECTION_START@ + html_escaped(name) + VIDEO_SECTION_END@
    } else if is_image_name(name) {
        IMAGE_SECTION_START@ + html_escaped(name) + IMAGE_SECTION_END@
    } else {
        EMPTY_SECTION@
    }
}

/// The slide sections of the page, each preceded by its indentation.
pub open spec fn slide_sections(names: Seq<Seq<char>>) -> Seq<char>
    decreases names.len(),
{
    if names.len() == 0 {
        Seq::empty()
    } else {
        slide_sections(names.drop_last()) + SLIDE_INDENT@ + slide_section(names.last())
    }
}

/// The whole page for slides of these names, in this order.
pub open spec fn reveal_html(names: Seq<Seq<char>>) -> Seq<char> {
    REVEAL_HEAD@ + slide_sections(names) + REVEAL_TAIL@
}

/// The names of the files that become slides, in their order.
pub open spec fn slide_names(files: Seq<PresentationFile>) -> Seq<Seq<char>>
    decreases files.len(),
{
    if files.len() == 0 {
        Seq::empty()
    } else if is_slide_name(files.last().name@) {
        slide_names(files.drop_last()).push(files.last().name@)
    } else {
        slide_names(files.drop_last())
    }
}

/// The page that `generate_html` produces for a folder listing: its media
/// files, ordered by name.
pub open spec fn presentation_page(files: Seq<PresentationFile>) -> Seq<char> {
    reveal_html(slide_names(files).sort_by(name_order()))
}

/// Generates a slide section based on file type.
fn generate_slide_section(name: &str) -> (r: String)
    ensures
        r@ == slide_section(name@),
{
    if name_is_video(name) {
        let mut s = String::new();
        push_str(&mut s, VIDEO_SECTION_START);
        let e = html_escape(name);
        push_str(&mut s, e.as_str());
        push_str(&mut s, VIDEO_SECTION_END);
        s
    } else if name_is_image(name) {
        let mut s = String::new();
        push_str(&mut s, IMAGE_SECTION_START);
        let e = html_escape(name);
        push_str(&mut s, e.as_str());
        push_str(&mut s, IMAGE_SECTION_END);
        s
    } else {
        let mut s = String::new();
        push_str(&mut s, EMPTY_SECTION);
        s
    }
}

/// Builds the Reveal.js page for slides of these names, in this order.
fn build_reveal_html(names: &Vec<String>) -> (r: String)
    ensures
        r@ == reveal_html(names@.map_values(|n: String| n@)),
{
    let ghost ns = names@.map_values(|n: String| n@);
    let mut html = String::new();
    push_str(&mut html, REVEAL_HEAD);
    let mut i: usize = 0;
    while i < names.len()
        invariant
            i <= names.len(),
            ns == names@.map_values(|n: String| n@),
            html@ == REVEAL_HEAD@ + slide_sections(ns.take(i as int)),
        decreases names.len() - i,
    {
        push_str(&mut html, SLIDE_INDENT);
        let sec = generate_slide_section(names[i].as_str());
        push_str(&mut html, sec.as_str());
        assert(ns.take(i + 1).drop_last() =~= ns.take(i as int));
        assert(html@ =~= REVEAL_HEAD@ + slide_sections(ns.take(i + 1)));
        i = i + 1;
    }
    assert(ns.take(names.len() as int) =~= ns);
    push_str(&mut html, REVEAL_TAIL);
    html
}

/// Generates the Reveal.js page from a folder listing: only images and
/// videos become slides, ordered by file name.
pub fn generate_html(presentation_files: Vec<PresentationFile>) -> (r: String)
    ensures
        r@ == presentation_page(presentation_files@),
{
    let ghost files = presentation_files@;
    let mut names: Vec<Vec<char>> = Vec::new();
    let mut i: usize = 0;
    while i < presentation_files.len()
        invariant
            i <= presentation_files.len(),
            files == presentation_files@,
            names@.map_values(|v: Vec<char>| v@) == slide_names(files.take(i as int)),
        decreases presentation_files.len() - i,
    {
        let f = &presentation_files[i];
        assert(files.take(i + 1).drop_last() =~= files.take(i as int));
        if f.is_image() || f.is_video() {
            names.push(chars_of(f.name.as_str()));
            assert(names@.map_values(|v: Vec<char>| v@) =~= slide_names(files.take(i as int)).push(
                f.name@,
            ));
        }
        i = i + 1;
    }
    assert(files.take(files.len() as int) =~= files);
    let sorted = sort_names(names);
    let mut strs: Vec<String> = Vec::new();
    let mut j: usize = 0;
    while j < sorted.len()
        invariant
            j <= sorted.len(),
            strs@.map_values(|n: String| n@) =~= sorted@.map_values(|v: Vec<char>| v@).take(
                j as int,
            ),
        decreases sorted.len() - j,
    {
        let item = string_of(&sorted[j], 0, sorted[j].len());
        assert(sorted[j as int]@.subrange(0, sorted[j as int]@.len() as int) =~= sorted[j as int]@);
        let ghost before = strs@.map_values(|n: String| n@);
        strs.push(item);
        assert(strs@.map_values(|n: String| n@) =~= before.push(sorted[j as int]@));
        assert(sorted@.map_values(|v: Vec<char>| v@).take(j + 1) =~= sorted@.map_values(
            |v: Vec<char>| v@,
        ).take(j as int).push(sorted[j as int]@));
        j = j + 1;
    }
    assert(sorted@.map_values(|v: Vec<char>| v@).take(sorted.len() as int) =~= sorted@.map_values(
        |v: Vec<char>| v@,
    ));
    build_reveal_html(&strs)
}

// ---------------------------------------------------------------------
// Laws
// ---------------------------------------------------------------------

/// No file is both a video and an image.
pub proof fn lemma_video_and_image_exclusive(name: Seq<char>)
    ensures
        !(is_video_name(name) && is_image_name(name)),
{
    reveal_strlit("mp4");
    reveal_strlit("mov");
    reveal_strlit("avi");
    reveal_strlit("webm");
    reveal_strlit("ogg");
    reveal_strlit("mkv");
    reveal_strlit("png");
    reveal_strlit("jpg");
    reveal_strlit("jpeg");
    reveal_strlit("gif");
    reveal_strlit("svg");
    reveal_strlit("webp");
    let e = extension_of(name);
    if e == "mp4"@ {
        assert(e[0] == 'm' && e[1] == 'p' && e[2] == '4');
        assert(!is_image_extension(e));
    } else if e == "mov"@ {
        assert(e[0] == 'm' && e[1] == 'o' && e[2] == 'v');
        assert(!is_image_extension(e));
    } else if e == "avi"@ {
        assert(e[0] == 'a' && e[1] == 'v' && e[2] == 'i');
        assert(!is_image_extension(e));
    } else if e == "webm"@ {
        assert(e[0] == 'w' && e[1] == 'e' && e[2] == 'b' && e[3] == 'm');
        assert(!is_image_extension(e));
    } else if e == "ogg"@ {
        assert(e[0] == 'o' && e[1] == 'g' && e[2] == 'g');
        assert(!is_image_extension(e));
    } else if e == "mkv"@ {
        assert(e[0] == 'm' && e[1] == 'k' && e[2] == 'v');
        assert(!is_image_extension(e));
    }
}

/// Escaped text holds none of `<`, `>`, `"` and `'`.
pub proof fn lemma_escaped_has_no_markup(s: Seq<char>)
    ensures
        forall|i: int|
            0 <= i < html_escaped(s).len() ==> {
                let c = #[trigger] html_escaped(s)[i];
                c != '<' && c != '>' && c != '"' && c != '\''
            },
    decreases s.len(),
{
    reveal_strlit("&amp;");
    reveal_strlit("&lt;");
    reveal_strlit("&gt;");
    reveal_strlit("&quot;");
    reveal_strlit("&#x27;");
    if s.len() > 0 {
        lemma_escaped_has_no_markup(s.drop_last());
        let a = html_escaped(s.drop_last());
        let b = escape_char(s.last());
        assert forall|i: int| 0 <= i < html_escaped(s).len() implies {
            let c = #[trigger] html_escaped(s)[i];
            c != '<' && c != '>' && c != '"' && c != '\''
        } by {
            if i >= a.len() {
                assert(html_escaped(s)[i] == b[i - a.len()]);
            } else {
                assert(html_escaped(s)[i] == a[i]);
            }
        }
    }
}

/// Every file name that `slide_names` keeps becomes a slide, and each file
/// that becomes a slide is kept, as often as it is listed.
pub proof fn lemma_slide_names_are_the_media_files(files: Seq<PresentationFile>)
    ensures
        forall|i: int|
            0 <= i < slide_names(files).len() ==> is_slide_name(#[trigger] slide_names(files)[i]),
        forall|n: Seq<char>|
            is_slide_name(n) ==> #[trigger] slide_names(files).to_multiset().count(n)
                == files.map_values(|f: PresentationFile| f.name@).to_multiset().count(n),
    decreases files.len(),
{
    broadcast use vstd::seq_lib::group_to_multiset_ensures;

    if files.len() > 0 {
        let rest = files.drop_last();
        lemma_slide_names_are_the_media_files(rest);
        let names = files.map_values(|f: PresentationFile| f.name@);
        let last = files.last().name@;
        assert(names =~= rest.map_values(|f: PresentationFile| f.name@).push(last));
        let kept = slide_names(files);
        let before = slide_names(rest);
        if is_slide_name(last) {
            assert(kept == before.push(last));
            assert forall|i: int| 0 <= i < kept.len() implies is_slide_name(#[trigger] kept[i]) by {
                if i < before.len() {
                    assert(kept[i] == before[i]);
                }
            }
        } else {
            assert(kept == before);
            assert forall|n: Seq<char>| is_slide_name(n) implies #[trigger] kept.to_multiset().count(n)
                == names.to_multiset().count(n) by {
                assert(n != last);
            }
        }
    } else {
        assert(files.map_values(|f: PresentationFile| f.name@) =~= Seq::<Seq<char>>::empty());
    }
}

/// The slides of the page are the media files in name order: a sorted
/// arrangement of exactly the kept names.
pub proof fn lemma_page_slides_in_name_order(files: Seq<PresentationFile>)
    ensures
        sorted_by(slide_names(files).sort_by(name_order()), name_order()),
        slide_names(files).sort_by(name_order()).to_multiset() == slide_names(files).to_multiset(),
{
    crate::sorting::lemma_name_order_total();
    slide_names(files).lemma_sort_by_ensures(name_order());
}

/// The page depends only on which media files there are, counted with
/// repetition: two listings whose media names form the same multiset give
/// the same page, whatever their order.
pub proof fn lemma_page_depends_on_media_multiset(files1: Seq<PresentationFile>, files2: Seq<PresentationFile>)
    requires
        slide_names(files1).to_multiset() == slide_names(files2).to_multiset(),
    ensures
        presentation_page(files1) == presentation_page(files2),
{
    crate::sorting::lemma_name_order_total();
    let a = slide_names(files1);
    let b = slide_names(files2);
    a.lemma_sort_by_ensures(name_order());
    b.lemma_sort_by_ensures(name_order());
    vstd::seq_lib::lemma_sorted_unique(a.sort_by(name_order()), b.sort_by(name_order()), name_order());
}

/// Reordering a listing and adding files that are neither images nor videos
/// leaves the page unchanged: if the names of `files2` are, as a multiset,
/// those of `files1` and `extra`, and no file of `extra` becomes a slide,
/// both give the same page.
pub proof fn lemma_page_ignores_order_and_other_files(
    files1: Seq<PresentationFile>,
    extra: Seq<PresentationFile>,
    files2: Seq<PresentationFile>,
)
    requires
        files2.map_values(|f: PresentationFile| f.name@).to_multiset() == (files1 + extra).map_values(
            |f: PresentationFile| f.name@,
        ).to_multiset(),
        forall|i: int| 0 <= i < extra.len() ==> !is_slide_name(#[trigger] extra[i].name@),
    ensures
        presentation_page(files1) == presentation_page(files2),
{
    broadcast use vstd::seq_lib::group_to_multiset_ensures;

    lemma_slide_names_are_the_media_files(files1);
    lemma_slide_names_are_the_media_files(files2);
    lemma_slide_names_are_the_media_files(extra);
    let n1 = files1.map_values(|f: PresentationFile| f.name@);
    let ne = extra.map_values(|f: PresentationFile| f.name@);
    assert((files1 + extra).map_values(|f: PresentationFile| f.name@) =~= n1 + ne);
    vstd::seq_lib::lemma_multiset_commutative(n1, ne);
    assert forall|n: Seq<char>| is_slide_name(n) implies ne.to_multiset().count(n) == 0 by {
        if ne.to_multiset().count(n) > 0 {
            assert(ne.contains(n));
            let i = choose|i: int| 0 <= i < ne.len() && ne[i] == n;
            assert(!is_slide_name(extra[i].name@));
        }
    }
    let a = slide_names(files1);
    let b = slide_names(files2);
    assert forall|n: Seq<char>| #[trigger] a.to_multiset().count(n) == b.to_multiset().count(n) by {
        if !is_slide_name(n) {
            if a.to_multiset().count(n) > 0 {
                assert(a.contains(n));
            }
            if b.to_multiset().count(n) > 0 {
                assert(b.contains(n));
            }
        }
    }
    assert(a.to_multiset() =~= b.to_multiset());
    lemma_page_depends_on_media_multiset(files1, files2);
}

/// The files shown as images are exactly those whose extension (after the
/// last `.`, lower-cased) is png, jpg, jpeg, gif, svg or webp; those played
/// as videos exactly those with mp4, mov, avi, webm, ogg or mkv. An image
/// becomes an image slide and a video a video slide, with the escaped name.
pub proof fn lemma_slide_extensions(name: Seq<char>)
    ensures
        is_image_name(name) <==> (extension_of(name) == "png"@ || extension_of(name) == "jpg"@ || extension_of(name) == "jpeg"@ || extension_of(name) == "gif"@ || extension_of(name) == "svg"@ || extension_of(name) == "webp"@),
        is_video_name(name) <==> (extension_of(name) == "mp4"@ || extension_of(name) == "mov"@ || extension_of(name) == "avi"@ || extension_of(name) == "webm"@ || extension_of(name) == "ogg"@ || extension_of(name) == "mkv"@),
        is_image_name(name) ==> slide_section(name) == IMAGE_SECTION_START@ + html_escaped(name)
            + IMAGE_SECTION_END@,
        is_video_name(name) ==> slide_section(name) == VIDEO_SECTION_START@ + html_escaped(name)
            + VIDEO_SECTION_END@,
{
    lemma_video_and_image_exclusive(name);
}

} // verus!
