//! The presentation server's own rules: which files of the folder are
//! shown and how, what the helper tools print, and how derived files are
//! named.

use vstd::prelude::*;

use crate::html_generator::{extension_of, is_slide_name};
use crate::pptx_parser::slides::media_view;
use crate::pptx_parser::{EmbeddedMedia, MediaType};
use crate::text::{
    chars_of, decimal, decimal_string, ends_with, find_char, find_char_in, has_substring,
    last_segment, last_segment_of, last_word, last_word_of, lines, lines_of, lowercase,
    opt_string_view, parse_unsigned, parse_unsigned_chars, push_str, starts_with, str_contains,
    str_ends_with, str_eq, str_starts_with, string_of, to_lowercase, trim, trim_bounds,
};

verus! {

// ---------------------------------------------------------------------
// Folder entries
// ---------------------------------------------------------------------

/// Extensions of the files the folder may hold for a presentation.
pub open spec fn is_media_extension(e: Seq<char>) -> bool {
    e == "png"@ || e == "apng"@ || e == "jpg"@ || e == "jpeg"@ || e == "jfif"@ || e == "pjpeg"@ || e == "pjp"@ || e == "bmp"@ || e == "ico"@ || e == "cur"@ || e == "tif"@ || e == "tiff"@ || e == "gif"@ || e == "svg"@ || e == "webp"@ || e == "abif"@ || e == "mp4"@ || e == "m4v"@ || e == "m4p"@ || e == "mov"@ || e == "avi"@ || e == "webm"@ || e == "mkv"@ || e == "av1"@ || e == "3gp"@ || e == "mpg"@ || e == "mpeg"@ || e == "pdf"@ || e == "ppt"@ || e == "pptx"@
}

/// A file of this name is a picture, a video, a PDF or a PowerPoint file.
pub open spec fn is_media_name(name: Seq<char>) -> bool {
    is_media_extension(lowercase(last_segment(name, '.')))
}

/// Whether a file name has a media extension (case-insensitively).
pub fn is_media_file(filename: &str) -> (r: bool)
    ensures
        r == is_media_name(filename@),
{
    let seg = last_segment_of(filename, '.');
    let l = to_lowercase(seg.as_str());
    let x = l.as_str();
    str_eq(x, "png") || str_eq(x, "apng") || str_eq(x, "jpg") || str_eq(x, "jpeg") || str_eq(x, "jfif") || str_eq(x, "pjpeg") || str_eq(x, "pjp") || str_eq(x, "bmp") || str_eq(x, "ico") || str_eq(x, "cur") || str_eq(x, "tif") || str_eq(x, "tiff") || str_eq(x, "gif") || str_eq(x, "svg") || str_eq(x, "webp") || str_eq(x, "abif") || str_eq(x, "mp4") || str_eq(x, "m4v") || str_eq(x, "m4p") || str_eq(x, "mov") || str_eq(x, "avi") || str_eq(x, "webm") || str_eq(x, "mkv") || str_eq(x, "av1") || str_eq(x, "3gp") || str_eq(x, "mpg") || str_eq(x, "mpeg") || str_eq(x, "pdf") || str_eq(x, "ppt") || str_eq(x, "pptx")
}

/// What to do with an entry of the presentations folder.
#[derive(Debug, Clone, Copy, PartialEq, Eq, Structural)]
pub enum EntryKind {
    /// Hidden, or not a media file.
    Skip,
    /// Converted page by page to SVG slides.
    Pdf,
    /// Converted to SVG slides, its videos extracted.
    Pptx,
    /// Converted to PPTX first.
    Ppt,
    /// Shown as it is.
    Media,
}

/// The kind of a folder entry of this name.
pub open spec fn entry_kind_of(name: Seq<char>) -> EntryKind {
    if starts_with(name, "."@) || !is_media_name(name) {
        EntryKind::Skip
    } else if ends_with(lowercase(name), ".pdf"@) {
        EntryKind::Pdf
    } else if ends_with(lowercase(name), ".pptx"@) {
        EntryKind::Pptx
    } else if ends_with(lowercase(name), ".ppt"@) {
        EntryKind::Ppt
    } else {
        EntryKind::Media
    }
}

/// What to do with a folder entry, by its name.
pub fn classify_entry(file_name: &str) -> (r: EntryKind)
    ensures
        r == entry_kind_of(file_name@),
{
    if str_starts_with(file_name, ".") || !is_media_file(file_name) {
        return EntryKind::Skip;
    }
    let l = to_lowercase(file_name);
    if str_ends_with(l.as_str(), ".pdf") {
        EntryKind::Pdf
    } else if str_ends_with(l.as_str(), ".pptx") {
        EntryKind::Pptx
    } else if str_ends_with(l.as_str(), ".ppt") {
        EntryKind::Ppt
    } else {
        EntryKind::Media
    }
}

// ---------------------------------------------------------------------
// Output of the helper tools
// ---------------------------------------------------------------------

/// Position of the first line, below `k`, that starts with `prefix`.
pub open spec fn first_line_starting(ls: Seq<Seq<char>>, prefix: Seq<char>, k: int) -> Option<int>
    decreases k,
{
    if k <= 0 {
        None
    } else {
        match first_line_starting(ls, prefix, k - 1) {
            Some(i) => Some(i),
            None => if starts_with(ls[k - 1], prefix) {
                Some(k - 1)
            } else {
                None
            },
        }
    }
}

/// Once found below `i`, the first such line stays the one found.
proof fn lemma_first_line_starting_found(ls: Seq<Seq<char>>, prefix: Seq<char>, i: int, k: int)
    requires
        i <= k,
        first_line_starting(ls, prefix, i) is Some,
    ensures
        first_line_starting(ls, prefix, k) == first_line_starting(ls, prefix, i),
    decreases k - i,
{
    if i < k {
        lemma_first_line_starting_found(ls, prefix, i, k - 1);
    }
}

/// The page count `pdfinfo` reports: the last word of its first `Pages:`
/// line, read as a `u32`.
pub open spec fn pdf_page_count_of(stdout: Seq<char>) -> Option<u32> {
    let ls = lines(stdout);
    match first_line_starting(ls, "Pages:"@, ls.len() as int) {
        Some(i) => match last_word(ls[i]) {
            Some(w) => match parse_unsigned(w, u32::MAX as nat) {
                Some(n) => Some(n as u32),
                None => None,
            },
            None => None,
        },
        None => None,
    }
}

/// The page count in `pdfinfo` output.
pub fn pdf_page_count(stdout: &str) -> (r: Option<u32>)
    ensures
        r == pdf_page_count_of(stdout@),
{
    let ls = lines_of(stdout);
    let ghost lv = ls@.map_values(|x: String| x@);
    let mut i: usize = 0;
    while i < ls.len()
        invariant
            i <= ls.len(),
            lv == ls@.map_values(|x: String| x@),
            lv == lines(stdout@),
            first_line_starting(lv, "Pages:"@, i as int) is None,
        decreases ls.len() - i,
    {
        if str_starts_with(ls[i].as_str(), "Pages:") {
            assert(first_line_starting(lv, "Pages:"@, i + 1) == Some(i as int));
            proof {
                lemma_first_line_starting_found(lv, "Pages:"@, i + 1, lv.len() as int);
            }
            return match last_word_of(ls[i].as_str()) {
                Some(w) => {
                    let cs = chars_of(w.as_str());
                    assert(cs@.subrange(0, cs.len() as int) =~= cs@);
                    match parse_unsigned_chars(&cs, 0, cs.len(), 0xFFFF_FFFF) {
                        Some(n) => Some(n as u32),
                        None => None,
                    }
                },
                None => None,
            };
        }
        i = i + 1;
    }
    None
}

/// A line of `nmcli -t -f DEVICE,TYPE dev show` that describes a WiFi device.
pub open spec fn is_wifi_line(line: Seq<char>) -> bool {
    has_substring(line, ":wifi"@) || has_substring(line, ":wireless"@)
}

/// The text of a line before its first `:`.
pub open spec fn before_colon(line: Seq<char>) -> Seq<char> {
    match find_char(line, ':') {
        Some(p) => line.take(p),
        None => line,
    }
}

/// Position of the first WiFi line below `k`.
pub open spec fn first_wifi_line(ls: Seq<Seq<char>>, k: int) -> Option<int>
    decreases k,
{
    if k <= 0 {
        None
    } else {
        match first_wifi_line(ls, k - 1) {
            Some(i) => Some(i),
            None => if is_wifi_line(ls[k - 1]) {
                Some(k - 1)
            } else {
                None
            },
        }
    }
}

/// Once found below `i`, the first such line stays the one found.
proof fn lemma_first_wifi_line_found(ls: Seq<Seq<char>>, i: int, k: int)
    requires
        i <= k,
        first_wifi_line(ls, i) is Some,
    ensures
        first_wifi_line(ls, k) == first_wifi_line(ls, i),
    decreases k - i,
{
    if i < k {
        lemma_first_wifi_line_found(ls, i, k - 1);
    }
}

/// The WiFi device that `nmcli` lists first.
pub open spec fn wifi_device_of(stdout: Seq<char>) -> Option<Seq<char>> {
    let ls = lines(stdout);
    match first_wifi_line(ls, ls.len() as int) {
        Some(i) => Some(before_colon(ls[i])),
        None => None,
    }
}

/// The first WiFi device in `nmcli` output.
pub fn wifi_interface_from_nmcli(stdout: &str) -> (r: Option<String>)
    ensures
        opt_string_view(r) == wifi_device_of(stdout@),
{
    let ls = lines_of(stdout);
    let ghost lv = ls@.map_values(|x: String| x@);
    let mut i: usize = 0;
    while i < ls.len()
        invariant
            i <= ls.len(),
            lv == ls@.map_values(|x: String| x@),
            lv == lines(stdout@),
            first_wifi_line(lv, i as int) is None,
        decreases ls.len() - i,
    {
        let line = ls[i].as_str();
        if str_contains(line, ":wifi") || str_contains(line, ":wireless") {
            assert(first_wifi_line(lv, i + 1) == Some(i as int));
            proof {
                lemma_first_wifi_line_found(lv, i + 1, lv.len() as int);
            }
            let cs = chars_of(line);
            assert(cs@.subrange(0, cs.len() as int) =~= cs@);
            return match find_char_in(&cs, 0, cs.len(), ':') {
                Some(p) => {
                    assert(cs@.subrange(0, p as int) =~= cs@.take(p as int));
                    Some(string_of(&cs, 0, p))
                },
                None => Some(string_of(&cs, 0, cs.len())),
            };
        }
        i = i + 1;
    }
    None
}

/// The setting a `.env` line makes: the trimmed text before its first `=`
/// and the trimmed text after it.
pub open spec fn env_assignment_of(line: Seq<char>) -> Option<(Seq<char>, Seq<char>)> {
    match find_char(line, '=') {
        Some(p) => Some((trim(line.take(p)), trim(line.subrange(p + 1, line.len() as int)))),
        None => None,
    }
}

/// The key and value a `.env` line sets, if it holds an `=`.
pub fn env_assignment(line: &str) -> (r: Option<(String, String)>)
    ensures
        match r {
            Some((k, v)) => env_assignment_of(line@) == Some((k@, v@)),
            None => env_assignment_of(line@) is None,
        },
{
    let cs = chars_of(line);
    assert(cs@.subrange(0, cs.len() as int) =~= cs@);
    match find_char_in(&cs, 0, cs.len(), '=') {
        Some(p) => {
            let (a, b) = trim_bounds(&cs, 0, p);
            let (c, d) = trim_bounds(&cs, p + 1, cs.len());
            assert(cs@.subrange(0, p as int) =~= cs@.take(p as int));
            Some((string_of(&cs, a, b), string_of(&cs, c, d)))
        },
        None => None,
    }
}

// ---------------------------------------------------------------------
// Files derived from a presentation
// ---------------------------------------------------------------------

/// The last path segment that names a file or directory: empty segments and
/// `.` are skipped, and `..` names none.
pub open spec fn last_name_segment(segs: Seq<Seq<char>>) -> Option<Seq<char>>
    decreases segs.len(),
{
    if segs.len() == 0 {
        None
    } else if segs.last().len() == 0 || segs.last() == "."@ {
        last_name_segment(segs.drop_last())
    } else if segs.last() == ".."@ {
        None
    } else {
        Some(segs.last())
    }
}

/// `Path::file_name` for a Unix path.
pub open spec fn file_name_of(path: Seq<char>) -> Option<Seq<char>> {
    last_name_segment(crate::text::split(path, '/'))
}

/// The file name of a Unix path.
pub fn path_file_name(path: &str) -> (r: Option<String>)
    ensures
        opt_string_view(r) == file_name_of(path@),
{
    let segs = crate::text::split_str(path, '/');

    let ghost sv = segs@.map_values(|x: String| x@);
    let mut k = segs.len();
    assert(sv.take(k as int) =~= sv);
    while k > 0
        invariant
            k <= segs.len(),
            sv == segs@.map_values(|x: String| x@),
            sv == crate::text::split(path@, '/'),
            last_name_segment(sv) == last_name_segment(sv.take(k as int)),
        decreases k,
    {
        let seg = segs[k - 1].as_str();
        proof {
            reveal_strlit("");
            reveal_strlit(".");
            reveal_strlit("..");
        }
        assert(sv.take(k as int).last() == seg@);
        assert(sv.take(k as int).drop_last() =~= sv.take(k - 1));
        if str_eq(seg, "..") {
            return None;
        }
        if !(str_eq(seg, "") || str_eq(seg, ".")) {
            assert(seg@.len() != 0) by {
                if seg@.len() == 0 {
                    assert(seg@ =~= ""@);
                }
            }
            return Some(segs[k - 1].clone());
        }
        k = k - 1;
    }
    None
}

/// `Path::extension` for a Unix path: the text after the last `.` of the
/// file name, unless that `.` begins the name.
pub open spec fn extension_of_path(path: Seq<char>) -> Option<Seq<char>> {
    match file_name_of(path) {
        Some(n) => if has_substring(n, "."@) && !(n[0] == '.' && last_segment(n, '.').len() + 1
            == n.len()) {
            Some(last_segment(n, '.'))
        } else {
            None
        },
        None => None,
    }
}

/// The extension of a Unix path, or `mp4` when it has none.
pub open spec fn video_extension_of(path: Seq<char>) -> Seq<char> {
    match extension_of_path(path) {
        Some(e) => e,
        None => "mp4"@,
    }
}

proof fn lemma_last_segment_len(n: Seq<char>, sep: char)
    ensures
        last_segment(n, sep).len() <= n.len(),
        last_segment(n, sep).len() < n.len() ==> n[n.len() - last_segment(n, sep).len() - 1]
            == sep,
        forall|i: int|
            n.len() - last_segment(n, sep).len() <= i < n.len() ==> #[trigger] n[i] != sep,
    decreases n.len(),
{
    if n.len() > 0 && n.last() != sep {
        lemma_last_segment_len(n.drop_last(), sep);
        assert forall|i: int|
            n.len() - last_segment(n, sep).len() <= i < n.len() implies #[trigger] n[i] != sep by {
            if i < n.len() - 1 {
                assert(n[i] == n.drop_last()[i]);
            }
        }
    }
}

/// The extension of a path for a copied video (`mp4` when it has none).
pub fn video_extension(path: &str) -> (r: String)
    ensures
        r@ == video_extension_of(path@),
{
    match path_file_name(path) {
        Some(n) => {
            let seg = last_segment_of(n.as_str(), '.');
            let nv = chars_of(n.as_str());
            let sv = chars_of(seg.as_str());
            proof {
                lemma_last_segment_len(n@, '.');
            }
            let has_dot = sv.len() < nv.len();
            let dot_first = has_dot && sv.len() + 1 == nv.len() && nv[0] == '.';
            assert(has_dot == has_substring(n@, "."@)) by {
                reveal_strlit(".");
                if has_dot {
                    let p = n@.len() - seg@.len() - 1;
                    assert(n@.subrange(p, p + 1) =~= "."@);
                } else {
                    assert(seg@.len() == n@.len());
                    assert forall|i: int| 0 <= i && i + 1 <= n@.len() implies #[trigger] n@.subrange(
                        i,
                        i + 1,
                    ) != "."@ by {
                        assert(n@[i] != '.');
                        assert(n@.subrange(i, i + 1)[0] == n@[i]);
                    }
                }
            }
            if has_dot && !dot_first {
                seg
            } else {
                let mut r = String::new();
                push_str(&mut r, "mp4");
                r
            }
        },
        None => {
            let mut r = String::new();
            push_str(&mut r, "mp4");
            r
        },
    }
}

/// Where an embedded media file lies inside the PPTX archive: `ppt/media/`
/// and its file name (`None` for a path with no file name).
pub open spec fn media_path_in_zip_of(filename: Seq<char>) -> Option<Seq<char>> {
    if has_substring(filename, "/"@) {
        match file_name_of(filename) {
            Some(n) => Some("ppt/media/"@ + n),
            None => None,
        }
    } else {
        Some("ppt/media/"@ + filename)
    }
}

/// The archive path of an embedded media file.
pub fn media_path_in_zip(filename: &str) -> (r: Option<String>)
    ensures
        opt_string_view(r) == media_path_in_zip_of(filename@),
{
    if str_contains(filename, "/") {
        match path_file_name(filename) {
            Some(n) => {
                let mut r = String::new();
                push_str(&mut r, "ppt/media/");
                push_str(&mut r, n.as_str());
                Some(r)
            },
            None => None,
        }
    } else {
        let mut r = String::new();
        push_str(&mut r, "ppt/media/");
        push_str(&mut r, filename);
        Some(r)
    }
}

/// The local path of a media reference to an external file (`file://`).
pub open spec fn external_source_of(filename: Seq<char>) -> Option<Seq<char>> {
    if starts_with(filename, "file://"@) {
        Some(filename.skip(7))
    } else {
        None
    }
}

/// The local path an external media reference points to.
pub fn external_video_source(filename: &str) -> (r: Option<String>)
    ensures
        opt_string_view(r) == external_source_of(filename@),
{
    if str_starts_with(filename, "file://") {
        proof {
            reveal_strlit("file://");
        }
        let cs = chars_of(filename);
        assert(cs@.subrange(7, cs.len() as int) =~= filename@.skip(7));
        Some(string_of(&cs, 7, cs.len()))
    } else {
        None
    }
}

/// Name of a video taken out of a presentation: base name, slide number,
/// the video's number on the slide and its extension; embedded videos carry
/// a double underscore, copied external ones a single one.
pub open spec fn video_output_name_of(
    base: Seq<char>,
    slide: nat,
    count: nat,
    ext: Seq<char>,
    embedded: bool,
) -> Seq<char> {
    base + "-"@ + decimal(slide) + (if embedded {
        "__video_"@
    } else {
        "_video_"@
    }) + decimal(count) + "."@ + ext
}

/// The file name for a video taken out of a presentation.
pub fn video_output_name(base: &str, slide: u32, count: u32, ext: &str, embedded: bool) -> (r: String)
    ensures
        r@ == video_output_name_of(base@, slide as nat, count as nat, ext@, embedded),
{
    let mut r = String::new();
    push_str(&mut r, base);
    push_str(&mut r, "-");
    let s = decimal_string(slide as u64);
    push_str(&mut r, s.as_str());
    push_str(&mut r, if embedded { "__video_" } else { "_video_" });
    let c = decimal_string(count as u64);
    push_str(&mut r, c.as_str());
    push_str(&mut r, ".");
    push_str(&mut r, ext);
    r
}

/// Name of the SVG for page `page` of a document with file stem `stem`.
pub open spec fn svg_name_of(stem: Seq<char>, page: nat) -> Seq<char> {
    stem + "_"@ + decimal(page) + ".svg"@
}

/// The SVG file name for a page.
pub fn svg_name(stem: &str, page: u32) -> (r: String)
    ensures
        r@ == svg_name_of(stem@, page as nat),
{
    let mut r = String::new();
    push_str(&mut r, stem);
    push_str(&mut r, "_");
    let d = decimal_string(page as u64);
    push_str(&mut r, d.as_str());
    push_str(&mut r, ".svg");
    r
}

/// The videos of a slide to take out, among its first `k` media: each
/// video file once, numbered by its position among the slide's videos
/// (repeated references count too).
pub open spec fn videos_within(media: Seq<EmbeddedMedia>, k: int) -> (
    Seq<(Seq<char>, nat)>,
    nat,
    Seq<Seq<char>>,
)
    decreases k,
{
    if k <= 0 {
        (Seq::empty(), 0, Seq::empty())
    } else {
        let (out, count, seen) = videos_within(media, k - 1);
        let m = media[k - 1];
        if m.media_type != MediaType::Video {
            (out, count, seen)
        } else if seen.contains(m.filename@) {
            (out, count + 1, seen)
        } else {
            (out.push((m.filename@, count + 1)), count + 1, seen.push(m.filename@))
        }
    }
}

/// The videos of a slide to take out, each with its number on the slide.
pub fn videos_to_extract(media: &Vec<EmbeddedMedia>) -> (r: Vec<(String, u32)>)
    requires
        media@.len() <= u32::MAX,
    ensures
        r@.map_values(|p: (String, u32)| (p.0@, p.1 as nat)) == videos_within(
            media@,
            media@.len() as int,
        ).0,
{
    let mut out: Vec<(String, u32)> = Vec::new();
    let mut seen: Vec<String> = Vec::new();
    let mut count: u32 = 0;
    let mut i: usize = 0;
    while i < media.len()
        invariant
            i <= media.len(),
            media@.len() <= u32::MAX,
            out@.map_values(|p: (String, u32)| (p.0@, p.1 as nat)) == videos_within(
                media@,
                i as int,
            ).0,
            count == videos_within(media@, i as int).1,
            count <= i,
            seen@.map_values(|x: String| x@) == videos_within(media@, i as int).2,
        decreases media.len() - i,
    {
        let m = &media[i];
        let ghost o0 = out@.map_values(|p: (String, u32)| (p.0@, p.1 as nat));
        let ghost s0 = seen@.map_values(|x: String| x@);
        if m.media_type == MediaType::Video {
            count = count + 1;
            let mut found = false;
            let mut j: usize = 0;
            while j < seen.len()
                invariant
                    j <= seen.len(),
                    s0 == seen@.map_values(|x: String| x@),
                    found == exists|t: int| 0 <= t < j && #[trigger] s0[t] == m.filename@,
                decreases seen.len() - j,
            {
                assert(s0[j as int] == seen@[j as int]@);
                if str_eq(seen[j].as_str(), m.filename.as_str()) {
                    found = true;
                }
                j = j + 1;
            }
            if !found {
                let name = m.filename.clone();
                out.push((name, count));
                seen.push(m.filename.clone());
                assert(out@.map_values(|p: (String, u32)| (p.0@, p.1 as nat)) =~= o0.push(
                    (m.filename@, count as nat),
                ));
                assert(seen@.map_values(|x: String| x@) =~= s0.push(m.filename@));
            }
        }
        i = i + 1;
    }
    out
}

// ---------------------------------------------------------------------
// Laws
// ---------------------------------------------------------------------

/// The folder's media files are exactly those whose extension (after the
/// last `.`, lower-cased) is one of png, apng, jpg, jpeg, jfif, pjpeg, pjp,
/// bmp, ico, cur, tif, tiff, gif, svg, webp, abif, mp4, m4v, m4p, mov, avi,
/// webm, mkv, av1, 3gp, mpg, mpeg, pdf, ppt and pptx.
pub proof fn lemma_media_extensions(name: Seq<char>)
    ensures
        is_media_name(name) <==> (extension_of(name) == "png"@ || extension_of(name) == "apng"@ || extension_of(name) == "jpg"@ || extension_of(name) == "jpeg"@ || extension_of(name) == "jfif"@ || extension_of(name) == "pjpeg"@ || extension_of(name) == "pjp"@ || extension_of(name) == "bmp"@ || extension_of(name) == "ico"@ || extension_of(name) == "cur"@ || extension_of(name) == "tif"@ || extension_of(name) == "tiff"@ || extension_of(name) == "gif"@ || extension_of(name) == "svg"@ || extension_of(name) == "webp"@ || extension_of(name) == "abif"@ || extension_of(name) == "mp4"@ || extension_of(name) == "m4v"@ || extension_of(name) == "m4p"@ || extension_of(name) == "mov"@ || extension_of(name) == "avi"@ || extension_of(name) == "webm"@ || extension_of(name) == "mkv"@ || extension_of(name) == "av1"@ || extension_of(name) == "3gp"@ || extension_of(name) == "mpg"@ || extension_of(name) == "mpeg"@ || extension_of(name) == "pdf"@ || extension_of(name) == "ppt"@ || extension_of(name) == "pptx"@),
{
}

/// Every file the page shows as an image or plays as a video, but for
/// `.ogg` videos, is a media file of the folder, and it is handled unless
/// it is hidden.
pub proof fn lemma_slides_are_media(name: Seq<char>)
    requires
        is_slide_name(name),
        extension_of(name) != "ogg"@,
    ensures
        is_media_name(name),
        !starts_with(name, "."@) ==> entry_kind_of(name) != EntryKind::Skip,
{
}

/// What is done with a folder entry: hidden entries and non-media files are
/// skipped; otherwise a name ending (case-insensitively) in `.pdf` is a
/// PDF, in `.pptx` a PPTX, in `.ppt` a PPT, and anything else is shown as
/// it is.
pub proof fn lemma_entry_kinds(name: Seq<char>)
    ensures
        starts_with(name, "."@) || !is_media_name(name) ==> entry_kind_of(name) == EntryKind::Skip,
        !starts_with(name, "."@) && is_media_name(name) && ends_with(lowercase(name), ".pdf"@)
            ==> entry_kind_of(name) == EntryKind::Pdf,
        !starts_with(name, "."@) && is_media_name(name) && !ends_with(lowercase(name), ".pdf"@)
            && ends_with(lowercase(name), ".pptx"@) ==> entry_kind_of(name) == EntryKind::Pptx,
        !starts_with(name, "."@) && is_media_name(name) && !ends_with(lowercase(name), ".pdf"@)
            && !ends_with(lowercase(name), ".pptx"@) && ends_with(lowercase(name), ".ppt"@)
            ==> entry_kind_of(name) == EntryKind::Ppt,
        !starts_with(name, "."@) && is_media_name(name) && !ends_with(lowercase(name), ".pdf"@)
            && !ends_with(lowercase(name), ".pptx"@) && !ends_with(lowercase(name), ".ppt"@)
            ==> entry_kind_of(name) == EntryKind::Media,
{
}

} // verus!
