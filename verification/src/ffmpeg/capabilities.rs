//! The installed FFmpeg's capability set, read from its listings.
//!
//! Rather than hand-maintain enums, the engine asks `ffmpeg -encoders/-decoders/-filters/
//! -muxers/-demuxers/-pix_fmts/-protocols` once and keeps what those listings say. New
//! ffmpeg builds gain new capabilities for free. Lines are read as characters; the
//! listings ffmpeg prints are ASCII.

use vstd::prelude::*;
use crate::ffmpeg::locate::Tools;
use crate::text::{
    all_ascii, ascii_lower, chars_of, eq_chars, eq_str, is_whitespace, is_ws, join, join_strings,
    lines, lines_of, push_arg_chars, slice_chars, starts_with, starts_with_str, string_of,
    strings_view, to_ascii_lowercase, trim, trim_start_by, trim_start_ws, trim_ws, words,
    words_of, ws,
};

verus! {

/// Media kind for a codec entry.
#[derive(Debug, Clone, Copy, PartialEq, Eq, Structural)]
pub enum MediaKind {
    Video,
    Audio,
    Subtitle,
    Other,
}

/// A single encoder or decoder.
#[derive(Debug, Clone)]
pub struct CodecEntry {
    pub name: String,
    pub kind: MediaKind,
    pub description: String,
}

/// The value of a [`CodecEntry`].
pub struct CodecEntryView {
    pub name: Seq<char>,
    pub kind: MediaKind,
    pub description: Seq<char>,
}

impl View for CodecEntry {
    type V = CodecEntryView;

    open spec fn view(&self) -> CodecEntryView {
        CodecEntryView { name: self.name@, kind: self.kind, description: self.description@ }
    }
}

/// A single filter.
#[derive(Debug, Clone)]
pub struct FilterEntry {
    pub name: String,
    /// e.g. `"V->V"`, `"A->A"`, `"|->V"`.
    pub io: String,
    pub description: String,
}

/// The value of a [`FilterEntry`].
pub struct FilterEntryView {
    pub name: Seq<char>,
    pub io: Seq<char>,
    pub description: Seq<char>,
}

impl View for FilterEntry {
    type V = FilterEntryView;

    open spec fn view(&self) -> FilterEntryView {
        FilterEntryView { name: self.name@, io: self.io@, description: self.description@ }
    }
}

/// The views of a list of codec entries.
pub open spec fn codec_views(v: Seq<CodecEntry>) -> Seq<CodecEntryView> {
    v.map_values(|e: CodecEntry| e@)
}

/// The views of a list of filter entries.
pub open spec fn filter_views(v: Seq<FilterEntry>) -> Seq<FilterEntryView> {
    v.map_values(|e: FilterEntry| e@)
}

/// The full discovered capability set.
#[derive(Debug, Clone)]
pub struct Capabilities {
    pub version: String,
    pub encoders: Vec<CodecEntry>,
    pub decoders: Vec<CodecEntry>,
    pub filters: Vec<FilterEntry>,
    pub muxers: Vec<String>,
    pub demuxers: Vec<String>,
    pub pix_fmts: Vec<String>,
    pub protocols_input: Vec<String>,
    pub protocols_output: Vec<String>,
}

/// The text ffmpeg printed for each capability listing.
pub struct ToolListings {
    pub encoders: String,
    pub decoders: String,
    pub filters: String,
    pub muxers: String,
    pub demuxers: String,
    pub pix_fmts: String,
    pub protocols: String,
}

// ───────────────────────── line readers ─────────────────────────

/// The index of the first whitespace character of `s` (its length when there is none).
pub open spec fn first_ws(s: Seq<char>) -> int
    decreases s.len(),
{
    if s.len() == 0 || is_ws(s[0]) {
        0
    } else {
        1 + first_ws(s.drop_first())
    }
}

proof fn lemma_first_ws_bounds(s: Seq<char>)
    ensures
        0 <= first_ws(s) <= s.len(),
        first_ws(s) < s.len() ==> is_ws(s[first_ws(s)]),
    decreases s.len(),
{
    if s.len() > 0 && !is_ws(s[0]) {
        lemma_first_ws_bounds(s.drop_first());
    }
}

fn first_ws_index(v: &Vec<char>) -> (r: usize)
    ensures
        r == first_ws(v@),
{
    let mut i: usize = 0;
    assert(v@.skip(0) =~= v@);
    while i < v.len() && !is_whitespace(v[i])
        invariant
            i <= v.len(),
            first_ws(v@) == i + first_ws(v@.skip(i as int)),
        decreases v.len() - i,
    {
        assert(v@.skip(i as int).drop_first() =~= v@.skip(i + 1));
        i = i + 1;
    }
    i
}

/// The kind a codec flag character stands for.
pub open spec fn kind_of_flag(c: char) -> Option<MediaKind> {
    if c == 'V' {
        Some(MediaKind::Video)
    } else if c == 'A' {
        Some(MediaKind::Audio)
    } else if c == 'S' {
        Some(MediaKind::Subtitle)
    } else {
        None
    }
}

/// The codec one line of `-encoders`/`-decoders` output describes: ` V....D name  desc`
/// — a leading space, a six-character flag block whose first character is the media
/// kind (V/A/S), then the name and the description.
pub open spec fn codec_line(line: Seq<char>) -> Option<CodecEntryView> {
    if line.len() < 8 || line[0] != ' ' {
        None
    } else {
        match kind_of_flag(line[1]) {
            None => None,
            Some(kind) => {
                let rest = trim_start_by(line.skip(7), ws());
                let i = first_ws(rest);
                if i == 0 {
                    None
                } else {
                    Some(
                        CodecEntryView {
                            name: rest.take(i),
                            kind,
                            description: if i < rest.len() {
                                trim(rest.skip(i + 1))
                            } else {
                                Seq::empty()
                            },
                        },
                    )
                }
            },
        }
    }
}

/// The codecs a listing's lines describe, in order.
pub open spec fn codec_entries(ls: Seq<Seq<char>>) -> Seq<CodecEntryView>
    decreases ls.len(),
{
    if ls.len() == 0 {
        Seq::empty()
    } else {
        codec_entries(ls.drop_last()) + match codec_line(ls.last()) {
            Some(e) => seq![e],
            None => Seq::empty(),
        }
    }
}

/// Whether a listing line is the ` ------` separator that ends the legend.
pub open spec fn is_separator(line: Seq<char>) -> bool {
    starts_with(trim(line), "------"@)
}

/// The lines after the first separator line (none when there is no separator).
pub open spec fn after_separator(ls: Seq<Seq<char>>) -> Seq<Seq<char>>
    decreases ls.len(),
{
    if ls.len() == 0 {
        Seq::empty()
    } else if is_separator(ls[0]) {
        ls.drop_first()
    } else {
        after_separator(ls.drop_first())
    }
}

/// The codecs a `-encoders`/`-decoders` listing describes: the entry lines after the
/// legend's separator, in order.
pub open spec fn codec_listing(ls: Seq<Seq<char>>) -> Seq<CodecEntryView> {
    codec_entries(after_separator(ls))
}

/// The index just past the first separator line (the length when there is none).
fn body_start(ls: &Vec<Vec<char>>) -> (k: usize)
    ensures
        k <= ls@.len(),
        after_separator(ls@.map_values(|l: Vec<char>| l@)) == ls@.map_values(
            |l: Vec<char>| l@,
        ).skip(k as int),
{
    let ghost all = ls@.map_values(|l: Vec<char>| l@);
    let mut j: usize = 0;
    assert(all.skip(0) =~= all);
    while j < ls.len()
        invariant
            j <= ls@.len(),
            all == ls@.map_values(|l: Vec<char>| l@),
            after_separator(all) == after_separator(all.skip(j as int)),
        decreases ls.len() - j,
    {
        assert(all.skip(j as int)[0] == ls@[j as int]@);
        assert(all.skip(j as int).drop_first() =~= all.skip(j + 1));
        if starts_with_str(&trim_ws(&ls[j]), "------") {
            return j + 1;
        }
        j = j + 1;
    }
    assert(all.skip(j as int) =~= Seq::<Seq<char>>::empty());
    j
}

fn read_codec_line(line: &Vec<char>) -> (r: Option<CodecEntry>)
    ensures
        match r {
            Some(e) => codec_line(line@) == Some(e@),
            None => codec_line(line@) is None,
        },
{
    if line.len() < 8 || line[0] != ' ' {
        return None;
    }
    let kind = if line[1] == 'V' {
        MediaKind::Video
    } else if line[1] == 'A' {
        MediaKind::Audio
    } else if line[1] == 'S' {
        MediaKind::Subtitle
    } else {
        return None;
    };
    let rest = trim_start_ws(&slice_chars(line, 7, line.len()));
    let i = first_ws_index(&rest);
    proof {
        lemma_first_ws_bounds(rest@);
    }
    if i == 0 {
        return None;
    }
    let name = slice_chars(&rest, 0, i);
    let description = if i < rest.len() {
        trim_ws(&slice_chars(&rest, i + 1, rest.len()))
    } else {
        Vec::new()
    };
    assert(description@ == (if i < rest@.len() {
        trim(rest@.skip(i + 1))
    } else {
        Seq::<char>::empty()
    }));
    Some(CodecEntry { name: string_of(&name), kind, description: string_of(&description) })
}

/// Parse `-encoders`/`-decoders` output: the entry lines after the legend's
/// ` ------` separator.
pub fn parse_codecs(text: &str) -> (r: Vec<CodecEntry>)
    ensures
        codec_views(r@) == codec_listing(lines(text@)),
{
    let ls = lines_of(&chars_of(text));
    let ghost all = lines(text@);
    assert(ls@.map_values(|l: Vec<char>| l@) =~= all);
    let k = body_start(&ls);
    let mut out: Vec<CodecEntry> = Vec::new();
    let mut i: usize = k;
    assert(all.subrange(k as int, k as int) =~= Seq::<Seq<char>>::empty());
    while i < ls.len()
        invariant
            k <= i <= ls.len(),
            ls@.len() == all.len(),
            all == lines(text@),
            forall|j: int| 0 <= j < ls@.len() ==> #[trigger] ls@[j]@ == all[j],
            codec_views(out@) == codec_entries(all.subrange(k as int, i as int)),
        decreases ls.len() - i,
    {
        proof {
            assert(all.subrange(k as int, i + 1).drop_last() =~= all.subrange(k as int, i as int));
            assert(all.subrange(k as int, i + 1).last() == ls@[i as int]@);
        }
        let ghost before = out@;
        match read_codec_line(&ls[i]) {
            Some(e) => {
                out.push(e);
                assert(codec_views(out@) =~= codec_views(before).push(e@));
            },
            None => {},
        }
        assert(codec_views(out@) =~= codec_entries(all.subrange(k as int, i + 1)));
        i = i + 1;
    }
    assert(all.subrange(k as int, ls.len() as int) =~= all.skip(k as int));
    out
}

/// The filter one line of `-filters` output describes: ` T.. name  in->out  desc` — a
/// leading space, a three-character flag column and a space, then the name (not `=`),
/// its input/output kinds, and the words of the description.
pub open spec fn filter_line(line: Seq<char>) -> Option<FilterEntryView> {
    if line.len() < 6 || line[0] != ' ' {
        None
    } else {
        let w = words(line.skip(4));
        if w.len() == 0 || w[0] == "="@ {
            None
        } else {
            Some(
                FilterEntryView {
                    name: w[0],
                    io: if w.len() > 1 {
                        w[1]
                    } else {
                        Seq::empty()
                    },
                    description: if w.len() > 2 {
                        join(w.skip(2), " "@)
                    } else {
                        Seq::empty()
                    },
                },
            )
        }
    }
}

/// The filters a listing's lines describe, in order.
pub open spec fn filter_entries(ls: Seq<Seq<char>>) -> Seq<FilterEntryView>
    decreases ls.len(),
{
    if ls.len() == 0 {
        Seq::empty()
    } else {
        filter_entries(ls.drop_last()) + match filter_line(ls.last()) {
            Some(e) => seq![e],
            None => Seq::empty(),
        }
    }
}

/// The listed words from position `from` on, as strings.
fn words_from(w: &Vec<Vec<char>>, from: usize) -> (r: Vec<String>)
    requires
        from <= w.len(),
    ensures
        strings_view(r@) == w@.skip(from as int).map_values(|x: Vec<char>| x@),
{
    let mut r: Vec<String> = Vec::new();
    let mut i: usize = from;
    while i < w.len()
        invariant
            from <= i <= w.len(),
            strings_view(r@) == w@.subrange(from as int, i as int).map_values(|x: Vec<char>| x@),
        decreases w.len() - i,
    {
        push_arg_chars(&mut r, &w[i]);
        assert(w@.subrange(from as int, i + 1).map_values(|x: Vec<char>| x@) =~= w@.subrange(
            from as int,
            i as int,
        ).map_values(|x: Vec<char>| x@).push(w@[i as int]@));
        i = i + 1;
    }
    assert(w@.subrange(from as int, w@.len() as int) =~= w@.skip(from as int));
    r
}

fn read_filter_line(line: &Vec<char>) -> (r: Option<FilterEntry>)
    ensures
        match r {
            Some(e) => filter_line(line@) == Some(e@),
            None => filter_line(line@) is None,
        },
{
    if line.len() < 6 || line[0] != ' ' {
        return None;
    }
    let w = words_of(&slice_chars(line, 4, line.len()));
    let ghost ws_spec = words(line@.skip(4));
    assert(w@.map_values(|x: Vec<char>| x@) =~= ws_spec);
    if w.len() == 0 || eq_str(&w[0], "=") {
        return None;
    }
    let name = string_of(&w[0]);
    let io = if w.len() > 1 {
        string_of(&w[1])
    } else {
        string_of(&Vec::new())
    };
    let description = if w.len() > 2 {
        let rest = words_from(&w, 2);
        assert(strings_view(rest@) =~= ws_spec.skip(2));
        join_strings(&rest, " ")
    } else {
        string_of(&Vec::new())
    };
    Some(FilterEntry { name, io, description })
}

/// Parse `-filters` output.
pub fn parse_filters(text: &str) -> (r: Vec<FilterEntry>)
    ensures
        filter_views(r@) == filter_entries(lines(text@)),
{
    let ls = lines_of(&chars_of(text));
    let ghost all = lines(text@);
    let mut out: Vec<FilterEntry> = Vec::new();
    let mut i: usize = 0;
    while i < ls.len()
        invariant
            i <= ls.len(),
            ls@.len() == all.len(),
            all == lines(text@),
            forall|j: int| 0 <= j < ls@.len() ==> #[trigger] ls@[j]@ == all[j],
            filter_views(out@) == filter_entries(all.take(i as int)),
        decreases ls.len() - i,
    {
        proof {
            assert(all.take(i + 1).drop_last() =~= all.take(i as int));
            assert(all.take(i + 1).last() == ls@[i as int]@);
        }
        let ghost before = out@;
        match read_filter_line(&ls[i]) {
            Some(e) => {
                out.push(e);
                assert(filter_views(out@) =~= filter_views(before).push(e@));
            },
            None => {},
        }
        assert(filter_views(out@) =~= filter_entries(all.take(i + 1)));
        i = i + 1;
    }
    assert(all.take(ls.len() as int) =~= all);
    out
}


/// Whether every character of `s` is a muxer/demuxer flag glyph (`D` or `E`).
pub open spec fn all_flag_glyphs(s: Seq<char>) -> bool {
    forall|i: int| 0 <= i < s.len() ==> (#[trigger] s[i] == 'D' || s[i] == 'E')
}

/// The format name one line of `-muxers`/`-demuxers` output gives: ` E name  desc` —
/// a leading space, then the first word, or the second when the first is the flag
/// column.
pub open spec fn format_line(line: Seq<char>) -> Option<Seq<char>> {
    if line.len() < 4 || line[0] != ' ' {
        None
    } else {
        let w = words(line.skip(1));
        if w.len() == 0 {
            None
        } else if all_flag_glyphs(w[0]) {
            if w.len() > 1 && w[1].len() > 0 {
                Some(w[1])
            } else {
                None
            }
        } else if w[0].len() > 0 {
            Some(w[0])
        } else {
            None
        }
    }
}

/// The format names a listing's lines give, in order.
pub open spec fn format_names(ls: Seq<Seq<char>>) -> Seq<Seq<char>>
    decreases ls.len(),
{
    if ls.len() == 0 {
        Seq::empty()
    } else {
        format_names(ls.drop_last()) + match format_line(ls.last()) {
            Some(n) => seq![n],
            None => Seq::empty(),
        }
    }
}

fn flag_glyphs_only(v: &Vec<char>) -> (r: bool)
    ensures
        r == all_flag_glyphs(v@),
{
    let mut i: usize = 0;
    while i < v.len()
        invariant
            i <= v.len(),
            forall|j: int| 0 <= j < i ==> (#[trigger] v@[j] == 'D' || v@[j] == 'E'),
        decreases v.len() - i,
    {
        if v[i] != 'D' && v[i] != 'E' {
            return false;
        }
        i = i + 1;
    }
    true
}

fn read_format_line(line: &Vec<char>) -> (r: Option<Vec<char>>)
    ensures
        match r {
            Some(n) => format_line(line@) == Some(n@),
            None => format_line(line@) is None,
        },
{
    if line.len() < 4 || line[0] != ' ' {
        return None;
    }
    let w = words_of(&slice_chars(line, 1, line.len()));
    if w.len() == 0 {
        return None;
    }
    let first = &w[0];
    if flag_glyphs_only(first) {
        if w.len() > 1 && w[1].len() > 0 {
            Some(slice_chars(&w[1], 0, w[1].len()))
        } else {
            None
        }
    } else if first.len() > 0 {
        Some(slice_chars(first, 0, first.len()))
    } else {
        None
    }
}

/// Parse `-muxers`/`-demuxers` output into the listed names (the second list is kept
/// for the caller's shape and is always empty).
pub fn parse_format_list(text: &str, _marker: u8) -> (r: (Vec<String>, Vec<String>))
    ensures
        strings_view(r.0@) == format_names(lines(text@)),
        r.1@.len() == 0,
{
    let ls = lines_of(&chars_of(text));
    let ghost all = lines(text@);
    let mut names: Vec<String> = Vec::new();
    let mut i: usize = 0;
    while i < ls.len()
        invariant
            i <= ls.len(),
            ls@.len() == all.len(),
            all == lines(text@),
            forall|j: int| 0 <= j < ls@.len() ==> #[trigger] ls@[j]@ == all[j],
            strings_view(names@) == format_names(all.take(i as int)),
        decreases ls.len() - i,
    {
        proof {
            assert(all.take(i + 1).drop_last() =~= all.take(i as int));
            assert(all.take(i + 1).last() == ls@[i as int]@);
        }
        let ghost before = strings_view(names@);
        match read_format_line(&ls[i]) {
            Some(n) => {
                push_arg_chars(&mut names, &n);
            },
            None => {},
        }
        assert(strings_view(names@) =~= format_names(all.take(i + 1)));
        i = i + 1;
    }
    assert(all.take(ls.len() as int) =~= all);
    (names, Vec::new())
}

/// The pixel-format names of a `-pix_fmts` listing's lines: in the body (after the first
/// line starting with `-----`), the second word of each line that has one.
pub open spec fn pix_fmt_names(ls: Seq<Seq<char>>, in_body: bool) -> Seq<Seq<char>>
    decreases ls.len(),
{
    if ls.len() == 0 {
        Seq::empty()
    } else if starts_with(ls[0], "-----"@) {
        pix_fmt_names(ls.drop_first(), true)
    } else if !in_body {
        pix_fmt_names(ls.drop_first(), false)
    } else {
        let w = words(ls[0]);
        (if w.len() >= 2 {
            seq![w[1]]
        } else {
            Seq::empty()
        }) + pix_fmt_names(ls.drop_first(), true)
    }
}

/// Parse `-pix_fmts` output, collecting format names (the header block is skipped).
pub fn parse_pix_fmts(text: &str) -> (r: Vec<String>)
    ensures
        strings_view(r@) == pix_fmt_names(lines(text@), false),
{
    let ls = lines_of(&chars_of(text));
    let ghost all = lines(text@);
    let mut out: Vec<String> = Vec::new();
    let mut in_body = false;
    let mut i: usize = 0;
    assert(all.skip(0) =~= all);
    while i < ls.len()
        invariant
            i <= ls.len(),
            ls@.len() == all.len(),
            all == lines(text@),
            forall|j: int| 0 <= j < ls@.len() ==> #[trigger] ls@[j]@ == all[j],
            strings_view(out@) + pix_fmt_names(all.skip(i as int), in_body) == pix_fmt_names(
                all,
                false,
            ),
        decreases ls.len() - i,
    {
        proof {
            assert(all.skip(i as int)[0] == ls@[i as int]@);
            assert(all.skip(i as int).drop_first() =~= all.skip(i + 1));
        }
        let line = &ls[i];
        proof {
            reveal_strlit("-----");
        }
        if starts_with_str(line, "-----") {
            in_body = true;
        } else if in_body {
            let w = words_of(line);
            let ghost before = strings_view(out@);
            if w.len() >= 2 {
                push_arg_chars(&mut out, &w[1]);
            }
            assert(strings_view(out@) =~= before + (if words(ls@[i as int]@).len() >= 2 {
                seq![words(ls@[i as int]@)[1]]
            } else {
                Seq::<Seq<char>>::empty()
            }));
        }
        i = i + 1;
    }
    assert(strings_view(out@) =~= pix_fmt_names(all, false));
    out
}

/// The input and output protocols of a `-protocols` listing's lines, reading from the
/// section `section` (0 before any header, 1 under `Input:`, 2 under `Output:`; headers
/// are matched ignoring ASCII case after trimming, and lines that are empty or hold a
/// `:` are skipped).
pub open spec fn protocol_lists(ls: Seq<Seq<char>>, section: int) -> (Seq<Seq<char>>, Seq<
    Seq<char>,
>)
    decreases ls.len(),
{
    if ls.len() == 0 {
        (Seq::empty(), Seq::empty())
    } else {
        let t = trim(ls[0]);
        let rest = ls.drop_first();
        if ascii_lower(t) == "input:"@ {
            protocol_lists(rest, 1)
        } else if ascii_lower(t) == "output:"@ {
            protocol_lists(rest, 2)
        } else if t.len() == 0 || t.contains(':') {
            protocol_lists(rest, section)
        } else {
            let (i, o) = protocol_lists(rest, section);
            if section == 1 {
                (seq![t] + i, o)
            } else if section == 2 {
                (i, seq![t] + o)
            } else {
                (i, o)
            }
        }
    }
}

fn contains_colon(v: &Vec<char>) -> (r: bool)
    ensures
        r == v@.contains(':'),
{
    let mut i: usize = 0;
    while i < v.len()
        invariant
            i <= v.len(),
            forall|j: int| 0 <= j < i ==> v@[j] != ':',
        decreases v.len() - i,
    {
        if v[i] == ':' {
            assert(v@[i as int] == ':');
            return true;
        }
        i = i + 1;
    }
    false
}

/// Parse `-protocols` output into (input, output) protocol lists.
pub fn parse_protocols(text: &str) -> (r: (Vec<String>, Vec<String>))
    ensures
        (strings_view(r.0@), strings_view(r.1@)) == protocol_lists(lines(text@), 0),
{
    let ls = lines_of(&chars_of(text));
    let ghost all = lines(text@);
    let mut input: Vec<String> = Vec::new();
    let mut output: Vec<String> = Vec::new();
    let mut section: u8 = 0;
    let mut i: usize = 0;
    assert(all.skip(0) =~= all);
    while i < ls.len()
        invariant
            i <= ls.len(),
            section <= 2,
            ls@.len() == all.len(),
            all == lines(text@),
            forall|j: int| 0 <= j < ls@.len() ==> #[trigger] ls@[j]@ == all[j],
            ({
                let (ri, ro) = protocol_lists(all.skip(i as int), section as int);
                (strings_view(input@) + ri, strings_view(output@) + ro) == protocol_lists(all, 0)
            }),
        decreases ls.len() - i,
    {
        proof {
            assert(all.skip(i as int)[0] == ls@[i as int]@);
            assert(all.skip(i as int).drop_first() =~= all.skip(i + 1));
            reveal_strlit("input:");
            reveal_strlit("output:");
        }
        let t = trim_ws(&ls[i]);
        let low = to_ascii_lowercase(&t);
        if eq_str(&low, "input:") {
            section = 1;
        } else if eq_str(&low, "output:") {
            section = 2;
        } else if t.len() == 0 || contains_colon(&t) {
        } else {
            let ghost (ri, ro) = protocol_lists(all.skip(i + 1), section as int);
            let ghost bi = strings_view(input@);
            let ghost bo = strings_view(output@);
            if section == 1 {
                push_arg_chars(&mut input, &t);
                assert(strings_view(input@) + ri =~= bi + (seq![t@] + ri));
            } else if section == 2 {
                push_arg_chars(&mut output, &t);
                assert(strings_view(output@) + ro =~= bo + (seq![t@] + ro));
            }
        }
        i = i + 1;
    }
    assert(strings_view(input@) =~= strings_view(input@) + Seq::<Seq<char>>::empty());
    assert(strings_view(output@) =~= strings_view(output@) + Seq::<Seq<char>>::empty());
    (input, output)
}


/// The codec entries of `v` of the given kind, in order.
pub open spec fn of_kind(v: Seq<CodecEntryView>, kind: MediaKind) -> Seq<CodecEntryView>
    decreases v.len(),
{
    if v.len() == 0 {
        Seq::empty()
    } else {
        of_kind(v.drop_last(), kind) + if v.last().kind == kind {
            seq![v.last()]
        } else {
            Seq::empty()
        }
    }
}

fn any_codec_named(v: &Vec<CodecEntry>, name: &str) -> (r: bool)
    ensures
        r == exists|i: int| 0 <= i < v@.len() && (#[trigger] v@[i]).name@ == name@,
{
    let n = chars_of(name);
    let mut i: usize = 0;
    while i < v.len()
        invariant
            i <= v.len(),
            n@ == name@,
            forall|j: int| 0 <= j < i ==> (#[trigger] v@[j]).name@ != name@,
        decreases v.len() - i,
    {
        if eq_chars(&chars_of(v[i].name.as_str()), &n) {
            assert(v@[i as int].name@ == name@);
            return true;
        }
        i = i + 1;
    }
    false
}

fn any_string_named(v: &Vec<String>, name: &str) -> (r: bool)
    ensures
        r == exists|i: int| 0 <= i < v@.len() && (#[trigger] v@[i])@ == name@,
{
    let n = chars_of(name);
    let mut i: usize = 0;
    while i < v.len()
        invariant
            i <= v.len(),
            n@ == name@,
            forall|j: int| 0 <= j < i ==> (#[trigger] v@[j])@ != name@,
        decreases v.len() - i,
    {
        if eq_chars(&chars_of(v[i].as_str()), &n) {
            assert(v@[i as int]@ == name@);
            return true;
        }
        i = i + 1;
    }
    false
}

impl Capabilities {
    /// Whether an encoder with the exact `name` is available.
    pub fn has_encoder(&self, name: &str) -> (r: bool)
        ensures
            r == exists|i: int| 0 <= i < self.encoders@.len() && (#[trigger] self.encoders@[i]).name@ == name@,
    {
        any_codec_named(&self.encoders, name)
    }

    /// Whether a decoder with the exact `name` is available.
    pub fn has_decoder(&self, name: &str) -> (r: bool)
        ensures
            r == exists|i: int| 0 <= i < self.decoders@.len() && (#[trigger] self.decoders@[i]).name@ == name@,
    {
        any_codec_named(&self.decoders, name)
    }

    /// Whether a filter with the exact `name` is available.
    pub fn has_filter(&self, name: &str) -> (r: bool)
        ensures
            r == exists|i: int| 0 <= i < self.filters@.len() && (#[trigger] self.filters@[i]).name@ == name@,
    {
        let n = chars_of(name);
        let mut i: usize = 0;
        while i < self.filters.len()
            invariant
                i <= self.filters.len(),
                n@ == name@,
                forall|j: int| 0 <= j < i ==> (#[trigger] self.filters@[j]).name@ != name@,
            decreases self.filters.len() - i,
        {
            if eq_chars(&chars_of(self.filters[i].name.as_str()), &n) {
                assert(self.filters@[i as int].name@ == name@);
                return true;
            }
            i = i + 1;
        }
        false
    }

    /// Whether a muxer with the exact `name` is available.
    pub fn has_muxer(&self, name: &str) -> (r: bool)
        ensures
            r == exists|i: int| 0 <= i < self.muxers@.len() && (#[trigger] self.muxers@[i])@ == name@,
    {
        any_string_named(&self.muxers, name)
    }

    /// Encoders of a given media kind, in listing order.
    pub fn encoders_of(&self, kind: MediaKind) -> (r: Vec<CodecEntry>)
        ensures
            codec_views(r@) == of_kind(codec_views(self.encoders@), kind),
    {
        let ghost all = codec_views(self.encoders@);
        let mut out: Vec<CodecEntry> = Vec::new();
        let mut i: usize = 0;
        while i < self.encoders.len()
            invariant
                i <= self.encoders.len(),
                all == codec_views(self.encoders@),
                codec_views(out@) == of_kind(all.take(i as int), kind),
            decreases self.encoders.len() - i,
        {
            proof {
                assert(all.take(i + 1).drop_last() =~= all.take(i as int));
                assert(all.take(i + 1).last() == self.encoders@[i as int]@);
            }
            let ghost before = codec_views(out@);
            if self.encoders[i].kind == kind {
                let e = CodecEntry {
                    name: self.encoders[i].name.clone(),
                    kind: self.encoders[i].kind,
                    description: self.encoders[i].description.clone(),
                };
                out.push(e);
                assert(codec_views(out@) =~= before.push(self.encoders@[i as int]@));
            }
            assert(codec_views(out@) =~= of_kind(all.take(i + 1), kind));
            i = i + 1;
        }
        assert(all.take(self.encoders.len() as int) =~= all);
        out
    }
}

/// The capability set ffmpeg's listings describe, under the version of `tools`.
pub fn discover(tools: &Tools, listings: &ToolListings) -> (r: Capabilities)
    ensures
        r.version@ == tools.version@,
        codec_views(r.encoders@) == codec_listing(lines(listings.encoders@)),
        codec_views(r.decoders@) == codec_listing(lines(listings.decoders@)),
        filter_views(r.filters@) == filter_entries(lines(listings.filters@)),
        strings_view(r.muxers@) == format_names(lines(listings.muxers@)),
        strings_view(r.demuxers@) == format_names(lines(listings.demuxers@)),
        strings_view(r.pix_fmts@) == pix_fmt_names(lines(listings.pix_fmts@), false),
        (strings_view(r.protocols_input@), strings_view(r.protocols_output@)) == protocol_lists(
            lines(listings.protocols@),
            0,
        ),
{
    let encoders = parse_codecs(listings.encoders.as_str());
    let decoders = parse_codecs(listings.decoders.as_str());
    let filters = parse_filters(listings.filters.as_str());
    let (muxers, _) = parse_format_list(listings.muxers.as_str(), 69u8);
    let (demuxers, _) = parse_format_list(listings.demuxers.as_str(), 68u8);
    let pix_fmts = parse_pix_fmts(listings.pix_fmts.as_str());
    let (protocols_input, protocols_output) = parse_protocols(listings.protocols.as_str());
    Capabilities {
        version: tools.version.clone(),
        encoders,
        decoders,
        filters,
        muxers,
        demuxers,
        pix_fmts,
        protocols_input,
        protocols_output,
    }
}

} // verus!
