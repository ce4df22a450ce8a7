use vstd::prelude::*;

use crate::numbers::{
    decimal, format_decimal, lemma_digits_of_value, lemma_leading_zeros, parse_unsigned, parse_unsigned_exec,
    zero_pad, zero_pad_exec, zeros,
};
use crate::text::{
    as_int, chars_eq, chars_of, contains_exec, ends_with, ends_with_exec, has_substring, is_whitespace,
    lemma_find, lemma_newline_index, lemma_trim_noop, lemma_trim_start_skip, lemma_trim_strip_cr,
    no_newlines, strip_cr, strip_end_char, strip_start_char, trim_end, trim_start,
    occurs_at, push_all, rfind, rfind_exec, copy_range, find, find_exec, lines, split_lines, starts_with, starts_with_exec,
    string_of, strip_char, strip_char_exec, trim, trimmed, views_of,
};

verus! {

broadcast use vstd::string::group_string_axioms;

/// The views of a list of string pairs.
pub open spec fn pair_views(v: Seq<(String, String)>) -> Seq<(Seq<char>, Seq<char>)> {
    v.map_values(|p: (String, String)| (p.0@, p.1@))
}

/// The views of a list of character-vector pairs.
pub open spec fn char_pair_views(v: Seq<(Vec<char>, Vec<char>)>) -> Seq<(Seq<char>, Seq<char>)> {
    v.map_values(|p: (Vec<char>, Vec<char>)| (p.0@, p.1@))
}

/// The entry that a trimmed line `name => "path"` of the asset table registers: the text
/// before the first `=>`, trimmed, and the text after it, trimmed and unquoted.
pub open spec fn table_entry(t: Seq<char>) -> Option<(Seq<char>, Seq<char>)> {
    match find(t, "=>"@) {
        Some(k) => Some((trim(t.take(k)), strip_char(trim(t.skip(k + 2)), '"'))),
        None => None,
    }
}

/// The asset-table entries found in `ls`. The table starts after a line that begins
/// with `include_file!` and ends at the first line that is `}` once trimmed.
pub open spec fn include_entries(ls: Seq<Seq<char>>, in_block: bool) -> Seq<(Seq<char>, Seq<char>)>
    decreases ls.len(),
{
    if ls.len() == 0 {
        seq![]
    } else {
        let t = trim(ls[0]);
        let rest = ls.drop_first();
        if starts_with(t, "include_file!"@) {
            include_entries(rest, true)
        } else if in_block {
            if t == "}"@ {
                seq![]
            } else {
                match table_entry(t) {
                    Some(e) => seq![e] + include_entries(rest, true),
                    None => include_entries(rest, true),
                }
            }
        } else {
            include_entries(rest, false)
        }
    }
}

/// The asset-table entries of a source text.
pub open spec fn include_file_entries(content: Seq<char>) -> Seq<(Seq<char>, Seq<char>)> {
    include_entries(lines(content), false)
}

fn table_entry_exec(t: &[char], arrow: &[char]) -> (r: Option<(Vec<char>, Vec<char>)>)
    requires
        arrow@ == "=>"@,
    ensures
        match r {
            Some(p) => table_entry(t@) == Some((p.0@, p.1@)),
            None => table_entry(t@) is None,
        },
{
    proof {
        reveal_strlit("=>");
        assert(arrow@.len() == 2);
    }
    match find_exec(t, arrow) {
        Some(k) => {
            let n = t.len();
            assert(occurs_at(t@, arrow@, k as int));
            let name_part = copy_range(t, 0, k);
            let path_part = copy_range(t, k + 2, n);
            assert(name_part@ =~= t@.take(k as int));
            assert(path_part@ =~= t@.skip(k + 2));
            let name = trimmed(name_part.as_slice());
            let path_trimmed = trimmed(path_part.as_slice());
            let path = strip_char_exec(path_trimmed.as_slice(), '"');
            Some((name, path))
        },
        None => None,
    }
}

/// The `(constant, path)` entries of the asset table (`include_file! { .. }`) in a source
/// text, in order.
pub fn parse_include_file_entries(content: &str) -> (r: Vec<(String, String)>)
    ensures
        pair_views(r@) == include_file_entries(content@),
{
    let chars = chars_of(content);
    let ls = split_lines(chars.as_slice());
    let marker = chars_of("include_file!");
    let close = chars_of("}");
    let arrow = chars_of("=>");
    let mut out: Vec<(String, String)> = Vec::new();
    let mut in_block = false;
    let mut i: usize = 0;
    assert(ls@.skip(0) =~= ls@);
    assert(views_of(ls@).skip(0) =~= views_of(ls@));
    while i < ls.len()
        invariant
            i <= ls@.len(),
            marker@ == "include_file!"@,
            close@ == "}"@,
            arrow@ == "=>"@,
            views_of(ls@) == lines(content@),
            include_file_entries(content@) == pair_views(out@) + include_entries(views_of(ls@).skip(i as int), in_block),
        decreases ls.len() - i,
    {
        let ghost rest = views_of(ls@).skip(i as int);
        assert(rest[0] == ls@[i as int]@);
        assert(rest.drop_first() =~= views_of(ls@).skip(i + 1));
        let t = trimmed(ls[i].as_slice());
        if starts_with_exec(t.as_slice(), marker.as_slice()) {
            in_block = true;
        } else if in_block {
            if chars_eq(t.as_slice(), close.as_slice()) {
                assert(include_entries(rest, in_block) =~= Seq::<(Seq<char>, Seq<char>)>::empty());
                assert(pair_views(out@) + Seq::<(Seq<char>, Seq<char>)>::empty() =~= pair_views(out@));
                return out;
            }
            match table_entry_exec(t.as_slice(), arrow.as_slice()) {
                Some((name, path)) => {
                    let ghost before = pair_views(out@);
                    out.push((string_of(name.as_slice()), string_of(path.as_slice())));
                    assert(pair_views(out@) =~= before.push((name@, path@)));
                    assert(before + (seq![(name@, path@)] + include_entries(views_of(ls@).skip(i + 1), true))
                        =~= before.push((name@, path@)) + include_entries(views_of(ls@).skip(i + 1), true));
                },
                None => {},
            }
        }
        i += 1;
    }
    assert(views_of(ls@).skip(i as int) =~= Seq::<Seq<char>>::empty());
    assert(pair_views(out@) + Seq::<(Seq<char>, Seq<char>)>::empty() =~= pair_views(out@));
    out
}

} // verus!

verus! {

// ---------------------------------------------------------------------------
// Registering a new overlay in the asset table
// ---------------------------------------------------------------------------

/// The asset-table line that registers `filename` from the overlay directory under
/// `const_name`.
pub open spec fn overlay_entry_line(const_name: Seq<char>, filename: Seq<char>) -> Seq<char> {
    "    "@ + const_name + " => \""@ + overlay_rel_path(filename) + "\""@
}

/// The path of an overlay file, relative to the source directory.
pub open spec fn overlay_rel_path(filename: Seq<char>) -> Seq<char> {
    "../assets/overlays/"@ + filename
}

/// The index of the line that closes the asset table: the first line that is `}` once
/// trimmed and comes at or after a line beginning with `include_file!` (or anywhere, when
/// the table is already open).
pub open spec fn table_end(ls: Seq<Seq<char>>, in_block: bool) -> Option<int>
    decreases ls.len(),
{
    if ls.len() == 0 {
        None
    } else {
        let t = trim(ls[0]);
        let ib = in_block || starts_with(t, "include_file!"@);
        if ib && t == "}"@ {
            Some(0)
        } else {
            match table_end(ls.drop_first(), ib) {
                Some(k) => Some(k + 1),
                None => None,
            }
        }
    }
}

/// The text made of the lines `ls`, each followed by a newline.
pub open spec fn join_lines(ls: Seq<Seq<char>>) -> Seq<char>
    decreases ls.len(),
{
    if ls.len() == 0 {
        seq![]
    } else {
        join_lines(ls.drop_last()) + ls.last().push('\n')
    }
}

/// The source text with `entry` inserted as a line before the end of the asset table,
/// or `None` when the text has no asset table end.
pub open spec fn with_table_entry(content: Seq<char>, entry: Seq<char>) -> Option<Seq<char>> {
    let ls = lines(content);
    match table_end(ls, false) {
        Some(p) => Some(join_lines(ls.take(p) + seq![entry] + ls.skip(p))),
        None => None,
    }
}

/// Why a source text could not be edited.
#[derive(Debug, Clone, Copy, PartialEq, Eq, Structural)]
pub enum SourceEditError {
    /// The asset table has no closing brace.
    MissingTableEnd,
    /// The easter-egg table has no closing `    })`.
    MissingEggTableEnd,
}

/// The text made of the lines `ls`, each followed by a newline.
pub fn join_lines_exec(ls: &Vec<Vec<char>>) -> (r: Vec<char>)
    ensures
        r@ == join_lines(views_of(ls@)),
{
    let mut out: Vec<char> = Vec::new();
    let mut i: usize = 0;
    while i < ls.len()
        invariant
            i <= ls@.len(),
            out@ == join_lines(views_of(ls@).take(i as int)),
        decreases ls.len() - i,
    {
        assert(views_of(ls@).take(i + 1).drop_last() =~= views_of(ls@).take(i as int));
        push_all(&mut out, ls[i].as_slice());
        out.push('\n');
        i += 1;
    }
    assert(views_of(ls@).take(ls@.len() as int) =~= views_of(ls@));
    out
}

/// The position of the line closing the asset table.
fn table_end_exec(ls: &Vec<Vec<char>>) -> (r: Option<usize>)
    ensures
        as_int(r) == table_end(views_of(ls@), false),
        r matches Some(p) ==> p < ls@.len(),
{
    let marker = chars_of("include_file!");
    let close = chars_of("}");
    let mut in_block = false;
    let mut i: usize = 0;
    assert(views_of(ls@).skip(0) =~= views_of(ls@));
    while i < ls.len()
        invariant
            i <= ls@.len(),
            marker@ == "include_file!"@,
            close@ == "}"@,
            table_end(views_of(ls@), false) == (match table_end(views_of(ls@).skip(i as int), in_block) {
                Some(k) => Some(k + i),
                None => None,
            }),
        decreases ls.len() - i,
    {
        let t = trimmed(ls[i].as_slice());
        assert(views_of(ls@)[i as int] == ls@[i as int]@);
        assert(views_of(ls@).skip(i as int)[0] == ls@[i as int]@);
        assert(views_of(ls@).skip(i as int).drop_first() =~= views_of(ls@).skip(i + 1));
        if starts_with_exec(t.as_slice(), marker.as_slice()) {
            in_block = true;
        }
        if in_block && chars_eq(t.as_slice(), close.as_slice()) {
            return Some(i);
        }
        i += 1;
    }
    None
}

/// `content` with `entry` inserted as a line before the line closing the asset table; the
/// lines of the result each end with a newline.
pub fn insert_table_entry(content: &[char], entry: &[char]) -> (r: Result<Vec<char>, SourceEditError>)
    ensures
        match r {
            Ok(v) => with_table_entry(content@, entry@) == Some(v@),
            Err(e) => e == SourceEditError::MissingTableEnd && with_table_entry(content@, entry@) is None,
        },
{
    let ls = split_lines(content);
    match table_end_exec(&ls) {
        None => Err(SourceEditError::MissingTableEnd),
        Some(p) => {
            let ghost vs = views_of(ls@);
            let mut out_lines: Vec<Vec<char>> = Vec::new();
            let mut i: usize = 0;
            while i < p
                invariant
                    i <= p <= ls@.len(),
                    vs == views_of(ls@),
                    views_of(out_lines@) == vs.take(i as int),
                decreases p - i,
            {
                let line = copy_range(ls[i].as_slice(), 0, ls[i].len());
                assert(line@ =~= ls@[i as int]@);
                assert(vs[i as int] == line@);
                assert(views_of(out_lines@.push(line)) =~= views_of(out_lines@).push(line@));
                assert(vs.take(i + 1) =~= vs.take(i as int).push(line@));
                out_lines.push(line);
                i += 1;
            }
            let e = copy_range(entry, 0, entry.len());
            assert(e@ =~= entry@);
            assert(views_of(out_lines@.push(e)) =~= vs.take(p as int) + seq![entry@]);
            out_lines.push(e);
            while i < ls.len()
                invariant
                    p <= i <= ls@.len(),
                    vs == views_of(ls@),
                    views_of(out_lines@) == vs.take(p as int) + seq![entry@] + vs.subrange(p as int, i as int),
                decreases ls.len() - i,
            {
                let line = copy_range(ls[i].as_slice(), 0, ls[i].len());
                assert(line@ =~= ls@[i as int]@);
                assert(vs[i as int] == line@);
                assert(views_of(out_lines@.push(line)) =~= views_of(out_lines@).push(line@));
                assert(vs.take(p as int) + seq![entry@] + vs.subrange(p as int, i + 1) =~= (vs.take(p as int) + seq![entry@] + vs.subrange(p as int, i as int)).push(line@));
                out_lines.push(line);
                i += 1;
            }
            assert(vs.subrange(p as int, ls@.len() as int) =~= vs.skip(p as int));
            Ok(join_lines_exec(&out_lines))
        },
    }
}

/// The asset table of `content` with the overlay `filename` registered under
/// `const_name`: the line `    CONST => "../assets/overlays/FILE"` goes before the line
/// closing the table. Fails when the table has no closing brace.
pub fn register_overlay_in_segments_rs(content: &str, const_name: &str, filename: &str) -> (r: Result<String, SourceEditError>)
    ensures
        match r {
            Ok(s) => with_table_entry(content@, overlay_entry_line(const_name@, filename@)) == Some(s@),
            Err(e) => e == SourceEditError::MissingTableEnd && with_table_entry(content@, overlay_entry_line(const_name@, filename@)) is None,
        },
{
    let mut entry = chars_of("    ");
    push_all(&mut entry, chars_of(const_name).as_slice());
    push_all(&mut entry, chars_of(" => \"").as_slice());
    push_all(&mut entry, chars_of("../assets/overlays/").as_slice());
    push_all(&mut entry, chars_of(filename).as_slice());
    push_all(&mut entry, chars_of("\"").as_slice());
    assert(entry@ =~= overlay_entry_line(const_name@, filename@));
    let content_chars = chars_of(content);
    match insert_table_entry(content_chars.as_slice(), entry.as_slice()) {
        Ok(v) => Ok(string_of(v.as_slice())),
        Err(e) => Err(e),
    }
}

} // verus!

verus! {

// ---------------------------------------------------------------------------
// Constant names derived from file names
// ---------------------------------------------------------------------------

/// What `str::to_uppercase` gives for `s`.
pub uninterp spec fn upper_case(s: Seq<char>) -> Seq<char>;

/// A character in the ASCII range.
pub open spec fn is_ascii_char(c: char) -> bool {
    (c as u32) < 128
}

/// Every character of `s` is ASCII.
pub open spec fn all_ascii(s: Seq<char>) -> bool {
    forall|i: int| 0 <= i < s.len() ==> is_ascii_char(#[trigger] s[i])
}

/// The ASCII upper case of `c`: `a`..=`z` become `A`..=`Z`, any other character stays.
pub open spec fn ascii_upper(c: char) -> char {
    if 'a' <= c <= 'z' {
        ((c as u32) - 32) as char
    } else {
        c
    }
}

/// `s` with its ASCII letters upper-cased.
pub open spec fn ascii_upper_case(s: Seq<char>) -> Seq<char> {
    s.map_values(|c: char| ascii_upper(c))
}

/// A bare file name: not empty, not `.` or `..`, and without `/`, `\\` or `:`, which some
/// platform reads as a separator or a drive prefix.
pub open spec fn plain_file_name(s: Seq<char>) -> bool {
    s.len() > 0 && !s.contains('/') && !s.contains('\\') && !s.contains(':') && s != "."@ && s != ".."@
}

/// The stem of a bare file name, as `Path::file_stem` documents it: the whole name when
/// it has no `.` other than a leading one, otherwise the part before the last `.`.
pub open spec fn stem_of_file_name(f: Seq<char>) -> Seq<char> {
    match rfind(f, seq!['.']) {
        Some(k) => if k > 0 { f.take(k) } else { f },
        None => f,
    }
}

/// A path in which only `/` separates components on every platform: it holds no `\\`
/// and no `:` (a Windows drive or stream) and does not start with `//` (a Windows
/// network share).
pub open spec fn slash_path(p: Seq<char>) -> bool {
    !p.contains('\\') && !p.contains(':') && !starts_with(p, "//"@)
}

/// The file name of a `/`-separated path as `Path::file_name` reads it: the last
/// component, where empty components and `.` are skipped; none when that component is
/// `..`, or when there is no component (an empty path, `.`, or the root).
pub open spec fn slash_file_name(p: Seq<char>) -> Option<Seq<char>>
    decreases p.len(),
{
    match rfind(p, seq!['/']) {
        None => if p.len() == 0 || p == "."@ || p == ".."@ {
            None
        } else {
            Some(p)
        },
        Some(k) => {
            let seg = p.skip(k + 1);
            if seg == ".."@ {
                None
            } else if seg.len() == 0 || seg == "."@ {
                proof {
                    crate::text::lemma_rfind_before(p, seq!['/'], p.len() + 1int);
                }
                slash_file_name(p.take(k))
            } else {
                Some(seg)
            }
        },
    }
}

/// A `/`-separated path that has a file name, and so a file stem.
pub open spec fn has_slash_stem(p: Seq<char>) -> bool {
    slash_path(p) && slash_file_name(p) is Some
}

/// The file stem of a `/`-separated path that has a file name.
pub open spec fn path_stem(p: Seq<char>) -> Seq<char> {
    stem_of_file_name(slash_file_name(p)->0)
}

/// The file name of a path is a bare file name made of characters of the path.
proof fn lemma_slash_file_name(p: Seq<char>)
    ensures
        slash_file_name(p) matches Some(f) ==> {
            &&& f.len() > 0
            &&& !f.contains('/')
            &&& f != "."@
            &&& f != ".."@
            &&& forall|i: int| 0 <= i < f.len() ==> p.contains(#[trigger] f[i])
        },
    decreases p.len(),
{
    crate::text::lemma_rfind_before(p, seq!['/'], p.len() + 1int);
    match rfind(p, seq!['/']) {
        None => {
            assert forall|j: int| 0 <= j < p.len() implies p[j] != '/' by {
                if p[j] == '/' {
                    assert(p.subrange(j, j + 1) =~= seq!['/']);
                    assert(occurs_at(p, seq!['/'], j));
                }
            }
            assert forall|i: int| 0 <= i < p.len() implies p.contains(#[trigger] p[i]) by {}
        },
        Some(k) => {
            let seg = p.skip(k + 1);
            if seg == ".."@ {
            } else if seg.len() == 0 || seg == "."@ {
                lemma_slash_file_name(p.take(k));
                if let Some(f) = slash_file_name(p.take(k)) {
                    assert forall|i: int| 0 <= i < f.len() implies p.contains(#[trigger] f[i]) by {
                        let j = choose|j: int| 0 <= j < p.take(k).len() && p.take(k)[j] == f[i];
                        assert(p[j] == f[i]);
                    }
                }
            } else {
                assert forall|j: int| 0 <= j < seg.len() implies seg[j] != '/' by {
                    if seg[j] == '/' {
                        assert(p.subrange(k + 1 + j, k + 2 + j) =~= seq!['/']);
                        assert(occurs_at(p, seq!['/'], k + 1 + j));
                    }
                }
                assert forall|i: int| 0 <= i < seg.len() implies p.contains(#[trigger] seg[i]) by {
                    assert(p[k + 1 + i] == seg[i]);
                }
            }
        },
    }
}

/// A bare file name is its own file name.
proof fn lemma_plain_slash(p: Seq<char>)
    requires
        plain_file_name(p),
    ensures
        has_slash_stem(p),
        slash_file_name(p) == Some(p),
        path_stem(p) == stem_of_file_name(p),
{
    reveal_strlit("//");
    crate::text::lemma_rfind_before(p, seq!['/'], p.len() + 1int);
    if rfind(p, seq!['/']) is Some {
        let k = rfind(p, seq!['/'])->0;
        assert(p.subrange(k, k + 1)[0] == p[k]);
        assert(p.contains(p[k]));
    }
    if starts_with(p, "//"@) {
        assert(p.subrange(0, 2)[0] == p[0]);
        assert(p.contains(p[0]));
    }
}

/// The file name of a `/`-separated path is a bare file name; for an ASCII path it is
/// ASCII.
proof fn lemma_slash_file_name_plain(p: Seq<char>)
    requires
        has_slash_stem(p),
    ensures
        plain_file_name(slash_file_name(p)->0),
        all_ascii(p) ==> all_ascii(slash_file_name(p)->0),
{
    lemma_slash_file_name(p);
    let f = slash_file_name(p)->0;
    if f.contains('\\') {
        let i = choose|i: int| 0 <= i < f.len() && f[i] == '\\';
        assert(p.contains(f[i]));
    }
    if f.contains(':') {
        let i = choose|i: int| 0 <= i < f.len() && f[i] == ':';
        assert(p.contains(f[i]));
    }
    if all_ascii(p) {
        assert forall|i: int| 0 <= i < f.len() implies is_ascii_char(#[trigger] f[i]) by {
            assert(p.contains(f[i]));
            let j = choose|j: int| 0 <= j < p.len() && p[j] == f[i];
            assert(is_ascii_char(p[j]));
        }
    }
}

/// `Path::new(name).file_stem()`, read back with `to_string_lossy`: the documented stem
/// of the file name (`None` when there is no file name). On a path in which only `/`
/// separates components, every platform reads the file name as `slash_file_name`. For
/// other paths which characters separate components depends on the platform, so nothing
/// is said of them.
#[verifier::external_body]
fn file_stem(name: &str) -> (r: Option<String>)
    ensures
        slash_path(name@) ==> (r is Some <==> slash_file_name(name@) is Some),
        r matches Some(s) ==> (slash_path(name@) ==> s@ == path_stem(name@)),
{
    std::path::Path::new(name).file_stem().map(|s| s.to_string_lossy().into_owned())
}

/// `str::to_uppercase`. Unicode case mapping is left to the name `upper_case`; on ASCII
/// text it upper-cases the ASCII letters and keeps every other character, as the
/// documentation of `char::to_uppercase` gives it.
#[verifier::external_body]
pub(crate) fn to_uppercase(s: &str) -> (r: String)
    ensures
        r@ == upper_case(s@),
        all_ascii(s@) ==> r@ == ascii_upper_case(s@),
{
    s.to_uppercase()
}

/// `s` with each `-`, `.` and space replaced by `_`.
pub open spec fn underscore_separators(s: Seq<char>) -> Seq<char> {
    s.map_values(|c: char| if c == '-' || c == '.' || c == ' ' { '_' } else { c })
}

fn underscore_separators_exec(s: &[char]) -> (r: Vec<char>)
    ensures
        r@ == underscore_separators(s@),
{
    let mut out: Vec<char> = Vec::new();
    let mut i: usize = 0;
    while i < s.len()
        invariant
            i <= s@.len(),
            out@ == underscore_separators(s@.take(i as int)),
        decreases s.len() - i,
    {
        let c = s[i];
        let d = if c == '-' || c == '.' || c == ' ' { '_' } else { c };
        assert(underscore_separators(s@.take(i + 1)) =~= underscore_separators(s@.take(i as int)).push(d));
        out.push(d);
        i += 1;
    }
    assert(s@.take(s@.len() as int) =~= s@);
    out
}

/// The constant stem of a clip path: its file stem, upper-cased, with `-`, `.` and spaces
/// turned into `_`.
pub open spec fn spec_const_stem(clip_name: Seq<char>) -> Seq<char> {
    underscore_separators(upper_case(path_stem(clip_name)))
}

/// The constant stem of an ASCII clip path, written out.
pub open spec fn spec_ascii_const_stem(clip_name: Seq<char>) -> Seq<char> {
    underscore_separators(ascii_upper_case(path_stem(clip_name)))
}

/// The constant stem made from the file stem `stem`.
fn stem_to_const(stem: &str) -> (r: String)
    ensures
        r@ == underscore_separators(upper_case(stem@)),
        all_ascii(stem@) ==> r@ == underscore_separators(ascii_upper_case(stem@)),
{
    let upper = to_uppercase(stem);
    let chars = chars_of(upper.as_str());
    string_of(underscore_separators_exec(chars.as_slice()).as_slice())
}

proof fn lemma_stem_ascii(f: Seq<char>)
    requires
        all_ascii(f),
    ensures
        all_ascii(stem_of_file_name(f)),
{
    let t = stem_of_file_name(f);
    lemma_stem_prefix(f);
    assert forall|i: int| 0 <= i < t.len() implies is_ascii_char(#[trigger] t[i]) by {
        assert(t[i] == f[i]);
    }
}

/// The constant stem of the clip path `clip_name` (e.g. `"01.mp3"` and `"base/01.mp3"`
/// give `"01"`), for a `/`-separated path with a file name; `try_const_stem` takes any
/// path.
pub fn const_stem(clip_name: &str) -> (r: String)
    requires
        has_slash_stem(clip_name@),
    ensures
        r@ == spec_const_stem(clip_name@),
        all_ascii(clip_name@) ==> r@ == spec_ascii_const_stem(clip_name@),
{
    proof {
        lemma_slash_file_name_plain(clip_name@);
        if all_ascii(clip_name@) {
            lemma_stem_ascii(slash_file_name(clip_name@)->0);
        }
    }
    let stem = file_stem(clip_name).unwrap();
    stem_to_const(stem.as_str())
}

/// The constant stem of `clip_name`, or `None` when the path has no file stem. For a
/// `/`-separated path it is that of `const_stem`; for another path it is made from the
/// stem that the platform's `Path::file_stem` gives.
pub fn try_const_stem(clip_name: &str) -> (r: Option<String>)
    ensures
        slash_path(clip_name@) ==> (r is Some <==> slash_file_name(clip_name@) is Some),
        r matches Some(s) ==> (slash_path(clip_name@) ==> s@ == spec_const_stem(clip_name@)),
{
    match file_stem(clip_name) {
        Some(stem) => Some(stem_to_const(stem.as_str())),
        None => None,
    }
}

/// The constant under which a downloaded overlay file is registered: its constant stem
/// followed by `_SPR`.
pub fn overlay_const_name(filename: &str) -> (r: String)
    requires
        has_slash_stem(filename@),
    ensures
        r@ == spec_const_stem(filename@) + "_SPR"@,
{
    let mut out = chars_of(const_stem(filename).as_str());
    push_all(&mut out, chars_of("_SPR").as_slice());
    string_of(out.as_slice())
}

/// The registration constant of `filename`, made with the file stem that the platform
/// gives (`None` when it has none); for a `/`-separated path it is `overlay_const_name`'s.
pub fn try_overlay_const_name(filename: &str) -> (r: Option<String>)
    ensures
        slash_path(filename@) ==> (r is Some <==> slash_file_name(filename@) is Some),
        r matches Some(s) ==> (slash_path(filename@) ==> s@ == spec_const_stem(filename@) + "_SPR"@),
{
    match try_const_stem(filename) {
        Some(stem) => {
            let mut out = chars_of(stem.as_str());
            push_all(&mut out, chars_of("_SPR").as_slice());
            Some(string_of(out.as_slice()))
        },
        None => None,
    }
}

/// The constant suggested for an overlay file that is not registered yet: its file stem,
/// upper-cased, followed by `_SPR` (separators are kept).
pub open spec fn spec_suggested_overlay_const(fname: Seq<char>) -> Seq<char> {
    upper_case(path_stem(fname)) + "_SPR"@
}

fn suggested_from_stem(stem: &str) -> (r: String)
    ensures
        r@ == upper_case(stem@) + "_SPR"@,
{
    let mut out = chars_of(to_uppercase(stem).as_str());
    push_all(&mut out, chars_of("_SPR").as_slice());
    string_of(out.as_slice())
}

/// The constant suggested for the overlay file `fname`, a `/`-separated path with a file
/// name.
pub fn suggested_overlay_const(fname: &str) -> (r: String)
    requires
        has_slash_stem(fname@),
    ensures
        r@ == spec_suggested_overlay_const(fname@),
{
    let stem = file_stem(fname).unwrap();
    suggested_from_stem(stem.as_str())
}

/// The suggested constant of `fname`, made with the file stem that the platform gives
/// (`None` when it has none); for a `/`-separated path it is `suggested_overlay_const`'s.
pub fn try_suggested_overlay_const(fname: &str) -> (r: Option<String>)
    ensures
        slash_path(fname@) ==> (r is Some <==> slash_file_name(fname@) is Some),
        r matches Some(s) ==> (slash_path(fname@) ==> s@ == spec_suggested_overlay_const(fname@)),
{
    match file_stem(fname) {
        Some(stem) => Some(suggested_from_stem(stem.as_str())),
        None => None,
    }
}

proof fn lemma_stem_prefix(f: Seq<char>)
    ensures
        stem_of_file_name(f).len() <= f.len(),
        f.len() > 0 ==> stem_of_file_name(f).len() > 0,
        forall|i: int| 0 <= i < stem_of_file_name(f).len() ==> #[trigger] stem_of_file_name(f)[i] == f[i],
{
    crate::text::lemma_rfind_before(f, seq!['.'], f.len() + 1 as int);
}

proof fn lemma_no_dot_stem(s: Seq<char>)
    requires
        !s.contains('.'),
    ensures
        stem_of_file_name(s) == s,
{
    crate::text::lemma_rfind_before(s, seq!['.'], s.len() + 1 as int);
    if rfind(s, seq!['.']) is Some {
        let k = rfind(s, seq!['.'])->0;
        assert(s.subrange(k, k + 1)[0] == s[k]);
        assert(s.contains(s[k]));
    }
}

/// The constant stem of a bare ASCII file name is a bare ASCII file name without `.`
/// that upper-casing and separator replacement leave as it is.
proof fn lemma_file_const_stem(f: Seq<char>)
    requires
        plain_file_name(f),
        all_ascii(f),
    ensures
        plain_file_name(underscore_separators(ascii_upper_case(stem_of_file_name(f)))),
        all_ascii(underscore_separators(ascii_upper_case(stem_of_file_name(f)))),
        ({
            let s = underscore_separators(ascii_upper_case(stem_of_file_name(f)));
            stem_of_file_name(s) == s && underscore_separators(ascii_upper_case(s)) == s
        }),
{
    let t = stem_of_file_name(f);
    let s = underscore_separators(ascii_upper_case(t));
    lemma_stem_prefix(f);
    assert(s.len() == t.len());
    assert forall|i: int| 0 <= i < s.len() implies {
        &&& #[trigger] s[i] != '.'
        &&& s[i] != '/'
        &&& s[i] != '\\'
        &&& s[i] != ':'
        &&& !('a' <= s[i] && s[i] <= 'z')
        &&& s[i] != '-'
        &&& s[i] != ' '
        &&& is_ascii_char(s[i])
    } by {
        let c = t[i];
        assert(c == f[i]);
        assert(f.contains(c));
        assert(is_ascii_char(f[i]));
        let a = ascii_upper(c);
        if 'a' <= c && c <= 'z' {
            assert((a as u32) == (c as u32) - 32);
        }
        assert(s[i] == (if a == '-' || a == '.' || a == ' ' { '_' } else { a }));
    }
    assert(!s.contains('/'));
    assert(!s.contains('\\'));
    assert(!s.contains(':'));
    assert(!s.contains('.'));
    if s == "."@ || s == ".."@ {
        reveal_strlit(".");
        reveal_strlit("..");
        assert(s[0] == '.');
    }
    lemma_no_dot_stem(s);
    assert(underscore_separators(ascii_upper_case(s)) =~= s);
}

/// A clip constant stem is its own constant stem: for an ASCII `/`-separated path with a
/// file name, the constant stem is again such a path (a bare file name), and turning it
/// into a constant stem changes nothing.
pub proof fn lemma_const_stem_idempotent(clip_name: Seq<char>)
    requires
        has_slash_stem(clip_name),
        all_ascii(clip_name),
    ensures
        has_slash_stem(spec_ascii_const_stem(clip_name)),
        plain_file_name(spec_ascii_const_stem(clip_name)),
        all_ascii(spec_ascii_const_stem(clip_name)),
        spec_ascii_const_stem(spec_ascii_const_stem(clip_name)) == spec_ascii_const_stem(clip_name),
{
    lemma_slash_file_name_plain(clip_name);
    let f = slash_file_name(clip_name)->0;
    lemma_file_const_stem(f);
    let s = spec_ascii_const_stem(clip_name);
    lemma_plain_slash(s);
}

// ---------------------------------------------------------------------------
// Overlay files
// ---------------------------------------------------------------------------

/// The text after the last `/` of `s` (all of `s` when it has none).
pub open spec fn after_last_slash(s: Seq<char>) -> Seq<char> {
    match rfind(s, seq!['/']) {
        Some(k) => s.skip(k + 1),
        None => s,
    }
}

/// The text before the first `?` of `s` (all of `s` when it has none).
pub open spec fn before_first_question_mark(s: Seq<char>) -> Seq<char> {
    match find(s, seq!['?']) {
        Some(k) => s.take(k),
        None => s,
    }
}

/// The file name proposed for an overlay downloaded from `url`: the last path segment
/// without its query, when that holds a `.`, else `overlay.jpg`.
pub open spec fn spec_default_overlay_filename(url: Seq<char>) -> Seq<char> {
    let base = before_first_question_mark(after_last_slash(url));
    if base.contains('.') {
        base
    } else {
        "overlay.jpg"@
    }
}

/// The file name proposed for an overlay downloaded from `url`.
pub fn default_overlay_filename(url: &str) -> (r: String)
    ensures
        r@ == spec_default_overlay_filename(url@),
{
    let u = chars_of(url);
    let slash = vec!['/'];
    let question = vec!['?'];
    let dot = vec!['.'];
    let last = match rfind_exec(u.as_slice(), slash.as_slice()) {
        Some(k) => {
            let n = u.len();
            copy_range(u.as_slice(), k + 1, n)
        },
        None => u,
    };
    assert(slash@ =~= seq!['/']);
    assert(last@ =~= after_last_slash(url@));
    let base = match find_exec(last.as_slice(), question.as_slice()) {
        Some(k) => copy_range(last.as_slice(), 0, k),
        None => last,
    };
    assert(question@ =~= seq!['?']);
    assert(base@ =~= before_first_question_mark(after_last_slash(url@)));
    let has_dot = contains_exec(base.as_slice(), dot.as_slice());
    proof {
        assert(dot@ =~= seq!['.']);
        lemma_find(base@, seq!['.']);
        if base@.contains('.') {
            let j = choose|j: int| 0 <= j < base@.len() && base@[j] == '.';
            assert(base@.subrange(j, j + 1) =~= seq!['.']);
            assert(occurs_at(base@, seq!['.'], j));
        }
        if has_dot {
            let k = find(base@, seq!['.'])->0;
            assert(occurs_at(base@, seq!['.'], k));
            assert(base@.subrange(k, k + 1)[0] == base@[k]);
            assert(base@.contains('.'));
        }
    }
    if has_dot {
        string_of(base.as_slice())
    } else {
        String::from_str("overlay.jpg")
    }
}

/// Whether an overlay file is shown as an animation (`.gif` or `.webp`).
pub open spec fn spec_is_animated_file(name: Seq<char>) -> bool {
    ends_with(name, ".gif"@) || ends_with(name, ".webp"@)
}

pub fn is_animated_file(name: &str) -> (r: bool)
    ensures
        r == spec_is_animated_file(name@),
{
    let n = chars_of(name);
    ends_with_exec(n.as_slice(), chars_of(".gif").as_slice()) || ends_with_exec(n.as_slice(), chars_of(".webp").as_slice())
}

/// The constant that the asset table registers for `path`: the name of its first entry
/// with that path.
pub open spec fn registered_name(entries: Seq<(Seq<char>, Seq<char>)>, path: Seq<char>) -> Option<Seq<char>>
    decreases entries.len(),
{
    if entries.len() == 0 {
        None
    } else if entries[0].1 == path {
        Some(entries[0].0)
    } else {
        registered_name(entries.drop_first(), path)
    }
}

/// The constant registered for the overlay file `fname`, if any.
pub fn registered_overlay_const(registered: &Vec<(String, String)>, fname: &str) -> (r: Option<String>)
    ensures
        match r {
            Some(s) => registered_name(pair_views(registered@), overlay_rel_path(fname@)) == Some(s@),
            None => registered_name(pair_views(registered@), overlay_rel_path(fname@)) is None,
        },
{
    let mut rel = chars_of("../assets/overlays/");
    push_all(&mut rel, chars_of(fname).as_slice());
    let ghost views = pair_views(registered@);
    let mut i: usize = 0;
    assert(views.skip(0) =~= views);
    while i < registered.len()
        invariant
            i <= registered@.len(),
            views == pair_views(registered@),
            rel@ == overlay_rel_path(fname@),
            registered_name(views, rel@) == registered_name(views.skip(i as int), rel@),
        decreases registered.len() - i,
    {
        assert(views.skip(i as int).drop_first() =~= views.skip(i + 1));
        assert(views.skip(i as int)[0] == (registered@[i as int].0@, registered@[i as int].1@));
        let path = chars_of(registered[i].1.as_str());
        if chars_eq(path.as_slice(), rel.as_slice()) {
            return Some(registered[i].0.clone());
        }
        i += 1;
    }
    None
}

/// The entries whose path satisfies `audio` (ends with `.mp3`) or not (holds
/// `overlays/`).
pub open spec fn entries_where(entries: Seq<(Seq<char>, Seq<char>)>, audio: bool) -> Seq<(Seq<char>, Seq<char>)>
    decreases entries.len(),
{
    if entries.len() == 0 {
        seq![]
    } else {
        let earlier = entries_where(entries.drop_last(), audio);
        let p = entries.last().1;
        let keep = if audio { ends_with(p, ".mp3"@) } else { has_substring(p, "overlays/"@) };
        if keep {
            earlier.push(entries.last())
        } else {
            earlier
        }
    }
}

fn entries_where_exec(registered: &Vec<(String, String)>, audio: bool) -> (r: Vec<(String, String)>)
    ensures
        pair_views(r@) == entries_where(pair_views(registered@), audio),
{
    let mp3 = chars_of(".mp3");
    let overlays = chars_of("overlays/");
    let ghost views = pair_views(registered@);
    let mut out: Vec<(String, String)> = Vec::new();
    let mut i: usize = 0;
    while i < registered.len()
        invariant
            i <= registered@.len(),
            views == pair_views(registered@),
            mp3@ == ".mp3"@,
            overlays@ == "overlays/"@,
            pair_views(out@) == entries_where(views.take(i as int), audio),
        decreases registered.len() - i,
    {
        assert(views.take(i + 1).drop_last() =~= views.take(i as int));
        assert(views.take(i + 1).last() == (registered@[i as int].0@, registered@[i as int].1@));
        let path = chars_of(registered[i].1.as_str());
        let keep = if audio {
            ends_with_exec(path.as_slice(), mp3.as_slice())
        } else {
            contains_exec(path.as_slice(), overlays.as_slice())
        };
        if keep {
            let name = registered[i].0.clone();
            let p = registered[i].1.clone();
            let ghost before = pair_views(out@);
            out.push((name, p));
            assert(pair_views(out@) =~= before.push((name@, p@)));
        }
        i += 1;
    }
    assert(views.take(registered@.len() as int) =~= views);
    out
}

/// The registered sounds: entries whose path ends with `.mp3`.
pub fn audio_entries(registered: &Vec<(String, String)>) -> (r: Vec<(String, String)>)
    ensures
        pair_views(r@) == entries_where(pair_views(registered@), true),
{
    entries_where_exec(registered, true)
}

/// The registered overlay images: entries whose path holds `overlays/`.
pub fn overlay_entries(registered: &Vec<(String, String)>) -> (r: Vec<(String, String)>)
    ensures
        pair_views(r@) == entries_where(pair_views(registered@), false),
{
    entries_where_exec(registered, false)
}

/// `Path::new(path).file_name()`, read back with `to_string_lossy`. On a path in which
/// only `/` separates components every platform reads it as `slash_file_name`; for other
/// paths nothing is said.
#[verifier::external_body]
fn path_file_name(path: &str) -> (r: Option<String>)
    ensures
        slash_path(path@) ==> (r is Some <==> slash_file_name(path@) is Some),
        r matches Some(s) ==> (slash_path(path@) ==> s@ == slash_file_name(path@)->0),
{
    std::path::Path::new(path).file_name().map(|s| s.to_string_lossy().into_owned())
}

/// The label of a registered overlay in the overlay menu: its constant, then the file
/// name of its path in brackets.
pub open spec fn spec_overlay_option_label(name: Seq<char>, path: Seq<char>) -> Seq<char> {
    name + " ("@ + slash_file_name(path)->0 + ")"@
}

/// The overlay menu label of the registered entry `name => path`, made with the file name
/// that the platform's `Path::file_name` gives (`None` when there is none). For a
/// `/`-separated path it is `spec_overlay_option_label`.
pub fn overlay_option_label(name: &str, path: &str) -> (r: Option<String>)
    ensures
        slash_path(path@) ==> (r is Some <==> slash_file_name(path@) is Some),
        r matches Some(s) ==> (slash_path(path@) ==> s@ == spec_overlay_option_label(name@, path@)),
{
    match path_file_name(path) {
        Some(f) => {
            let mut out = chars_of(name);
            push_all(&mut out, chars_of(" (").as_slice());
            push_all(&mut out, chars_of(f.as_str()).as_slice());
            push_all(&mut out, chars_of(")").as_slice());
            Some(string_of(out.as_slice()))
        },
        None => None,
    }
}

// ---------------------------------------------------------------------------
// Numbering new recordings
// ---------------------------------------------------------------------------

/// The number of a recording named `NN.mp3`, as `u32` parses it.
pub open spec fn clip_number(name: Seq<char>) -> Option<nat> {
    if ends_with(name, ".mp3"@) {
        parse_unsigned(name.take(name.len() - 4), 10, u32::MAX as nat)
    } else {
        None
    }
}

/// The largest recording number among `names`, 0 when there is none.
pub open spec fn max_clip_number(names: Seq<Seq<char>>) -> nat
    decreases names.len(),
{
    if names.len() == 0 {
        0
    } else {
        let m = max_clip_number(names.drop_last());
        match clip_number(names.last()) {
            Some(n) => if n > m { n } else { m },
            None => m,
        }
    }
}

pub open spec fn string_views(v: Seq<String>) -> Seq<Seq<char>> {
    v.map_values(|s: String| s@)
}

/// The file name of the next recording in a directory holding `names`: one more than the
/// largest number, written with at least two digits, then `.mp3`.
pub open spec fn spec_next_filename(names: Seq<Seq<char>>) -> Seq<char> {
    zero_pad(decimal(max_clip_number(names) + 1), 2) + ".mp3"@
}

proof fn lemma_max_clip_number_bounds(names: Seq<Seq<char>>, i: int)
    requires
        0 <= i < names.len(),
        clip_number(names[i]) is Some,
    ensures
        clip_number(names[i]).unwrap() <= max_clip_number(names),
    decreases names.len(),
{
    if i < names.len() - 1 {
        lemma_max_clip_number_bounds(names.drop_last(), i);
        assert(names.drop_last()[i] == names[i]);
    }
}

/// A new recording is numbered one above the largest numbered recording in its
/// directory, so it never takes the name of an entry already there.
pub proof fn lemma_next_filename_is_new(names: Seq<Seq<char>>)
    requires
        max_clip_number(names) < u32::MAX,
    ensures
        clip_number(spec_next_filename(names)) == Some(max_clip_number(names) + 1),
        forall|i: int| 0 <= i < names.len() ==> names[i] != spec_next_filename(names),
{
    let m = max_clip_number(names) + 1;
    let d = decimal(m);
    lemma_digits_of_value(m, 10);
    let p = zero_pad(d, 2);
    if d.len() < 2 {
        lemma_leading_zeros((2 - d.len()) as nat, d, 10);
        assert(p =~= zeros((2 - d.len()) as nat) + d);
        assert(p[0] == '0');
    } else {
        assert(p == d);
    }
    reveal_strlit(".mp3");
    let f = spec_next_filename(names);
    assert(f == p + ".mp3"@);
    assert(f.subrange(f.len() - 4, f.len() as int) =~= ".mp3"@);
    assert(f.take(f.len() - 4) =~= p);
    assert(clip_number(f) == Some(m));
    assert forall|i: int| 0 <= i < names.len() implies names[i] != f by {
        if names[i] == f {
            lemma_max_clip_number_bounds(names, i);
        }
    }
}

/// The largest recording number among the directory entries `names` (0 when none is a
/// numbered recording).
pub fn largest_clip_number(names: &Vec<String>) -> (r: u32)
    ensures
        r as nat == max_clip_number(string_views(names@)),
{
    let mp3 = chars_of(".mp3");
    let ghost views = string_views(names@);
    let mut best: u32 = 0;
    let mut i: usize = 0;
    while i < names.len()
        invariant
            i <= names@.len(),
            views == string_views(names@),
            mp3@ == ".mp3"@,
            best as nat == max_clip_number(views.take(i as int)),
        decreases names.len() - i,
    {
        assert(views.take(i + 1).drop_last() =~= views.take(i as int));
        assert(views.take(i + 1).last() == names@[i as int]@);
        let n = chars_of(names[i].as_str());
        if ends_with_exec(n.as_slice(), mp3.as_slice()) {
            proof {
                reveal_strlit(".mp3");
            }
            let stem = copy_range(n.as_slice(), 0, n.len() - 4);
            assert(stem@ =~= n@.take(n@.len() - 4));
            match parse_unsigned_exec(stem.as_slice(), 10, 0xffff_ffff) {
                Some(v) => {
                    if v > best as u64 {
                        best = v as u32;
                    }
                },
                None => {},
            }
        }
        i += 1;
    }
    assert(views.take(names@.len() as int) =~= views);
    best
}

/// The file name of the next recording in a directory whose entries are `names`
/// (e.g. `"03.mp3"` after `"01.mp3"` and `"02.mp3"`).
pub fn next_filename(names: &Vec<String>) -> (r: String)
    requires
        max_clip_number(string_views(names@)) < u32::MAX,
    ensures
        r@ == spec_next_filename(string_views(names@)),
{
    let best = largest_clip_number(names);
    let number = format_decimal((best + 1) as u64);
    let mut out = zero_pad_exec(number, 2);
    push_all(&mut out, chars_of(".mp3").as_slice());
    proof {
        reveal_strlit(".mp3");
    }
    string_of(out.as_slice())
}

} // verus!

verus! {

proof fn lemma_join_lines_front(ls: Seq<Seq<char>>)
    requires
        ls.len() > 0,
    ensures
        join_lines(ls) == ls[0] + seq!['\n'] + join_lines(ls.drop_first()),
    decreases ls.len(),
{
    if ls.len() == 1 {
        assert(ls.drop_last() =~= Seq::<Seq<char>>::empty());
        assert(ls.drop_first() =~= Seq::<Seq<char>>::empty());
        assert(ls.last() == ls[0]);
        assert(ls[0].push('\n') =~= ls[0] + seq!['\n'] + Seq::<char>::empty());
    } else {
        lemma_join_lines_front(ls.drop_last());
        assert(ls.drop_last().drop_first() =~= ls.drop_first().drop_last());
        assert(ls.drop_first().last() == ls.last());
        assert(ls.drop_last()[0] == ls[0]);
        assert(ls[0] + seq!['\n'] + join_lines(ls.drop_first().drop_last()) + ls.last().push('\n')
            =~= ls[0] + seq!['\n'] + (join_lines(ls.drop_first().drop_last()) + ls.drop_first().last().push('\n')));
    }
}

/// Splitting a text made of newline-ended lines gives the lines back (each without a
/// trailing carriage return).
proof fn lemma_lines_of_join(ls: Seq<Seq<char>>)
    requires
        no_newlines(ls),
    ensures
        lines(join_lines(ls)) == ls.map_values(|l: Seq<char>| strip_cr(l)),
    decreases ls.len(),
{
    if ls.len() == 0 {
        assert(ls.map_values(|l: Seq<char>| strip_cr(l)) =~= Seq::<Seq<char>>::empty());
    } else {
        lemma_join_lines_front(ls);
        let a = ls[0];
        let rest = ls.drop_first();
        let j = join_lines(rest);
        let s = a + seq!['\n'] + j;
        assert forall|i: int, k: int| 0 <= i < rest.len() && 0 <= k < rest[i].len() implies #[trigger] rest[i][k] != '\n' by {
            assert(rest[i] == ls[i + 1]);
        }
        lemma_lines_of_join(rest);
        assert forall|k: int| 0 <= k < a.len() implies s[k] != '\n' by {
            assert(s[k] == a[k]);
            assert(ls[0][k] != '\n');
        }
        lemma_newline_index(s, a.len() as int);
        assert(s.take(a.len() as int) =~= a);
        assert(s.skip(a.len() + 1 as int) =~= j);
        assert(ls.map_values(|l: Seq<char>| strip_cr(l)) =~= seq![strip_cr(a)] + rest.map_values(|l: Seq<char>| strip_cr(l)));
    }
}

proof fn lemma_include_entries_strip_cr(ls: Seq<Seq<char>>, in_block: bool)
    ensures
        include_entries(ls.map_values(|l: Seq<char>| strip_cr(l)), in_block) == include_entries(ls, in_block),
    decreases ls.len(),
{
    if ls.len() > 0 {
        let m = ls.map_values(|l: Seq<char>| strip_cr(l));
        assert(m.drop_first() =~= ls.drop_first().map_values(|l: Seq<char>| strip_cr(l)));
        lemma_trim_strip_cr(ls[0]);
        lemma_include_entries_strip_cr(ls.drop_first(), true);
        lemma_include_entries_strip_cr(ls.drop_first(), false);
    }
}

/// A constant name that can be registered: no surrounding whitespace, no newline, no
/// `=>`, and not starting with `include_file!`.
pub open spec fn registrable_name(name: Seq<char>) -> bool {
    &&& trim(name) == name
    &&& !name.contains('\n')
    &&& !has_substring(name, "=>"@)
    &&& !starts_with(name, "include_file!"@)
}

/// A file name that can be registered: no newline and no trailing quote.
pub open spec fn registrable_file(file: Seq<char>) -> bool {
    &&& !file.contains('\n')
    &&& (file.len() > 0 ==> file.last() != '"')
}

/// The overlay entry without its indentation and the space after the constant.
pub open spec fn overlay_entry_body(name: Seq<char>, file: Seq<char>) -> Seq<char> {
    name + " => \""@ + overlay_rel_path(file) + "\""@
}

/// The trimmed table line of an overlay entry (with an empty constant it starts at `=>`).
pub open spec fn overlay_entry_text(name: Seq<char>, file: Seq<char>) -> Seq<char> {
    if name.len() == 0 {
        overlay_entry_body(name, file).skip(1)
    } else {
        overlay_entry_body(name, file)
    }
}

proof fn lemma_trim_len(s: Seq<char>)
    ensures
        trim_start(s).len() <= s.len(),
        trim_end(s).len() <= s.len(),
        s.len() > 0 && is_whitespace(s[0]) ==> trim_start(s).len() < s.len(),
        s.len() > 0 && is_whitespace(s.last()) ==> trim_end(s).len() < s.len(),
    decreases s.len(),
{
    if s.len() > 0 {
        lemma_trim_len(s.drop_first());
        lemma_trim_len(s.drop_last());
    }
}

/// Text that trimming leaves as it is has no whitespace at either end.
proof fn lemma_trim_fixed(s: Seq<char>)
    requires
        trim(s) == s,
        s.len() > 0,
    ensures
        !is_whitespace(s[0]),
        !is_whitespace(s.last()),
{
    lemma_trim_len(s);
    lemma_trim_len(trim_start(s));
    if !is_whitespace(s[0]) {
        assert(trim_start(s) == s);
    }
}

proof fn lemma_overlay_entry_trim(name: Seq<char>, file: Seq<char>)
    requires
        registrable_name(name),
    ensures
        trim(overlay_entry_line(name, file)) == overlay_entry_text(name, file),
{
    reveal_strlit("    ");
    reveal_strlit(" => \"");
    reveal_strlit("\"");
    let line = overlay_entry_line(name, file);
    let body = overlay_entry_body(name, file);
    assert(line =~= "    "@ + body);
    if name.len() > 0 {
        lemma_trim_fixed(name);
        lemma_trim_start_skip(line, 4);
        assert(line.skip(4) =~= body);
        assert(body[0] == name[0]);
        lemma_trim_noop(body);
    } else {
        let t = body.skip(1);
        assert(line[4] == ' ');
        lemma_trim_start_skip(line, 5);
        assert(line.skip(5) =~= t);
        assert(t[0] == '=');
        lemma_trim_noop(t);
    }
}

#[verifier::spinoff_prover]
#[verifier::rlimit(60)]
proof fn lemma_overlay_entry_parts(name: Seq<char>, file: Seq<char>)
    requires
        registrable_name(name),
        registrable_file(file),
    ensures
        table_entry(overlay_entry_text(name, file)) == Some((name, overlay_rel_path(file))),
        !starts_with(overlay_entry_text(name, file), "include_file!"@),
        overlay_entry_text(name, file) != "}"@,
        !overlay_entry_line(name, file).contains('\n'),
{
    reveal_strlit("    ");
    reveal_strlit(" => \"");
    reveal_strlit("../assets/overlays/");
    reveal_strlit("\"");
    reveal_strlit("=>");
    reveal_strlit("include_file!");
    reveal_strlit("}");
    let rel = overlay_rel_path(file);
    let body = overlay_entry_body(name, file);
    let tb = overlay_entry_text(name, file);
    let n = name.len() as int;
    // The path part.
    lemma_entry_path(name, file);
    if n > 0 {
        lemma_trim_fixed(name);
        lemma_entry_name_part(name, file);
    } else {
        assert(tb =~= body.skip(1));
        assert(tb.subrange(0, 2) =~= "=>"@);
        crate::text::lemma_find_from_at(tb, "=>"@, 0, 0);
        assert(tb.take(0) =~= Seq::<char>::empty());
        assert(trim_start(Seq::<char>::empty()) == Seq::<char>::empty());
        assert(tb.skip(2) =~= body.skip(n + 3));
        if starts_with(tb, "include_file!"@) {
            assert(tb.subrange(0, 13)[0] == tb[0]);
        }
    }
    assert(tb.len() > 1);
    // No newline.
    let line = overlay_entry_line(name, file);
    assert forall|j: int| 0 <= j < line.len() implies line[j] != '\n' by {
        if 4 <= j < 4 + n {
            assert(line[j] == name[j - 4]);
            if name[j - 4] == '\n' {
                assert(name.contains('\n'));
            }
        } else if 4 + n + 5 + 19 <= j < 4 + n + 5 + 19 + file.len() {
            assert(line[j] == file[j - (4 + n + 5 + 19)]);
            if file[j - (4 + n + 5 + 19)] == '\n' {
                assert(file.contains('\n'));
            }
        }
    }
}

/// The text after the separator of an overlay entry reads back as its path.
#[verifier::spinoff_prover]
proof fn lemma_entry_path(name: Seq<char>, file: Seq<char>)
    requires
        registrable_file(file),
    ensures
        strip_char(trim(overlay_entry_body(name, file).skip(name.len() + 3int)), '"') == overlay_rel_path(file),
{
    reveal_strlit(" => \"");
    reveal_strlit("../assets/overlays/");
    reveal_strlit("\"");
    let rel = overlay_rel_path(file);
    let body = overlay_entry_body(name, file);
    let n = name.len() as int;
    let pp = body.skip(n + 3);
    let quoted = seq!['"'] + rel + seq!['"'];
    assert(pp =~= seq![' '] + quoted);
    assert(pp.drop_first() =~= quoted);
    assert(trim_start(pp) == trim_start(quoted));
    assert(trim_start(quoted) == quoted);
    assert(trim_end(quoted) == quoted);
    assert(quoted.drop_first() =~= rel + seq!['"']);
    assert(rel[0] == '.');
    assert(strip_start_char(quoted, '"') == strip_start_char(rel + seq!['"'], '"'));
    assert(strip_start_char(rel + seq!['"'], '"') == rel + seq!['"']);
    assert((rel + seq!['"']).drop_last() =~= rel);
    assert(strip_end_char(rel + seq!['"'], '"') == strip_end_char(rel, '"'));
    if file.len() > 0 {
        assert(rel.last() == file.last());
    }
    assert(strip_end_char(rel, '"') == rel);
}

/// For a non-empty constant, the first `=>` of the entry is the separator, the text
/// before it reads back as the constant, and the entry does not open a table.
#[verifier::spinoff_prover]
#[verifier::rlimit(40)]
proof fn lemma_entry_name_part(name: Seq<char>, file: Seq<char>)
    requires
        name.len() > 0,
        !is_whitespace(name[0]),
        !is_whitespace(name.last()),
        !has_substring(name, "=>"@),
        !starts_with(name, "include_file!"@),
    ensures
        find(overlay_entry_body(name, file), "=>"@) == Some(name.len() + 1int),
        trim(overlay_entry_body(name, file).take(name.len() + 1int)) == name,
        !starts_with(overlay_entry_body(name, file), "include_file!"@),
{
    reveal_strlit(" => \"");
    reveal_strlit("=>");
    reveal_strlit("include_file!");
    let body = overlay_entry_body(name, file);
    let n = name.len() as int;
    assert(body.subrange(n + 1, n + 3) =~= "=>"@);
    crate::text::lemma_find(name, "=>"@);
    assert forall|j: int| 0 <= j < n + 1 implies !occurs_at(body, "=>"@, j) by {
        if j + 2 <= n {
            if occurs_at(body, "=>"@, j) {
                assert(body.subrange(j, j + 2) =~= name.subrange(j, j + 2));
                assert(occurs_at(name, "=>"@, j));
            }
        } else if j == n - 1 {
            if occurs_at(body, "=>"@, j) {
                assert(body.subrange(j, j + 2)[1] == body[n]);
            }
        } else {
            if occurs_at(body, "=>"@, j) {
                assert(body.subrange(j, j + 2)[0] == body[n]);
            }
        }
    }
    crate::text::lemma_find_from_at(body, "=>"@, 0, n + 1);
    let np = body.take(n + 1);
    assert(np =~= name.push(' '));
    assert(np.drop_last() =~= name);
    assert(trim_start(np) == np);
    assert(trim_end(np) == trim_end(name));
    lemma_trim_noop(name);
    assert(trim_start(name) == name);
    assert(trim_end(name) == name);
    if starts_with(body, "include_file!"@) {
        if n >= 13 {
            assert(body.subrange(0, 13) =~= name.subrange(0, 13));
            assert(starts_with(name, "include_file!"@));
        } else {
            assert(body.subrange(0, 13)[n] == body[n]);
            assert(body[n] == ' ');
            assert("include_file!"@[n] != ' ');
        }
    }
}

} // verus!

verus! {

proof fn lemma_table_end_bound(ls: Seq<Seq<char>>, in_block: bool)
    ensures
        table_end(ls, in_block) matches Some(p) ==> 0 <= p < ls.len(),
    decreases ls.len(),
{
    if ls.len() > 0 {
        let ib = in_block || starts_with(trim(ls[0]), "include_file!"@);
        lemma_table_end_bound(ls.drop_first(), ib);
    }
}

proof fn lemma_insert_entries(ls: Seq<Seq<char>>, p: int, in_block: bool, name: Seq<char>, file: Seq<char>)
    requires
        table_end(ls, in_block) == Some(p),
        registrable_name(name),
        registrable_file(file),
    ensures
        0 <= p < ls.len(),
        include_entries(ls.take(p) + seq![overlay_entry_line(name, file)] + ls.skip(p), in_block)
            == include_entries(ls, in_block).push((name, overlay_rel_path(file))),
    decreases ls.len(),
{
    reveal_strlit("include_file!");
    reveal_strlit("}");
    lemma_table_end_bound(ls, in_block);
    let e = overlay_entry_line(name, file);
    let pair = (name, overlay_rel_path(file));
    lemma_overlay_entry_trim(name, file);
    lemma_overlay_entry_parts(name, file);
    let t0 = trim(ls[0]);
    let ib = in_block || starts_with(t0, "include_file!"@);
    let rest = ls.drop_first();
    let ls2 = ls.take(p) + seq![e] + ls.skip(p);
    if ib && t0 == "}"@ {
        assert(p == 0);
        assert(!starts_with(t0, "include_file!"@));
        assert(ls2 =~= seq![e] + ls);
        assert(ls2[0] == e);
        assert(ls2.drop_first() =~= ls);
        assert(include_entries(ls, true) =~= Seq::<(Seq<char>, Seq<char>)>::empty());
        assert(include_entries(ls2, in_block) =~= seq![pair] + include_entries(ls, true));
        assert(seq![pair] + Seq::<(Seq<char>, Seq<char>)>::empty() =~= Seq::<(Seq<char>, Seq<char>)>::empty().push(pair));
    } else {
        let k = table_end(rest, ib)->0;
        assert(p == k + 1);
        lemma_insert_entries(rest, k, ib, name, file);
        let rest2 = rest.take(k) + seq![e] + rest.skip(k);
        assert(ls2[0] == ls[0]);
        assert(ls2.drop_first() =~= rest2);
        if starts_with(t0, "include_file!"@) {
        } else if in_block {
            match table_entry(t0) {
                Some(x) => {
                    assert(seq![x] + include_entries(rest, true).push(pair) =~= (seq![x] + include_entries(rest, true)).push(pair));
                },
                None => {},
            }
        }
    }
}

/// Registering an overlay adds it to the asset table: when the source has an asset
/// table, the entries read from the edited source are the old entries followed by the
/// new constant and its path (for a constant without surrounding whitespace, newline or
/// `=>` that does not start with `include_file!`, and a file name without newline or
/// trailing quote).
pub proof fn lemma_registered_overlay_listed(content: Seq<char>, name: Seq<char>, file: Seq<char>)
    requires
        registrable_name(name),
        registrable_file(file),
        with_table_entry(content, overlay_entry_line(name, file)) is Some,
    ensures
        include_file_entries(with_table_entry(content, overlay_entry_line(name, file))->0)
            == include_file_entries(content).push((name, overlay_rel_path(file))),
{
    let ls = lines(content);
    let e = overlay_entry_line(name, file);
    let p = table_end(ls, false)->0;
    lemma_insert_entries(ls, p, false, name, file);
    lemma_overlay_entry_parts(name, file);
    let ls2 = ls.take(p) + seq![e] + ls.skip(p);
    crate::text::lemma_lines_no_newlines(content);
    assert forall|i: int, j: int| 0 <= i < ls2.len() && 0 <= j < ls2[i].len() implies #[trigger] ls2[i][j] != '\n' by {
        if i < p {
            assert(ls2[i] == ls[i]);
        } else if i == p {
            assert(ls2[i] == e);
            if e[j] == '\n' {
                assert(e.contains('\n'));
            }
        } else {
            assert(ls2[i] == ls[i - 1]);
        }
    }
    lemma_lines_of_join(ls2);
    lemma_include_entries_strip_cr(ls2, false);
}

} // verus!

verus! {

/// `c` with ASCII upper-case letters made lower-case.
pub open spec fn ascii_lower(c: char) -> char {
    if 65 <= c as u32 <= 90 {
        ((c as u32) + 32) as char
    } else {
        c
    }
}

fn ascii_lower_exec(c: char) -> (r: char)
    ensures
        r == ascii_lower(c),
{
    let n = c as u32;
    if 65 <= n && n <= 90 {
        ((n + 32) as u8) as char
    } else {
        c
    }
}

/// A recorded clip file: a bare file name whose extension (after the last `.`, which is
/// not the first character) is `mp3` in any ASCII case.
pub open spec fn spec_is_clip_file(name: Seq<char>) -> bool {
    match rfind(name, seq!['.']) {
        Some(k) => k > 0 && name.len() == k + 4 && ascii_lower(name[k + 1]) == 'm' && ascii_lower(name[k + 2])
            == 'p' && ascii_lower(name[k + 3]) == '3',
        None => false,
    }
}

/// Whether the directory entry `name` is a recorded clip (an `.mp3` file).
pub fn is_clip_file(name: &str) -> (r: bool)
    ensures
        r == spec_is_clip_file(name@),
{
    let n = chars_of(name);
    let dot = vec!['.'];
    assert(dot@ =~= seq!['.']);
    match rfind_exec(n.as_slice(), dot.as_slice()) {
        Some(k) => {
            if k == 0 || n.len() - k != 4 {
                return false;
            }
            ascii_lower_exec(n[k + 1]) == 'm' && ascii_lower_exec(n[k + 2]) == 'p' && ascii_lower_exec(n[k + 3]) == '3'
        },
        None => false,
    }
}

} // verus!
