use vstd::prelude::*;

use std::collections::HashMap;

use crate::numbers::{decimal, format_decimal, format_hex16, hex16};
use crate::registry::{
    const_stem, has_slash_stem, slash_file_name, slash_path, spec_const_stem, to_uppercase, try_const_stem, upper_case,
};
use crate::segment::{segment_order, Segment, SegmentCatalog, SegmentClip};
use crate::sorting::{stable_sort_by_key, stably_sorted};
use crate::text::{chars_of, push_all, string_of};

verus! {

broadcast use vstd::string::group_string_axioms;

/// The number of easter eggs on `h` according to `counts` (0 when absent).
pub open spec fn count_of(counts: Map<u64, usize>, h: u64) -> nat {
    if counts.contains_key(h) {
        counts[h] as nat
    } else {
        0
    }
}

/// The number of easter eggs on all of `clips`.
pub open spec fn clips_egg_total(clips: Seq<SegmentClip>, counts: Map<u64, usize>) -> nat
    decreases clips.len(),
{
    if clips.len() == 0 {
        0
    } else {
        clips_egg_total(clips.drop_last(), counts) + count_of(counts, clips.last().hash)
    }
}

/// The number of `clips` that trigger no easter egg.
pub open spec fn clips_without_eggs(clips: Seq<SegmentClip>, counts: Map<u64, usize>) -> nat
    decreases clips.len(),
{
    if clips.len() == 0 {
        0
    } else {
        clips_without_eggs(clips.drop_last(), counts) + if counts.contains_key(clips.last().hash) {
            0nat
        } else {
            1nat
        }
    }
}

/// The easter-egg totals of every segment fit in a `usize`.
pub open spec fn totals_fit(catalog: &SegmentCatalog, counts: Map<u64, usize>) -> bool {
    forall|s: Segment| #[trigger] clips_egg_total(catalog.clips_of(s), counts) <= usize::MAX
}

proof fn lemma_without_le(clips: Seq<SegmentClip>, counts: Map<u64, usize>)
    ensures
        clips_without_eggs(clips, counts) <= clips.len(),
    decreases clips.len(),
{
    if clips.len() > 0 {
        lemma_without_le(clips.drop_last(), counts);
    }
}

proof fn lemma_total_prefix(clips: Seq<SegmentClip>, counts: Map<u64, usize>, i: int)
    requires
        0 <= i <= clips.len(),
    ensures
        clips_egg_total(clips.take(i), counts) <= clips_egg_total(clips, counts),
    decreases clips.len() - i,
{
    if i < clips.len() {
        lemma_total_prefix(clips, counts, i + 1);
        assert(clips.take(i + 1).drop_last() =~= clips.take(i));
    } else {
        assert(clips.take(i) =~= clips);
    }
}

/// The number of easter eggs on the clips of `segment`.
pub fn segment_egg_total(catalog: &SegmentCatalog, segment: Segment, counts: &HashMap<u64, usize>) -> (r: usize)
    requires
        clips_egg_total(catalog.clips_of(segment), counts@) <= usize::MAX,
    ensures
        r == clips_egg_total(catalog.clips_of(segment), counts@),
{
    broadcast use vstd::std_specs::hash::group_hash_axioms;
    let clips = segment.all_clips(catalog);
    let mut total: usize = 0;
    let mut i: usize = 0;
    while i < clips.len()
        invariant
            i <= clips@.len(),
            clips@ == catalog.clips_of(segment),
            clips_egg_total(clips@, counts@) <= usize::MAX,
            total == clips_egg_total(clips@.take(i as int), counts@),
        decreases clips.len() - i,
    {
        assert(clips@.take(i + 1).drop_last() =~= clips@.take(i as int));
        proof {
            lemma_total_prefix(clips@, counts@, i + 1);
        }
        let n: usize = match counts.get(&clips[i].hash) {
            Some(c) => *c,
            None => 0,
        };
        total = total + n;
        i += 1;
    }
    assert(clips@.take(clips@.len() as int) =~= clips@);
    total
}

/// The number of easter eggs on the clips of `segment`, or `None` when that number does
/// not fit in a `usize`.
pub fn checked_segment_egg_total(catalog: &SegmentCatalog, segment: Segment, counts: &HashMap<u64, usize>) -> (r: Option<usize>)
    ensures
        r is None <==> clips_egg_total(catalog.clips_of(segment), counts@) > usize::MAX,
        r matches Some(t) ==> t == clips_egg_total(catalog.clips_of(segment), counts@),
{
    broadcast use vstd::std_specs::hash::group_hash_axioms;
    let clips = segment.all_clips(catalog);
    let mut total: usize = 0;
    let mut i: usize = 0;
    while i < clips.len()
        invariant
            i <= clips@.len(),
            clips@ == catalog.clips_of(segment),
            total == clips_egg_total(clips@.take(i as int), counts@),
        decreases clips.len() - i,
    {
        assert(clips@.take(i + 1).drop_last() =~= clips@.take(i as int));
        let n: usize = match counts.get(&clips[i].hash) {
            Some(c) => *c,
            None => 0,
        };
        match total.checked_add(n) {
            Some(t) => {
                total = t;
            },
            None => {
                proof {
                    lemma_total_prefix(clips@, counts@, i + 1);
                }
                return None;
            },
        }
        i += 1;
    }
    assert(clips@.take(clips@.len() as int) =~= clips@);
    Some(total)
}

/// The segments ordered by easter-egg total as `segments_by_egg_count` gives them, or
/// `None` when the total of some segment does not fit in a `usize`.
pub fn try_segments_by_egg_count(catalog: &SegmentCatalog, counts: &HashMap<u64, usize>) -> (r: Option<Vec<(Segment, usize)>>)
    ensures
        r is None <==> !totals_fit(catalog, counts@),
        r matches Some(v) ==> stably_sorted(v@, segment_totals(catalog, counts@)),
{
    let segments = Segment::all();
    let mut i: usize = 0;
    while i < segments.len()
        invariant
            i <= segments@.len(),
            segments@ == segment_order(),
            forall|j: int| 0 <= j < i ==> clips_egg_total(catalog.clips_of(#[trigger] segment_order()[j]), counts@)
                <= usize::MAX,
        decreases segments.len() - i,
    {
        if checked_segment_egg_total(catalog, segments[i], counts).is_none() {
            return None;
        }
        i += 1;
    }
    assert forall|s: Segment| #[trigger] clips_egg_total(catalog.clips_of(s), counts@) <= usize::MAX by {
        match s {
            Segment::Base => assert(segment_order()[0] == s),
            Segment::Adjective => assert(segment_order()[1] == s),
            Segment::Clause => assert(segment_order()[2] == s),
            Segment::Action => assert(segment_order()[3] == s),
            Segment::Reaction => assert(segment_order()[4] == s),
        }
    }
    Some(segments_by_egg_count(catalog, counts))
}

/// The number of clips of `segment` that trigger no easter egg.
pub fn clips_without_eggs_count(catalog: &SegmentCatalog, segment: Segment, counts: &HashMap<u64, usize>) -> (r: usize)
    ensures
        r == clips_without_eggs(catalog.clips_of(segment), counts@),
{
    broadcast use vstd::std_specs::hash::group_hash_axioms;
    let clips = segment.all_clips(catalog);
    let mut n: usize = 0;
    let mut i: usize = 0;
    while i < clips.len()
        invariant
            i <= clips@.len(),
            clips@ == catalog.clips_of(segment),
            n == clips_without_eggs(clips@.take(i as int), counts@),
        decreases clips.len() - i,
    {
        assert(clips@.take(i + 1).drop_last() =~= clips@.take(i as int));
        proof {
            lemma_without_le(clips@.take(i as int), counts@);
        }
        if !counts.contains_key(&clips[i].hash) {
            n = n + 1;
        }
        i += 1;
    }
    assert(clips@.take(clips@.len() as int) =~= clips@);
    n
}

/// Each segment with its easter-egg total, in playback order.
pub open spec fn segment_totals(catalog: &SegmentCatalog, counts: Map<u64, usize>) -> Seq<(Segment, usize)> {
    segment_order().map_values(|s: Segment| (s, clips_egg_total(catalog.clips_of(s), counts) as usize))
}

/// The segments ordered by how many easter eggs their clips trigger, fewest first (ties
/// in playback order), each with its total.
pub fn segments_by_egg_count(catalog: &SegmentCatalog, counts: &HashMap<u64, usize>) -> (r: Vec<(Segment, usize)>)
    requires
        totals_fit(catalog, counts@),
    ensures
        stably_sorted(r@, segment_totals(catalog, counts@)),
{
    let segments = Segment::all();
    let mut totals: Vec<(Segment, usize)> = Vec::new();
    let mut i: usize = 0;
    while i < segments.len()
        invariant
            i <= segments@.len(),
            segments@ == segment_order(),
            totals_fit(catalog, counts@),
            totals@ == segment_totals(catalog, counts@).take(i as int),
        decreases segments.len() - i,
    {
        let s = segments[i];
        assert(clips_egg_total(catalog.clips_of(s), counts@) <= usize::MAX);
        let t = segment_egg_total(catalog, s, counts);
        totals.push((s, t));
        assert(totals@ =~= segment_totals(catalog, counts@).take(i + 1));
        i += 1;
    }
    assert(segment_totals(catalog, counts@).take(5) =~= segment_totals(catalog, counts@));
    stable_sort_by_key(&totals)
}

/// The clips of `segment`, each with its position in the category and its easter-egg
/// count, in category order.
pub open spec fn clip_counts<'a>(clips: Seq<SegmentClip>, counts: Map<u64, usize>) -> Seq<((usize, SegmentClip), usize)> {
    Seq::new(clips.len(), |i: int| ((i as usize, clips[i]), count_of(counts, clips[i].hash) as usize))
}

pub open spec fn deref_clip_counts<'a>(v: Seq<((usize, &'a SegmentClip), usize)>) -> Seq<((usize, SegmentClip), usize)> {
    v.map_values(|e: ((usize, &'a SegmentClip), usize)| ((e.0.0, *e.0.1), e.1))
}

/// The clips of `segment` ordered by how many easter eggs they trigger, fewest first
/// (ties in category order), each with its position in the category and its count.
pub fn clips_by_egg_count<'a>(catalog: &'a SegmentCatalog, segment: Segment, counts: &HashMap<u64, usize>) -> (r: Vec<((usize, &'a SegmentClip), usize)>)
    ensures
        exists|v: Seq<((usize, &'a SegmentClip), usize)>|
            deref_clip_counts(v) == clip_counts(catalog.clips_of(segment), counts@) && stably_sorted(r@, v),
{
    broadcast use vstd::std_specs::hash::group_hash_axioms;
    let clips = segment.all_clips(catalog);
    let mut items: Vec<((usize, &'a SegmentClip), usize)> = Vec::new();
    let mut i: usize = 0;
    while i < clips.len()
        invariant
            i <= clips@.len(),
            clips@ == catalog.clips_of(segment),
            deref_clip_counts(items@) == clip_counts(clips@, counts@).take(i as int),
        decreases clips.len() - i,
    {
        let clip = &clips[i];
        let n: usize = match counts.get(&clip.hash) {
            Some(c) => *c,
            None => 0,
        };
        assert(n as nat == count_of(counts@, clip.hash));
        let ghost before = items@;
        items.push(((i, clip), n));
        assert(deref_clip_counts(items@) =~= deref_clip_counts(before).push(((i, *clip), n)));
        assert(clip_counts(clips@, counts@)[i as int] == ((i, clips@[i as int]), n));
        assert(deref_clip_counts(items@) =~= clip_counts(clips@, counts@).take(i + 1));
        i += 1;
    }
    assert(clip_counts(clips@, counts@).take(clips@.len() as int) =~= clip_counts(clips@, counts@));
    stable_sort_by_key(&items)
}

// ---------------------------------------------------------------------------
// Menu labels
// ---------------------------------------------------------------------------

/// `"s"` unless there is exactly one.
pub open spec fn plural(n: nat) -> Seq<char> {
    if n == 1 {
        ""@
    } else {
        "s"@
    }
}

fn plural_exec(n: usize) -> (r: Vec<char>)
    ensures
        r@ == plural(n as nat),
{
    if n == 1 {
        chars_of("")
    } else {
        chars_of("s")
    }
}

/// The label of a segment in the easter-egg segment menu.
pub open spec fn spec_segment_option_label(segment: Segment, total: nat, without: nat) -> Seq<char> {
    if total == 0 {
        segment.spec_name() + " (no easter eggs)"@
    } else {
        segment.spec_name() + " ("@ + decimal(total) + " easter egg"@ + plural(total) + ", "@ + decimal(without)
            + " clip"@ + plural(without) + " without)"@
    }
}

/// The label of a segment in the easter-egg segment menu, e.g.
/// `"Adjective (3 easter eggs, 1 clip without)"`.
pub fn segment_option_label(segment: Segment, total: usize, without: usize) -> (r: String)
    ensures
        r@ == spec_segment_option_label(segment, total as nat, without as nat),
{
    let mut out = chars_of(segment.name());
    if total == 0 {
        push_all(&mut out, chars_of(" (no easter eggs)").as_slice());
    } else {
        push_all(&mut out, chars_of(" (").as_slice());
        push_all(&mut out, format_decimal(total as u64).as_slice());
        push_all(&mut out, chars_of(" easter egg").as_slice());
        push_all(&mut out, plural_exec(total).as_slice());
        push_all(&mut out, chars_of(", ").as_slice());
        push_all(&mut out, format_decimal(without as u64).as_slice());
        push_all(&mut out, chars_of(" clip").as_slice());
        push_all(&mut out, plural_exec(without).as_slice());
        push_all(&mut out, chars_of(" without)").as_slice());
    }
    assert(out@ =~= spec_segment_option_label(segment, total as nat, without as nat));
    string_of(out.as_slice())
}

/// The constant that names a clip of `segment` whose constant stem is `stem`.
pub open spec fn const_name_with(segment: Segment, stem: Seq<char>) -> Seq<char> {
    upper_case(segment.spec_field_name()) + "_"@ + stem
}

/// The constant that names a clip of `segment` (e.g. `ADJECTIVE_FAT`).
pub open spec fn spec_clip_const_name(segment: Segment, clip_name: Seq<char>) -> Seq<char> {
    const_name_with(segment, spec_const_stem(clip_name))
}

/// A clip's menu label: name, constant and hash, with the constant stem `stem`.
pub open spec fn option_label_with(segment: Segment, clip: SegmentClip, stem: Seq<char>) -> Seq<char> {
    clip.name@ + " ("@ + const_name_with(segment, stem) + ") [0x"@ + hex16(clip.hash) + "]"@
}

/// The label of a clip in a clip menu: name, constant and hash, e.g.
/// `"fat.mp3 (ADJECTIVE_FAT) [0x00000000000000ff]"`.
pub open spec fn spec_clip_option_label(segment: Segment, clip: SegmentClip) -> Seq<char> {
    option_label_with(segment, clip, spec_const_stem(clip.name@))
}

fn const_name_with_exec(segment: Segment, stem: &str) -> (r: String)
    ensures
        r@ == const_name_with(segment, stem@),
{
    let mut out = chars_of(to_uppercase(segment.field_name()).as_str());
    push_all(&mut out, chars_of("_").as_slice());
    push_all(&mut out, chars_of(stem).as_slice());
    string_of(out.as_slice())
}

/// The constant that names the clip `clip_name` of `segment`.
pub fn clip_const_name(segment: Segment, clip_name: &str) -> (r: String)
    requires
        has_slash_stem(clip_name@),
    ensures
        r@ == spec_clip_const_name(segment, clip_name@),
{
    const_name_with_exec(segment, const_stem(clip_name).as_str())
}

fn option_label_with_exec(segment: Segment, clip: &SegmentClip, stem: &str) -> (r: String)
    ensures
        r@ == option_label_with(segment, *clip, stem@),
{
    let mut out = chars_of(clip.name.as_str());
    push_all(&mut out, chars_of(" (").as_slice());
    push_all(&mut out, chars_of(const_name_with_exec(segment, stem).as_str()).as_slice());
    push_all(&mut out, chars_of(") [0x").as_slice());
    push_all(&mut out, format_hex16(clip.hash).as_slice());
    push_all(&mut out, chars_of("]").as_slice());
    string_of(out.as_slice())
}

/// The label of `clip` of `segment` in a clip menu.
pub fn clip_option_label(segment: Segment, clip: &SegmentClip) -> (r: String)
    requires
        has_slash_stem(clip.name@),
    ensures
        r@ == spec_clip_option_label(segment, *clip),
{
    option_label_with_exec(segment, clip, const_stem(clip.name.as_str()).as_str())
}

/// The words after a clip label in the easter-egg clip menu.
pub open spec fn count_suffix(count: nat) -> Seq<char> {
    if count == 0 {
        " (no easter eggs)"@
    } else {
        " ("@ + decimal(count) + " easter egg"@ + plural(count) + ")"@
    }
}

/// The label of a clip in the easter-egg clip menu: the clip label followed by how many
/// easter eggs it already triggers.
pub open spec fn spec_clip_count_label(segment: Segment, clip: SegmentClip, count: nat) -> Seq<char> {
    spec_clip_option_label(segment, clip) + count_suffix(count)
}

fn count_label_with_exec(segment: Segment, clip: &SegmentClip, count: usize, stem: &str) -> (r: String)
    ensures
        r@ == option_label_with(segment, *clip, stem@) + count_suffix(count as nat),
{
    let mut out = chars_of(option_label_with_exec(segment, clip, stem).as_str());
    if count == 0 {
        push_all(&mut out, chars_of(" (no easter eggs)").as_slice());
    } else {
        push_all(&mut out, chars_of(" (").as_slice());
        push_all(&mut out, format_decimal(count as u64).as_slice());
        push_all(&mut out, chars_of(" easter egg").as_slice());
        push_all(&mut out, plural_exec(count).as_slice());
        push_all(&mut out, chars_of(")").as_slice());
    }
    assert(out@ =~= option_label_with(segment, *clip, stem@) + count_suffix(count as nat));
    string_of(out.as_slice())
}

/// The label of `clip` in the easter-egg clip menu.
pub fn clip_count_label(segment: Segment, clip: &SegmentClip, count: usize) -> (r: String)
    requires
        has_slash_stem(clip.name@),
    ensures
        r@ == spec_clip_count_label(segment, *clip, count as nat),
{
    count_label_with_exec(segment, clip, count, const_stem(clip.name.as_str()).as_str())
}

/// The easter-egg menu label of a clip, made with the file stem that the platform gives
/// (`None` when the name has none); for a `/`-separated path it is `clip_count_label`'s.
pub fn try_clip_count_label(segment: Segment, clip: &SegmentClip, count: usize) -> (r: Option<String>)
    ensures
        slash_path(clip.name@) ==> (r is Some <==> slash_file_name(clip.name@) is Some),
        r matches Some(s) ==> (slash_path(clip.name@) ==> s@ == spec_clip_count_label(segment, *clip, count as nat)),
{
    match try_const_stem(clip.name.as_str()) {
        Some(stem) => Some(count_label_with_exec(segment, clip, count, stem.as_str())),
        None => None,
    }
}

/// `s` padded on the right with spaces to at least `width` characters.
pub open spec fn pad_right(s: Seq<char>, width: nat) -> Seq<char> {
    if s.len() >= width {
        s
    } else {
        s + Seq::new((width - s.len()) as nat, |i: int| ' ')
    }
}

fn pad_right_exec(s: &[char], width: usize) -> (r: Vec<char>)
    ensures
        r@ == pad_right(s@, width as nat),
{
    let mut out: Vec<char> = Vec::new();
    push_all(&mut out, s);
    assert(out@ =~= s@);
    if s.len() >= width {
        return out;
    }
    let fill = width - s.len();
    let mut i: usize = 0;
    while i < fill
        invariant
            i <= fill,
            fill == width - s@.len(),
            out@ == s@ + Seq::new(i as nat, |j: int| ' '),
        decreases fill - i,
    {
        out.push(' ');
        i += 1;
        assert(out@ =~= s@ + Seq::new(i as nat, |j: int| ' '));
    }
    out
}

/// The line that lists a clip with the constant stem `stem`: constant (padded to 28),
/// name (padded to 25) and hash.
pub open spec fn listing_line_with(segment: Segment, clip: SegmentClip, stem: Seq<char>) -> Seq<char> {
    "  "@ + pad_right(const_name_with(segment, stem), 28) + " "@ + pad_right(clip.name@, 25) + " 0x"@ + hex16(
        clip.hash,
    )
}

/// The line that lists a clip: constant (padded to 28), name (padded to 25) and hash.
pub open spec fn spec_listing_line(segment: Segment, clip: SegmentClip) -> Seq<char> {
    listing_line_with(segment, clip, spec_const_stem(clip.name@))
}

fn listing_line_with_exec(segment: Segment, clip: &SegmentClip, stem: &str) -> (r: String)
    ensures
        r@ == listing_line_with(segment, *clip, stem@),
{
    let mut out = chars_of("  ");
    let name = chars_of(const_name_with_exec(segment, stem).as_str());
    push_all(&mut out, pad_right_exec(name.as_slice(), 28).as_slice());
    push_all(&mut out, chars_of(" ").as_slice());
    push_all(&mut out, pad_right_exec(chars_of(clip.name.as_str()).as_slice(), 25).as_slice());
    push_all(&mut out, chars_of(" 0x").as_slice());
    push_all(&mut out, format_hex16(clip.hash).as_slice());
    string_of(out.as_slice())
}

/// The line that lists `clip` of `segment` among all segments.
pub fn listing_line(segment: Segment, clip: &SegmentClip) -> (r: String)
    requires
        has_slash_stem(clip.name@),
    ensures
        r@ == spec_listing_line(segment, *clip),
{
    listing_line_with_exec(segment, clip, const_stem(clip.name.as_str()).as_str())
}

/// The listing line of a clip, made with the file stem that the platform gives (`None`
/// when the name has none); for a `/`-separated path it is `listing_line`'s.
pub fn try_listing_line(segment: Segment, clip: &SegmentClip) -> (r: Option<String>)
    ensures
        slash_path(clip.name@) ==> (r is Some <==> slash_file_name(clip.name@) is Some),
        r matches Some(s) ==> (slash_path(clip.name@) ==> s@ == spec_listing_line(segment, *clip)),
{
    match try_const_stem(clip.name.as_str()) {
        Some(stem) => Some(listing_line_with_exec(segment, clip, stem.as_str())),
        None => None,
    }
}

/// The menu label of a clip, made with the file stem that the platform gives (`None`
/// when the name has none); for a `/`-separated path it is `clip_option_label`'s.
pub fn try_clip_option_label(segment: Segment, clip: &SegmentClip) -> (r: Option<String>)
    ensures
        slash_path(clip.name@) ==> (r is Some <==> slash_file_name(clip.name@) is Some),
        r matches Some(s) ==> (slash_path(clip.name@) ==> s@ == spec_clip_option_label(segment, *clip)),
{
    match try_const_stem(clip.name.as_str()) {
        Some(stem) => Some(option_label_with_exec(segment, clip, stem.as_str())),
        None => None,
    }
}

} // verus!

verus! {

/// How many jokes the stress test plays for the typed `input`: the number it holds, or 5
/// when it is not a number.
pub open spec fn spec_jokes_to_play(input: Seq<char>) -> nat {
    match crate::numbers::parse_unsigned(input, 10, usize::MAX as nat) {
        Some(n) => n,
        None => 5,
    }
}

pub fn jokes_to_play(input: &str) -> (r: usize)
    ensures
        r as nat == spec_jokes_to_play(input@),
{
    let c = chars_of(input);
    match crate::numbers::parse_unsigned_exec(c.as_slice(), 10, usize::MAX as u64) {
        Some(n) => n as usize,
        None => 5,
    }
}

} // verus!
