use vstd::prelude::*;

use std::collections::HashMap;

use crate::numbers::{format_hex16, hex16, parse_unsigned, parse_unsigned_exec};
use crate::registry::SourceEditError;
use crate::segment::{Phase, Segment};
use crate::text::{
    as_int, chars_of, copy_range, find, find_exec, has_substring, contains_exec, lines, occurs_at, push_all,
    rfind, rfind_exec, split_lines, starts_with, starts_with_exec, string_of, strip_end_char,
    strip_end_char_exec, trim, trimmed, views_of,
};

verus! {

broadcast use vstd::string::group_string_axioms;

/// An easter egg as written in the easter-egg table: the clip hash that triggers it, its
/// phase and the text of its effect.
#[derive(Debug, Clone)]
pub struct ExistingEgg {
    pub hash: u64,
    pub phase: Phase,
    pub effect: String,
}

impl ExistingEgg {
    pub open spec fn view_tuple(&self) -> (u64, Phase, Seq<char>) {
        (self.hash, self.phase, self.effect@)
    }
}

pub open spec fn egg_views(v: Seq<ExistingEgg>) -> Seq<(u64, Phase, Seq<char>)> {
    v.map_values(|e: ExistingEgg| e.view_tuple())
}

/// The phase named after the hash of a table line: `After` when the rest of the line
/// mentions `[After]`, else `Before` when it mentions `[Before]`, else `During`.
pub open spec fn phase_of_rest(after: Seq<char>) -> Phase {
    if has_substring(after, "[After]"@) {
        Phase::After
    } else if has_substring(after, "[Before]"@) {
        Phase::Before
    } else {
        Phase::During
    }
}

/// The easter egg that one line of the easter-egg table describes, read the way the
/// registration tool reads it: after `== 0x` come hex digits up to `_u64`, the phase tag,
/// then `=> ` and the effect (without trailing `;`, trimmed). Comments and blank lines
/// describe none.
pub open spec fn parse_egg_line(line: Seq<char>) -> Option<(u64, Phase, Seq<char>)> {
    let t = trim(line);
    if starts_with(t, "//"@) || t.len() == 0 {
        None
    } else {
        match find(t, "== 0x"@) {
            None => None,
            Some(h) => {
                let rest = t.skip(h + 5);
                match find(rest, "_u64"@) {
                    None => None,
                    Some(l) => match parse_unsigned(rest.take(l), 16, u64::MAX as nat) {
                        None => None,
                        Some(hash) => {
                            let after = rest.skip(l + 4);
                            match find(after, "=> "@) {
                                None => None,
                                Some(e) => Some(
                                    (hash as u64, phase_of_rest(after), trim(strip_end_char(after.skip(e + 3), ';'))),
                                ),
                            }
                        },
                    },
                }
            },
        }
    }
}

/// The easter eggs described by the lines of a table source, in order.
pub open spec fn parse_egg_lines(ls: Seq<Seq<char>>) -> Seq<(u64, Phase, Seq<char>)>
    decreases ls.len(),
{
    if ls.len() == 0 {
        seq![]
    } else {
        let earlier = parse_egg_lines(ls.drop_last());
        match parse_egg_line(ls.last()) {
            Some(e) => earlier.push(e),
            None => earlier,
        }
    }
}

/// The easter egg that `line` describes, if any.
pub fn parse_easter_egg_line(line: &[char]) -> (r: Option<ExistingEgg>)
    ensures
        match r {
            Some(e) => parse_egg_line(line@) == Some(e.view_tuple()),
            None => parse_egg_line(line@) is None,
        },
{
    let t = trimmed(line);
    let comment = chars_of("//");
    if starts_with_exec(t.as_slice(), comment.as_slice()) || t.len() == 0 {
        return None;
    }
    let marker = chars_of("== 0x");
    let suffix = chars_of("_u64");
    let arrow = chars_of("=> ");
    proof {
        reveal_strlit("== 0x");
        reveal_strlit("_u64");
        reveal_strlit("=> ");
        assert(marker@.len() == 5);
        assert(suffix@.len() == 4);
        assert(arrow@.len() == 3);
    }
    let tn = t.len();
    let h = match find_exec(t.as_slice(), marker.as_slice()) {
        Some(h) => h,
        None => return None,
    };
    let rest = copy_range(t.as_slice(), h + 5, tn);
    assert(rest@ =~= t@.skip(h + 5));
    let rn = rest.len();
    let l = match find_exec(rest.as_slice(), suffix.as_slice()) {
        Some(l) => l,
        None => return None,
    };
    let digits = copy_range(rest.as_slice(), 0, l);
    assert(digits@ =~= rest@.take(l as int));
    let hash = match parse_unsigned_exec(digits.as_slice(), 16, u64::MAX) {
        Some(v) => v,
        None => return None,
    };
    let after = copy_range(rest.as_slice(), l + 4, rn);
    assert(after@ =~= rest@.skip(l + 4));
    let an = after.len();
    let phase = if contains_exec(after.as_slice(), chars_of("[After]").as_slice()) {
        Phase::After
    } else if contains_exec(after.as_slice(), chars_of("[Before]").as_slice()) {
        Phase::Before
    } else {
        Phase::During
    };
    let e = match find_exec(after.as_slice(), arrow.as_slice()) {
        Some(e) => e,
        None => return None,
    };
    let effect_part = copy_range(after.as_slice(), e + 3, an);
    assert(effect_part@ =~= after@.skip(e + 3));
    let stripped = strip_end_char_exec(effect_part.as_slice(), ';');
    let effect = trimmed(stripped.as_slice());
    Some(ExistingEgg { hash, phase, effect: string_of(effect.as_slice()) })
}

/// The easter eggs described by the easter-egg table source `content`, line by line.
pub fn parse_existing_easter_eggs(content: &str) -> (r: Vec<ExistingEgg>)
    ensures
        egg_views(r@) == parse_egg_lines(lines(content@)),
{
    let chars = chars_of(content);
    let ls = split_lines(chars.as_slice());
    let ghost vs = views_of(ls@);
    let mut eggs: Vec<ExistingEgg> = Vec::new();
    let mut i: usize = 0;
    while i < ls.len()
        invariant
            i <= ls@.len(),
            vs == views_of(ls@),
            vs == lines(content@),
            egg_views(eggs@) == parse_egg_lines(vs.take(i as int)),
        decreases ls.len() - i,
    {
        assert(vs.take(i + 1).drop_last() =~= vs.take(i as int));
        assert(vs.take(i + 1).last() == ls@[i as int]@);
        match parse_easter_egg_line(ls[i].as_slice()) {
            Some(egg) => {
                let ghost before = egg_views(eggs@);
                let ghost t = egg.view_tuple();
                eggs.push(egg);
                assert(egg_views(eggs@) =~= before.push(t));
            },
            None => {},
        }
        i += 1;
    }
    assert(vs.take(ls@.len() as int) =~= vs);
    eggs
}

/// How many easter eggs each hash triggers: the map holds exactly the hashes of `eggs`.
pub open spec fn egg_counts(eggs: Seq<(u64, Phase, Seq<char>)>) -> Map<u64, usize>
    decreases eggs.len(),
{
    if eggs.len() == 0 {
        Map::empty()
    } else {
        let m = egg_counts(eggs.drop_last());
        let h = eggs.last().0;
        let c = if m.contains_key(h) { m[h] + 1 } else { 1 };
        m.insert(h, c as usize)
    }
}

/// The number of easter eggs in `eggs` triggered by `h`.
pub open spec fn count_with_hash(eggs: Seq<(u64, Phase, Seq<char>)>, h: u64) -> nat
    decreases eggs.len(),
{
    if eggs.len() == 0 {
        0
    } else {
        count_with_hash(eggs.drop_last(), h) + if eggs.last().0 == h { 1nat } else { 0nat }
    }
}

/// The count map holds, for each hash of an easter egg, the number of easter eggs with
/// that hash, and holds no other hash.
pub proof fn lemma_egg_counts(eggs: Seq<(u64, Phase, Seq<char>)>, h: u64)
    requires
        eggs.len() <= usize::MAX,
    ensures
        egg_counts(eggs).contains_key(h) <==> count_with_hash(eggs, h) > 0,
        egg_counts(eggs).contains_key(h) ==> egg_counts(eggs)[h] == count_with_hash(eggs, h),
        count_with_hash(eggs, h) <= eggs.len(),
    decreases eggs.len(),
{
    if eggs.len() > 0 {
        lemma_egg_counts(eggs.drop_last(), h);
    }
}

/// The number of easter eggs per triggering hash.
pub fn egg_count_by_hash(eggs: &Vec<ExistingEgg>) -> (r: HashMap<u64, usize>)
    ensures
        r@ == egg_counts(egg_views(eggs@)),
{
    broadcast use vstd::std_specs::hash::group_hash_axioms;
    let ghost vs = egg_views(eggs@);
    let mut counts: HashMap<u64, usize> = HashMap::new();
    let mut i: usize = 0;
    while i < eggs.len()
        invariant
            i <= eggs@.len(),
            vs == egg_views(eggs@),
            counts@ == egg_counts(vs.take(i as int)),
        decreases eggs.len() - i,
    {
        let h = eggs[i].hash;
        assert(vs.take(i + 1).drop_last() =~= vs.take(i as int));
        assert(vs.take(i + 1).last().0 == h);
        proof {
            lemma_egg_counts(vs.take(i as int), h);
        }
        let c: usize = match counts.get(&h) {
            Some(n) => *n + 1,
            None => 1,
        };
        counts.insert(h, c);
        i += 1;
    }
    assert(vs.take(eggs@.len() as int) =~= vs);
    counts
}

/// Whether `existing` already holds an easter egg with this hash, phase and effect.
pub fn is_duplicate(existing: &Vec<ExistingEgg>, hash: u64, phase: Phase, effect: &str) -> (r: bool)
    ensures
        r == egg_views(existing@).contains((hash, phase, effect@)),
{
    let target = chars_of(effect);
    let ghost vs = egg_views(existing@);
    let mut i: usize = 0;
    while i < existing.len()
        invariant
            i <= existing@.len(),
            vs == egg_views(existing@),
            target@ == effect@,
            forall|j: int| 0 <= j < i ==> vs[j] != (hash, phase, effect@),
        decreases existing.len() - i,
    {
        let e = &existing[i];
        let text = chars_of(e.effect.as_str());
        if e.hash == hash && e.phase == phase && crate::text::chars_eq(text.as_slice(), target.as_slice()) {
            assert(vs[i as int] == (hash, phase, effect@));
            return true;
        }
        i += 1;
    }
    false
}

} // verus!

verus! {

/// The tag written after the hash of an easter-egg line for `phase` (none for `During`).
pub open spec fn phase_annotation(phase: Phase) -> Seq<char> {
    match phase {
        Phase::During => ""@,
        Phase::Before => " [Before]"@,
        Phase::After => " [After]"@,
    }
}

/// The easter-egg table line that the registration tool writes.
pub open spec fn egg_entry_line(segment: Segment, hash: u64, phase: Phase, effect: Seq<char>) -> Seq<char> {
    "        "@ + segment.spec_name() + "."@ + segment.spec_field_name() + " == 0x"@ + hex16(hash)
        + "_u64"@ + phase_annotation(phase) + " => "@ + effect + ";"@
}

/// The easter-egg table line for an effect on the clip with `hash` of `segment`, e.g.
/// `        Reaction.reaction == 0x0123456789abcdef_u64 [After] => crash;`.
pub fn easter_egg_entry(segment: Segment, hash: u64, phase: Phase, effect: &str) -> (r: String)
    ensures
        r@ == egg_entry_line(segment, hash, phase, effect@),
{
    let mut out = chars_of("        ");
    push_all(&mut out, chars_of(segment.name()).as_slice());
    push_all(&mut out, chars_of(".").as_slice());
    push_all(&mut out, chars_of(segment.field_name()).as_slice());
    push_all(&mut out, chars_of(" == 0x").as_slice());
    push_all(&mut out, format_hex16(hash).as_slice());
    push_all(&mut out, chars_of("_u64").as_slice());
    let annotation = match phase {
        Phase::During => chars_of(""),
        Phase::Before => chars_of(" [Before]"),
        Phase::After => chars_of(" [After]"),
    };
    push_all(&mut out, annotation.as_slice());
    push_all(&mut out, chars_of(" => ").as_slice());
    push_all(&mut out, chars_of(effect).as_slice());
    push_all(&mut out, chars_of(";").as_slice());
    assert(out@ =~= egg_entry_line(segment, hash, phase, effect@));
    string_of(out.as_slice())
}

/// The phase chosen in the phase menu: `During`, `Before`, then `After` for any other
/// choice.
pub fn phase_from_index(index: usize) -> (r: Phase)
    ensures
        r == (if index == 0 {
            Phase::During
        } else if index == 1 {
            Phase::Before
        } else {
            Phase::After
        }),
{
    if index == 0 {
        Phase::During
    } else if index == 1 {
        Phase::Before
    } else {
        Phase::After
    }
}

/// The effect text for the effect menu choice `index` (image overlay, animated overlay,
/// sound, crash), the constant chosen and the extra value typed (scale or volume).
pub open spec fn spec_effect_code(index: usize, constant: Seq<char>, extra: Seq<char>) -> Seq<char> {
    if index == 0 || index == 1 {
        let keyword = if index == 0 { "overlay"@ } else { "animated_overlay"@ };
        if extra.len() == 0 {
            keyword + "("@ + constant + ")"@
        } else {
            keyword + "("@ + constant + ", scale: "@ + extra + ")"@
        }
    } else if index == 2 {
        let volume = if extra.len() == 0 { "5.0"@ } else { extra };
        "audio("@ + constant + ", volume: "@ + volume + ")"@
    } else {
        "crash"@
    }
}

/// The effect text of an easter egg to register (e.g. `overlay(FAT_SPR, scale: 0.5)`).
pub fn effect_code(index: usize, constant: &str, extra: &str) -> (r: String)
    ensures
        r@ == spec_effect_code(index, constant@, extra@),
{
    let c = chars_of(constant);
    let x = chars_of(extra);
    if index == 0 || index == 1 {
        let mut out = if index == 0 { chars_of("overlay") } else { chars_of("animated_overlay") };
        push_all(&mut out, chars_of("(").as_slice());
        push_all(&mut out, c.as_slice());
        if x.len() > 0 {
            push_all(&mut out, chars_of(", scale: ").as_slice());
            push_all(&mut out, x.as_slice());
        }
        push_all(&mut out, chars_of(")").as_slice());
        assert(out@ =~= spec_effect_code(index, constant@, extra@));
        string_of(out.as_slice())
    } else if index == 2 {
        let mut out = chars_of("audio(");
        push_all(&mut out, c.as_slice());
        push_all(&mut out, chars_of(", volume: ").as_slice());
        if x.len() > 0 {
            push_all(&mut out, x.as_slice());
        } else {
            push_all(&mut out, chars_of("5.0").as_slice());
        }
        push_all(&mut out, chars_of(")").as_slice());
        assert(out@ =~= spec_effect_code(index, constant@, extra@));
        string_of(out.as_slice())
    } else {
        String::from_str("crash")
    }
}

/// The table source with `entry` inserted on a line of its own before the last `    })`,
/// or `None` when there is none.
pub open spec fn with_egg_entry(content: Seq<char>, entry: Seq<char>) -> Option<Seq<char>> {
    match rfind(content, "    })"@) {
        Some(p) => Some(content.take(p) + seq!['\n'] + entry + seq!['\n'] + content.skip(p)),
        None => None,
    }
}

/// The easter-egg table source with `entry` added before its closing `    })`.
pub fn insert_easter_egg_entry(content: &str, entry: &str) -> (r: Result<String, SourceEditError>)
    ensures
        match r {
            Ok(s) => with_egg_entry(content@, entry@) == Some(s@),
            Err(e) => e == SourceEditError::MissingEggTableEnd && with_egg_entry(content@, entry@) is None,
        },
{
    let c = chars_of(content);
    let marker = chars_of("    })");
    match rfind_exec(c.as_slice(), marker.as_slice()) {
        None => Err(SourceEditError::MissingEggTableEnd),
        Some(p) => {
            let n = c.len();
            proof {
                crate::text::lemma_rfind_before(c@, marker@, c@.len() + 1 as int);
            }
            let mut out = copy_range(c.as_slice(), 0, p);
            out.push('\n');
            push_all(&mut out, chars_of(entry).as_slice());
            out.push('\n');
            let tail = copy_range(c.as_slice(), p, n);
            push_all(&mut out, tail.as_slice());
            assert(out@ =~= content@.take(p as int) + seq!['\n'] + entry@ + seq!['\n'] + content@.skip(p as int));
            Ok(string_of(out.as_slice()))
        },
    }
}

} // verus!

verus! {

/// What follows the hash digits in a written easter-egg line.
pub open spec fn egg_after(phase: Phase, effect: Seq<char>) -> Seq<char> {
    phase_annotation(phase) + " => "@ + effect + ";"@
}

/// What follows `== 0x` in a written easter-egg line.
pub open spec fn egg_rest(hash: u64, phase: Phase, effect: Seq<char>) -> Seq<char> {
    hex16(hash) + "_u64"@ + egg_after(phase, effect)
}

/// A written easter-egg line without its indentation.
pub open spec fn egg_body(segment: Segment, hash: u64, phase: Phase, effect: Seq<char>) -> Seq<char> {
    segment.spec_name() + "."@ + segment.spec_field_name() + " == 0x"@ + egg_rest(hash, phase, effect)
}

proof fn lemma_egg_line_trim(segment: Segment, hash: u64, phase: Phase, effect: Seq<char>)
    ensures
        trim(egg_entry_line(segment, hash, phase, effect)) == egg_body(segment, hash, phase, effect),
        !starts_with(egg_body(segment, hash, phase, effect), "//"@),
        egg_body(segment, hash, phase, effect).len() > 0,
{
    reveal_strlit("        ");
    reveal_strlit(";");
    reveal_strlit("//");
    crate::segment::lemma_segment_names(segment);
    let line = egg_entry_line(segment, hash, phase, effect);
    let t = egg_body(segment, hash, phase, effect);
    assert(line =~= "        "@ + t);
    crate::text::lemma_trim_start_skip(line, 8);
    assert(line.skip(8) =~= t);
    assert(t[0] == segment.spec_name()[0]);
    assert(t.last() == ';');
    crate::text::lemma_trim_noop(t);
    assert(t.subrange(0, 2)[0] == t[0]);
}

proof fn lemma_egg_hash_marker(segment: Segment, hash: u64, phase: Phase, effect: Seq<char>)
    ensures
        find(egg_body(segment, hash, phase, effect), "== 0x"@) == Some(
            segment.spec_name().len() + segment.spec_field_name().len() + 2 as int,
        ),
        egg_body(segment, hash, phase, effect).skip(
            segment.spec_name().len() + segment.spec_field_name().len() + 7 as int,
        ) == egg_rest(hash, phase, effect),
{
    reveal_strlit(".");
    reveal_strlit(" == 0x");
    reveal_strlit("== 0x");
    crate::segment::lemma_segment_names(segment);
    let name = segment.spec_name();
    let field = segment.spec_field_name();
    let t = egg_body(segment, hash, phase, effect);
    let p0: int = (name.len() + field.len() + 2) as int;
    assert(t.subrange(p0, p0 + 5) =~= "== 0x"@);
    assert forall|j: int| 0 <= j < p0 implies #[trigger] t[j] != "== 0x"@[0] by {
        if j < name.len() {
            assert(t[j] == name[j]);
        } else if j == name.len() {
        } else if j < name.len() + 1 + field.len() {
            assert(t[j] == field[j - name.len() - 1]);
        }
    }
    crate::text::lemma_find_first(t, "== 0x"@, p0);
    assert(t.skip(p0 + 5) =~= egg_rest(hash, phase, effect));
}

proof fn lemma_egg_hash_digits(hash: u64, phase: Phase, effect: Seq<char>)
    ensures
        find(egg_rest(hash, phase, effect), "_u64"@) == Some(16int),
        egg_rest(hash, phase, effect).take(16) == hex16(hash),
        egg_rest(hash, phase, effect).skip(20) == egg_after(phase, effect),
{
    reveal_strlit("_u64");
    crate::numbers::lemma_hex16_parses(hash);
    let rest = egg_rest(hash, phase, effect);
    let hex = hex16(hash);
    assert(rest.subrange(16, 20) =~= "_u64"@);
    assert forall|j: int| 0 <= j < 16 implies #[trigger] rest[j] != "_u64"@[0] by {
        assert(rest[j] == hex[j]);
    }
    crate::text::lemma_find_first(rest, "_u64"@, 16);
    assert(rest.take(16) =~= hex);
    assert(rest.skip(20) =~= egg_after(phase, effect));
}

/// An effect text that names no phase tag.
pub open spec fn names_no_phase(effect: Seq<char>) -> bool {
    !has_substring(effect, "[After]"@) && !has_substring(effect, "[Before]"@)
}

/// A bracketed tag that the effect does not hold does not occur in ` => effect;`.
proof fn lemma_tail_no_tag(effect: Seq<char>, m: Seq<char>)
    requires
        m.len() > 1,
        m[0] == '[',
        m.last() == ']',
        !has_substring(effect, m),
    ensures
        forall|k: int| !#[trigger] occurs_at(" => "@ + effect + ";"@, m, k),
{
    reveal_strlit(" => ");
    reveal_strlit(";");
    let tail = " => "@ + effect + ";"@;
    crate::text::lemma_find(effect, m);
    assert forall|k: int| !occurs_at(tail, m, k) by {
        if occurs_at(tail, m, k) {
            let sub = tail.subrange(k, k + m.len());
            assert(sub[0] == tail[k]);
            assert(sub[m.len() - 1] == tail[k + m.len() - 1]);
            if k < 4 {
                assert(tail[k] == " => "@[k]);
            } else if k + m.len() == tail.len() {
                assert(tail[tail.len() - 1] == ';');
            } else {
                assert(k + m.len() <= 4 + effect.len());
                assert(effect.subrange(k - 4, k - 4 + m.len()) =~= sub);
                assert(occurs_at(effect, m, k - 4));
            }
        }
    }
}

proof fn lemma_egg_phase(phase: Phase, effect: Seq<char>)
    requires
        names_no_phase(effect),
    ensures
        phase_of_rest(egg_after(phase, effect)) == phase,
{
    reveal_strlit(" => ");
    reveal_strlit(";");
    reveal_strlit("");
    reveal_strlit(" [Before]");
    reveal_strlit(" [After]");
    reveal_strlit("[After]");
    reveal_strlit("[Before]");
    let ann = phase_annotation(phase);
    let tail = " => "@ + effect + ";"@;
    let after = egg_after(phase, effect);
    assert(after =~= ann + tail);
    lemma_tail_no_tag(effect, "[After]"@);
    lemma_tail_no_tag(effect, "[Before]"@);
    match phase {
        Phase::During => {
            assert(after =~= tail);
            crate::text::lemma_find(after, "[After]"@);
            crate::text::lemma_find(after, "[Before]"@);
        },
        Phase::Before => {
            assert forall|j: int| 0 <= j < 1 implies #[trigger] after[j] != "[Before]"@[0] by {}
            assert(after.subrange(1, 9) =~= "[Before]"@);
            crate::text::lemma_find_first(after, "[Before]"@, 1);
            crate::text::lemma_find(after, "[After]"@);
            if find(after, "[After]"@) is Some {
                let k = find(after, "[After]"@)->0;
                assert(occurs_at(after, "[After]"@, k));
                if k < 9 {
                    if k != 1 {
                        crate::text::lemma_not_occurs_at(after, "[After]"@, k);
                    } else {
                        assert(after.subrange(1, 8)[1] == after[2]);
                    }
                } else {
                    assert(after.subrange(k, k + 7) =~= tail.subrange(k - 9, k - 2));
                    assert(occurs_at(tail, "[After]"@, k - 9));
                }
            }
        },
        Phase::After => {
            assert(after.subrange(1, 8) =~= "[After]"@);
            crate::text::lemma_find_first(after, "[After]"@, 1);
        },
    }
}

proof fn lemma_egg_effect(phase: Phase, effect: Seq<char>)
    requires
        trim(effect) == effect,
        effect.len() > 0 ==> effect.last() != ';',
    ensures
        find(egg_after(phase, effect), "=> "@) == Some(phase_annotation(phase).len() + 1 as int),
        trim(strip_end_char(egg_after(phase, effect).skip(phase_annotation(phase).len() + 4 as int), ';')) == effect,
{
    reveal_strlit(" => ");
    reveal_strlit(";");
    reveal_strlit("");
    reveal_strlit(" [Before]");
    reveal_strlit(" [After]");
    reveal_strlit("=> ");
    let ann = phase_annotation(phase);
    let after = egg_after(phase, effect);
    let e: int = (ann.len() + 1) as int;
    assert(after.subrange(e, e + 3) =~= "=> "@);
    assert forall|j: int| 0 <= j < e implies #[trigger] after[j] != "=> "@[0] by {
        if j < ann.len() {
            assert(after[j] == ann[j]);
        }
    }
    crate::text::lemma_find_first(after, "=> "@, e);
    assert(after.skip(e + 3) =~= effect + ";"@);
    assert((effect + ";"@).drop_last() =~= effect);
    assert(strip_end_char(effect + ";"@, ';') == strip_end_char(effect, ';'));
}

/// The registration tool reads back every easter-egg line it writes: parsing the line
/// written for `segment`, `hash`, `phase` and `effect` gives that hash, phase and effect,
/// for any effect text that names no phase tag, without surrounding whitespace and not
/// ending in `;`.
pub proof fn lemma_egg_entry_roundtrip(segment: Segment, hash: u64, phase: Phase, effect: Seq<char>)
    requires
        names_no_phase(effect),
        trim(effect) == effect,
        effect.len() > 0 ==> effect.last() != ';',
    ensures
        parse_egg_line(egg_entry_line(segment, hash, phase, effect)) == Some((hash, phase, effect)),
{
    lemma_egg_line_trim(segment, hash, phase, effect);
    lemma_egg_hash_marker(segment, hash, phase, effect);
    lemma_egg_hash_digits(hash, phase, effect);
    crate::numbers::lemma_hex16_parses(hash);
    lemma_egg_phase(phase, effect);
    lemma_egg_effect(phase, effect);
}

} // verus!

verus! {

proof fn lemma_parse_egg_lines_append(x: Seq<Seq<char>>, y: Seq<Seq<char>>)
    ensures
        parse_egg_lines(x + y) == parse_egg_lines(x) + parse_egg_lines(y),
    decreases y.len(),
{
    if y.len() == 0 {
        assert(x + y =~= x);
        assert(parse_egg_lines(x) + Seq::<(u64, Phase, Seq<char>)>::empty() =~= parse_egg_lines(x));
    } else {
        lemma_parse_egg_lines_append(x, y.drop_last());
        assert((x + y).drop_last() =~= x + y.drop_last());
        assert((x + y).last() == y.last());
        match parse_egg_line(y.last()) {
            Some(e) => {
                assert(parse_egg_lines(x) + parse_egg_lines(y.drop_last()).push(e) =~= (parse_egg_lines(x)
                    + parse_egg_lines(y.drop_last())).push(e));
            },
            None => {},
        }
    }
}

proof fn lemma_egg_entry_no_newline(segment: Segment, hash: u64, phase: Phase, effect: Seq<char>)
    requires
        !effect.contains('\n'),
    ensures
        !egg_entry_line(segment, hash, phase, effect).contains('\n'),
{
    reveal_strlit("        ");
    reveal_strlit(".");
    reveal_strlit(" == 0x");
    reveal_strlit("_u64");
    reveal_strlit(" => ");
    reveal_strlit(";");
    reveal_strlit("");
    reveal_strlit(" [Before]");
    reveal_strlit(" [After]");
    crate::segment::lemma_segment_names(segment);
    crate::numbers::lemma_hex16_parses(hash);
    let name = segment.spec_name();
    let field = segment.spec_field_name();
    let hex = hex16(hash);
    let ann = phase_annotation(phase);
    let line = egg_entry_line(segment, hash, phase, effect);
    let a = 8 + name.len();
    let b = a + 1 + field.len();
    let c = b + 6;
    let d = c + 16 + 4 + ann.len() + 4;
    assert forall|j: int| 0 <= j < line.len() implies line[j] != '\n' by {
        if 8 <= j < a {
            assert(line[j] == name[j - 8]);
        } else if a + 1 <= j < b {
            assert(line[j] == field[j - a - 1]);
        } else if c <= j < c + 16 {
            assert(line[j] == hex[j - c]);
        } else if d <= j < d + effect.len() {
            assert(line[j] == effect[j - d]);
            if effect[j - d] == '\n' {
                assert(effect.contains('\n'));
            }
        }
    }
}

/// An easter egg added with the registration tool is read back from the edited table
/// source: for an effect text that can be read back (see `lemma_egg_entry_roundtrip`)
/// and holds no newline, the eggs parsed from the edited source include the new one.
pub proof fn lemma_inserted_egg_is_read(content: Seq<char>, segment: Segment, hash: u64, phase: Phase, effect: Seq<char>)
    requires
        with_egg_entry(content, egg_entry_line(segment, hash, phase, effect)) is Some,
        names_no_phase(effect),
        !effect.contains('\n'),
        trim(effect) == effect,
        effect.len() > 0 ==> effect.last() != ';',
    ensures
        parse_egg_lines(lines(with_egg_entry(content, egg_entry_line(segment, hash, phase, effect))->0)).contains(
            (hash, phase, effect),
        ),
{
    let e = egg_entry_line(segment, hash, phase, effect);
    let p = rfind(content, "    })"@)->0;
    crate::text::lemma_rfind_before(content, "    })"@, content.len() + 1 as int);
    let a = content.take(p);
    let b = content.skip(p);
    let new = with_egg_entry(content, e)->0;
    assert(new =~= a + seq!['\n'] + (e + seq!['\n'] + b));
    crate::text::lemma_lines_split(a, e + seq!['\n'] + b);
    crate::text::lemma_lines_split(e, b);
    lemma_egg_entry_no_newline(segment, hash, phase, effect);
    crate::text::lemma_lines_single(e);
    let la = lines(a + seq!['\n']);
    let lb = lines(b);
    assert(lines(new) == la + (seq![crate::text::strip_cr(e)] + lb));
    lemma_parse_egg_lines_append(la, seq![crate::text::strip_cr(e)] + lb);
    lemma_parse_egg_lines_append(seq![crate::text::strip_cr(e)], lb);
    crate::text::lemma_trim_strip_cr(e);
    lemma_egg_entry_roundtrip(segment, hash, phase, effect);
    assert(seq![crate::text::strip_cr(e)].drop_last() =~= Seq::<Seq<char>>::empty());
    assert(parse_egg_line(crate::text::strip_cr(e)) == parse_egg_line(e));
    assert(seq![crate::text::strip_cr(e)].last() == crate::text::strip_cr(e));
    assert(parse_egg_lines(Seq::<Seq<char>>::empty()) =~= Seq::<(u64, Phase, Seq<char>)>::empty());
    assert(parse_egg_line(e) == Some((hash, phase, effect)));
    let mid = parse_egg_lines(seq![crate::text::strip_cr(e)]);
    assert(mid == parse_egg_lines(Seq::<Seq<char>>::empty()).push((hash, phase, effect)));
    assert(mid =~= seq![(hash, phase, effect)]);
    let all = parse_egg_lines(la) + (mid + parse_egg_lines(lb));
    assert(all[parse_egg_lines(la).len() as int] == (hash, phase, effect));
}

} // verus!
