use vstd::prelude::*;

use crate::fnv::spec_fnv1a;
use crate::registry::{is_clip_file, spec_is_clip_file};
use crate::segment::{Segment, SegmentCatalog, SegmentClip};
use crate::text::chars_of;

verus! {

broadcast use vstd::string::group_string_axioms;

// ---------------------------------------------------------------------------
// Name order
// ---------------------------------------------------------------------------

/// `a` comes no later than `b` in the order in which `str` values compare: character by
/// character (by code point, which is the order of their UTF-8 bytes), a prefix first.
pub open spec fn name_le(a: Seq<char>, b: Seq<char>) -> bool
    decreases a.len(),
{
    if a.len() == 0 {
        true
    } else if b.len() == 0 {
        false
    } else if a[0] != b[0] {
        a[0] < b[0]
    } else {
        name_le(a.drop_first(), b.drop_first())
    }
}

proof fn lemma_name_le_total(a: Seq<char>, b: Seq<char>)
    ensures
        name_le(a, b) || name_le(b, a),
    decreases a.len(),
{
    if a.len() > 0 && b.len() > 0 && a[0] == b[0] {
        lemma_name_le_total(a.drop_first(), b.drop_first());
    }
}

proof fn lemma_name_le_trans(a: Seq<char>, b: Seq<char>, c: Seq<char>)
    requires
        name_le(a, b),
        name_le(b, c),
    ensures
        name_le(a, c),
    decreases a.len(),
{
    if a.len() > 0 && b.len() > 0 && c.len() > 0 && a[0] == b[0] && b[0] == c[0] {
        lemma_name_le_trans(a.drop_first(), b.drop_first(), c.drop_first());
    }
}

fn name_le_exec(a: &[char], b: &[char]) -> (r: bool)
    ensures
        r == name_le(a@, b@),
{
    let mut i: usize = 0;
    assert(a@.skip(0) =~= a@);
    assert(b@.skip(0) =~= b@);
    while i < a.len() && i < b.len() && a[i] == b[i]
        invariant
            i <= a@.len(),
            i <= b@.len(),
            name_le(a@, b@) == name_le(a@.skip(i as int), b@.skip(i as int)),
        decreases a.len() - i,
    {
        assert(a@.skip(i as int).drop_first() =~= a@.skip(i + 1));
        assert(b@.skip(i as int).drop_first() =~= b@.skip(i + 1));
        i += 1;
    }
    if i == a.len() {
        true
    } else if i == b.len() {
        false
    } else {
        a[i] < b[i]
    }
}

// ---------------------------------------------------------------------------
// Categories
// ---------------------------------------------------------------------------

/// The clips are ordered by file name.
pub open spec fn names_sorted(s: Seq<SegmentClip>) -> bool {
    forall|i: int, j: int| 0 <= i < j < s.len() ==> name_le(#[trigger] s[i].name@, #[trigger] s[j].name@)
}

/// Each clip is an `.mp3` file whose hash is the FNV-1a hash of its contents.
pub open spec fn clips_hashed(s: Seq<SegmentClip>) -> bool {
    forall|i: int| 0 <= i < s.len() ==> spec_is_clip_file(#[trigger] s[i].name@) && s[i].hash == spec_fnv1a(
        s[i].data@,
    )
}

/// A clip as its file name and contents.
pub open spec fn clip_views(s: Seq<SegmentClip>) -> Seq<(Seq<char>, Seq<u8>)> {
    s.map_values(|c: SegmentClip| (c.name@, c.data@))
}

/// Directory entries as file names and contents.
pub open spec fn entry_views(v: Seq<(String, Vec<u8>)>) -> Seq<(Seq<char>, Seq<u8>)> {
    v.map_values(|e: (String, Vec<u8>)| (e.0@, e.1@))
}

/// The entries that are clip files, in order.
pub open spec fn clip_entries(v: Seq<(Seq<char>, Seq<u8>)>) -> Seq<(Seq<char>, Seq<u8>)>
    decreases v.len(),
{
    if v.len() == 0 {
        seq![]
    } else if spec_is_clip_file(v.last().0) {
        clip_entries(v.drop_last()).push(v.last())
    } else {
        clip_entries(v.drop_last())
    }
}

/// No two entries share a file name, as in a directory.
pub open spec fn distinct_names(v: Seq<(Seq<char>, Seq<u8>)>) -> bool {
    forall|i: int, j: int| 0 <= i < j < v.len() ==> #[trigger] v[i].0 != #[trigger] v[j].0
}

/// No two clips share a file name.
pub open spec fn clip_names_distinct(s: Seq<SegmentClip>) -> bool {
    forall|i: int, j: int| 0 <= i < j < s.len() ==> #[trigger] s[i].name@ != #[trigger] s[j].name@
}

/// The clips of a category made from the directory entries `entries`: exactly the clip
/// files among them, each hashed, ordered by file name (strictly, when the entries'
/// names are distinct, as a directory's are).
pub open spec fn category_of(entries: Seq<(String, Vec<u8>)>, clips: Seq<SegmentClip>) -> bool {
    &&& names_sorted(clips)
    &&& clips_hashed(clips)
    &&& clip_views(clips).to_multiset() == clip_entries(entry_views(entries)).to_multiset()
    &&& distinct_names(entry_views(entries)) ==> clip_names_distinct(clips)
}

fn insertion_point(clips: &Vec<SegmentClip>, name: &str) -> (p: usize)
    ensures
        p <= clips@.len(),
        forall|i: int| 0 <= i < p ==> name_le(#[trigger] clips@[i].name@, name@),
        p < clips@.len() ==> !name_le(clips@[p as int].name@, name@),
{
    let n = chars_of(name);
    let mut p: usize = 0;
    while p < clips.len()
        invariant
            p <= clips@.len(),
            n@ == name@,
            forall|i: int| 0 <= i < p ==> name_le(#[trigger] clips@[i].name@, name@),
        decreases clips.len() - p,
    {
        let c = chars_of(clips[p].name.as_str());
        if !name_le_exec(c.as_slice(), n.as_slice()) {
            return p;
        }
        p += 1;
    }
    p
}

proof fn lemma_insert_sorted(s: Seq<SegmentClip>, p: int, x: SegmentClip)
    requires
        names_sorted(s),
        0 <= p <= s.len(),
        forall|i: int| 0 <= i < p ==> name_le(#[trigger] s[i].name@, x.name@),
        p < s.len() ==> !name_le(s[p].name@, x.name@),
    ensures
        names_sorted(s.insert(p, x)),
{
    let t = s.insert(p, x);
    if p < s.len() {
        lemma_name_le_total(s[p].name@, x.name@);
    }
    assert forall|i: int, j: int| 0 <= i < j < t.len() implies name_le(#[trigger] t[i].name@, #[trigger] t[j].name@) by {
        if j < p {
            assert(t[i] == s[i] && t[j] == s[j]);
        } else if j == p {
            assert(t[i] == s[i] && t[j] == x);
        } else if i < p {
            assert(t[i] == s[i] && t[j] == s[j - 1]);
            if j - 1 > p {
                assert(name_le(s[p].name@, s[j - 1].name@));
                lemma_name_le_trans(x.name@, s[p].name@, s[j - 1].name@);
            }
            lemma_name_le_trans(s[i].name@, x.name@, s[j - 1].name@);
        } else if i == p {
            assert(t[i] == x && t[j] == s[j - 1]);
            if j - 1 > p {
                assert(name_le(s[p].name@, s[j - 1].name@));
                lemma_name_le_trans(x.name@, s[p].name@, s[j - 1].name@);
            }
        } else {
            assert(t[i] == s[i - 1] && t[j] == s[j - 1]);
        }
    }
}

/// The clips of one category from its directory entries (file name and contents): the
/// `.mp3` files among them, each hashed, in file-name order.
pub fn category_from_entries(entries: Vec<(String, Vec<u8>)>) -> (r: Vec<SegmentClip>)
    ensures
        category_of(entries@, r@),
{
    broadcast use vstd::seq_lib::group_to_multiset_ensures, vstd::multiset::group_multiset_axioms;

    let ghost all = entry_views(entries@);
    let ghost given = entries@;
    let mut rest = entries;
    let mut out: Vec<SegmentClip> = Vec::new();
    assert(clip_views(out@) =~= Seq::<(Seq<char>, Seq<u8>)>::empty());
    assert(entry_views(rest@) == all);
    assert(all.take(all.len() as int) =~= all);
    while rest.len() > 0
        invariant
            names_sorted(out@),
            clips_hashed(out@),
            clip_views(out@).to_multiset().add(clip_entries(entry_views(rest@)).to_multiset())
                == clip_entries(all).to_multiset(),
            rest@.len() <= all.len(),
            entry_views(rest@) == all.take(rest@.len() as int),
            forall|i: int| 0 <= i < out@.len() ==> exists|k: int| rest@.len() <= k < all.len() && #[trigger] all[k].0
                == #[trigger] out@[i].name@,
            distinct_names(all) ==> clip_names_distinct(out@),
        decreases rest.len(),
    {
        let ghost before = rest@;
        let (name, data) = rest.pop().unwrap();
        assert(entry_views(rest@) =~= entry_views(before).drop_last());
        assert(entry_views(before).last() == (name@, data@));
        assert(entry_views(rest@) =~= all.take(rest@.len() as int));
        assert(all[rest@.len() as int] == (name@, data@));
        if is_clip_file(name.as_str()) {
            let clip = SegmentClip::from_file(name, data);
            let p = insertion_point(&out, clip.name.as_str());
            let ghost old_out = out@;
            proof {
                lemma_insert_sorted(old_out, p as int, clip);
            }
            out.insert(p, clip);
            assert(clip_views(out@) =~= clip_views(old_out).insert(p as int, (clip.name@, clip.data@)));
            assert forall|i: int| 0 <= i < out@.len() implies spec_is_clip_file(#[trigger] out@[i].name@)
                && out@[i].hash == spec_fnv1a(out@[i].data@) by {
                if i < p {
                    assert(out@[i] == old_out[i]);
                } else if i > p {
                    assert(out@[i] == old_out[i - 1]);
                }
            }
            let ghost n = rest@.len() as int;
            assert forall|i: int| 0 <= i < out@.len() implies exists|k: int| rest@.len() <= k < all.len()
                && #[trigger] all[k].0 == #[trigger] out@[i].name@ by {
                if i < p {
                    assert(out@[i] == old_out[i]);
                    let k = choose|k: int| n + 1 <= k < all.len() && all[k].0 == old_out[i].name@;
                    assert(all[k].0 == out@[i].name@);
                } else if i > p {
                    assert(out@[i] == old_out[i - 1]);
                    let k = choose|k: int| n + 1 <= k < all.len() && all[k].0 == old_out[i - 1].name@;
                    assert(all[k].0 == out@[i].name@);
                } else {
                    assert(all[n].0 == out@[i].name@);
                }
            }
            proof {
                if distinct_names(all) {
                    assert forall|i: int, j: int| 0 <= i < j < out@.len() implies #[trigger] out@[i].name@
                        != #[trigger] out@[j].name@ by {
                        if i != p && j != p {
                            let oi = if i < p { i } else { i - 1 };
                            let oj = if j < p { j } else { j - 1 };
                            assert(out@[i] == old_out[oi]);
                            assert(out@[j] == old_out[oj]);
                            assert(old_out[oi].name@ != old_out[oj].name@);
                        } else {
                            let o = if i == p { j } else { i };
                            let oo = if o < p { o } else { o - 1 };
                            assert(out@[o] == old_out[oo]);
                            let k = choose|k: int| n + 1 <= k < all.len() && all[k].0 == old_out[oo].name@;
                            assert(all[n].0 != all[k].0);
                        }
                    }
                }
            }
            assert(clip_entries(entry_views(before)) == clip_entries(entry_views(rest@)).push(
                (clip.name@, clip.data@),
            ));
            proof {
                vstd::seq_lib::to_multiset_insert(clip_views(old_out), p as int, (clip.name@, clip.data@));
                vstd::seq_lib::to_multiset_build(clip_entries(entry_views(rest@)), (clip.name@, clip.data@));
            }
            assert(clip_views(out@).to_multiset() == clip_views(old_out).to_multiset().insert(
                (clip.name@, clip.data@),
            ));
            assert(clip_views(out@).to_multiset().add(clip_entries(entry_views(rest@)).to_multiset())
                =~= clip_views(old_out).to_multiset().add(clip_entries(entry_views(before)).to_multiset()));
        } else {
            assert(clip_entries(entry_views(before)) == clip_entries(entry_views(rest@)));
            assert forall|i: int| 0 <= i < out@.len() implies exists|k: int| rest@.len() <= k < all.len()
                && #[trigger] all[k].0 == #[trigger] out@[i].name@ by {
                let k = choose|k: int| rest@.len() + 1 <= k < all.len() && all[k].0 == out@[i].name@;
                assert(all[k].0 == out@[i].name@);
            }
        }
    }
    assert(entry_views(rest@) =~= Seq::<(Seq<char>, Seq<u8>)>::empty());
    assert(clip_entries(entry_views(rest@)) =~= Seq::<(Seq<char>, Seq<u8>)>::empty());
    assert(Seq::<(Seq<char>, Seq<u8>)>::empty().to_multiset() =~= vstd::multiset::Multiset::empty());
    assert(all == entry_views(given));
    assert(clip_views(out@).to_multiset().add(vstd::multiset::Multiset::empty()) =~= clip_views(out@).to_multiset());
    out
}

impl SegmentCatalog {
    /// The catalog made from the entries of the five category directories.
    pub fn from_entries(
        base: Vec<(String, Vec<u8>)>,
        adjective: Vec<(String, Vec<u8>)>,
        clause: Vec<(String, Vec<u8>)>,
        action: Vec<(String, Vec<u8>)>,
        reaction: Vec<(String, Vec<u8>)>,
    ) -> (r: SegmentCatalog)
        ensures
            category_of(base@, r.clips_of(Segment::Base)),
            category_of(adjective@, r.clips_of(Segment::Adjective)),
            category_of(clause@, r.clips_of(Segment::Clause)),
            category_of(action@, r.clips_of(Segment::Action)),
            category_of(reaction@, r.clips_of(Segment::Reaction)),
    {
        SegmentCatalog {
            base: category_from_entries(base),
            adjective: category_from_entries(adjective),
            clause: category_from_entries(clause),
            action: category_from_entries(action),
            reaction: category_from_entries(reaction),
        }
    }
}

} // verus!
