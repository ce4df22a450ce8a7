use vstd::prelude::*;

use crate::fnv::{fnv1a, spec_fnv1a};
use crate::random::{choose_from, thread_rng};

verus! {

/// The five parts a joke is assembled from, in the order they are played.
#[derive(Debug, Clone, Copy, PartialEq, Eq, Structural)]
pub enum Segment {
    Base,
    Adjective,
    Clause,
    Action,
    Reaction,
}

/// When an effect fires relative to the playback of its segment.
#[derive(Debug, Clone, Copy, PartialEq, Eq, Structural)]
pub enum Phase {
    Before,
    During,
    After,
}

/// The segments in playback order.
pub open spec fn segment_order() -> Seq<Segment> {
    seq![Segment::Base, Segment::Adjective, Segment::Clause, Segment::Action, Segment::Reaction]
}

impl Segment {
    /// Display name of the segment.
    pub open spec fn spec_name(self) -> Seq<char> {
        match self {
            Segment::Base => "Base"@,
            Segment::Adjective => "Adjective"@,
            Segment::Clause => "Clause"@,
            Segment::Action => "Action"@,
            Segment::Reaction => "Reaction"@,
        }
    }

    /// Name of the joke field (and asset directory) of the segment.
    pub open spec fn spec_field_name(self) -> Seq<char> {
        match self {
            Segment::Base => "base"@,
            Segment::Adjective => "adjective"@,
            Segment::Clause => "clause"@,
            Segment::Action => "action"@,
            Segment::Reaction => "reaction"@,
        }
    }

    /// The display name, e.g. `"Adjective"`.
    pub fn name(self) -> (r: &'static str)
        ensures
            r@ == self.spec_name(),
    {
        proof {
            reveal_strlit("Base");
            reveal_strlit("Adjective");
            reveal_strlit("Clause");
            reveal_strlit("Action");
            reveal_strlit("Reaction");
        }
        match self {
            Segment::Base => "Base",
            Segment::Adjective => "Adjective",
            Segment::Clause => "Clause",
            Segment::Action => "Action",
            Segment::Reaction => "Reaction",
        }
    }

    /// The field name, e.g. `"adjective"`.
    pub fn field_name(self) -> (r: &'static str)
        ensures
            r@ == self.spec_field_name(),
    {
        proof {
            reveal_strlit("base");
            reveal_strlit("adjective");
            reveal_strlit("clause");
            reveal_strlit("action");
            reveal_strlit("reaction");
        }
        match self {
            Segment::Base => "base",
            Segment::Adjective => "adjective",
            Segment::Clause => "clause",
            Segment::Action => "action",
            Segment::Reaction => "reaction",
        }
    }

    /// All segments in playback order.
    pub fn all() -> (r: Vec<Segment>)
        ensures
            r@ == segment_order(),
    {
        vec![Segment::Base, Segment::Adjective, Segment::Clause, Segment::Action, Segment::Reaction]
    }

    /// The clips of this segment's category in the catalog.
    pub fn all_clips(self, catalog: &SegmentCatalog) -> (r: &[SegmentClip])
        ensures
            r@ == catalog.clips_of(self),
    {
        match self {
            Segment::Base => catalog.base.as_slice(),
            Segment::Adjective => catalog.adjective.as_slice(),
            Segment::Clause => catalog.clause.as_slice(),
            Segment::Action => catalog.action.as_slice(),
            Segment::Reaction => catalog.reaction.as_slice(),
        }
    }
}

/// One recorded audio clip: its mp3 bytes, its content hash and its file name.
#[derive(Debug, Clone)]
pub struct SegmentClip {
    pub data: Vec<u8>,
    pub hash: u64,
    pub name: String,
}

/// Clips compare equal exactly when their hashes are equal.
impl PartialEq for SegmentClip {
    fn eq(&self, other: &Self) -> (r: bool) {
        self.hash == other.hash
    }
}

impl vstd::std_specs::cmp::PartialEqSpecImpl for SegmentClip {
    open spec fn obeys_eq_spec() -> bool {
        true
    }

    open spec fn eq_spec(&self, other: &Self) -> bool {
        self.hash == other.hash
    }
}

impl Eq for SegmentClip {
}

impl SegmentClip {
    /// The clip recorded in the file `name` with contents `data`; its hash is the FNV-1a
    /// hash of the contents.
    pub fn from_file(name: String, data: Vec<u8>) -> (r: SegmentClip)
        ensures
            r.name@ == name@,
            r.data@ == data@,
            r.hash == spec_fnv1a(data@),
    {
        let hash = fnv1a(data.as_slice());
        SegmentClip { data, hash, name }
    }
}

/// All recorded clips, one list per segment category.
pub struct SegmentCatalog {
    pub base: Vec<SegmentClip>,
    pub adjective: Vec<SegmentClip>,
    pub clause: Vec<SegmentClip>,
    pub action: Vec<SegmentClip>,
    pub reaction: Vec<SegmentClip>,
}

impl SegmentCatalog {
    pub open spec fn clips_of(&self, segment: Segment) -> Seq<SegmentClip> {
        match segment {
            Segment::Base => self.base@,
            Segment::Adjective => self.adjective@,
            Segment::Clause => self.clause@,
            Segment::Action => self.action@,
            Segment::Reaction => self.reaction@,
        }
    }

    /// Every category holds at least one clip.
    pub open spec fn complete(&self) -> bool {
        forall|s: Segment| #[trigger] self.clips_of(s).len() > 0
    }
}

/// One joke: a clip for each segment.
#[derive(Debug, Clone, Copy)]
pub struct YoMamaJoke<'a> {
    pub base: &'a SegmentClip,
    pub adjective: &'a SegmentClip,
    pub clause: &'a SegmentClip,
    pub action: &'a SegmentClip,
    pub reaction: &'a SegmentClip,
}

impl<'a> YoMamaJoke<'a> {
    pub open spec fn spec_clip(self, segment: Segment) -> SegmentClip {
        match segment {
            Segment::Base => *self.base,
            Segment::Adjective => *self.adjective,
            Segment::Clause => *self.clause,
            Segment::Action => *self.action,
            Segment::Reaction => *self.reaction,
        }
    }

    /// Every clip of the joke comes from its category of the catalog.
    pub open spec fn drawn_from(self, catalog: &SegmentCatalog) -> bool {
        forall|s: Segment| #[trigger] catalog.clips_of(s).contains(self.spec_clip(s))
    }

    /// A joke with one clip drawn at random from each category of the catalog.
    pub fn generate(catalog: &'a SegmentCatalog) -> (joke: YoMamaJoke<'a>)
        requires
            catalog.complete(),
        ensures
            joke.drawn_from(catalog),
    {
        assert(catalog.clips_of(Segment::Base).len() > 0);
        assert(catalog.clips_of(Segment::Adjective).len() > 0);
        assert(catalog.clips_of(Segment::Clause).len() > 0);
        assert(catalog.clips_of(Segment::Action).len() > 0);
        assert(catalog.clips_of(Segment::Reaction).len() > 0);
        let mut rng = thread_rng();
        let base = choose_from(catalog.base.as_slice(), &mut rng).unwrap();
        let adjective = choose_from(catalog.adjective.as_slice(), &mut rng).unwrap();
        let clause = choose_from(catalog.clause.as_slice(), &mut rng).unwrap();
        let action = choose_from(catalog.action.as_slice(), &mut rng).unwrap();
        let reaction = choose_from(catalog.reaction.as_slice(), &mut rng).unwrap();
        let joke = YoMamaJoke { base, adjective, clause, action, reaction };
        assert forall|s: Segment| #[trigger] catalog.clips_of(s).contains(joke.spec_clip(s)) by {
            match s {
                Segment::Base => {},
                Segment::Adjective => {},
                Segment::Clause => {},
                Segment::Action => {},
                Segment::Reaction => {},
            }
        }
        joke
    }

    /// The clip the joke plays for `segment`.
    pub fn clip(&self, segment: Segment) -> (r: &'a SegmentClip)
        ensures
            *r == self.spec_clip(segment),
    {
        match segment {
            Segment::Base => self.base,
            Segment::Adjective => self.adjective,
            Segment::Clause => self.clause,
            Segment::Action => self.action,
            Segment::Reaction => self.reaction,
        }
    }
}

} // verus!

verus! {

/// An ASCII letter.
pub open spec fn is_ascii_letter(c: char) -> bool {
    ('a' <= c && c <= 'z') || ('A' <= c && c <= 'Z')
}

/// `s` with its ASCII capital letters made small.
pub open spec fn lower_case(s: Seq<char>) -> Seq<char> {
    s.map_values(|c: char| crate::registry::ascii_lower(c))
}

/// The field name of a segment, which names its joke field, its asset directory and its
/// clip constants, is its display name in lower case; and segments are told apart by
/// both names.
pub proof fn lemma_field_name_is_lower_name(s: Segment, t: Segment)
    ensures
        s.spec_field_name() == lower_case(s.spec_name()),
        s != t ==> s.spec_name() != t.spec_name(),
        s != t ==> s.spec_field_name() != t.spec_field_name(),
{
    reveal_strlit("Base");
    reveal_strlit("Adjective");
    reveal_strlit("Clause");
    reveal_strlit("Action");
    reveal_strlit("Reaction");
    reveal_strlit("base");
    reveal_strlit("adjective");
    reveal_strlit("clause");
    reveal_strlit("action");
    reveal_strlit("reaction");
    assert(s.spec_field_name() =~= lower_case(s.spec_name()));
    if s != t {
        if s.spec_name().len() == t.spec_name().len() {
            assert(s.spec_name()[0] != t.spec_name()[0]);
        }
        if s.spec_field_name().len() == t.spec_field_name().len() {
            assert(s.spec_field_name()[0] != t.spec_field_name()[0]);
        }
    }
}

/// The display and field names of a segment are non-empty words of ASCII letters.
pub proof fn lemma_segment_names(s: Segment)
    ensures
        s.spec_name().len() > 0,
        s.spec_field_name().len() > 0,
        forall|i: int| 0 <= i < s.spec_name().len() ==> is_ascii_letter(#[trigger] s.spec_name()[i]),
        forall|i: int| 0 <= i < s.spec_field_name().len() ==> is_ascii_letter(#[trigger] s.spec_field_name()[i]),
{
    reveal_strlit("Base");
    reveal_strlit("Adjective");
    reveal_strlit("Clause");
    reveal_strlit("Action");
    reveal_strlit("Reaction");
    reveal_strlit("base");
    reveal_strlit("adjective");
    reveal_strlit("clause");
    reveal_strlit("action");
    reveal_strlit("reaction");
}

} // verus!
