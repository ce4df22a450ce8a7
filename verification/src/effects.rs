use vstd::prelude::*;

use crate::assets::Asset;
use crate::segment::{Phase, Segment, YoMamaJoke};

verus! {

/// Opacity given to every overlay that an easter egg shows.
pub const FULL_ALPHA: u8 = 255;

/// What an easter egg does. Scales and volumes are given in percent
/// (a scale of 0.5 is 50, a volume of 5.0 is 500).
#[derive(Debug, Clone, Copy, PartialEq, Eq, Structural)]
pub enum EffectAction {
    Overlay { sprite: Asset, x: i32, y: i32, alpha: u8, scale_percent: Option<u32> },
    AnimatedOverlay { sprite: Asset, x: i32, y: i32, alpha: u8, scale_percent: Option<u32> },
    PlayAudio { audio: Asset, volume_percent: u32 },
    Crash,
}

/// The effect of a rule before it is placed on the screen.
#[derive(Debug, Clone, Copy, PartialEq, Eq, Structural)]
pub enum EffectKind {
    Overlay { sprite: Asset, scale_percent: Option<u32> },
    AnimatedOverlay { sprite: Asset, scale_percent: Option<u32> },
    Audio { audio: Asset, volume_percent: u32 },
    Crash,
}

/// An easter egg: when the joke's clip for `segment` has hash `hash`,
/// `effect` fires in `phase` of that segment.
#[derive(Debug, Clone, Copy, PartialEq, Eq, Structural)]
pub struct EggRule {
    pub segment: Segment,
    pub hash: u64,
    pub phase: Phase,
    pub effect: EffectKind,
}

/// The effect of `kind`, with overlays centred on `(cx, cy)` at full opacity.
pub open spec fn spec_effect_action(kind: EffectKind, cx: i32, cy: i32) -> EffectAction {
    match kind {
        EffectKind::Overlay { sprite, scale_percent } =>
            EffectAction::Overlay { sprite, x: cx, y: cy, alpha: FULL_ALPHA, scale_percent },
        EffectKind::AnimatedOverlay { sprite, scale_percent } =>
            EffectAction::AnimatedOverlay { sprite, x: cx, y: cy, alpha: FULL_ALPHA, scale_percent },
        EffectKind::Audio { audio, volume_percent } => EffectAction::PlayAudio { audio, volume_percent },
        EffectKind::Crash => EffectAction::Crash,
    }
}

pub fn effect_action(kind: EffectKind, cx: i32, cy: i32) -> (r: EffectAction)
    ensures
        r == spec_effect_action(kind, cx, cy),
{
    match kind {
        EffectKind::Overlay { sprite, scale_percent } =>
            EffectAction::Overlay { sprite, x: cx, y: cy, alpha: FULL_ALPHA, scale_percent },
        EffectKind::AnimatedOverlay { sprite, scale_percent } =>
            EffectAction::AnimatedOverlay { sprite, x: cx, y: cy, alpha: FULL_ALPHA, scale_percent },
        EffectKind::Audio { audio, volume_percent } => EffectAction::PlayAudio { audio, volume_percent },
        EffectKind::Crash => EffectAction::Crash,
    }
}

/// The easter eggs, in the order in which they are checked.
pub open spec fn egg_table() -> Seq<EggRule> {
    seq![
        EggRule { segment: Segment::Reaction, hash: 0xa418f96c5ece67d8u64, phase: Phase::During, effect: EffectKind::Overlay { sprite: Asset::DIMENTIA_SPR, scale_percent: None } },
        EggRule { segment: Segment::Reaction, hash: 0xfe37dde2a5170ebdu64, phase: Phase::During, effect: EffectKind::Overlay { sprite: Asset::FAMILYGUY_SPR, scale_percent: None } },
        EggRule { segment: Segment::Reaction, hash: 0xa3102f64af1ea4e9u64, phase: Phase::During, effect: EffectKind::Overlay { sprite: Asset::DIES_SPR, scale_percent: None } },
        EggRule { segment: Segment::Reaction, hash: 0x5b9a5c4598e14d89u64, phase: Phase::During, effect: EffectKind::Overlay { sprite: Asset::PI_SPR, scale_percent: None } },
        EggRule { segment: Segment::Reaction, hash: 0x099be077819d1a3au64, phase: Phase::During, effect: EffectKind::AnimatedOverlay { sprite: Asset::HEARTATTACK_SPR, scale_percent: None } },
        EggRule { segment: Segment::Reaction, hash: 0x749c85feca15489eu64, phase: Phase::During, effect: EffectKind::Overlay { sprite: Asset::CRIES_SPR, scale_percent: None } },
        EggRule { segment: Segment::Reaction, hash: 0x69a990e91024452au64, phase: Phase::After, effect: EffectKind::Crash },
        EggRule { segment: Segment::Reaction, hash: 0xca6671f9cd189a00u64, phase: Phase::After, effect: EffectKind::Overlay { sprite: Asset::OHCOMEON_SPR, scale_percent: None } },
        EggRule { segment: Segment::Reaction, hash: 0xca6671f9cd189a00u64, phase: Phase::After, effect: EffectKind::Audio { audio: Asset::OHCOMEON, volume_percent: 500 } },
        EggRule { segment: Segment::Reaction, hash: 0x51063ab13115f078u64, phase: Phase::During, effect: EffectKind::Overlay { sprite: Asset::SMASHBROS_SPR, scale_percent: Some(50) } },
        EggRule { segment: Segment::Adjective, hash: 0xfcc84f69b1fd0b0du64, phase: Phase::During, effect: EffectKind::AnimatedOverlay { sprite: Asset::CRACK_SPR, scale_percent: Some(300) } },
        EggRule { segment: Segment::Adjective, hash: 0x19eb879d2845e1bfu64, phase: Phase::During, effect: EffectKind::Overlay { sprite: Asset::STUPID_SPR, scale_percent: None } },
        EggRule { segment: Segment::Adjective, hash: 0x002fbb04f43e9019u64, phase: Phase::During, effect: EffectKind::Overlay { sprite: Asset::OLD_SPR, scale_percent: None } },
        EggRule { segment: Segment::Adjective, hash: 0x113dcdb52dba766eu64, phase: Phase::During, effect: EffectKind::Overlay { sprite: Asset::ALCHOHOLIC_SPR, scale_percent: None } },
        EggRule { segment: Segment::Adjective, hash: 0xafe3de4e2c58e6d0u64, phase: Phase::During, effect: EffectKind::Overlay { sprite: Asset::FAT_SPR, scale_percent: None } },
        EggRule { segment: Segment::Adjective, hash: 0x839074efae23634eu64, phase: Phase::During, effect: EffectKind::Overlay { sprite: Asset::SHORT_SPR, scale_percent: None } },
        EggRule { segment: Segment::Adjective, hash: 0xec65241c772fbcfdu64, phase: Phase::During, effect: EffectKind::Overlay { sprite: Asset::NERDY_SPR, scale_percent: None } },
        EggRule { segment: Segment::Adjective, hash: 0xffa6fc0079212536u64, phase: Phase::During, effect: EffectKind::Overlay { sprite: Asset::BROKE_SPR, scale_percent: None } },
        EggRule { segment: Segment::Adjective, hash: 0xa46fd0bd7291485bu64, phase: Phase::During, effect: EffectKind::Overlay { sprite: Asset::SKINNY_SPR, scale_percent: None } },
        EggRule { segment: Segment::Adjective, hash: 0x839074efae23634eu64, phase: Phase::During, effect: EffectKind::Overlay { sprite: Asset::SHORT_SPR, scale_percent: None } },
        EggRule { segment: Segment::Adjective, hash: 0x40ddaacd9432fd5bu64, phase: Phase::During, effect: EffectKind::Overlay { sprite: Asset::PALE_SPR, scale_percent: None } },
        EggRule { segment: Segment::Adjective, hash: 0x4f0c60bafd9e6a3cu64, phase: Phase::During, effect: EffectKind::Overlay { sprite: Asset::HYPER_SPR, scale_percent: None } },
        EggRule { segment: Segment::Adjective, hash: 0x47721cfdea81b07cu64, phase: Phase::During, effect: EffectKind::Overlay { sprite: Asset::AMAZING_SPR, scale_percent: None } },
        EggRule { segment: Segment::Adjective, hash: 0x226f58895f387c8cu64, phase: Phase::During, effect: EffectKind::Overlay { sprite: Asset::BLOB_SPR, scale_percent: None } },
        EggRule { segment: Segment::Adjective, hash: 0x145e47ffa3e0ff03u64, phase: Phase::During, effect: EffectKind::Overlay { sprite: Asset::DOWNTOCLOWN_SPR, scale_percent: None } },
        EggRule { segment: Segment::Adjective, hash: 0xfc7d1e861165c7f7u64, phase: Phase::During, effect: EffectKind::Overlay { sprite: Asset::GENERIC_SPR, scale_percent: None } },
        EggRule { segment: Segment::Adjective, hash: 0xfde0a2b2f4f90960u64, phase: Phase::During, effect: EffectKind::Overlay { sprite: Asset::HATEFUL_SPR, scale_percent: None } },
        EggRule { segment: Segment::Adjective, hash: 0x31fc975915707e4eu64, phase: Phase::During, effect: EffectKind::Overlay { sprite: Asset::HORRIBLE_SPR, scale_percent: None } },
        EggRule { segment: Segment::Adjective, hash: 0xd3fc92634da7f716u64, phase: Phase::During, effect: EffectKind::Overlay { sprite: Asset::HOTLADY_SPR, scale_percent: None } },
        EggRule { segment: Segment::Adjective, hash: 0xc01710cfa99ada31u64, phase: Phase::During, effect: EffectKind::Overlay { sprite: Asset::IMMATURE_SPR, scale_percent: None } },
        EggRule { segment: Segment::Adjective, hash: 0x0bc5292431f31a6cu64, phase: Phase::During, effect: EffectKind::Overlay { sprite: Asset::LAXADAISICAL_SPR, scale_percent: None } },
        EggRule { segment: Segment::Adjective, hash: 0x79ccb220c8dd3773u64, phase: Phase::During, effect: EffectKind::Overlay { sprite: Asset::LOUD_SPR, scale_percent: None } },
        EggRule { segment: Segment::Adjective, hash: 0xf23af0dbe289ef87u64, phase: Phase::During, effect: EffectKind::Overlay { sprite: Asset::MEDIOCRE_SPR, scale_percent: None } },
        EggRule { segment: Segment::Adjective, hash: 0x3256e54ae52229fbu64, phase: Phase::During, effect: EffectKind::Overlay { sprite: Asset::RICH_SPR, scale_percent: None } },
        EggRule { segment: Segment::Adjective, hash: 0x68e0c8adb871a256u64, phase: Phase::During, effect: EffectKind::Overlay { sprite: Asset::SIGMA_SPR, scale_percent: None } },
        EggRule { segment: Segment::Adjective, hash: 0x1c8f6d3416d4f5ecu64, phase: Phase::During, effect: EffectKind::Overlay { sprite: Asset::SMART_SPR, scale_percent: None } },
        EggRule { segment: Segment::Adjective, hash: 0x55862f1a88e91125u64, phase: Phase::During, effect: EffectKind::Overlay { sprite: Asset::STRICT_SPR, scale_percent: None } },
        EggRule { segment: Segment::Adjective, hash: 0x033ca7e477991156u64, phase: Phase::During, effect: EffectKind::Overlay { sprite: Asset::TALL_SPR, scale_percent: None } },
        EggRule { segment: Segment::Adjective, hash: 0x7555a1fbb2fd6671u64, phase: Phase::During, effect: EffectKind::Overlay { sprite: Asset::TRASHY_SPR, scale_percent: None } },
        EggRule { segment: Segment::Base, hash: 0x88c0238a9d5bf1c2u64, phase: Phase::During, effect: EffectKind::Overlay { sprite: Asset::MOTHER1_SPR, scale_percent: None } },
        EggRule { segment: Segment::Action, hash: 0x273d49db452e7495u64, phase: Phase::During, effect: EffectKind::Overlay { sprite: Asset::BLOWSNOSE_SPR, scale_percent: None } },
        EggRule { segment: Segment::Action, hash: 0x3aa2f394c5e7c472u64, phase: Phase::During, effect: EffectKind::Overlay { sprite: Asset::DESPICABLEME3_SPR, scale_percent: None } },
        EggRule { segment: Segment::Action, hash: 0xd9381b779d0f8f94u64, phase: Phase::During, effect: EffectKind::Overlay { sprite: Asset::SCOTTPILGRIM4_SPR, scale_percent: None } },
    ]
}

/// The easter eggs, in the order in which they are checked.
pub fn easter_egg_rules() -> (r: Vec<EggRule>)
    ensures
        r@ == egg_table(),
{
    vec![
        EggRule { segment: Segment::Reaction, hash: 0xa418f96c5ece67d8u64, phase: Phase::During, effect: EffectKind::Overlay { sprite: Asset::DIMENTIA_SPR, scale_percent: None } },
        EggRule { segment: Segment::Reaction, hash: 0xfe37dde2a5170ebdu64, phase: Phase::During, effect: EffectKind::Overlay { sprite: Asset::FAMILYGUY_SPR, scale_percent: None } },
        EggRule { segment: Segment::Reaction, hash: 0xa3102f64af1ea4e9u64, phase: Phase::During, effect: EffectKind::Overlay { sprite: Asset::DIES_SPR, scale_percent: None } },
        EggRule { segment: Segment::Reaction, hash: 0x5b9a5c4598e14d89u64, phase: Phase::During, effect: EffectKind::Overlay { sprite: Asset::PI_SPR, scale_percent: None } },
        EggRule { segment: Segment::Reaction, hash: 0x099be077819d1a3au64, phase: Phase::During, effect: EffectKind::AnimatedOverlay { sprite: Asset::HEARTATTACK_SPR, scale_percent: None } },
        EggRule { segment: Segment::Reaction, hash: 0x749c85feca15489eu64, phase: Phase::During, effect: EffectKind::Overlay { sprite: Asset::CRIES_SPR, scale_percent: None } },
        EggRule { segment: Segment::Reaction, hash: 0x69a990e91024452au64, phase: Phase::After, effect: EffectKind::Crash },
        EggRule { segment: Segment::Reaction, hash: 0xca6671f9cd189a00u64, phase: Phase::After, effect: EffectKind::Overlay { sprite: Asset::OHCOMEON_SPR, scale_percent: None } },
        EggRule { segment: Segment::Reaction, hash: 0xca6671f9cd189a00u64, phase: Phase::After, effect: EffectKind::Audio { audio: Asset::OHCOMEON, volume_percent: 500 } },
        EggRule { segment: Segment::Reaction, hash: 0x51063ab13115f078u64, phase: Phase::During, effect: EffectKind::Overlay { sprite: Asset::SMASHBROS_SPR, scale_percent: Some(50) } },
        EggRule { segment: Segment::Adjective, hash: 0xfcc84f69b1fd0b0du64, phase: Phase::During, effect: EffectKind::AnimatedOverlay { sprite: Asset::CRACK_SPR, scale_percent: Some(300) } },
        EggRule { segment: Segment::Adjective, hash: 0x19eb879d2845e1bfu64, phase: Phase::During, effect: EffectKind::Overlay { sprite: Asset::STUPID_SPR, scale_percent: None } },
        EggRule { segment: Segment::Adjective, hash: 0x002fbb04f43e9019u64, phase: Phase::During, effect: EffectKind::Overlay { sprite: Asset::OLD_SPR, scale_percent: None } },
        EggRule { segment: Segment::Adjective, hash: 0x113dcdb52dba766eu64, phase: Phase::During, effect: EffectKind::Overlay { sprite: Asset::ALCHOHOLIC_SPR, scale_percent: None } },
        EggRule { segment: Segment::Adjective, hash: 0xafe3de4e2c58e6d0u64, phase: Phase::During, effect: EffectKind::Overlay { sprite: Asset::FAT_SPR, scale_percent: None } },
        EggRule { segment: Segment::Adjective, hash: 0x839074efae23634eu64, phase: Phase::During, effect: EffectKind::Overlay { sprite: Asset::SHORT_SPR, scale_percent: None } },
        EggRule { segment: Segment::Adjective, hash: 0xec65241c772fbcfdu64, phase: Phase::During, effect: EffectKind::Overlay { sprite: Asset::NERDY_SPR, scale_percent: None } },
        EggRule { segment: Segment::Adjective, hash: 0xffa6fc0079212536u64, phase: Phase::During, effect: EffectKind::Overlay { sprite: Asset::BROKE_SPR, scale_percent: None } },
        EggRule { segment: Segment::Adjective, hash: 0xa46fd0bd7291485bu64, phase: Phase::During, effect: EffectKind::Overlay { sprite: Asset::SKINNY_SPR, scale_percent: None } },
        EggRule { segment: Segment::Adjective, hash: 0x839074efae23634eu64, phase: Phase::During, effect: EffectKind::Overlay { sprite: Asset::SHORT_SPR, scale_percent: None } },
        EggRule { segment: Segment::Adjective, hash: 0x40ddaacd9432fd5bu64, phase: Phase::During, effect: EffectKind::Overlay { sprite: Asset::PALE_SPR, scale_percent: None } },
        EggRule { segment: Segment::Adjective, hash: 0x4f0c60bafd9e6a3cu64, phase: Phase::During, effect: EffectKind::Overlay { sprite: Asset::HYPER_SPR, scale_percent: None } },
        EggRule { segment: Segment::Adjective, hash: 0x47721cfdea81b07cu64, phase: Phase::During, effect: EffectKind::Overlay { sprite: Asset::AMAZING_SPR, scale_percent: None } },
        EggRule { segment: Segment::Adjective, hash: 0x226f58895f387c8cu64, phase: Phase::During, effect: EffectKind::Overlay { sprite: Asset::BLOB_SPR, scale_percent: None } },
        EggRule { segment: Segment::Adjective, hash: 0x145e47ffa3e0ff03u64, phase: Phase::During, effect: EffectKind::Overlay { sprite: Asset::DOWNTOCLOWN_SPR, scale_percent: None } },
        EggRule { segment: Segment::Adjective, hash: 0xfc7d1e861165c7f7u64, phase: Phase::During, effect: EffectKind::Overlay { sprite: Asset::GENERIC_SPR, scale_percent: None } },
        EggRule { segment: Segment::Adjective, hash: 0xfde0a2b2f4f90960u64, phase: Phase::During, effect: EffectKind::Overlay { sprite: Asset::HATEFUL_SPR, scale_percent: None } },
        EggRule { segment: Segment::Adjective, hash: 0x31fc975915707e4eu64, phase: Phase::During, effect: EffectKind::Overlay { sprite: Asset::HORRIBLE_SPR, scale_percent: None } },
        EggRule { segment: Segment::Adjective, hash: 0xd3fc92634da7f716u64, phase: Phase::During, effect: EffectKind::Overlay { sprite: Asset::HOTLADY_SPR, scale_percent: None } },
        EggRule { segment: Segment::Adjective, hash: 0xc01710cfa99ada31u64, phase: Phase::During, effect: EffectKind::Overlay { sprite: Asset::IMMATURE_SPR, scale_percent: None } },
        EggRule { segment: Segment::Adjective, hash: 0x0bc5292431f31a6cu64, phase: Phase::During, effect: EffectKind::Overlay { sprite: Asset::LAXADAISICAL_SPR, scale_percent: None } },
        EggRule { segment: Segment::Adjective, hash: 0x79ccb220c8dd3773u64, phase: Phase::During, effect: EffectKind::Overlay { sprite: Asset::LOUD_SPR, scale_percent: None } },
        EggRule { segment: Segment::Adjective, hash: 0xf23af0dbe289ef87u64, phase: Phase::During, effect: EffectKind::Overlay { sprite: Asset::MEDIOCRE_SPR, scale_percent: None } },
        EggRule { segment: Segment::Adjective, hash: 0x3256e54ae52229fbu64, phase: Phase::During, effect: EffectKind::Overlay { sprite: Asset::RICH_SPR, scale_percent: None } },
        EggRule { segment: Segment::Adjective, hash: 0x68e0c8adb871a256u64, phase: Phase::During, effect: EffectKind::Overlay { sprite: Asset::SIGMA_SPR, scale_percent: None } },
        EggRule { segment: Segment::Adjective, hash: 0x1c8f6d3416d4f5ecu64, phase: Phase::During, effect: EffectKind::Overlay { sprite: Asset::SMART_SPR, scale_percent: None } },
        EggRule { segment: Segment::Adjective, hash: 0x55862f1a88e91125u64, phase: Phase::During, effect: EffectKind::Overlay { sprite: Asset::STRICT_SPR, scale_percent: None } },
        EggRule { segment: Segment::Adjective, hash: 0x033ca7e477991156u64, phase: Phase::During, effect: EffectKind::Overlay { sprite: Asset::TALL_SPR, scale_percent: None } },
        EggRule { segment: Segment::Adjective, hash: 0x7555a1fbb2fd6671u64, phase: Phase::During, effect: EffectKind::Overlay { sprite: Asset::TRASHY_SPR, scale_percent: None } },
        EggRule { segment: Segment::Base, hash: 0x88c0238a9d5bf1c2u64, phase: Phase::During, effect: EffectKind::Overlay { sprite: Asset::MOTHER1_SPR, scale_percent: None } },
        EggRule { segment: Segment::Action, hash: 0x273d49db452e7495u64, phase: Phase::During, effect: EffectKind::Overlay { sprite: Asset::BLOWSNOSE_SPR, scale_percent: None } },
        EggRule { segment: Segment::Action, hash: 0x3aa2f394c5e7c472u64, phase: Phase::During, effect: EffectKind::Overlay { sprite: Asset::DESPICABLEME3_SPR, scale_percent: None } },
        EggRule { segment: Segment::Action, hash: 0xd9381b779d0f8f94u64, phase: Phase::During, effect: EffectKind::Overlay { sprite: Asset::SCOTTPILGRIM4_SPR, scale_percent: None } },
    ]
}

/// The effects that `rules` trigger for `joke`, in rule order: one entry per rule whose
/// hash equals the hash of the joke's clip for the rule's segment.
pub open spec fn triggered(rules: Seq<EggRule>, joke: YoMamaJoke, cx: i32, cy: i32) -> Seq<(Segment, Phase, EffectAction)>
    decreases rules.len(),
{
    if rules.len() == 0 {
        seq![]
    } else {
        let earlier = triggered(rules.drop_last(), joke, cx, cy);
        let rule = rules.last();
        if joke.spec_clip(rule.segment).hash == rule.hash {
            earlier.push((rule.segment, rule.phase, spec_effect_action(rule.effect, cx, cy)))
        } else {
            earlier
        }
    }
}

/// The easter eggs that fire for `joke`, with overlays centred on `center`.
pub fn register(joke: &YoMamaJoke, center: (i32, i32)) -> (r: Vec<(Segment, Phase, EffectAction)>)
    ensures
        r@ == triggered(egg_table(), *joke, center.0, center.1),
{
    let (cx, cy) = center;
    let rules = easter_egg_rules();
    let mut effects: Vec<(Segment, Phase, EffectAction)> = Vec::new();
    let mut i: usize = 0;
    while i < rules.len()
        invariant
            i <= rules.len(),
            rules@ == egg_table(),
            effects@ == triggered(rules@.take(i as int), *joke, cx, cy),
        decreases rules.len() - i,
    {
        let rule = rules[i];
        let clip = joke.clip(rule.segment);
        if clip.hash == rule.hash {
            effects.push((rule.segment, rule.phase, effect_action(rule.effect, cx, cy)));
        }
        assert(rules@.take(i + 1).drop_last() =~= rules@.take(i as int));
        i += 1;
    }
    assert(rules@.take(rules.len() as int) =~= rules@);
    effects
}

} // verus!

verus! {

/// A rule of `rules` whose hash matches the joke's clip fires: its effect, placed at the
/// centre, is among the triggered effects.
pub proof fn lemma_matching_rule_fires(rules: Seq<EggRule>, joke: YoMamaJoke, cx: i32, cy: i32, i: int)
    requires
        0 <= i < rules.len(),
        joke.spec_clip(rules[i].segment).hash == rules[i].hash,
    ensures
        triggered(rules, joke, cx, cy).contains((rules[i].segment, rules[i].phase, spec_effect_action(rules[i].effect, cx, cy))),
    decreases rules.len(),
{
    let e = (rules[i].segment, rules[i].phase, spec_effect_action(rules[i].effect, cx, cy));
    if i == rules.len() - 1 {
        assert(triggered(rules, joke, cx, cy).last() == e);
    } else {
        lemma_matching_rule_fires(rules.drop_last(), joke, cx, cy, i);
        let earlier = triggered(rules.drop_last(), joke, cx, cy);
        let k = choose|k: int| 0 <= k < earlier.len() && earlier[k] == e;
        assert(triggered(rules, joke, cx, cy)[k] == e);
    }
}

/// Every easter egg on a reaction clip fires when the joke's reaction clip has its hash: the
/// overlay, animation, sound or crash of that egg, in its phase, overlays at the centre.
#[verifier::rlimit(50)]
pub proof fn lemma_reaction_eggs_fire(joke: YoMamaJoke, cx: i32, cy: i32)
    ensures
        joke.spec_clip(Segment::Reaction).hash == 0xa418f96c5ece67d8u64 ==> triggered(egg_table(), joke, cx, cy).contains(
            (Segment::Reaction, Phase::During, (EffectAction::Overlay { sprite: Asset::DIMENTIA_SPR, x: cx, y: cy, alpha: 255u8, scale_percent: None })),
        ),
        joke.spec_clip(Segment::Reaction).hash == 0xfe37dde2a5170ebdu64 ==> triggered(egg_table(), joke, cx, cy).contains(
            (Segment::Reaction, Phase::During, (EffectAction::Overlay { sprite: Asset::FAMILYGUY_SPR, x: cx, y: cy, alpha: 255u8, scale_percent: None })),
        ),
        joke.spec_clip(Segment::Reaction).hash == 0xa3102f64af1ea4e9u64 ==> triggered(egg_table(), joke, cx, cy).contains(
            (Segment::Reaction, Phase::During, (EffectAction::Overlay { sprite: Asset::DIES_SPR, x: cx, y: cy, alpha: 255u8, scale_percent: None })),
        ),
        joke.spec_clip(Segment::Reaction).hash == 0x5b9a5c4598e14d89u64 ==> triggered(egg_table(), joke, cx, cy).contains(
            (Segment::Reaction, Phase::During, (EffectAction::Overlay { sprite: Asset::PI_SPR, x: cx, y: cy, alpha: 255u8, scale_percent: None })),
        ),
        joke.spec_clip(Segment::Reaction).hash == 0x099be077819d1a3au64 ==> triggered(egg_table(), joke, cx, cy).contains(
            (Segment::Reaction, Phase::During, (EffectAction::AnimatedOverlay { sprite: Asset::HEARTATTACK_SPR, x: cx, y: cy, alpha: 255u8, scale_percent: None })),
        ),
        joke.spec_clip(Segment::Reaction).hash == 0x749c85feca15489eu64 ==> triggered(egg_table(), joke, cx, cy).contains(
            (Segment::Reaction, Phase::During, (EffectAction::Overlay { sprite: Asset::CRIES_SPR, x: cx, y: cy, alpha: 255u8, scale_percent: None })),
        ),
        joke.spec_clip(Segment::Reaction).hash == 0x69a990e91024452au64 ==> triggered(egg_table(), joke, cx, cy).contains(
            (Segment::Reaction, Phase::After, EffectAction::Crash),
        ),
        joke.spec_clip(Segment::Reaction).hash == 0xca6671f9cd189a00u64 ==> triggered(egg_table(), joke, cx, cy).contains(
            (Segment::Reaction, Phase::After, (EffectAction::Overlay { sprite: Asset::OHCOMEON_SPR, x: cx, y: cy, alpha: 255u8, scale_percent: None })),
        ),
        joke.spec_clip(Segment::Reaction).hash == 0xca6671f9cd189a00u64 ==> triggered(egg_table(), joke, cx, cy).contains(
            (Segment::Reaction, Phase::After, (EffectAction::PlayAudio { audio: Asset::OHCOMEON, volume_percent: 500u32 })),
        ),
        joke.spec_clip(Segment::Reaction).hash == 0x51063ab13115f078u64 ==> triggered(egg_table(), joke, cx, cy).contains(
            (Segment::Reaction, Phase::During, (EffectAction::Overlay { sprite: Asset::SMASHBROS_SPR, x: cx, y: cy, alpha: 255u8, scale_percent: Some(50u32) })),
        ),
{
    if joke.spec_clip(Segment::Reaction).hash == 0xa418f96c5ece67d8u64 {
        lemma_matching_rule_fires(egg_table(), joke, cx, cy, 0);
    }
    if joke.spec_clip(Segment::Reaction).hash == 0xfe37dde2a5170ebdu64 {
        lemma_matching_rule_fires(egg_table(), joke, cx, cy, 1);
    }
    if joke.spec_clip(Segment::Reaction).hash == 0xa3102f64af1ea4e9u64 {
        lemma_matching_rule_fires(egg_table(), joke, cx, cy, 2);
    }
    if joke.spec_clip(Segment::Reaction).hash == 0x5b9a5c4598e14d89u64 {
        lemma_matching_rule_fires(egg_table(), joke, cx, cy, 3);
    }
    if joke.spec_clip(Segment::Reaction).hash == 0x099be077819d1a3au64 {
        lemma_matching_rule_fires(egg_table(), joke, cx, cy, 4);
    }
    if joke.spec_clip(Segment::Reaction).hash == 0x749c85feca15489eu64 {
        lemma_matching_rule_fires(egg_table(), joke, cx, cy, 5);
    }
    if joke.spec_clip(Segment::Reaction).hash == 0x69a990e91024452au64 {
        lemma_matching_rule_fires(egg_table(), joke, cx, cy, 6);
    }
    if joke.spec_clip(Segment::Reaction).hash == 0xca6671f9cd189a00u64 {
        lemma_matching_rule_fires(egg_table(), joke, cx, cy, 7);
    }
    if joke.spec_clip(Segment::Reaction).hash == 0xca6671f9cd189a00u64 {
        lemma_matching_rule_fires(egg_table(), joke, cx, cy, 8);
    }
    if joke.spec_clip(Segment::Reaction).hash == 0x51063ab13115f078u64 {
        lemma_matching_rule_fires(egg_table(), joke, cx, cy, 9);
    }
}

/// Every easter egg on a adjective clip fires when the joke's adjective clip has its hash: the
/// overlay, animation, sound or crash of that egg, in its phase, overlays at the centre.
#[verifier::rlimit(50)]
pub proof fn lemma_adjective_eggs_fire(joke: YoMamaJoke, cx: i32, cy: i32)
    ensures
        joke.spec_clip(Segment::Adjective).hash == 0xfcc84f69b1fd0b0du64 ==> triggered(egg_table(), joke, cx, cy).contains(
            (Segment::Adjective, Phase::During, (EffectAction::AnimatedOverlay { sprite: Asset::CRACK_SPR, x: cx, y: cy, alpha: 255u8, scale_percent: Some(300u32) })),
        ),
        joke.spec_clip(Segment::Adjective).hash == 0x19eb879d2845e1bfu64 ==> triggered(egg_table(), joke, cx, cy).contains(
            (Segment::Adjective, Phase::During, (EffectAction::Overlay { sprite: Asset::STUPID_SPR, x: cx, y: cy, alpha: 255u8, scale_percent: None })),
        ),
        joke.spec_clip(Segment::Adjective).hash == 0x002fbb04f43e9019u64 ==> triggered(egg_table(), joke, cx, cy).contains(
            (Segment::Adjective, Phase::During, (EffectAction::Overlay { sprite: Asset::OLD_SPR, x: cx, y: cy, alpha: 255u8, scale_percent: None })),
        ),
        joke.spec_clip(Segment::Adjective).hash == 0x113dcdb52dba766eu64 ==> triggered(egg_table(), joke, cx, cy).contains(
            (Segment::Adjective, Phase::During, (EffectAction::Overlay { sprite: Asset::ALCHOHOLIC_SPR, x: cx, y: cy, alpha: 255u8, scale_percent: None })),
        ),
        joke.spec_clip(Segment::Adjective).hash == 0xafe3de4e2c58e6d0u64 ==> triggered(egg_table(), joke, cx, cy).contains(
            (Segment::Adjective, Phase::During, (EffectAction::Overlay { sprite: Asset::FAT_SPR, x: cx, y: cy, alpha: 255u8, scale_percent: None })),
        ),
        joke.spec_clip(Segment::Adjective).hash == 0x839074efae23634eu64 ==> triggered(egg_table(), joke, cx, cy).contains(
            (Segment::Adjective, Phase::During, (EffectAction::Overlay { sprite: Asset::SHORT_SPR, x: cx, y: cy, alpha: 255u8, scale_percent: None })),
        ),
        joke.spec_clip(Segment::Adjective).hash == 0xec65241c772fbcfdu64 ==> triggered(egg_table(), joke, cx, cy).contains(
            (Segment::Adjective, Phase::During, (EffectAction::Overlay { sprite: Asset::NERDY_SPR, x: cx, y: cy, alpha: 255u8, scale_percent: None })),
        ),
        joke.spec_clip(Segment::Adjective).hash == 0xffa6fc0079212536u64 ==> triggered(egg_table(), joke, cx, cy).contains(
            (Segment::Adjective, Phase::During, (EffectAction::Overlay { sprite: Asset::BROKE_SPR, x: cx, y: cy, alpha: 255u8, scale_percent: None })),
        ),
        joke.spec_clip(Segment::Adjective).hash == 0xa46fd0bd7291485bu64 ==> triggered(egg_table(), joke, cx, cy).contains(
            (Segment::Adjective, Phase::During, (EffectAction::Overlay { sprite: Asset::SKINNY_SPR, x: cx, y: cy, alpha: 255u8, scale_percent: None })),
        ),
        joke.spec_clip(Segment::Adjective).hash == 0x839074efae23634eu64 ==> triggered(egg_table(), joke, cx, cy).contains(
            (Segment::Adjective, Phase::During, (EffectAction::Overlay { sprite: Asset::SHORT_SPR, x: cx, y: cy, alpha: 255u8, scale_percent: None })),
        ),
        joke.spec_clip(Segment::Adjective).hash == 0x40ddaacd9432fd5bu64 ==> triggered(egg_table(), joke, cx, cy).contains(
            (Segment::Adjective, Phase::During, (EffectAction::Overlay { sprite: Asset::PALE_SPR, x: cx, y: cy, alpha: 255u8, scale_percent: None })),
        ),
        joke.spec_clip(Segment::Adjective).hash == 0x4f0c60bafd9e6a3cu64 ==> triggered(egg_table(), joke, cx, cy).contains(
            (Segment::Adjective, Phase::During, (EffectAction::Overlay { sprite: Asset::HYPER_SPR, x: cx, y: cy, alpha: 255u8, scale_percent: None })),
        ),
        joke.spec_clip(Segment::Adjective).hash == 0x47721cfdea81b07cu64 ==> triggered(egg_table(), joke, cx, cy).contains(
            (Segment::Adjective, Phase::During, (EffectAction::Overlay { sprite: Asset::AMAZING_SPR, x: cx, y: cy, alpha: 255u8, scale_percent: None })),
        ),
        joke.spec_clip(Segment::Adjective).hash == 0x226f58895f387c8cu64 ==> triggered(egg_table(), joke, cx, cy).contains(
            (Segment::Adjective, Phase::During, (EffectAction::Overlay { sprite: Asset::BLOB_SPR, x: cx, y: cy, alpha: 255u8, scale_percent: None })),
        ),
        joke.spec_clip(Segment::Adjective).hash == 0x145e47ffa3e0ff03u64 ==> triggered(egg_table(), joke, cx, cy).contains(
            (Segment::Adjective, Phase::During, (EffectAction::Overlay { sprite: Asset::DOWNTOCLOWN_SPR, x: cx, y: cy, alpha: 255u8, scale_percent: None })),
        ),
        joke.spec_clip(Segment::Adjective).hash == 0xfc7d1e861165c7f7u64 ==> triggered(egg_table(), joke, cx, cy).contains(
            (Segment::Adjective, Phase::During, (EffectAction::Overlay { sprite: Asset::GENERIC_SPR, x: cx, y: cy, alpha: 255u8, scale_percent: None })),
        ),
        joke.spec_clip(Segment::Adjective).hash == 0xfde0a2b2f4f90960u64 ==> triggered(egg_table(), joke, cx, cy).contains(
            (Segment::Adjective, Phase::During, (EffectAction::Overlay { sprite: Asset::HATEFUL_SPR, x: cx, y: cy, alpha: 255u8, scale_percent: None })),
        ),
        joke.spec_clip(Segment::Adjective).hash == 0x31fc975915707e4eu64 ==> triggered(egg_table(), joke, cx, cy).contains(
            (Segment::Adjective, Phase::During, (EffectAction::Overlay { sprite: Asset::HORRIBLE_SPR, x: cx, y: cy, alpha: 255u8, scale_percent: None })),
        ),
        joke.spec_clip(Segment::Adjective).hash == 0xd3fc92634da7f716u64 ==> triggered(egg_table(), joke, cx, cy).contains(
            (Segment::Adjective, Phase::During, (EffectAction::Overlay { sprite: Asset::HOTLADY_SPR, x: cx, y: cy, alpha: 255u8, scale_percent: None })),
        ),
        joke.spec_clip(Segment::Adjective).hash == 0xc01710cfa99ada31u64 ==> triggered(egg_table(), joke, cx, cy).contains(
            (Segment::Adjective, Phase::During, (EffectAction::Overlay { sprite: Asset::IMMATURE_SPR, x: cx, y: cy, alpha: 255u8, scale_percent: None })),
        ),
        joke.spec_clip(Segment::Adjective).hash == 0x0bc5292431f31a6cu64 ==> triggered(egg_table(), joke, cx, cy).contains(
            (Segment::Adjective, Phase::During, (EffectAction::Overlay { sprite: Asset::LAXADAISICAL_SPR, x: cx, y: cy, alpha: 255u8, scale_percent: None })),
        ),
        joke.spec_clip(Segment::Adjective).hash == 0x79ccb220c8dd3773u64 ==> triggered(egg_table(), joke, cx, cy).contains(
            (Segment::Adjective, Phase::During, (EffectAction::Overlay { sprite: Asset::LOUD_SPR, x: cx, y: cy, alpha: 255u8, scale_percent: None })),
        ),
        joke.spec_clip(Segment::Adjective).hash == 0xf23af0dbe289ef87u64 ==> triggered(egg_table(), joke, cx, cy).contains(
            (Segment::Adjective, Phase::During, (EffectAction::Overlay { sprite: Asset::MEDIOCRE_SPR, x: cx, y: cy, alpha: 255u8, scale_percent: None })),
        ),
        joke.spec_clip(Segment::Adjective).hash == 0x3256e54ae52229fbu64 ==> triggered(egg_table(), joke, cx, cy).contains(
            (Segment::Adjective, Phase::During, (EffectAction::Overlay { sprite: Asset::RICH_SPR, x: cx, y: cy, alpha: 255u8, scale_percent: None })),
        ),
        joke.spec_clip(Segment::Adjective).hash == 0x68e0c8adb871a256u64 ==> triggered(egg_table(), joke, cx, cy).contains(
            (Segment::Adjective, Phase::During, (EffectAction::Overlay { sprite: Asset::SIGMA_SPR, x: cx, y: cy, alpha: 255u8, scale_percent: None })),
        ),
        joke.spec_clip(Segment::Adjective).hash == 0x1c8f6d3416d4f5ecu64 ==> triggered(egg_table(), joke, cx, cy).contains(
            (Segment::Adjective, Phase::During, (EffectAction::Overlay { sprite: Asset::SMART_SPR, x: cx, y: cy, alpha: 255u8, scale_percent: None })),
        ),
        joke.spec_clip(Segment::Adjective).hash == 0x55862f1a88e91125u64 ==> triggered(egg_table(), joke, cx, cy).contains(
            (Segment::Adjective, Phase::During, (EffectAction::Overlay { sprite: Asset::STRICT_SPR, x: cx, y: cy, alpha: 255u8, scale_percent: None })),
        ),
        joke.spec_clip(Segment::Adjective).hash == 0x033ca7e477991156u64 ==> triggered(egg_table(), joke, cx, cy).contains(
            (Segment::Adjective, Phase::During, (EffectAction::Overlay { sprite: Asset::TALL_SPR, x: cx, y: cy, alpha: 255u8, scale_percent: None })),
        ),
        joke.spec_clip(Segment::Adjective).hash == 0x7555a1fbb2fd6671u64 ==> triggered(egg_table(), joke, cx, cy).contains(
            (Segment::Adjective, Phase::During, (EffectAction::Overlay { sprite: Asset::TRASHY_SPR, x: cx, y: cy, alpha: 255u8, scale_percent: None })),
        ),
{
    if joke.spec_clip(Segment::Adjective).hash == 0xfcc84f69b1fd0b0du64 {
        lemma_matching_rule_fires(egg_table(), joke, cx, cy, 10);
    }
    if joke.spec_clip(Segment::Adjective).hash == 0x19eb879d2845e1bfu64 {
        lemma_matching_rule_fires(egg_table(), joke, cx, cy, 11);
    }
    if joke.spec_clip(Segment::Adjective).hash == 0x002fbb04f43e9019u64 {
        lemma_matching_rule_fires(egg_table(), joke, cx, cy, 12);
    }
    if joke.spec_clip(Segment::Adjective).hash == 0x113dcdb52dba766eu64 {
        lemma_matching_rule_fires(egg_table(), joke, cx, cy, 13);
    }
    if joke.spec_clip(Segment::Adjective).hash == 0xafe3de4e2c58e6d0u64 {
        lemma_matching_rule_fires(egg_table(), joke, cx, cy, 14);
    }
    if joke.spec_clip(Segment::Adjective).hash == 0x839074efae23634eu64 {
        lemma_matching_rule_fires(egg_table(), joke, cx, cy, 15);
    }
    if joke.spec_clip(Segment::Adjective).hash == 0xec65241c772fbcfdu64 {
        lemma_matching_rule_fires(egg_table(), joke, cx, cy, 16);
    }
    if joke.spec_clip(Segment::Adjective).hash == 0xffa6fc0079212536u64 {
        lemma_matching_rule_fires(egg_table(), joke, cx, cy, 17);
    }
    if joke.spec_clip(Segment::Adjective).hash == 0xa46fd0bd7291485bu64 {
        lemma_matching_rule_fires(egg_table(), joke, cx, cy, 18);
    }
    if joke.spec_clip(Segment::Adjective).hash == 0x839074efae23634eu64 {
        lemma_matching_rule_fires(egg_table(), joke, cx, cy, 19);
    }
    if joke.spec_clip(Segment::Adjective).hash == 0x40ddaacd9432fd5bu64 {
        lemma_matching_rule_fires(egg_table(), joke, cx, cy, 20);
    }
    if joke.spec_clip(Segment::Adjective).hash == 0x4f0c60bafd9e6a3cu64 {
        lemma_matching_rule_fires(egg_table(), joke, cx, cy, 21);
    }
    if joke.spec_clip(Segment::Adjective).hash == 0x47721cfdea81b07cu64 {
        lemma_matching_rule_fires(egg_table(), joke, cx, cy, 22);
    }
    if joke.spec_clip(Segment::Adjective).hash == 0x226f58895f387c8cu64 {
        lemma_matching_rule_fires(egg_table(), joke, cx, cy, 23);
    }
    if joke.spec_clip(Segment::Adjective).hash == 0x145e47ffa3e0ff03u64 {
        lemma_matching_rule_fires(egg_table(), joke, cx, cy, 24);
    }
    if joke.spec_clip(Segment::Adjective).hash == 0xfc7d1e861165c7f7u64 {
        lemma_matching_rule_fires(egg_table(), joke, cx, cy, 25);
    }
    if joke.spec_clip(Segment::Adjective).hash == 0xfde0a2b2f4f90960u64 {
        lemma_matching_rule_fires(egg_table(), joke, cx, cy, 26);
    }
    if joke.spec_clip(Segment::Adjective).hash == 0x31fc975915707e4eu64 {
        lemma_matching_rule_fires(egg_table(), joke, cx, cy, 27);
    }
    if joke.spec_clip(Segment::Adjective).hash == 0xd3fc92634da7f716u64 {
        lemma_matching_rule_fires(egg_table(), joke, cx, cy, 28);
    }
    if joke.spec_clip(Segment::Adjective).hash == 0xc01710cfa99ada31u64 {
        lemma_matching_rule_fires(egg_table(), joke, cx, cy, 29);
    }
    if joke.spec_clip(Segment::Adjective).hash == 0x0bc5292431f31a6cu64 {
        lemma_matching_rule_fires(egg_table(), joke, cx, cy, 30);
    }
    if joke.spec_clip(Segment::Adjective).hash == 0x79ccb220c8dd3773u64 {
        lemma_matching_rule_fires(egg_table(), joke, cx, cy, 31);
    }
    if joke.spec_clip(Segment::Adjective).hash == 0xf23af0dbe289ef87u64 {
        lemma_matching_rule_fires(egg_table(), joke, cx, cy, 32);
    }
    if joke.spec_clip(Segment::Adjective).hash == 0x3256e54ae52229fbu64 {
        lemma_matching_rule_fires(egg_table(), joke, cx, cy, 33);
    }
    if joke.spec_clip(Segment::Adjective).hash == 0x68e0c8adb871a256u64 {
        lemma_matching_rule_fires(egg_table(), joke, cx, cy, 34);
    }
    if joke.spec_clip(Segment::Adjective).hash == 0x1c8f6d3416d4f5ecu64 {
        lemma_matching_rule_fires(egg_table(), joke, cx, cy, 35);
    }
    if joke.spec_clip(Segment::Adjective).hash == 0x55862f1a88e91125u64 {
        lemma_matching_rule_fires(egg_table(), joke, cx, cy, 36);
    }
    if joke.spec_clip(Segment::Adjective).hash == 0x033ca7e477991156u64 {
        lemma_matching_rule_fires(egg_table(), joke, cx, cy, 37);
    }
    if joke.spec_clip(Segment::Adjective).hash == 0x7555a1fbb2fd6671u64 {
        lemma_matching_rule_fires(egg_table(), joke, cx, cy, 38);
    }
}

/// Every easter egg on a base clip fires when the joke's base clip has its hash: the
/// overlay, animation, sound or crash of that egg, in its phase, overlays at the centre.
#[verifier::rlimit(50)]
pub proof fn lemma_base_eggs_fire(joke: YoMamaJoke, cx: i32, cy: i32)
    ensures
        joke.spec_clip(Segment::Base).hash == 0x88c0238a9d5bf1c2u64 ==> triggered(egg_table(), joke, cx, cy).contains(
            (Segment::Base, Phase::During, (EffectAction::Overlay { sprite: Asset::MOTHER1_SPR, x: cx, y: cy, alpha: 255u8, scale_percent: None })),
        ),
{
    if joke.spec_clip(Segment::Base).hash == 0x88c0238a9d5bf1c2u64 {
        lemma_matching_rule_fires(egg_table(), joke, cx, cy, 39);
    }
}

/// Every easter egg on a action clip fires when the joke's action clip has its hash: the
/// overlay, animation, sound or crash of that egg, in its phase, overlays at the centre.
#[verifier::rlimit(50)]
pub proof fn lemma_action_eggs_fire(joke: YoMamaJoke, cx: i32, cy: i32)
    ensures
        joke.spec_clip(Segment::Action).hash == 0x273d49db452e7495u64 ==> triggered(egg_table(), joke, cx, cy).contains(
            (Segment::Action, Phase::During, (EffectAction::Overlay { sprite: Asset::BLOWSNOSE_SPR, x: cx, y: cy, alpha: 255u8, scale_percent: None })),
        ),
        joke.spec_clip(Segment::Action).hash == 0x3aa2f394c5e7c472u64 ==> triggered(egg_table(), joke, cx, cy).contains(
            (Segment::Action, Phase::During, (EffectAction::Overlay { sprite: Asset::DESPICABLEME3_SPR, x: cx, y: cy, alpha: 255u8, scale_percent: None })),
        ),
        joke.spec_clip(Segment::Action).hash == 0xd9381b779d0f8f94u64 ==> triggered(egg_table(), joke, cx, cy).contains(
            (Segment::Action, Phase::During, (EffectAction::Overlay { sprite: Asset::SCOTTPILGRIM4_SPR, x: cx, y: cy, alpha: 255u8, scale_percent: None })),
        ),
{
    if joke.spec_clip(Segment::Action).hash == 0x273d49db452e7495u64 {
        lemma_matching_rule_fires(egg_table(), joke, cx, cy, 40);
    }
    if joke.spec_clip(Segment::Action).hash == 0x3aa2f394c5e7c472u64 {
        lemma_matching_rule_fires(egg_table(), joke, cx, cy, 41);
    }
    if joke.spec_clip(Segment::Action).hash == 0xd9381b779d0f8f94u64 {
        lemma_matching_rule_fires(egg_table(), joke, cx, cy, 42);
    }
}

} // verus!
