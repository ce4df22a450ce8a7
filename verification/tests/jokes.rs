use yomama::effects::{easter_egg_rules, EffectAction};
use yomama::fnv::fnv1a;
use yomama::playback::SEGMENT_VOLUME_PERCENT;
use yomama::screen::center_of_rect;
use yomama::{
    collect_during_guards, register, run_phase_effects, Asset, OverlaySpec, Phase, Segment,
    SegmentCatalog, SegmentClip, YoMama, YoMamaJoke,
};

fn clip(name: &str, hash: u64) -> SegmentClip {
    SegmentClip { data: name.as_bytes().to_vec(), hash, name: name.to_string() }
}

fn catalog() -> SegmentCatalog {
    SegmentCatalog {
        base: vec![clip("01.mp3", 0x88c0238a9d5bf1c2)],
        adjective: vec![clip("fat.mp3", 0xafe3de4e2c58e6d0)],
        clause: vec![clip("that.mp3", 1)],
        action: vec![clip("blows.mp3", 0x273d49db452e7495)],
        reaction: vec![clip("ohcomeon.mp3", 0xca6671f9cd189a00)],
    }
}

fn joke(c: &SegmentCatalog) -> YoMamaJoke<'_> {
    YoMamaJoke {
        base: &c.base[0],
        adjective: &c.adjective[0],
        clause: &c.clause[0],
        action: &c.action[0],
        reaction: &c.reaction[0],
    }
}

#[test]
fn segment_names_and_fields() {
    assert_eq!(Segment::Base.name(), "Base");
    assert_eq!(Segment::Adjective.name(), "Adjective");
    assert_eq!(Segment::Clause.name(), "Clause");
    assert_eq!(Segment::Action.name(), "Action");
    assert_eq!(Segment::Reaction.name(), "Reaction");
    assert_eq!(Segment::Base.field_name(), "base");
    assert_eq!(Segment::Reaction.field_name(), "reaction");
    assert_eq!(
        Segment::all(),
        vec![Segment::Base, Segment::Adjective, Segment::Clause, Segment::Action, Segment::Reaction]
    );
}

#[test]
fn all_clips_picks_the_category() {
    let c = catalog();
    assert_eq!(Segment::Clause.all_clips(&c).len(), 1);
    assert_eq!(Segment::Clause.all_clips(&c)[0].name, "that.mp3");
    assert_eq!(Segment::Reaction.all_clips(&c)[0].hash, 0xca6671f9cd189a00);
}

#[test]
fn clips_are_equal_by_hash() {
    let a = SegmentClip { data: vec![1, 2], hash: 7, name: "a.mp3".to_string() };
    let b = SegmentClip { data: vec![3], hash: 7, name: "b.mp3".to_string() };
    let c = SegmentClip { data: vec![1, 2], hash: 8, name: "a.mp3".to_string() };
    assert!(a == b);
    assert!(a != c);
}

#[test]
fn fnv1a_known_values() {
    assert_eq!(fnv1a(b""), 0xcbf29ce484222325);
    assert_eq!(fnv1a(b"a"), 0xaf63dc4c8601ec8c);
    assert_eq!(fnv1a(b"foobar"), 0x85944171f73967e8);
    let c = SegmentClip::from_file("x.mp3".to_string(), b"foobar".to_vec());
    assert_eq!(c.hash, 0x85944171f73967e8);
    assert_eq!(c.name, "x.mp3");
    assert_eq!(c.data, b"foobar".to_vec());
}

#[test]
fn the_table_has_every_easter_egg() {
    let rules = easter_egg_rules();
    assert_eq!(rules.len(), 43);
    assert_eq!(rules[0].segment, Segment::Reaction);
    assert_eq!(rules[0].hash, 0xa418f96c5ece67d8);
    assert_eq!(rules[42].segment, Segment::Action);
}

#[test]
fn register_fires_matching_rules_in_order() {
    let c = catalog();
    let j = joke(&c);
    let effects = register(&j, (100, 200));
    let expected = vec![
        (
            Segment::Reaction,
            Phase::After,
            EffectAction::Overlay { sprite: Asset::OHCOMEON_SPR, x: 100, y: 200, alpha: 255, scale_percent: None },
        ),
        (Segment::Reaction, Phase::After, EffectAction::PlayAudio { audio: Asset::OHCOMEON, volume_percent: 500 }),
        (
            Segment::Adjective,
            Phase::During,
            EffectAction::Overlay { sprite: Asset::FAT_SPR, x: 100, y: 200, alpha: 255, scale_percent: None },
        ),
        (
            Segment::Base,
            Phase::During,
            EffectAction::Overlay { sprite: Asset::MOTHER1_SPR, x: 100, y: 200, alpha: 255, scale_percent: None },
        ),
        (
            Segment::Action,
            Phase::During,
            EffectAction::Overlay { sprite: Asset::BLOWSNOSE_SPR, x: 100, y: 200, alpha: 255, scale_percent: None },
        ),
    ];
    assert_eq!(effects, expected);
}

#[test]
fn register_keeps_duplicate_rules_and_scales() {
    let c = SegmentCatalog {
        base: vec![clip("b", 0)],
        adjective: vec![clip("short.mp3", 0x839074efae23634e)],
        clause: vec![clip("c", 0)],
        action: vec![clip("a", 0)],
        reaction: vec![clip("smash.mp3", 0x51063ab13115f078)],
    };
    let effects = register(&joke(&c), (0, 0));
    assert_eq!(effects.len(), 3);
    assert_eq!(
        effects[0].2,
        EffectAction::Overlay { sprite: Asset::SMASHBROS_SPR, x: 0, y: 0, alpha: 255, scale_percent: Some(50) }
    );
    assert_eq!(effects[1], effects[2]);
    assert_eq!(effects[1].0, Segment::Adjective);
}

#[test]
fn register_crash_and_animation() {
    let c = SegmentCatalog {
        base: vec![clip("b", 0)],
        adjective: vec![clip("crack.mp3", 0xfcc84f69b1fd0b0d)],
        clause: vec![clip("c", 0)],
        action: vec![clip("a", 0)],
        reaction: vec![clip("boom.mp3", 0x69a990e91024452a)],
    };
    let effects = register(&joke(&c), (5, 6));
    assert_eq!(effects[0], (Segment::Reaction, Phase::After, EffectAction::Crash));
    assert_eq!(
        effects[1],
        (
            Segment::Adjective,
            Phase::During,
            EffectAction::AnimatedOverlay { sprite: Asset::CRACK_SPR, x: 5, y: 6, alpha: 255, scale_percent: Some(300) }
        )
    );
}

#[test]
fn register_without_matches_is_empty() {
    let c = SegmentCatalog {
        base: vec![clip("b", 1)],
        adjective: vec![clip("d", 2)],
        clause: vec![clip("c", 3)],
        action: vec![clip("a", 4)],
        reaction: vec![clip("r", 5)],
    };
    assert!(register(&joke(&c), (0, 0)).is_empty());
}

#[test]
fn phase_plan_splits_overlays_and_sounds() {
    let effects = vec![
        (Segment::Reaction, Phase::After, EffectAction::Overlay { sprite: Asset::PI_SPR, x: 9, y: 9, alpha: 255, scale_percent: Some(50) }),
        (Segment::Reaction, Phase::After, EffectAction::PlayAudio { audio: Asset::OHCOMEON, volume_percent: 500 }),
        (Segment::Reaction, Phase::Before, EffectAction::Crash),
        (Segment::Base, Phase::After, EffectAction::Crash),
        (Segment::Reaction, Phase::After, EffectAction::AnimatedOverlay { sprite: Asset::CRACK_SPR, x: 1, y: 2, alpha: 7, scale_percent: None }),
        (Segment::Reaction, Phase::After, EffectAction::Crash),
    ];
    let plan = run_phase_effects(&effects, Segment::Reaction, Phase::After);
    assert_eq!(
        plan.overlays,
        vec![OverlaySpec { sprite: Asset::PI_SPR, x: 0, y: 0, alpha: 255, scale_percent: Some(50) }]
    );
    assert_eq!(
        plan.animated_overlays,
        vec![OverlaySpec { sprite: Asset::CRACK_SPR, x: 0, y: 0, alpha: 7, scale_percent: None }]
    );
    assert_eq!(
        plan.actions,
        vec![EffectAction::PlayAudio { audio: Asset::OHCOMEON, volume_percent: 500 }, EffectAction::Crash]
    );
    let idle = run_phase_effects(&effects, Segment::Clause, Phase::Before);
    assert!(idle.overlays.is_empty() && idle.animated_overlays.is_empty() && idle.actions.is_empty());
    let (still, animated) = collect_during_guards(&effects, Segment::Reaction);
    assert!(still.is_empty() && animated.is_empty());
}

#[test]
fn play_joke_plays_five_segments_in_order() {
    let c = catalog();
    let j = joke(&c);
    let steps = YoMama::play_joke(j, (10, 20));
    assert_eq!(steps.len(), 5);
    let order = [Segment::Base, Segment::Adjective, Segment::Clause, Segment::Action, Segment::Reaction];
    for (step, seg) in steps.iter().zip(order.iter()) {
        assert_eq!(step.segment, *seg);
        assert_eq!(step.volume_percent, SEGMENT_VOLUME_PERCENT);
        assert_eq!(step.volume_percent, 500);
    }
    assert_eq!(steps[0].clip.name, "01.mp3");
    assert_eq!(steps[4].clip.name, "ohcomeon.mp3");
    assert_eq!(
        steps[0].during_overlays,
        vec![OverlaySpec { sprite: Asset::MOTHER1_SPR, x: 0, y: 0, alpha: 255, scale_percent: None }]
    );
    assert!(steps[2].during_overlays.is_empty());
    assert_eq!(
        steps[4].after.overlays,
        vec![OverlaySpec { sprite: Asset::OHCOMEON_SPR, x: 0, y: 0, alpha: 255, scale_percent: None }]
    );
    assert_eq!(
        steps[4].after.actions,
        vec![EffectAction::PlayAudio { audio: Asset::OHCOMEON, volume_percent: 500 }]
    );
    assert!(steps[4].before.actions.is_empty());
}

#[test]
fn play_custom_lists_the_clips() {
    let c = catalog();
    let clips = YoMama::play_custom(joke(&c));
    let names: Vec<&str> = clips.iter().map(|(c, _)| c.name.as_str()).collect();
    assert_eq!(names, vec!["01.mp3", "fat.mp3", "that.mp3", "blows.mp3", "ohcomeon.mp3"]);
    assert!(clips.iter().all(|(_, volume)| *volume == 500));
}

#[test]
fn generate_draws_from_each_category() {
    let c = SegmentCatalog {
        base: vec![clip("b1", 1), clip("b2", 2), clip("b3", 3)],
        adjective: vec![clip("a1", 11), clip("a2", 12)],
        clause: vec![clip("c1", 21)],
        action: vec![clip("x1", 31), clip("x2", 32)],
        reaction: vec![clip("r1", 41), clip("r2", 42), clip("r3", 43)],
    };
    for _ in 0..50 {
        let j = YoMamaJoke::generate(&c);
        assert!(c.base.iter().any(|x| x.name == j.base.name));
        assert!(c.adjective.iter().any(|x| x.name == j.adjective.name));
        assert_eq!(j.clause.name, "c1");
        assert!(c.action.iter().any(|x| x.name == j.action.name));
        assert!(c.reaction.iter().any(|x| x.name == j.reaction.name));
        assert_eq!(j.clip(Segment::Clause).hash, 21);
    }
    let (j, steps) = YoMama::play(&c, (0, 0));
    assert_eq!(steps.len(), 5);
    assert_eq!(steps[1].clip.name, j.adjective.name);
}

#[test]
fn screen_centre() {
    assert_eq!(center_of_rect(0, 0, 1920, 1080), (960, 540));
    assert_eq!(center_of_rect(-1920, 0, 0, 1081), (-960, 540));
    assert_eq!(center_of_rect(-3, -5, 0, 0), (-1, -2));
}
