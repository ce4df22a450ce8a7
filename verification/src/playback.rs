use vstd::prelude::*;

use crate::assets::Asset;
use crate::effects::{register, triggered, egg_table, EffectAction};
use crate::segment::{segment_order, Phase, Segment, SegmentCatalog, SegmentClip, YoMamaJoke};

verus! {

/// Volume, in percent, at which the joke's clips are played (a volume of 5.0).
pub const SEGMENT_VOLUME_PERCENT: u32 = 500;

/// An overlay window to open: the sprite, its top-left corner, opacity and scale.
#[derive(Debug, Clone, Copy, PartialEq, Eq, Structural)]
pub struct OverlaySpec {
    pub sprite: Asset,
    pub x: i32,
    pub y: i32,
    pub alpha: u8,
    pub scale_percent: Option<u32>,
}

/// What happens in one phase of one segment: the overlays are opened first (failures to
/// open one are ignored), then `actions` run in order (each a sound or a crash), then the
/// animated overlays and after them the still overlays are closed.
pub struct PhasePlan {
    pub overlays: Vec<OverlaySpec>,
    pub animated_overlays: Vec<OverlaySpec>,
    pub actions: Vec<EffectAction>,
}

/// The actions of the registered effects that belong to `segment` and `phase`, in order.
pub open spec fn matching(
    effects: Seq<(Segment, Phase, EffectAction)>,
    segment: Segment,
    phase: Phase,
) -> Seq<EffectAction>
    decreases effects.len(),
{
    if effects.len() == 0 {
        seq![]
    } else {
        let earlier = matching(effects.drop_last(), segment, phase);
        let e = effects.last();
        if e.0 == segment && e.1 == phase {
            earlier.push(e.2)
        } else {
            earlier
        }
    }
}

/// Overlays are opened at the top-left corner of the screen, whatever position the
/// effect carries.
pub open spec fn overlays_of(actions: Seq<EffectAction>) -> Seq<OverlaySpec>
    decreases actions.len(),
{
    if actions.len() == 0 {
        seq![]
    } else {
        let earlier = overlays_of(actions.drop_last());
        match actions.last() {
            EffectAction::Overlay { sprite, x, y, alpha, scale_percent } =>
                earlier.push(OverlaySpec { sprite, x: 0, y: 0, alpha, scale_percent }),
            _ => earlier,
        }
    }
}

/// The animated overlays among `actions`, opened at the top-left corner.
pub open spec fn animated_overlays_of(actions: Seq<EffectAction>) -> Seq<OverlaySpec>
    decreases actions.len(),
{
    if actions.len() == 0 {
        seq![]
    } else {
        let earlier = animated_overlays_of(actions.drop_last());
        match actions.last() {
            EffectAction::AnimatedOverlay { sprite, x, y, alpha, scale_percent } =>
                earlier.push(OverlaySpec { sprite, x: 0, y: 0, alpha, scale_percent }),
            _ => earlier,
        }
    }
}

/// The sounds and crashes among `actions`, in order.
pub open spec fn sequential_of(actions: Seq<EffectAction>) -> Seq<EffectAction>
    decreases actions.len(),
{
    if actions.len() == 0 {
        seq![]
    } else {
        let earlier = sequential_of(actions.drop_last());
        match actions.last() {
            EffectAction::PlayAudio { .. } => earlier.push(actions.last()),
            EffectAction::Crash => earlier.push(actions.last()),
            _ => earlier,
        }
    }
}

impl PhasePlan {
    /// The plan is the one for `segment` and `phase` under `effects`.
    pub open spec fn plans(
        &self,
        effects: Seq<(Segment, Phase, EffectAction)>,
        segment: Segment,
        phase: Phase,
    ) -> bool {
        let m = matching(effects, segment, phase);
        &&& self.overlays@ == overlays_of(m)
        &&& self.animated_overlays@ == animated_overlays_of(m)
        &&& self.actions@ == sequential_of(m)
    }

    /// Nothing happens in this phase.
    pub open spec fn is_idle(&self) -> bool {
        self.overlays@.len() == 0 && self.animated_overlays@.len() == 0 && self.actions@.len() == 0
    }
}

/// The plan of `phase` in `segment`: what the registered `effects` do then.
pub fn run_phase_effects(
    effects: &Vec<(Segment, Phase, EffectAction)>,
    segment: Segment,
    phase: Phase,
) -> (r: PhasePlan)
    ensures
        r.plans(effects@, segment, phase),
{
    let mut overlays: Vec<OverlaySpec> = Vec::new();
    let mut animated_overlays: Vec<OverlaySpec> = Vec::new();
    let mut actions: Vec<EffectAction> = Vec::new();
    let mut i: usize = 0;
    while i < effects.len()
        invariant
            i <= effects.len(),
            overlays@ == overlays_of(matching(effects@.take(i as int), segment, phase)),
            animated_overlays@ == animated_overlays_of(matching(effects@.take(i as int), segment, phase)),
            actions@ == sequential_of(matching(effects@.take(i as int), segment, phase)),
        decreases effects.len() - i,
    {
        let (seg, ph, action) = effects[i];
        let ghost before = matching(effects@.take(i as int), segment, phase);
        assert(effects@.take(i + 1).drop_last() =~= effects@.take(i as int));
        if seg == segment && ph == phase {
            assert(matching(effects@.take(i + 1), segment, phase) == before.push(action));
            assert(before.push(action).drop_last() =~= before);
            match action {
                EffectAction::Overlay { sprite, x: _, y: _, alpha, scale_percent } => {
                    overlays.push(OverlaySpec { sprite, x: 0, y: 0, alpha, scale_percent });
                },
                EffectAction::AnimatedOverlay { sprite, x: _, y: _, alpha, scale_percent } => {
                    animated_overlays.push(OverlaySpec { sprite, x: 0, y: 0, alpha, scale_percent });
                },
                EffectAction::PlayAudio { .. } => {
                    actions.push(action);
                },
                EffectAction::Crash => {
                    actions.push(action);
                },
            }
        }
        i += 1;
    }
    assert(effects@.take(effects.len() as int) =~= effects@);
    PhasePlan { overlays, animated_overlays, actions }
}

/// The overlays kept open while `segment` plays: the still and the animated overlays of
/// its `During` effects.
pub fn collect_during_guards(
    effects: &Vec<(Segment, Phase, EffectAction)>,
    segment: Segment,
) -> (r: (Vec<OverlaySpec>, Vec<OverlaySpec>))
    ensures
        r.0@ == overlays_of(matching(effects@, segment, Phase::During)),
        r.1@ == animated_overlays_of(matching(effects@, segment, Phase::During)),
{
    let plan = run_phase_effects(effects, segment, Phase::During);
    (plan.overlays, plan.animated_overlays)
}

/// Everything that happens around one segment of a joke, in this order: the `before`
/// plan, the `during` overlays are opened, the clip is played at `volume_percent`, the
/// animated and then the still `during` overlays are closed, the `after` plan.
pub struct SegmentPlayback<'a> {
    pub segment: Segment,
    pub before: PhasePlan,
    pub during_overlays: Vec<OverlaySpec>,
    pub during_animated_overlays: Vec<OverlaySpec>,
    pub clip: &'a SegmentClip,
    pub volume_percent: u32,
    pub after: PhasePlan,
}

impl<'a> SegmentPlayback<'a> {
    /// The step plays `segment` of `joke` with the registered `effects`.
    pub open spec fn plays(
        &self,
        joke: YoMamaJoke,
        effects: Seq<(Segment, Phase, EffectAction)>,
        segment: Segment,
    ) -> bool {
        &&& self.segment == segment
        &&& self.before.plans(effects, segment, Phase::Before)
        &&& self.during_overlays@ == overlays_of(matching(effects, segment, Phase::During))
        &&& self.during_animated_overlays@ == animated_overlays_of(matching(effects, segment, Phase::During))
        &&& *self.clip == joke.spec_clip(segment)
        &&& self.volume_percent == SEGMENT_VOLUME_PERCENT
        &&& self.after.plans(effects, segment, Phase::After)
    }
}

/// The steps play the five segments of `joke` in order, under the effects `effects`.
pub open spec fn plays_joke(
    steps: Seq<SegmentPlayback>,
    joke: YoMamaJoke,
    effects: Seq<(Segment, Phase, EffectAction)>,
) -> bool {
    &&& steps.len() == segment_order().len()
    &&& forall|i: int| 0 <= i < steps.len() ==> #[trigger] steps[i].plays(joke, effects, segment_order()[i])
}

/// The player of jokes.
pub struct YoMama;

impl YoMama {
    /// The playback of `joke`, segment by segment, with the easter eggs that it triggers
    /// (overlays registered at `center`).
    pub fn play_joke<'a>(joke: YoMamaJoke<'a>, center: (i32, i32)) -> (r: Vec<SegmentPlayback<'a>>)
        ensures
            plays_joke(r@, joke, triggered(egg_table(), joke, center.0, center.1)),
    {
        let effects = register(&joke, center);
        let segments = Segment::all();
        let mut steps: Vec<SegmentPlayback<'a>> = Vec::new();
        let mut i: usize = 0;
        while i < segments.len()
            invariant
                i <= segments.len(),
                segments@ == segment_order(),
                effects@ == triggered(egg_table(), joke, center.0, center.1),
                steps@.len() == i,
                forall|j: int| 0 <= j < i ==> #[trigger] steps@[j].plays(joke, effects@, segment_order()[j]),
            decreases segments.len() - i,
        {
            let segment = segments[i];
            let before = run_phase_effects(&effects, segment, Phase::Before);
            let (during_overlays, during_animated_overlays) = collect_during_guards(&effects, segment);
            let after = run_phase_effects(&effects, segment, Phase::After);
            let step = SegmentPlayback {
                segment,
                before,
                during_overlays,
                during_animated_overlays,
                clip: joke.clip(segment),
                volume_percent: SEGMENT_VOLUME_PERCENT,
                after,
            };
            steps.push(step);
            i += 1;
        }
        steps
    }

    /// A random joke from `catalog` and its playback.
    pub fn play<'a>(catalog: &'a SegmentCatalog, center: (i32, i32)) -> (r: (YoMamaJoke<'a>, Vec<SegmentPlayback<'a>>))
        requires
            catalog.complete(),
        ensures
            r.0.drawn_from(catalog),
            plays_joke(r.1@, r.0, triggered(egg_table(), r.0, center.0, center.1)),
    {
        let joke = YoMamaJoke::generate(catalog);
        let steps = Self::play_joke(joke, center);
        (joke, steps)
    }

    /// The clips of `joke` in playback order, each with the volume (in percent) it is
    /// played at, without any easter egg.
    pub fn play_custom<'a>(joke: YoMamaJoke<'a>) -> (r: Vec<(&'a SegmentClip, u32)>)
        ensures
            r@.len() == segment_order().len(),
            forall|i: int| 0 <= i < r@.len() ==> *(#[trigger] r@[i]).0 == joke.spec_clip(segment_order()[i]),
            forall|i: int| 0 <= i < r@.len() ==> (#[trigger] r@[i]).1 == SEGMENT_VOLUME_PERCENT,
    {
        vec![
            (joke.base, SEGMENT_VOLUME_PERCENT),
            (joke.adjective, SEGMENT_VOLUME_PERCENT),
            (joke.clause, SEGMENT_VOLUME_PERCENT),
            (joke.action, SEGMENT_VOLUME_PERCENT),
            (joke.reaction, SEGMENT_VOLUME_PERCENT),
        ]
    }
}

} // verus!
