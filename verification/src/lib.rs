//! Yo-mama joke composition: the recorded segments and their content hashes, the
//! easter-egg rules and the playback plan of a joke, and the text tools that maintain the
//! asset and easter-egg tables.

pub mod assets;
pub mod catalog;
pub mod audio;
pub mod effects;
pub mod egg_source;
pub mod fnv;
pub mod lame;
pub mod menu;
pub mod numbers;
pub mod overlay_image;
pub mod playback;
pub mod random;
pub mod registry;
pub mod screen;
pub mod segment;
pub mod sorting;
pub mod text;

pub use assets::{all_assets, Asset};
pub use effects::{register, EffectAction, EffectKind, EggRule};
pub use playback::{
    collect_during_guards, run_phase_effects, OverlaySpec, PhasePlan, SegmentPlayback, YoMama,
};
pub use segment::{Phase, Segment, SegmentCatalog, SegmentClip, YoMamaJoke};
