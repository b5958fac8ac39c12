//! Helpers for small games on an entity-component engine, with their
//! behaviour stated in contracts and proved.
//!
//! The heart of the crate is the [`AssetStore`]: a registry that binds
//! string tags to handles of the engine's asset loader, holds back the
//! sprite atlases whose source image is still loading, and realizes them
//! once it is there. Around it stand a frame-by-frame animation driver
//! ([`cycle_animations`]), the clock of a scrolling background
//! ([`ParallaxTimer`]), the menus of a game ([`game_menus`]), a random
//! number generator ([`RandomNumberGenerator`]) and the rules of the dice
//! game Pig ([`pig`]).
//!
//! The crate draws nothing on the screen and loads no file. Handles are
//! plain numbers that stand for the engine's handles; the application keeps
//! the engine's handles and tells the registry what has been loaded.

pub mod animation;
pub mod asset_store;
pub mod atlas_layout;
pub mod game_menus;
pub mod handle;
pub mod loaded_assets;
pub mod parallax;
pub mod pig;
pub mod random;
pub mod registry_laws;
pub mod seq_lemmas;
pub mod tag_map;

pub use crate::animation::{
    cycle_animations, try_cycle_animations, AnimationCycle, AnimationFrame, AnimationOption,
    Animations, CycleUpdate, PerFrameAnimation,
};
pub use crate::asset_store::{AssetStore, FutureAtlas};
pub use crate::atlas_layout::{check_grid_fits, AtlasLayout, TileRect};
pub use crate::handle::{RawHandle, ResolvedAtlas};
pub use crate::loaded_assets::LoadedAssets;
pub use crate::parallax::ParallaxTimer;
pub use crate::random::{RandomNumberGenerator, RandomPlugin, RangeValue, Seeding};
