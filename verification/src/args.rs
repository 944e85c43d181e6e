//! Typed argument records, one per command kind.
//!
//! The decoder (see [`crate::decode`]) turns a raw payload into one of these
//! records.  Optional fields stay optional here: defaults are applied by the
//! mutators, not at decode time.  Field values are fixed-point milli-units.

use vstd::prelude::*;
use crate::geom::{Milli, Vec2, Vec3};

verus! {

/// Arguments of the transform command: placement updates for one component.
#[derive(Clone, Debug, PartialEq)]
pub struct TransformArgs {
    pub component_id: String,
    pub translation: Option<Vec3>,
    pub rotation: Option<Vec3>,
    pub scale: Option<Vec3>,
}

/// One wave of the water surface configuration.
#[derive(Clone, Copy, Debug, PartialEq)]
pub struct WaveArgs {
    pub amplitude: Option<Milli>,
    pub frequency: Option<Milli>,
    pub speed: Option<Milli>,
    pub steepness: Option<Milli>,
    pub direction: Option<Vec2>,
}

/// Arguments of the configure-water command.
#[derive(Clone, Debug, PartialEq)]
pub struct WaterArgs {
    pub component_id: Option<String>,
    pub shallow_color: Option<Vec3>,
    pub medium_color: Option<Vec3>,
    pub deep_color: Option<Vec3>,
    pub ripple_amplitude_multiplier: Option<Milli>,
    pub ripple_freq: Option<Milli>,
    pub ripple_speed: Option<Milli>,
    pub shoreline_foam_range: Option<Milli>,
    pub crest_foam_min: Option<Milli>,
    pub crest_foam_max: Option<Milli>,
    pub sparkle_intensity: Option<Milli>,
    pub sparkle_threshold: Option<Milli>,
    pub subsurface_multiplier: Option<Milli>,
    pub fresnel_power: Option<Milli>,
    pub fresnel_multiplier: Option<Milli>,
    pub wave1: WaveArgs,
    pub wave2: WaveArgs,
    pub wave3: WaveArgs,
}

/// Arguments of the configure-sky command.
#[derive(Clone, Debug, PartialEq)]
pub struct SkyArgs {
    pub component_id: Option<String>,
    pub horizon_color: Option<Vec3>,
    pub zenith_color: Option<Vec3>,
    pub sun_direction: Option<Vec3>,
    pub sun_color: Option<Vec3>,
    pub sun_intensity: Option<Milli>,
}

/// Arguments of the configure-trees command.
#[derive(Clone, Debug, PartialEq)]
pub struct TreesArgs {
    pub component_id: Option<String>,
    pub seed: Option<u32>,
    pub trunk_height: Option<Milli>,
    pub trunk_radius: Option<Milli>,
    pub branch_levels: Option<u32>,
    pub foliage_radius: Option<Milli>,
}

/// Arguments of the configure-grass command.  The blade density arrives as
/// a milli-unit number and is truncated to a whole count when stored in the
/// document.
#[derive(Clone, Debug, PartialEq)]
pub struct GrassArgs {
    pub component_id: Option<String>,
    pub wind_strength: Option<Milli>,
    pub wind_speed: Option<Milli>,
    pub blade_height: Option<Milli>,
    pub blade_width: Option<Milli>,
    pub blade_density: Option<Milli>,
    pub render_distance: Option<Milli>,
}

/// Arguments of the spawn-model command.
#[derive(Clone, Debug, PartialEq)]
pub struct ModelArgs {
    pub asset_id: String,
    pub position: Option<Vec3>,
    pub rotation: Option<Vec3>,
    pub scale: Option<Vec3>,
}

/// Arguments of the spawn-point-light command.
#[derive(Clone, Debug, PartialEq)]
pub struct LightArgs {
    pub position: Vec3,
    pub color: Option<Vec3>,
    pub intensity: Option<Milli>,
    pub radius: Option<Milli>,
}

/// Arguments of the spawn-collectable command.  `kind_name` carries the
/// collectable type verbatim; an unrecognized name falls back to a plain
/// item when the record is built.
#[derive(Clone, Debug, PartialEq)]
pub struct CollectableArgs {
    pub asset_id: String,
    pub kind_name: String,
    pub position: Option<Vec3>,
    pub rotation: Option<Vec3>,
    pub scale: Option<Vec3>,
}

/// Arguments of the spawn-NPC command.  `combat_type` carries the combat
/// style verbatim; anything other than ranged falls back to melee.  The
/// health field is accepted but has no effect in the current design.
#[derive(Clone, Debug, PartialEq)]
pub struct NpcArgs {
    pub asset_id: String,
    pub position: Option<Vec3>,
    pub rotation: Option<Vec3>,
    pub scale: Option<Vec3>,
    pub aggressiveness: Option<Milli>,
    pub combat_type: Option<String>,
    pub wander_radius: Option<Milli>,
    pub wander_speed: Option<Milli>,
    pub detection_radius: Option<Milli>,
    pub damage: Option<Milli>,
    pub health: Option<Milli>,
}

/// Arguments of the spawn-primitive command.  `shape` names the debug
/// primitive; only the recognized shapes create anything.
#[derive(Clone, Debug, PartialEq)]
pub struct PrimitiveArgs {
    pub shape: String,
    pub position: Vec3,
    pub scale: Option<Vec3>,
}

/// Arguments of the save-script command.
#[derive(Clone, Debug, PartialEq)]
pub struct ScriptArgs {
    pub filename: String,
    pub content: String,
    pub component_id: Option<String>,
}

/// One terrain feature of the generate-heightmap command.  `kind_name` and
/// `falloff_name` carry the feature type and falloff curve verbatim.
#[derive(Clone, Debug, PartialEq)]
pub struct FeatureArgs {
    pub kind_name: String,
    pub center: Vec2,
    pub radius: Milli,
    pub intensity: Milli,
    pub falloff_name: String,
    pub flat_top: Option<Milli>,
    pub transition: Option<Milli>,
}

/// Arguments of the generate-heightmap command.
#[derive(Clone, Debug, PartialEq)]
pub struct HeightmapArgs {
    pub component_id: Option<String>,
    pub seed: Option<u32>,
    pub scale: Option<Milli>,
    pub persistence: Option<Milli>,
    pub lacunarity: Option<Milli>,
    pub features: Option<Vec<FeatureArgs>>,
}

} // verus!
