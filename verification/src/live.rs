//! The live, render-ready mirror of the scene.
//!
//! A [`LiveScene`] models what the rendering backend holds: one entry per
//! GPU-backed object, carrying the plain values the engine decides with
//! (ids, placements, configurations).  The GPU resources themselves live
//! outside the engine; the embedding application keeps them in step with
//! this mirror.  Terrain managers are folded into the landscape entries:
//! one live landscape stands for the whole terrain state of the view.

use vstd::prelude::*;
use crate::geom::{or_milli, or_vec2, or_vec3, with_full_alpha, Color4, Milli, Vec2, Vec3};
use crate::args::{GrassArgs, TransformArgs, WaterArgs};
use crate::doc::TreeProps;
use crate::vecs::vec_update;

verus! {

/// A live model-like object (model, collectable or NPC), keyed by the same
/// id as its component record.
#[derive(Clone, Debug, PartialEq)]
pub struct LiveObject {
    pub id: String,
    pub asset_file: String,
    pub position: Vec3,
    pub rotation: Vec3,
    pub scale: Vec3,
}

/// A live point light.
#[derive(Clone, Debug, PartialEq)]
pub struct LiveLight {
    pub id: String,
    pub position: Vec3,
    pub color: Vec3,
    pub intensity: Milli,
    pub max_distance: Milli,
}

/// The tunable surface configuration of the water plane.
#[derive(Clone, Copy, Debug, PartialEq, Eq, Structural)]
pub struct WaterConfig {
    pub shallow_color: Color4,
    pub medium_color: Color4,
    pub deep_color: Color4,
    pub ripple_amplitude_multiplier: Milli,
    pub ripple_freq: Milli,
    pub ripple_speed: Milli,
    pub shoreline_foam_range: Milli,
    pub crest_foam_min: Milli,
    pub crest_foam_max: Milli,
    pub sparkle_intensity: Milli,
    pub sparkle_threshold: Milli,
    pub subsurface_multiplier: Milli,
    pub fresnel_power: Milli,
    pub fresnel_multiplier: Milli,
    pub wave1_amplitude: Milli,
    pub wave1_frequency: Milli,
    pub wave1_speed: Milli,
    pub wave1_steepness: Milli,
    pub wave1_direction: Vec2,
    pub wave2_amplitude: Milli,
    pub wave2_frequency: Milli,
    pub wave2_speed: Milli,
    pub wave2_steepness: Milli,
    pub wave2_direction: Vec2,
    pub wave3_amplitude: Milli,
    pub wave3_frequency: Milli,
    pub wave3_speed: Milli,
    pub wave3_steepness: Milli,
    pub wave3_direction: Vec2,
}

/// A live water plane, attached to the landscape it covers.
#[derive(Clone, Debug, PartialEq)]
pub struct WaterPlane {
    pub landscape_id: String,
    pub config: WaterConfig,
}

/// The live tuning of one grass system.  Unlike the document's block, the
/// live blade density keeps its fractional part.
#[derive(Clone, Copy, Debug, PartialEq, Eq, Structural)]
pub struct GrassConfig {
    pub wind_strength: Milli,
    pub wind_speed: Milli,
    pub blade_height: Milli,
    pub blade_width: Milli,
    pub blade_density: Milli,
    pub render_distance: Milli,
}

/// A live landscape.
#[derive(Clone, Debug, PartialEq)]
pub struct LiveLandscape {
    pub id: String,
    pub position: Vec3,
}

/// A live debug primitive (box or sphere).
#[derive(Clone, Debug, PartialEq)]
pub struct LivePrimitive {
    pub id: String,
    pub position: Vec3,
    pub scale: Vec3,
}

/// The render-ready mirror of the scene.
#[derive(Clone, Debug, PartialEq)]
pub struct LiveScene {
    pub models: Vec<LiveObject>,
    pub collectables: Vec<LiveObject>,
    pub npcs: Vec<LiveObject>,
    pub point_lights: Vec<LiveLight>,
    pub water_planes: Vec<WaterPlane>,
    pub grasses: Vec<GrassConfig>,
    pub trees: Vec<TreeProps>,
    pub landscapes: Vec<LiveLandscape>,
    pub cubes: Vec<LivePrimitive>,
    pub spheres: Vec<LivePrimitive>,
}

// ------------------------------------------------------------------
// Unchanged-but-one-collection predicates
// ------------------------------------------------------------------

/// Everything but the model collection is unchanged.
pub open spec fn live_same_but_models(a: LiveScene, b: LiveScene) -> bool {
    &&& b.collectables == a.collectables
    &&& b.npcs == a.npcs
    &&& b.point_lights == a.point_lights
    &&& b.water_planes == a.water_planes
    &&& b.grasses == a.grasses
    &&& b.trees == a.trees
    &&& b.landscapes == a.landscapes
    &&& b.cubes == a.cubes
    &&& b.spheres == a.spheres
}

/// Everything but the collectable collection is unchanged.
pub open spec fn live_same_but_collectables(a: LiveScene, b: LiveScene) -> bool {
    &&& b.models == a.models
    &&& b.npcs == a.npcs
    &&& b.point_lights == a.point_lights
    &&& b.water_planes == a.water_planes
    &&& b.grasses == a.grasses
    &&& b.trees == a.trees
    &&& b.landscapes == a.landscapes
    &&& b.cubes == a.cubes
    &&& b.spheres == a.spheres
}

/// Everything but the NPC collection is unchanged.
pub open spec fn live_same_but_npcs(a: LiveScene, b: LiveScene) -> bool {
    &&& b.models == a.models
    &&& b.collectables == a.collectables
    &&& b.point_lights == a.point_lights
    &&& b.water_planes == a.water_planes
    &&& b.grasses == a.grasses
    &&& b.trees == a.trees
    &&& b.landscapes == a.landscapes
    &&& b.cubes == a.cubes
    &&& b.spheres == a.spheres
}

/// Everything but the point light collection is unchanged.
pub open spec fn live_same_but_lights(a: LiveScene, b: LiveScene) -> bool {
    &&& b.models == a.models
    &&& b.collectables == a.collectables
    &&& b.npcs == a.npcs
    &&& b.water_planes == a.water_planes
    &&& b.grasses == a.grasses
    &&& b.trees == a.trees
    &&& b.landscapes == a.landscapes
    &&& b.cubes == a.cubes
    &&& b.spheres == a.spheres
}

/// Everything but the water planes is unchanged.
pub open spec fn live_same_but_water(a: LiveScene, b: LiveScene) -> bool {
    &&& b.models == a.models
    &&& b.collectables == a.collectables
    &&& b.npcs == a.npcs
    &&& b.point_lights == a.point_lights
    &&& b.grasses == a.grasses
    &&& b.trees == a.trees
    &&& b.landscapes == a.landscapes
    &&& b.cubes == a.cubes
    &&& b.spheres == a.spheres
}

/// Everything but the grass systems is unchanged.
pub open spec fn live_same_but_grasses(a: LiveScene, b: LiveScene) -> bool {
    &&& b.models == a.models
    &&& b.collectables == a.collectables
    &&& b.npcs == a.npcs
    &&& b.point_lights == a.point_lights
    &&& b.water_planes == a.water_planes
    &&& b.trees == a.trees
    &&& b.landscapes == a.landscapes
    &&& b.cubes == a.cubes
    &&& b.spheres == a.spheres
}

/// Everything but the tree systems is unchanged.
pub open spec fn live_same_but_trees(a: LiveScene, b: LiveScene) -> bool {
    &&& b.models == a.models
    &&& b.collectables == a.collectables
    &&& b.npcs == a.npcs
    &&& b.point_lights == a.point_lights
    &&& b.water_planes == a.water_planes
    &&& b.grasses == a.grasses
    &&& b.landscapes == a.landscapes
    &&& b.cubes == a.cubes
    &&& b.spheres == a.spheres
}

/// Everything but the landscapes is unchanged.
pub open spec fn live_same_but_landscapes(a: LiveScene, b: LiveScene) -> bool {
    &&& b.models == a.models
    &&& b.collectables == a.collectables
    &&& b.npcs == a.npcs
    &&& b.point_lights == a.point_lights
    &&& b.water_planes == a.water_planes
    &&& b.grasses == a.grasses
    &&& b.trees == a.trees
    &&& b.cubes == a.cubes
    &&& b.spheres == a.spheres
}

/// Everything but the primitives is unchanged.
pub open spec fn live_same_but_primitives(a: LiveScene, b: LiveScene) -> bool {
    &&& b.models == a.models
    &&& b.collectables == a.collectables
    &&& b.npcs == a.npcs
    &&& b.point_lights == a.point_lights
    &&& b.water_planes == a.water_planes
    &&& b.grasses == a.grasses
    &&& b.trees == a.trees
    &&& b.landscapes == a.landscapes
}

// ------------------------------------------------------------------
// Transform
// ------------------------------------------------------------------

/// Index of the first live object carrying `id`; the length when none.
pub open spec fn first_obj_with_id(s: Seq<LiveObject>, id: Seq<char>) -> int
    decreases s.len(),
{
    if s.len() == 0 {
        0
    } else if s[0].id@ == id {
        0
    } else {
        1 + first_obj_with_id(s.drop_first(), id)
    }
}

pub proof fn lemma_first_obj_with_id(s: Seq<LiveObject>, id: Seq<char>)
    ensures
        0 <= first_obj_with_id(s, id) <= s.len(),
        first_obj_with_id(s, id) < s.len() ==> s[first_obj_with_id(s, id)].id@ == id,
        forall|k: int| 0 <= k < first_obj_with_id(s, id) ==> s[k].id@ != id,
    decreases s.len(),
{
    if s.len() == 0 {
    } else if s[0].id@ == id {
    } else {
        lemma_first_obj_with_id(s.drop_first(), id);
        let f = first_obj_with_id(s, id);
        assert forall|k: int| 0 <= k < f implies s[k].id@ != id by {
            if k > 0 {
                assert(s.drop_first()[k - 1] == s[k]);
            }
        }
        if f < s.len() {
            assert(s.drop_first()[f - 1] == s[f]);
        }
    }
}

/// A live object with the placement fields present in the argument
/// overwritten.
pub open spec fn transformed_object(o: LiveObject, a: TransformArgs) -> LiveObject {
    LiveObject {
        position: or_vec3(a.translation, o.position),
        rotation: or_vec3(a.rotation, o.rotation),
        scale: or_vec3(a.scale, o.scale),
        ..o
    }
}

/// The live model collection after a transform command.
pub open spec fn spec_transform_live(s: Seq<LiveObject>, a: TransformArgs) -> Seq<LiveObject> {
    let j = first_obj_with_id(s, a.component_id@);
    if j < s.len() {
        s.update(j, transformed_object(s[j], a))
    } else {
        s
    }
}

// ------------------------------------------------------------------
// Water
// ------------------------------------------------------------------

/// The configuration a freshly created water plane starts from.
pub open spec fn default_water() -> WaterConfig {
    WaterConfig {
        shallow_color: with_full_alpha(Vec3::zero()),
        medium_color: with_full_alpha(Vec3::zero()),
        deep_color: with_full_alpha(Vec3::zero()),
        ripple_amplitude_multiplier: 0,
        ripple_freq: 0,
        ripple_speed: 0,
        shoreline_foam_range: 0,
        crest_foam_min: 0,
        crest_foam_max: 0,
        sparkle_intensity: 0,
        sparkle_threshold: 0,
        subsurface_multiplier: 0,
        fresnel_power: 0,
        fresnel_multiplier: 0,
        wave1_amplitude: 0,
        wave1_frequency: 0,
        wave1_speed: 0,
        wave1_steepness: 0,
        wave1_direction: Vec2 { x: 0, y: 0 },
        wave2_amplitude: 0,
        wave2_frequency: 0,
        wave2_speed: 0,
        wave2_steepness: 0,
        wave2_direction: Vec2 { x: 0, y: 0 },
        wave3_amplitude: 0,
        wave3_frequency: 0,
        wave3_speed: 0,
        wave3_steepness: 0,
        wave3_direction: Vec2 { x: 0, y: 0 },
    }
}

/// A color channel triple overriding a stored color, alpha restored.
pub open spec fn or_color(over: Option<Vec3>, base: Color4) -> Color4 {
    match over {
        Some(v) => with_full_alpha(v),
        None => base,
    }
}

/// The water configuration with the fields present in the argument
/// overwritten.
pub open spec fn merged_water(c: WaterConfig, a: WaterArgs) -> WaterConfig {
    WaterConfig {
        shallow_color: or_color(a.shallow_color, c.shallow_color),
        medium_color: or_color(a.medium_color, c.medium_color),
        deep_color: or_color(a.deep_color, c.deep_color),
        ripple_amplitude_multiplier: or_milli(a.ripple_amplitude_multiplier, c.ripple_amplitude_multiplier),
        ripple_freq: or_milli(a.ripple_freq, c.ripple_freq),
        ripple_speed: or_milli(a.ripple_speed, c.ripple_speed),
        shoreline_foam_range: or_milli(a.shoreline_foam_range, c.shoreline_foam_range),
        crest_foam_min: or_milli(a.crest_foam_min, c.crest_foam_min),
        crest_foam_max: or_milli(a.crest_foam_max, c.crest_foam_max),
        sparkle_intensity: or_milli(a.sparkle_intensity, c.sparkle_intensity),
        sparkle_threshold: or_milli(a.sparkle_threshold, c.sparkle_threshold),
        subsurface_multiplier: or_milli(a.subsurface_multiplier, c.subsurface_multiplier),
        fresnel_power: or_milli(a.fresnel_power, c.fresnel_power),
        fresnel_multiplier: or_milli(a.fresnel_multiplier, c.fresnel_multiplier),
        wave1_amplitude: or_milli(a.wave1.amplitude, c.wave1_amplitude),
        wave1_frequency: or_milli(a.wave1.frequency, c.wave1_frequency),
        wave1_speed: or_milli(a.wave1.speed, c.wave1_speed),
        wave1_steepness: or_milli(a.wave1.steepness, c.wave1_steepness),
        wave1_direction: or_vec2(a.wave1.direction, c.wave1_direction),
        wave2_amplitude: or_milli(a.wave2.amplitude, c.wave2_amplitude),
        wave2_frequency: or_milli(a.wave2.frequency, c.wave2_frequency),
        wave2_speed: or_milli(a.wave2.speed, c.wave2_speed),
        wave2_steepness: or_milli(a.wave2.steepness, c.wave2_steepness),
        wave2_direction: or_vec2(a.wave2.direction, c.wave2_direction),
        wave3_amplitude: or_milli(a.wave3.amplitude, c.wave3_amplitude),
        wave3_frequency: or_milli(a.wave3.frequency, c.wave3_frequency),
        wave3_speed: or_milli(a.wave3.speed, c.wave3_speed),
        wave3_steepness: or_milli(a.wave3.steepness, c.wave3_steepness),
        wave3_direction: or_vec2(a.wave3.direction, c.wave3_direction),
    }
}

// ------------------------------------------------------------------
// Grass
// ------------------------------------------------------------------

/// The live grass configuration with the fields present in the argument
/// overwritten.
pub open spec fn merged_grass_config(c: GrassConfig, a: GrassArgs) -> GrassConfig {
    GrassConfig {
        wind_strength: or_milli(a.wind_strength, c.wind_strength),
        wind_speed: or_milli(a.wind_speed, c.wind_speed),
        blade_height: or_milli(a.blade_height, c.blade_height),
        blade_width: or_milli(a.blade_width, c.blade_width),
        blade_density: or_milli(a.blade_density, c.blade_density),
        render_distance: or_milli(a.render_distance, c.render_distance),
    }
}

// ------------------------------------------------------------------
// Executable mutators
// ------------------------------------------------------------------

impl LiveScene {
    /// A live scene with nothing in it yet.
    pub fn empty() -> (l: LiveScene)
        ensures
            l.models@.len() == 0,
            l.collectables@.len() == 0,
            l.npcs@.len() == 0,
            l.point_lights@.len() == 0,
            l.water_planes@.len() == 0,
            l.grasses@.len() == 0,
            l.trees@.len() == 0,
            l.landscapes@.len() == 0,
            l.cubes@.len() == 0,
            l.spheres@.len() == 0,
    {
        LiveScene {
            models: Vec::new(),
            collectables: Vec::new(),
            npcs: Vec::new(),
            point_lights: Vec::new(),
            water_planes: Vec::new(),
            grasses: Vec::new(),
            trees: Vec::new(),
            landscapes: Vec::new(),
            cubes: Vec::new(),
            spheres: Vec::new(),
        }
    }

    /// Applies a transform command to the live mirror: the first model
    /// carrying the targeted id takes the placement fields present in the
    /// argument.  Other collections are untouched, as in the backing
    /// renderer.
    pub fn transform(&mut self, a: &TransformArgs)
        ensures
            live_same_but_models(*old(self), *final(self)),
            final(self).models@ == spec_transform_live(old(self).models@, *a),
    {
        proof {
            lemma_first_obj_with_id(old(self).models@, a.component_id@);
        }
        let ghost s = self.models@;
        let mut j: usize = 0;
        let mut found = false;
        while j < self.models.len() && !found
            invariant
                0 <= j <= s.len(),
                self.models@ == s,
                self.collectables == old(self).collectables,
                self.npcs == old(self).npcs,
                self.point_lights == old(self).point_lights,
                self.water_planes == old(self).water_planes,
                self.grasses == old(self).grasses,
                self.trees == old(self).trees,
                self.landscapes == old(self).landscapes,
                self.cubes == old(self).cubes,
                self.spheres == old(self).spheres,
                found ==> j < s.len() && s[j as int].id@ == a.component_id@,
                forall|k: int| 0 <= k < j ==> s[k].id@ != a.component_id@,
            decreases s.len() - j + (if found { 0int } else { 1int }),
        {
            if self.models[j].id == a.component_id {
                found = true;
            } else {
                j = j + 1;
            }
        }
        proof {
            lemma_first_obj_with_id(s, a.component_id@);
            if found {
                assert(first_obj_with_id(s, a.component_id@) == j);
            } else {
                assert(first_obj_with_id(s, a.component_id@) == s.len());
            }
        }
        if found {
            let mut o = self.models.remove(j);
            if let Some(t) = a.translation {
                o.position = t;
            }
            if let Some(r) = a.rotation {
                o.rotation = r;
            }
            if let Some(sc) = a.scale {
                o.scale = sc;
            }
            proof {
                assert(o == transformed_object(s[j as int], *a));
            }
            self.models.insert(j, o);
            proof {
                assert(self.models@ =~= spec_transform_live(s, *a));
            }
        }
    }

    /// Adds a freshly constructed model object.
    pub fn add_model(&mut self, o: LiveObject)
        ensures
            live_same_but_models(*old(self), *final(self)),
            final(self).models@ == old(self).models@.push(o),
    {
        self.models.push(o);
    }

    /// Adds a freshly constructed collectable object.
    pub fn add_collectable(&mut self, o: LiveObject)
        ensures
            live_same_but_collectables(*old(self), *final(self)),
            final(self).collectables@ == old(self).collectables@.push(o),
    {
        self.collectables.push(o);
    }

    /// Adds a freshly constructed NPC object.
    pub fn add_npc(&mut self, o: LiveObject)
        ensures
            live_same_but_npcs(*old(self), *final(self)),
            final(self).npcs@ == old(self).npcs@.push(o),
    {
        self.npcs.push(o);
    }

    /// Adds a point light.
    pub fn add_point_light(&mut self, l: LiveLight)
        ensures
            live_same_but_lights(*old(self), *final(self)),
            final(self).point_lights@ == old(self).point_lights@.push(l),
    {
        self.point_lights.push(l);
    }

    /// Adds a debug box.
    pub fn add_cube(&mut self, p: LivePrimitive)
        ensures
            live_same_but_primitives(*old(self), *final(self)),
            final(self).cubes@ == old(self).cubes@.push(p),
            final(self).spheres == old(self).spheres,
    {
        self.cubes.push(p);
    }

    /// Adds a debug sphere.
    pub fn add_sphere(&mut self, p: LivePrimitive)
        ensures
            live_same_but_primitives(*old(self), *final(self)),
            final(self).spheres@ == old(self).spheres@.push(p),
            final(self).cubes == old(self).cubes,
    {
        self.spheres.push(p);
    }

    /// Creates the singleton water plane when none exists and a landscape
    /// is present to carry it; otherwise changes nothing.
    pub fn ensure_water(&mut self)
        ensures
            old(self).water_planes@.len() == 0 && old(self).landscapes@.len() > 0 ==> {
                &&& live_same_but_water(*old(self), *final(self))
                &&& final(self).water_planes@.len() == 1
                &&& final(self).water_planes@[0].landscape_id == old(self).landscapes@[0].id
                &&& final(self).water_planes@[0].config == default_water()
            },
            old(self).water_planes@.len() > 0 || old(self).landscapes@.len() == 0
                ==> *final(self) == *old(self),
    {
        if self.water_planes.len() == 0 && self.landscapes.len() > 0 {
            let id = self.landscapes[0].id.clone();
            self.water_planes.push(WaterPlane {
                landscape_id: id,
                config: WaterConfig {
                    shallow_color: Color4 { r: 0, g: 0, b: 0, a: 1000 },
                    medium_color: Color4 { r: 0, g: 0, b: 0, a: 1000 },
                    deep_color: Color4 { r: 0, g: 0, b: 0, a: 1000 },
                    ripple_amplitude_multiplier: 0,
                    ripple_freq: 0,
                    ripple_speed: 0,
                    shoreline_foam_range: 0,
                    crest_foam_min: 0,
                    crest_foam_max: 0,
                    sparkle_intensity: 0,
                    sparkle_threshold: 0,
                    subsurface_multiplier: 0,
                    fresnel_power: 0,
                    fresnel_multiplier: 0,
                    wave1_amplitude: 0,
                    wave1_frequency: 0,
                    wave1_speed: 0,
                    wave1_steepness: 0,
                    wave1_direction: Vec2 { x: 0, y: 0 },
                    wave2_amplitude: 0,
                    wave2_frequency: 0,
                    wave2_speed: 0,
                    wave2_steepness: 0,
                    wave2_direction: Vec2 { x: 0, y: 0 },
                    wave3_amplitude: 0,
                    wave3_frequency: 0,
                    wave3_speed: 0,
                    wave3_steepness: 0,
                    wave3_direction: Vec2 { x: 0, y: 0 },
                },
            });
        }
    }

    /// Reconfigures the first water plane with the fields present in the
    /// argument; reports whether there was one.
    #[verifier::rlimit(100)]
    pub fn configure_water_first(&mut self, a: &WaterArgs) -> (configured: bool)
        ensures
            old(self).water_planes@.len() == 0 ==> *final(self) == *old(self) && !configured,
            old(self).water_planes@.len() > 0 ==> {
                &&& live_same_but_water(*old(self), *final(self))
                &&& final(self).water_planes@ == old(self).water_planes@.update(0, WaterPlane {
                    landscape_id: old(self).water_planes@[0].landscape_id,
                    config: merged_water(old(self).water_planes@[0].config, *a),
                })
                &&& configured
            },
    {
        if self.water_planes.len() == 0 {
            return false;
        }
        let mut p = self.water_planes.remove(0);
        let c = p.config;
        let m = WaterConfig {
            shallow_color: match a.shallow_color { Some(v) => crate::geom::opaque_color(v), None => c.shallow_color },
            medium_color: match a.medium_color { Some(v) => crate::geom::opaque_color(v), None => c.medium_color },
            deep_color: match a.deep_color { Some(v) => crate::geom::opaque_color(v), None => c.deep_color },
            ripple_amplitude_multiplier: match a.ripple_amplitude_multiplier { Some(v) => v, None => c.ripple_amplitude_multiplier },
            ripple_freq: match a.ripple_freq { Some(v) => v, None => c.ripple_freq },
            ripple_speed: match a.ripple_speed { Some(v) => v, None => c.ripple_speed },
            shoreline_foam_range: match a.shoreline_foam_range { Some(v) => v, None => c.shoreline_foam_range },
            crest_foam_min: match a.crest_foam_min { Some(v) => v, None => c.crest_foam_min },
            crest_foam_max: match a.crest_foam_max { Some(v) => v, None => c.crest_foam_max },
            sparkle_intensity: match a.sparkle_intensity { Some(v) => v, None => c.sparkle_intensity },
            sparkle_threshold: match a.sparkle_threshold { Some(v) => v, None => c.sparkle_threshold },
            subsurface_multiplier: match a.subsurface_multiplier { Some(v) => v, None => c.subsurface_multiplier },
            fresnel_power: match a.fresnel_power { Some(v) => v, None => c.fresnel_power },
            fresnel_multiplier: match a.fresnel_multiplier { Some(v) => v, None => c.fresnel_multiplier },
            wave1_amplitude: match a.wave1.amplitude { Some(v) => v, None => c.wave1_amplitude },
            wave1_frequency: match a.wave1.frequency { Some(v) => v, None => c.wave1_frequency },
            wave1_speed: match a.wave1.speed { Some(v) => v, None => c.wave1_speed },
            wave1_steepness: match a.wave1.steepness { Some(v) => v, None => c.wave1_steepness },
            wave1_direction: match a.wave1.direction { Some(v) => v, None => c.wave1_direction },
            wave2_amplitude: match a.wave2.amplitude { Some(v) => v, None => c.wave2_amplitude },
            wave2_frequency: match a.wave2.frequency { Some(v) => v, None => c.wave2_frequency },
            wave2_speed: match a.wave2.speed { Some(v) => v, None => c.wave2_speed },
            wave2_steepness: match a.wave2.steepness { Some(v) => v, None => c.wave2_steepness },
            wave2_direction: match a.wave2.direction { Some(v) => v, None => c.wave2_direction },
            wave3_amplitude: match a.wave3.amplitude { Some(v) => v, None => c.wave3_amplitude },
            wave3_frequency: match a.wave3.frequency { Some(v) => v, None => c.wave3_frequency },
            wave3_speed: match a.wave3.speed { Some(v) => v, None => c.wave3_speed },
            wave3_steepness: match a.wave3.steepness { Some(v) => v, None => c.wave3_steepness },
            wave3_direction: match a.wave3.direction { Some(v) => v, None => c.wave3_direction },
        };
        proof {
            assert(m == merged_water(c, *a));
        }
        p.config = m;
        self.water_planes.insert(0, p);
        proof {
            assert(self.water_planes@ =~= old(self).water_planes@.update(0, WaterPlane {
                landscape_id: old(self).water_planes@[0].landscape_id,
                config: merged_water(old(self).water_planes@[0].config, *a),
            }));
        }
        true
    }

    /// Regenerates every live tree system with the given tuning.
    pub fn apply_tree_props(&mut self, p: TreeProps)
        ensures
            live_same_but_trees(*old(self), *final(self)),
            final(self).trees@ == Seq::new(old(self).trees@.len(), |i: int| p),
    {
        let ghost orig = self.trees@;
        let mut i: usize = 0;
        while i < self.trees.len()
            invariant
                0 <= i <= orig.len(),
                self.trees@.len() == orig.len(),
                live_same_but_trees(*old(self), *self),
                forall|k: int| 0 <= k < i ==> self.trees@[k] == p,
                forall|k: int| i <= k < orig.len() ==> self.trees@[k] == orig[k],
            decreases orig.len() - i,
        {
            vec_update(&mut self.trees, i, p);
            i = i + 1;
        }
        proof {
            assert(self.trees@ =~= Seq::new(orig.len(), |i: int| p));
        }
    }

    /// Reconfigures every live grass system with the fields present in the
    /// argument.
    pub fn apply_grass_args(&mut self, a: &GrassArgs)
        ensures
            live_same_but_grasses(*old(self), *final(self)),
            final(self).grasses@ == Seq::new(
                old(self).grasses@.len(),
                |i: int| merged_grass_config(old(self).grasses@[i], *a),
            ),
    {
        let ghost orig = self.grasses@;
        let mut i: usize = 0;
        while i < self.grasses.len()
            invariant
                0 <= i <= orig.len(),
                self.grasses@.len() == orig.len(),
                live_same_but_grasses(*old(self), *self),
                forall|k: int| 0 <= k < i ==> self.grasses@[k] == merged_grass_config(orig[k], *a),
                forall|k: int| i <= k < orig.len() ==> self.grasses@[k] == orig[k],
            decreases orig.len() - i,
        {
            let c = self.grasses[i];
            let m = GrassConfig {
                wind_strength: match a.wind_strength { Some(v) => v, None => c.wind_strength },
                wind_speed: match a.wind_speed { Some(v) => v, None => c.wind_speed },
                blade_height: match a.blade_height { Some(v) => v, None => c.blade_height },
                blade_width: match a.blade_width { Some(v) => v, None => c.blade_width },
                blade_density: match a.blade_density { Some(v) => v, None => c.blade_density },
                render_distance: match a.render_distance { Some(v) => v, None => c.render_distance },
            };
            vec_update(&mut self.grasses, i, m);
            i = i + 1;
        }
        proof {
            assert(self.grasses@ =~= Seq::new(
                orig.len(),
                |i: int| merged_grass_config(orig[i], *a),
            ));
        }
    }

    /// Replaces the whole terrain state with one freshly generated
    /// landscape (clear, then add).
    pub fn replace_landscape(&mut self, id: String, position: Vec3)
        ensures
            live_same_but_landscapes(*old(self), *final(self)),
            final(self).landscapes@.len() == 1,
            final(self).landscapes@[0] == (LiveLandscape { id, position }),
    {
        self.landscapes.clear();
        self.landscapes.push(LiveLandscape { id, position });
    }
}

} // verus!
