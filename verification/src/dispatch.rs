//! The command dispatcher and the exclusive scene handle.
//!
//! A command runs as decode → resolve → mutate-live → mutate-document,
//! then reports whether the document should be persisted and which
//! external uploads to perform.  The [`SceneHandle`] carries the
//! single-writer discipline: both representations may only be mutated
//! while the handle is held, and holding it twice is a programming error
//! that the contracts rule out.

use vstd::prelude::*;
use vstd::string::StringExecFns;
use crate::geom::{or_count, or_milli, or_vec3, Milli, Vec2, Vec3};
use crate::value::Value;
use crate::args::{
    CollectableArgs, FeatureArgs, GrassArgs, HeightmapArgs, LightArgs, ModelArgs, NpcArgs,
    PrimitiveArgs, ScriptArgs, SkyArgs, TransformArgs, TreesArgs, WaterArgs,
};
use crate::decode::{
    collectable_args_ok, collectable_decodable, command_decodable, decode_command, grass_args_ok,
    grass_decodable, heightmap_args_ok, light_args_ok, light_decodable, model_args_ok,
    model_decodable, npc_args_ok, npc_decodable, primitive_args_ok, primitive_decodable,
    script_args_ok, script_decodable, sky_args_ok, sky_decodable, transform_args_ok,
    transform_decodable, trees_args_ok, trees_decodable, water_args_ok, water_decodable, Command,
};
use crate::doc::{
    collectable_record_ok, doc_with_components0, doc_with_landscapes, doc_with_level0,
    grass_applied, light_record_ok, make_collectable_record, make_light_record,
    make_model_record, make_npc_record, model_record_ok, npc_record_ok, spec_ensure_landscape,
    spec_landscape_info, spec_resolve_model, spec_script_components, spec_sky_after,
    spec_transform_components, target_of, trees_applied, SceneDocument, TreeProps,
};
use crate::live::{
    default_water, live_same_but_collectables, live_same_but_grasses, live_same_but_landscapes,
    live_same_but_lights, live_same_but_models, live_same_but_npcs, live_same_but_primitives,
    live_same_but_trees, live_same_but_water, merged_grass_config, merged_water,
    spec_transform_live, LiveLight, LiveObject, LivePrimitive, LiveScene, WaterPlane,
};
use crate::ids::fresh_component_id;

verus! {

// ------------------------------------------------------------------
// What the dispatcher hands back
// ------------------------------------------------------------------

/// The type of a composited terrain feature.
#[derive(Clone, Copy, Debug, PartialEq, Eq, Structural)]
pub enum FeatureKind {
    Mountain,
    Valley,
    Plateau,
    Ridge,
}

/// The falloff curve of a terrain feature.
#[derive(Clone, Copy, Debug, PartialEq, Eq, Structural)]
pub enum FalloffKind {
    Linear,
    Smooth,
    Gaussian,
}

/// One terrain feature handed to the external heightfield generator.
#[derive(Clone, Copy, Debug, PartialEq, Eq, Structural)]
pub struct TerrainFeature {
    pub kind: FeatureKind,
    pub center: Vec2,
    pub radius: Milli,
    pub intensity: Milli,
    pub falloff: FalloffKind,
    pub flat_top: Option<Milli>,
    pub transition: Option<Milli>,
}

/// The parameters of one heightfield generation: documented defaults
/// overridden by the command's argument.
#[derive(Clone, Debug, PartialEq)]
pub struct HeightmapParams {
    pub width: u32,
    pub height: u32,
    pub seed: u32,
    pub scale: Milli,
    pub octaves: u32,
    pub persistence: Milli,
    pub lacunarity: Option<Milli>,
    pub features: Vec<TerrainFeature>,
}

/// External work a finished command asks the embedding application to
/// perform.  The engine itself never touches the network or the disk.
#[derive(Clone, Debug, PartialEq)]
pub enum EngineAction {
    /// Generate the heightfield with the given parameters, encode it, and
    /// upload it under the given landscape asset id and file name.
    UploadHeightmap { asset_id: String, filename: String, params: HeightmapParams },
    /// Upload a script body under the given file name.
    UploadScript { filename: String, content: String },
}

/// What one dispatched command reports back.
#[derive(Debug, PartialEq)]
pub struct CommandOutcome {
    /// Whether the mutated document should be shipped to the remote store.
    pub persist: bool,
    /// External uploads to perform, in order.
    pub actions: Vec<EngineAction>,
}

/// The exclusive scene handle: the durable document and its live mirror,
/// guarded by a single-writer flag.
#[derive(Debug)]
pub struct SceneHandle {
    pub busy: bool,
    pub doc: SceneDocument,
    pub live: LiveScene,
}

// ------------------------------------------------------------------
// Feature mapping
// ------------------------------------------------------------------

/// The feature type a payload name denotes; unrecognized names are
/// mountains.
pub open spec fn spec_feature_kind(s: Seq<char>) -> FeatureKind {
    if s == "Valley"@ {
        FeatureKind::Valley
    } else if s == "Plateau"@ {
        FeatureKind::Plateau
    } else if s == "Ridge"@ {
        FeatureKind::Ridge
    } else {
        FeatureKind::Mountain
    }
}

/// The falloff curve a payload name denotes; unrecognized names fall off
/// smoothly.
pub open spec fn spec_falloff(s: Seq<char>) -> FalloffKind {
    if s == "Linear"@ {
        FalloffKind::Linear
    } else if s == "Gaussian"@ {
        FalloffKind::Gaussian
    } else {
        FalloffKind::Smooth
    }
}

/// The terrain feature a decoded feature argument denotes.
pub open spec fn map_feature(f: FeatureArgs) -> TerrainFeature {
    TerrainFeature {
        kind: spec_feature_kind(f.kind_name@),
        center: f.center,
        radius: f.radius,
        intensity: f.intensity,
        falloff: spec_falloff(f.falloff_name@),
        flat_top: f.flat_top,
        transition: f.transition,
    }
}

/// Executable counterpart of [`map_feature`].
pub fn map_feature_exec(f: &FeatureArgs) -> (t: TerrainFeature)
    ensures
        t == map_feature(*f),
{
    let kind = if crate::value::str_eq(f.kind_name.as_str(), "Valley") {
        FeatureKind::Valley
    } else if crate::value::str_eq(f.kind_name.as_str(), "Plateau") {
        FeatureKind::Plateau
    } else if crate::value::str_eq(f.kind_name.as_str(), "Ridge") {
        FeatureKind::Ridge
    } else {
        FeatureKind::Mountain
    };
    let falloff = if crate::value::str_eq(f.falloff_name.as_str(), "Linear") {
        FalloffKind::Linear
    } else if crate::value::str_eq(f.falloff_name.as_str(), "Gaussian") {
        FalloffKind::Gaussian
    } else {
        FalloffKind::Smooth
    };
    TerrainFeature {
        kind,
        center: f.center,
        radius: f.radius,
        intensity: f.intensity,
        falloff,
        flat_top: f.flat_top,
        transition: f.transition,
    }
}

/// The generation parameters a generate-heightmap command settles on.
pub open spec fn heightmap_params_ok(p: HeightmapParams, a: HeightmapArgs) -> bool {
    &&& p.width == 1024u32
    &&& p.height == 1024u32
    &&& p.seed == or_count(a.seed, 42)
    &&& p.scale == or_milli(a.scale, 1024000)
    &&& p.octaves == 8u32
    &&& p.persistence == or_milli(a.persistence, 500)
    &&& p.lacunarity == a.lacunarity
    &&& match a.features {
        None => p.features@.len() == 0,
        Some(fs) => p.features@.len() == fs@.len() && forall|i: int|
            0 <= i < fs@.len() ==> p.features@[i] == map_feature(#[trigger] fs@[i]),
    }
}

// ------------------------------------------------------------------
// Per-command steps: how a command relates the old and the new state
// ------------------------------------------------------------------

/// A transform updates the first matching record and live model, and
/// always schedules persistence.
pub open spec fn transform_step(
    d0: SceneDocument, l0: LiveScene, d1: SceneDocument, l1: LiveScene,
    out: CommandOutcome, a: TransformArgs,
) -> bool {
    &&& doc_with_components0(d0, d1, spec_transform_components(d0.components0(), a))
    &&& live_same_but_models(l0, l1)
    &&& l1.models@ == spec_transform_live(l0.models@, a)
    &&& out.persist
    &&& out.actions@.len() == 0
}

/// Configure-water touches the live mirror only: the singleton plane is
/// created when a landscape can carry it, then reconfigured; persistence
/// is scheduled only when a plane was configured.
pub open spec fn water_step(
    d0: SceneDocument, l0: LiveScene, d1: SceneDocument, l1: LiveScene,
    out: CommandOutcome, a: WaterArgs,
) -> bool {
    &&& d1 == d0
    &&& out.actions@.len() == 0
    &&& if l0.water_planes@.len() > 0 {
        &&& live_same_but_water(l0, l1)
        &&& l1.water_planes@ == l0.water_planes@.update(0, WaterPlane {
            landscape_id: l0.water_planes@[0].landscape_id,
            config: merged_water(l0.water_planes@[0].config, a),
        })
        &&& out.persist
    } else if l0.landscapes@.len() > 0 {
        &&& live_same_but_water(l0, l1)
        &&& l1.water_planes@.len() == 1
        &&& l1.water_planes@[0].landscape_id == l0.landscapes@[0].id
        &&& l1.water_planes@[0].config == merged_water(default_water(), a)
        &&& out.persist
    } else {
        &&& l1 == l0
        &&& !out.persist
    }
}

/// Configure-sky creates or merges the active level's sky block in the
/// document; the live mirror is untouched.
pub open spec fn sky_step(
    d0: SceneDocument, l0: LiveScene, d1: SceneDocument, l1: LiveScene,
    out: CommandOutcome, a: SkyArgs,
) -> bool {
    &&& doc_with_level0(d0, d1, d0.components0(), Some(spec_sky_after(d0.sky0(), a)))
        || (d0.levels@.len() == 0 && d1 == d0)
    &&& l1 == l0
    &&& out.persist
    &&& out.actions@.len() == 0
}

/// Configure-trees updates or creates the document's tree component and,
/// when a tuning was settled, regenerates every live tree system with it.
pub open spec fn trees_step(
    d0: SceneDocument, l0: LiveScene, d1: SceneDocument, l1: LiveScene,
    out: CommandOutcome, a: TreesArgs, id: String,
) -> bool {
    &&& id@.len() == 36
    &&& if d0.levels@.len() == 0 {
        d1 == d0 && l1 == l0
    } else {
        exists|p: Option<TreeProps>|
            #[trigger] trees_applied(d0, d1, a, id, p) && match p {
                Some(q) => live_same_but_trees(l0, l1)
                    && l1.trees@ == Seq::new(l0.trees@.len(), |i: int| q),
                None => l1 == l0,
            }
    }
    &&& out.persist
    &&& out.actions@.len() == 0
}

/// Configure-grass reconfigures every live grass system and updates or
/// creates the document's grass components.
pub open spec fn grass_step(
    d0: SceneDocument, l0: LiveScene, d1: SceneDocument, l1: LiveScene,
    out: CommandOutcome, a: GrassArgs, id: String,
) -> bool {
    &&& id@.len() == 36
    &&& if d0.levels@.len() == 0 {
        d1 == d0
    } else {
        grass_applied(d0, d1, a, id)
    }
    &&& live_same_but_grasses(l0, l1)
    &&& l1.grasses@ == Seq::new(l0.grasses@.len(), |i: int| merged_grass_config(l0.grasses@[i], a))
    &&& out.persist
    &&& out.actions@.len() == 0
}

/// Spawn-model resolves the asset and, on success, adds the same freshly
/// generated id to the live mirror and the document.  An unresolvable
/// asset changes nothing.
pub open spec fn spawn_model_step(
    d0: SceneDocument, l0: LiveScene, d1: SceneDocument, l1: LiveScene,
    out: CommandOutcome, a: ModelArgs, id: String,
) -> bool {
    &&& out.actions@.len() == 0
    &&& match spec_resolve_model(d0.models@, a.asset_id@) {
        None => d1 == d0 && l1 == l0 && !out.persist,
        Some(file) => {
            &&& id@.len() == 36
            &&& live_same_but_models(l0, l1)
            &&& l1.models@ == l0.models@.push(LiveObject {
                id: id,
                asset_file: file,
                position: or_vec3(a.position, Vec3::zero()),
                rotation: or_vec3(a.rotation, Vec3::zero()),
                scale: or_vec3(a.scale, Vec3::one()),
            })
            &&& exists|r: crate::doc::ComponentRecord|
                #[trigger] model_record_ok(r, id, a)
                    && doc_with_components0(d0, d1, d0.components0().push(r))
            &&& out.persist
        },
    }
}

/// Spawn-point-light needs no resolution: the light reaches both
/// representations under one fresh id.
pub open spec fn light_step(
    d0: SceneDocument, l0: LiveScene, d1: SceneDocument, l1: LiveScene,
    out: CommandOutcome, a: LightArgs, id: String,
) -> bool {
    &&& out.actions@.len() == 0
    &&& id@.len() == 36
    &&& live_same_but_lights(l0, l1)
    &&& l1.point_lights@ == l0.point_lights@.push(LiveLight {
        id: id,
        position: a.position,
        color: or_vec3(a.color, Vec3 { x: 1000, y: 1000, z: 1000 }),
        intensity: or_milli(a.intensity, 1000),
        max_distance: or_milli(a.radius, 10000),
    })
    &&& exists|r: crate::doc::ComponentRecord|
        #[trigger] light_record_ok(r, id, a)
            && doc_with_components0(d0, d1, d0.components0().push(r))
    &&& out.persist
}

/// Spawn-collectable needs a resolvable asset and a stat template; on
/// success the collectable reaches both representations under one fresh
/// id, linked to the document's first stat.
pub open spec fn spawn_collectable_step(
    d0: SceneDocument, l0: LiveScene, d1: SceneDocument, l1: LiveScene,
    out: CommandOutcome, a: CollectableArgs, id: String,
) -> bool {
    &&& out.actions@.len() == 0
    &&& match spec_resolve_model(d0.models@, a.asset_id@) {
        None => d1 == d0 && l1 == l0 && !out.persist,
        Some(file) => if d0.stats@.len() == 0 {
            d1 == d0 && l1 == l0 && !out.persist
        } else {
            &&& id@.len() == 36
            &&& live_same_but_collectables(l0, l1)
            &&& l1.collectables@ == l0.collectables@.push(LiveObject {
                id: id,
                asset_file: file,
                position: or_vec3(a.position, Vec3::zero()),
                rotation: or_vec3(a.rotation, Vec3::zero()),
                scale: or_vec3(a.scale, Vec3::one()),
            })
            &&& exists|r: crate::doc::ComponentRecord|
                #[trigger] collectable_record_ok(r, id, a, d0.stats@[0].id)
                    && doc_with_components0(d0, d1, d0.components0().push(r))
            &&& out.persist
        },
    }
}

/// Spawn-NPC resolves the asset and, on success, adds the NPC to both
/// representations under one fresh id.
pub open spec fn spawn_npc_step(
    d0: SceneDocument, l0: LiveScene, d1: SceneDocument, l1: LiveScene,
    out: CommandOutcome, a: NpcArgs, id: String,
) -> bool {
    &&& out.actions@.len() == 0
    &&& match spec_resolve_model(d0.models@, a.asset_id@) {
        None => d1 == d0 && l1 == l0 && !out.persist,
        Some(file) => {
            &&& id@.len() == 36
            &&& live_same_but_npcs(l0, l1)
            &&& l1.npcs@ == l0.npcs@.push(LiveObject {
                id: id,
                asset_file: file,
                position: or_vec3(a.position, Vec3::zero()),
                rotation: or_vec3(a.rotation, Vec3::zero()),
                scale: or_vec3(a.scale, Vec3::one()),
            })
            &&& exists|r: crate::doc::ComponentRecord|
                #[trigger] npc_record_ok(r, id, a)
                    && doc_with_components0(d0, d1, d0.components0().push(r))
            &&& out.persist
        },
    }
}

/// Spawn-primitive builds a debug primitive in the live mirror only; the
/// document gets no record, but persistence is still scheduled, even for
/// an unrecognized shape.
pub open spec fn primitive_step(
    d0: SceneDocument, l0: LiveScene, d1: SceneDocument, l1: LiveScene,
    out: CommandOutcome, a: PrimitiveArgs, id: String,
) -> bool {
    &&& d1 == d0
    &&& out.persist
    &&& out.actions@.len() == 0
    &&& id@.len() == 36
    &&& if a.shape@ == "Cube"@ {
        &&& live_same_but_primitives(l0, l1)
        &&& l1.cubes@ == l0.cubes@.push(LivePrimitive {
            id: id,
            position: a.position,
            scale: or_vec3(a.scale, Vec3::one()),
        })
        &&& l1.spheres == l0.spheres
    } else if a.shape@ == "Sphere"@ {
        &&& live_same_but_primitives(l0, l1)
        &&& l1.spheres@ == l0.spheres@.push(LivePrimitive {
            id: id,
            position: a.position,
            scale: or_vec3(a.scale, Vec3::one()),
        })
        &&& l1.cubes == l0.cubes
    } else {
        l1 == l0
    }
}

/// Save-script points the targeted record (if any) at the script's path
/// and asks the application to upload the script body.
pub open spec fn script_step(
    d0: SceneDocument, l0: LiveScene, d1: SceneDocument, l1: LiveScene,
    out: CommandOutcome, a: ScriptArgs,
) -> bool {
    &&& l1 == l0
    &&& match a.component_id {
        Some(cid) => {
            &&& exists|p: String| p@ == "scripts/"@ + a.filename@
                && #[trigger] doc_with_components0(d0, d1, spec_script_components(d0.components0(), cid@, p))
            &&& out.persist
        },
        None => d1 == d0 && !out.persist,
    }
    &&& out.actions@.len() == 1
    &&& out.actions@[0] matches EngineAction::UploadScript { filename, content }
        && filename == a.filename && content == a.content
}

/// Generate-heightmap reuses the targeted (or first) landscape's
/// position, asset id and file name when they resolve, or starts fresh;
/// the document's landscape asset points at the file, the live terrain is
/// replaced by exactly one landscape at the settled position, and the
/// generated heightfield is handed out for upload.
pub open spec fn heightmap_step(
    d0: SceneDocument, l0: LiveScene, d1: SceneDocument, l1: LiveScene,
    out: CommandOutcome, a: HeightmapArgs, aid: String, fname: String, position: Vec3,
) -> bool {
    &&& match spec_landscape_info(d0, target_of(a.component_id)) {
        Some(li) => aid == li.asset_id && fname == li.filename && position == li.position,
        None => position == Vec3::zero() && aid@.len() == 36,
    }
    &&& doc_with_landscapes(d0, d1, spec_ensure_landscape(d0.landscapes@, aid, fname))
    &&& live_same_but_landscapes(l0, l1)
    &&& l1.landscapes@.len() == 1
    &&& l1.landscapes@[0].id@ == "generated_landscape"@
    &&& l1.landscapes@[0].position == position
    &&& out.persist
    &&& out.actions@.len() == 1
    &&& out.actions@[0] matches EngineAction::UploadHeightmap { asset_id, filename, params }
        && asset_id == aid && filename == fname && heightmap_params_ok(params, a)
}

// ------------------------------------------------------------------
// The dispatcher
// ------------------------------------------------------------------

/// Everything one dispatched command promises, by command name.  Unknown
/// names change nothing; for a known name, any argument record the
/// payload decodes to has its step applied (the decoder is deterministic,
/// so there is exactly one such record).
pub open spec fn dispatch_post(
    name: Seq<char>, v: Value,
    d0: SceneDocument, l0: LiveScene, d1: SceneDocument, l1: LiveScene,
    out: CommandOutcome,
) -> bool {
    if !command_decodable(name, v) {
        d1 == d0 && l1 == l0 && !out.persist && out.actions@.len() == 0
    } else if name == "transformObject"@ {
        forall|a: TransformArgs| #[trigger] transform_args_ok(v, a)
            ==> transform_step(d0, l0, d1, l1, out, a)
    } else if name == "configureWater"@ {
        forall|a: WaterArgs| #[trigger] water_args_ok(v, a) ==> water_step(d0, l0, d1, l1, out, a)
    } else if name == "configureSky"@ {
        forall|a: SkyArgs| #[trigger] sky_args_ok(v, a) ==> sky_step(d0, l0, d1, l1, out, a)
    } else if name == "configureTrees"@ {
        forall|a: TreesArgs| #[trigger] trees_args_ok(v, a)
            ==> exists|id: String| #[trigger] trees_step(d0, l0, d1, l1, out, a, id)
    } else if name == "configureGrass"@ {
        forall|a: GrassArgs| #[trigger] grass_args_ok(v, a)
            ==> exists|id: String| #[trigger] grass_step(d0, l0, d1, l1, out, a, id)
    } else if name == "spawnModel"@ {
        forall|a: ModelArgs| #[trigger] model_args_ok(v, a)
            ==> exists|id: String| #[trigger] spawn_model_step(d0, l0, d1, l1, out, a, id)
    } else if name == "spawnPointLight"@ {
        forall|a: LightArgs| #[trigger] light_args_ok(v, a)
            ==> exists|id: String| #[trigger] light_step(d0, l0, d1, l1, out, a, id)
    } else if name == "spawnCollectable"@ {
        forall|a: CollectableArgs| #[trigger] collectable_args_ok(v, a)
            ==> exists|id: String| #[trigger] spawn_collectable_step(d0, l0, d1, l1, out, a, id)
    } else if name == "spawnNPC"@ {
        forall|a: NpcArgs| #[trigger] npc_args_ok(v, a)
            ==> exists|id: String| #[trigger] spawn_npc_step(d0, l0, d1, l1, out, a, id)
    } else if name == "spawnPrimitive"@ {
        forall|a: PrimitiveArgs| #[trigger] primitive_args_ok(v, a)
            ==> exists|id: String| #[trigger] primitive_step(d0, l0, d1, l1, out, a, id)
    } else if name == "saveScript"@ {
        forall|a: ScriptArgs| #[trigger] script_args_ok(v, a) ==> script_step(d0, l0, d1, l1, out, a)
    } else if name == "generateHeightmap"@ {
        forall|a: HeightmapArgs| #[trigger] heightmap_args_ok(v, a)
            ==> exists|aid: String, fname: String, position: Vec3|
                #[trigger] heightmap_step(d0, l0, d1, l1, out, a, aid, fname, position)
    } else {
        true
    }
}

impl SceneHandle {
    /// Wraps a loaded document and its live mirror; the handle starts
    /// free.
    pub fn new(doc: SceneDocument, live: LiveScene) -> (h: SceneHandle)
        ensures
            !h.busy,
            h.doc == doc,
            h.live == live,
    {
        SceneHandle { busy: false, doc, live }
    }

    /// Takes exclusive access.  Taking it while it is held is the
    /// re-entrancy error the contracts rule out.
    pub fn acquire(&mut self)
        requires
            !old(self).busy,
        ensures
            final(self).busy,
            final(self).doc == old(self).doc,
            final(self).live == old(self).live,
    {
        self.busy = true;
    }

    /// Releases exclusive access.
    pub fn release(&mut self)
        requires
            old(self).busy,
        ensures
            !final(self).busy,
            final(self).doc == old(self).doc,
            final(self).live == old(self).live,
    {
        self.busy = false;
    }
}

/// The fixed acknowledgement every command returns to its caller; the
/// engine reports no partial failure detail.
pub fn ack() -> (r: String)
    ensures
        r@ == "{\"success\": true}"@,
{
    "{\"success\": true}".to_owned()
}

/// Dispatches one named command against the scene: decode, resolve,
/// mutate the live mirror and the document under exclusive access, and
/// report persistence and uploads.  A malformed payload or an unknown
/// name leaves both representations untouched and schedules nothing.
pub fn run_command(h: &mut SceneHandle, name: &str, payload: &Value) -> (out: CommandOutcome)
    requires
        !old(h).busy,
    ensures
        !final(h).busy,
        dispatch_post(name@, *payload, old(h).doc, old(h).live, final(h).doc, final(h).live, out),
        !command_decodable(name@, *payload) ==> final(h).doc == old(h).doc
            && final(h).live == old(h).live && !out.persist && out.actions@.len() == 0,
{
    h.acquire();
    let decoded = decode_command(name, payload);
    let out: CommandOutcome = match decoded {
        None => CommandOutcome { persist: false, actions: Vec::new() },
        Some(Command::Transform(a)) => {
            h.doc.transform(&a);
            h.live.transform(&a);
            let out = CommandOutcome { persist: true, actions: Vec::new() };
            proof {
                assert(name@ == "transformObject"@);
                assert(transform_args_ok(*payload, a));
                assert(transform_decodable(*payload));
                assert(command_decodable(name@, *payload));
                assert forall|a2: TransformArgs| transform_args_ok(*payload, a2)
                    implies transform_step(old(h).doc, old(h).live, h.doc, h.live, out, a2) by {
                    assert(a2 == a);
                }
            }
            out
        },
        Some(Command::ConfigureWater(a)) => {
            h.live.ensure_water();
            let configured = h.live.configure_water_first(&a);
            let out = CommandOutcome { persist: configured, actions: Vec::new() };
            proof {
                assert(name@ == "configureWater"@);
                assert(water_args_ok(*payload, a));
                assert(water_decodable(*payload));
                assert(command_decodable(name@, *payload));
                assert forall|a2: WaterArgs| water_args_ok(*payload, a2)
                    implies water_step(old(h).doc, old(h).live, h.doc, h.live, out, a2) by {
                    assert(a2 == a);
                }
            }
            out
        },
        Some(Command::ConfigureSky(a)) => {
            h.doc.configure_sky(&a);
            let out = CommandOutcome { persist: true, actions: Vec::new() };
            proof {
                assert(name@ == "configureSky"@);
                assert(sky_args_ok(*payload, a));
                assert(sky_decodable(*payload));
                assert(command_decodable(name@, *payload));
                assert forall|a2: SkyArgs| sky_args_ok(*payload, a2)
                    implies sky_step(old(h).doc, old(h).live, h.doc, h.live, out, a2) by {
                    assert(a2 == a);
                }
            }
            out
        },
        Some(Command::ConfigureTrees(a)) => {
            let id = fresh_component_id();
            let ghost gid: String = id;
            let p = h.doc.configure_trees(&a, id);
            match p {
                Some(props) => h.live.apply_tree_props(props),
                None => (),
            }
            let out = CommandOutcome { persist: true, actions: Vec::new() };
            proof {
                assert(name@ == "configureTrees"@);
                assert(trees_args_ok(*payload, a));
                assert(trees_decodable(*payload));
                assert(command_decodable(name@, *payload));
                assert forall|a2: TreesArgs| trees_args_ok(*payload, a2)
                    implies exists|id2: String| #[trigger] trees_step(old(h).doc, old(h).live, h.doc, h.live, out, a2, id2) by {
                    assert(a2 == a);
                    assert(trees_step(old(h).doc, old(h).live, h.doc, h.live, out, a2, gid));
                }
            }
            out
        },
        Some(Command::ConfigureGrass(a)) => {
            h.live.apply_grass_args(&a);
            let id = fresh_component_id();
            let ghost gid: String = id;
            h.doc.configure_grass(&a, id);
            let out = CommandOutcome { persist: true, actions: Vec::new() };
            proof {
                assert(name@ == "configureGrass"@);
                assert(grass_args_ok(*payload, a));
                assert(grass_decodable(*payload));
                assert(command_decodable(name@, *payload));
                assert forall|a2: GrassArgs| grass_args_ok(*payload, a2)
                    implies exists|id2: String| #[trigger] grass_step(old(h).doc, old(h).live, h.doc, h.live, out, a2, id2) by {
                    assert(a2 == a);
                    assert(grass_step(old(h).doc, old(h).live, h.doc, h.live, out, a2, gid));
                }
            }
            out
        },
        Some(Command::SpawnModel(a)) => {
            let out: CommandOutcome;
            match h.doc.resolve_model_file(&a.asset_id) {
                None => {
                    out = CommandOutcome { persist: false, actions: Vec::new() };
                    proof {
                        assert(name@ == "spawnModel"@);
                        assert(model_args_ok(*payload, a));
                        assert(model_decodable(*payload));
                        assert(command_decodable(name@, *payload));
                        assert forall|a2: ModelArgs| model_args_ok(*payload, a2)
                            implies exists|id2: String| #[trigger] spawn_model_step(old(h).doc, old(h).live, h.doc, h.live, out, a2, id2) by {
                            assert(a2 == a);
                            assert(spawn_model_step(old(h).doc, old(h).live, h.doc, h.live, out, a2, a2.asset_id));
                        }
                    }
                },
                Some(file) => {
                    let id = fresh_component_id();
                    let ghost gid: String = id;
                    let obj = LiveObject {
                        id: id.clone(),
                        asset_file: file,
                        position: match a.position { Some(v) => v, None => Vec3 { x: 0, y: 0, z: 0 } },
                        rotation: match a.rotation { Some(v) => v, None => Vec3 { x: 0, y: 0, z: 0 } },
                        scale: match a.scale { Some(v) => v, None => Vec3 { x: 1000, y: 1000, z: 1000 } },
                    };
                    h.live.add_model(obj);
                    let r = make_model_record(id, &a);
                    h.doc.append_component(r);
                    out = CommandOutcome { persist: true, actions: Vec::new() };
                    proof {
                        assert(name@ == "spawnModel"@);
                        assert(model_args_ok(*payload, a));
                        assert(model_decodable(*payload));
                        assert(command_decodable(name@, *payload));
                        assert forall|a2: ModelArgs| model_args_ok(*payload, a2)
                            implies exists|id2: String| #[trigger] spawn_model_step(old(h).doc, old(h).live, h.doc, h.live, out, a2, id2) by {
                            assert(a2 == a);
                            assert(spawn_model_step(old(h).doc, old(h).live, h.doc, h.live, out, a2, gid));
                        }
                    }
                },
            }
            out
        },
        Some(Command::SpawnPointLight(a)) => {
            let id = fresh_component_id();
            let ghost gid: String = id;
            let light = LiveLight {
                id: id.clone(),
                position: a.position,
                color: match a.color { Some(v) => v, None => Vec3 { x: 1000, y: 1000, z: 1000 } },
                intensity: match a.intensity { Some(v) => v, None => 1000 },
                max_distance: match a.radius { Some(v) => v, None => 10000 },
            };
            h.live.add_point_light(light);
            let r = make_light_record(id, &a);
            h.doc.append_component(r);
            let out = CommandOutcome { persist: true, actions: Vec::new() };
            proof {
                assert(name@ == "spawnPointLight"@);
                assert(light_args_ok(*payload, a));
                assert(light_decodable(*payload));
                assert(command_decodable(name@, *payload));
                assert forall|a2: LightArgs| light_args_ok(*payload, a2)
                    implies exists|id2: String| #[trigger] light_step(old(h).doc, old(h).live, h.doc, h.live, out, a2, id2) by {
                    assert(a2 == a);
                    assert(light_step(old(h).doc, old(h).live, h.doc, h.live, out, a2, gid));
                }
            }
            out
        },
        Some(Command::SpawnCollectable(a)) => {
            let out: CommandOutcome;
            let file_opt = h.doc.resolve_model_file(&a.asset_id);
            let stat_opt = h.doc.first_stat_id();
            match (file_opt, stat_opt) {
                (Some(file), Some(stat_id)) => {
                    let id = fresh_component_id();
                    let ghost gid: String = id;
                    let obj = LiveObject {
                        id: id.clone(),
                        asset_file: file,
                        position: match a.position { Some(v) => v, None => Vec3 { x: 0, y: 0, z: 0 } },
                        rotation: match a.rotation { Some(v) => v, None => Vec3 { x: 0, y: 0, z: 0 } },
                        scale: match a.scale { Some(v) => v, None => Vec3 { x: 1000, y: 1000, z: 1000 } },
                    };
                    h.live.add_collectable(obj);
                    let r = make_collectable_record(id, &a, stat_id);
                    h.doc.append_component(r);
                    out = CommandOutcome { persist: true, actions: Vec::new() };
                    proof {
                        assert(name@ == "spawnCollectable"@);
                        assert(collectable_args_ok(*payload, a));
                        assert(collectable_decodable(*payload));
                        assert(command_decodable(name@, *payload));
                        assert forall|a2: CollectableArgs| collectable_args_ok(*payload, a2)
                            implies exists|id2: String| #[trigger] spawn_collectable_step(old(h).doc, old(h).live, h.doc, h.live, out, a2, id2) by {
                            assert(a2 == a);
                            assert(spawn_collectable_step(old(h).doc, old(h).live, h.doc, h.live, out, a2, gid));
                        }
                    }
                },
                _ => {
                    out = CommandOutcome { persist: false, actions: Vec::new() };
                    proof {
                        assert(name@ == "spawnCollectable"@);
                        assert(collectable_args_ok(*payload, a));
                        assert(collectable_decodable(*payload));
                        assert(command_decodable(name@, *payload));
                        assert forall|a2: CollectableArgs| collectable_args_ok(*payload, a2)
                            implies exists|id2: String| #[trigger] spawn_collectable_step(old(h).doc, old(h).live, h.doc, h.live, out, a2, id2) by {
                            assert(a2 == a);
                            assert(spawn_collectable_step(old(h).doc, old(h).live, h.doc, h.live, out, a2, a2.asset_id));
                        }
                    }
                },
            }
            out
        },
        Some(Command::SpawnNpc(a)) => {
            let out: CommandOutcome;
            match h.doc.resolve_model_file(&a.asset_id) {
                None => {
                    out = CommandOutcome { persist: false, actions: Vec::new() };
                    proof {
                        assert(name@ == "spawnNPC"@);
                        assert(npc_args_ok(*payload, a));
                        assert(npc_decodable(*payload));
                        assert(command_decodable(name@, *payload));
                        assert forall|a2: NpcArgs| npc_args_ok(*payload, a2)
                            implies exists|id2: String| #[trigger] spawn_npc_step(old(h).doc, old(h).live, h.doc, h.live, out, a2, id2) by {
                            assert(a2 == a);
                            assert(spawn_npc_step(old(h).doc, old(h).live, h.doc, h.live, out, a2, a2.asset_id));
                        }
                    }
                },
                Some(file) => {
                    let id = fresh_component_id();
                    let ghost gid: String = id;
                    let obj = LiveObject {
                        id: id.clone(),
                        asset_file: file,
                        position: match a.position { Some(v) => v, None => Vec3 { x: 0, y: 0, z: 0 } },
                        rotation: match a.rotation { Some(v) => v, None => Vec3 { x: 0, y: 0, z: 0 } },
                        scale: match a.scale { Some(v) => v, None => Vec3 { x: 1000, y: 1000, z: 1000 } },
                    };
                    h.live.add_npc(obj);
                    let r = make_npc_record(id, &a);
                    h.doc.append_component(r);
                    out = CommandOutcome { persist: true, actions: Vec::new() };
                    proof {
                        assert(name@ == "spawnNPC"@);
                        assert(npc_args_ok(*payload, a));
                        assert(npc_decodable(*payload));
                        assert(command_decodable(name@, *payload));
                        assert forall|a2: NpcArgs| npc_args_ok(*payload, a2)
                            implies exists|id2: String| #[trigger] spawn_npc_step(old(h).doc, old(h).live, h.doc, h.live, out, a2, id2) by {
                            assert(a2 == a);
                            assert(spawn_npc_step(old(h).doc, old(h).live, h.doc, h.live, out, a2, gid));
                        }
                    }
                },
            }
            out
        },
        Some(Command::SpawnPrimitive(a)) => {
            let id = fresh_component_id();
            let ghost gid: String = id;
            if crate::value::str_eq(a.shape.as_str(), "Cube") {
                h.live.add_cube(LivePrimitive {
                    id,
                    position: a.position,
                    scale: match a.scale { Some(v) => v, None => Vec3 { x: 1000, y: 1000, z: 1000 } },
                });
            } else if crate::value::str_eq(a.shape.as_str(), "Sphere") {
                h.live.add_sphere(LivePrimitive {
                    id,
                    position: a.position,
                    scale: match a.scale { Some(v) => v, None => Vec3 { x: 1000, y: 1000, z: 1000 } },
                });
            }
            let out = CommandOutcome { persist: true, actions: Vec::new() };
            proof {
                assert(name@ == "spawnPrimitive"@);
                assert(primitive_args_ok(*payload, a));
                assert(primitive_decodable(*payload));
                assert(command_decodable(name@, *payload));
                assert forall|a2: PrimitiveArgs| primitive_args_ok(*payload, a2)
                    implies exists|id2: String| #[trigger] primitive_step(old(h).doc, old(h).live, h.doc, h.live, out, a2, id2) by {
                    assert(a2 == a);
                    assert(primitive_step(old(h).doc, old(h).live, h.doc, h.live, out, a2, gid));
                }
            }
            out
        },
        Some(Command::SaveScript(a)) => {
            let persist: bool;
            let path = "scripts/".to_owned().concat(a.filename.as_str());
            let ghost gpath: String = path;
            match &a.component_id {
                Some(cid) => {
                    h.doc.set_script_path(cid, path);
                    persist = true;
                },
                None => {
                    persist = false;
                },
            }
            let mut actions: Vec<EngineAction> = Vec::new();
            actions.push(EngineAction::UploadScript {
                filename: a.filename.clone(),
                content: a.content.clone(),
            });
            let out = CommandOutcome { persist, actions };
            proof {
                assert(name@ == "saveScript"@);
                assert(script_args_ok(*payload, a));
                assert(script_decodable(*payload));
                assert(command_decodable(name@, *payload));
                assert forall|a2: ScriptArgs| script_args_ok(*payload, a2)
                    implies script_step(old(h).doc, old(h).live, h.doc, h.live, out, a2) by {
                    assert(a2 == a);
                }
            }
            out
        },
        Some(Command::GenerateHeightmap(a)) => {
            let info = h.doc.landscape_info(a.component_id.as_ref());
            let position: Vec3;
            let aid: String;
            let fname: String;
            match info {
                Some(li) => {
                    position = li.position;
                    aid = li.asset_id;
                    fname = li.filename;
                },
                None => {
                    position = Vec3 { x: 0, y: 0, z: 0 };
                    aid = fresh_component_id();
                    let suffix = fresh_component_id();
                    fname = "heightmap_".to_owned().concat(suffix.as_str()).concat(".png");
                },
            }
            let ghost gaid: String = aid;
            let ghost gfname: String = fname;
            let ghost gpos: Vec3 = position;
            let fname_doc = fname.clone();
            h.doc.ensure_landscape_asset(&aid, fname_doc);
            h.live.replace_landscape("generated_landscape".to_owned(), position);
            let mut features: Vec<TerrainFeature> = Vec::new();
            match &a.features {
                Some(fs) => {
                    let mut i: usize = 0;
                    while i < fs.len()
                        invariant
                            0 <= i <= fs@.len(),
                            features@.len() == i,
                            a.features matches Some(fs2) && fs2 == *fs,
                            forall|k: int| 0 <= k < i ==> features@[k] == map_feature(#[trigger] fs@[k]),
                        decreases fs@.len() - i,
                    {
                        let t = map_feature_exec(&fs[i]);
                        features.push(t);
                        i = i + 1;
                    }
                },
                None => {},
            }
            let params = HeightmapParams {
                width: 1024,
                height: 1024,
                seed: match a.seed { Some(v) => v, None => 42 },
                scale: match a.scale { Some(v) => v, None => 1024000 },
                octaves: 8,
                persistence: match a.persistence { Some(v) => v, None => 500 },
                lacunarity: a.lacunarity,
                features,
            };
            proof {
                assert(heightmap_params_ok(params, a));
            }
            let ghost gparams: HeightmapParams = params;
            let mut actions: Vec<EngineAction> = Vec::new();
            actions.push(EngineAction::UploadHeightmap {
                asset_id: aid,
                filename: fname,
                params,
            });
            let out = CommandOutcome { persist: true, actions };
            proof {
                assert(name@ == "generateHeightmap"@);
                assert(heightmap_args_ok(*payload, a));
                let ghost fv0 = match payload {
                    Value::Obj(ps) => crate::decode::spec_field(ps@, "features"@),
                    _ => None,
                };
                match fv0 {
                    Some(Value::Arr(items0)) => {
                        let fs0 = a.features->Some_0;
                        assert(crate::decode::features_ok(items0@, fs0@));
                        assert forall|i: int| 0 <= i < items0@.len()
                            implies crate::decode::feature_decodable(#[trigger] items0@[i]) by {
                            assert(crate::decode::feature_args_ok(items0@[i], fs0@[i]));
                        }
                        assert(crate::decode::features_decodable(items0@));
                    },
                    _ => {},
                }
                assert(crate::decode::heightmap_decodable(*payload));
                assert(command_decodable(name@, *payload));
                assert forall|a2: HeightmapArgs| heightmap_args_ok(*payload, a2)
                    implies exists|aid2: String, fname2: String, position2: Vec3|
                        #[trigger] heightmap_step(old(h).doc, old(h).live, h.doc, h.live, out, a2, aid2, fname2, position2) by {
                    assert(a2.component_id == a.component_id);
                    assert(a2.seed == a.seed);
                    assert(a2.scale == a.scale);
                    assert(a2.persistence == a.persistence);
                    assert(a2.lacunarity == a.lacunarity);
                    let fv = match *payload {
                        Value::Obj(ps) => crate::decode::spec_field(ps@, "features"@),
                        _ => None,
                    };
                    match fv {
                        None => {
                            assert(a.features is None && a2.features is None);
                        },
                        Some(Value::Arr(items)) => {
                            assert(a.features is Some && a2.features is Some);
                            let fs = a.features->Some_0;
                            let fs2 = a2.features->Some_0;
                            assert(crate::decode::features_ok(items@, fs@));
                            assert(crate::decode::features_ok(items@, fs2@));
                            assert forall|i: int| 0 <= i < fs2@.len() implies #[trigger] fs2@[i] == fs@[i] by {
                                assert(crate::decode::feature_args_ok(items@[i], fs@[i]));
                                assert(crate::decode::feature_args_ok(items@[i], fs2@[i]));
                            }
                        },
                        Some(_) => {
                            assert(false);
                        },
                    }
                    assert(heightmap_params_ok(gparams, a2));
                    assert(heightmap_step(old(h).doc, old(h).live, h.doc, h.live, out, a2, gaid, gfname, gpos));
                }
            }
            out
        },
    };
    h.release();
    out
}

} // verus!
