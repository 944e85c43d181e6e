//! The durable scene document and its mutators.
//!
//! A [`SceneDocument`] describes one editable level set: catalogs of named
//! assets and an ordered list of levels, each holding placed
//! [`ComponentRecord`]s and an optional sky block.  Commands mutate the
//! first level in place; the whole document is cloned and shipped to the
//! remote store by the embedding application after every successful
//! command.

use vstd::prelude::*;
use crate::geom::{or_milli, or_vec3, with_full_alpha, Color4, Milli, Vec3};
use crate::args::{CollectableArgs, GrassArgs, LightArgs, ModelArgs, NpcArgs, TransformArgs, TreesArgs};
use crate::vecs::vec_update;
use vstd::string::StringExecFns;
use crate::value::str_eq;

verus! {

// ------------------------------------------------------------------
// Catalog entries
// ------------------------------------------------------------------

/// A named file in one of the document's asset catalogs.
#[derive(Clone, Debug, PartialEq)]
pub struct AssetFile {
    pub id: String,
    pub file_name: String,
}

/// A physically-based texture set.
#[derive(Clone, Debug, PartialEq)]
pub struct PbrTextureSet {
    pub id: String,
    pub diff: Option<AssetFile>,
    pub nor_gl: Option<AssetFile>,
    pub rough: Option<AssetFile>,
    pub metallic: Option<AssetFile>,
    pub ao: Option<AssetFile>,
}

/// A landscape asset: a heightmap with optional surface maps.
#[derive(Clone, Debug, PartialEq)]
pub struct LandscapeAsset {
    pub id: String,
    pub heightmap: Option<AssetFile>,
    pub rockmap: Option<AssetFile>,
    pub soil: Option<AssetFile>,
}

/// A named stat template for collectables and characters.
#[derive(Clone, Debug, PartialEq)]
pub struct StatAsset {
    pub id: String,
    pub name: String,
}

// ------------------------------------------------------------------
// Component records
// ------------------------------------------------------------------

/// The kind tag of a placed component.
#[derive(Clone, Copy, Debug, PartialEq, Eq, Structural)]
pub enum ComponentKind {
    Model,
    PointLight,
    Collectable,
    NPC,
    ProceduralTree,
    ProceduralGrass,
    Landscape,
}

/// Generic placement properties shared by every component.
#[derive(Clone, Debug, PartialEq)]
pub struct GenericProps {
    pub name: String,
    pub position: Vec3,
    pub rotation: Vec3,
    pub scale: Vec3,
}

/// Kind-specific block of a point light.
#[derive(Clone, Copy, Debug, PartialEq, Eq, Structural)]
pub struct LightProps {
    pub color: Color4,
    pub intensity: Milli,
}

/// The type of a collectable.
#[derive(Clone, Copy, Debug, PartialEq, Eq, Structural)]
pub enum CollectableKind {
    Item,
    MeleeWeapon,
    RangedWeapon,
    Armor,
}

/// Kind-specific block of a collectable.
#[derive(Clone, Debug, PartialEq)]
pub struct CollectableProps {
    pub model_id: Option<String>,
    pub kind: Option<CollectableKind>,
    pub stat_id: Option<String>,
}

/// An NPC's combat style.
#[derive(Clone, Copy, Debug, PartialEq, Eq, Structural)]
pub enum CombatKind {
    Melee,
    Ranged,
}

/// Attack tuning of one combat style.
#[derive(Clone, Copy, Debug, PartialEq, Eq, Structural)]
pub struct AttackStats {
    pub damage: Milli,
    pub range: Milli,
    pub cooldown: Milli,
    pub wind_up_time: Milli,
    pub recovery_time: Milli,
}

/// Behavior configuration of an NPC.
#[derive(Clone, Copy, Debug, PartialEq, Eq, Structural)]
pub struct BehaviorConfig {
    pub aggressiveness: Milli,
    pub combat: CombatKind,
    pub wander_radius: Milli,
    pub wander_speed: Milli,
    pub detection_radius: Milli,
    pub melee_stats: Option<AttackStats>,
    pub ranged_stats: Option<AttackStats>,
}

/// Kind-specific block of an NPC.
#[derive(Clone, Debug, PartialEq)]
pub struct NpcProps {
    pub model_id: String,
    pub behavior: BehaviorConfig,
}

/// Kind-specific block of a procedural tree system.
#[derive(Clone, Copy, Debug, PartialEq, Eq, Structural)]
pub struct TreeProps {
    pub seed: u32,
    pub trunk_height: Milli,
    pub trunk_radius: Milli,
    pub branch_levels: u32,
    pub foliage_radius: Milli,
}

/// Kind-specific block of a procedural grass system.  The blade density is
/// a whole count of blades per cell in the document.
#[derive(Clone, Copy, Debug, PartialEq, Eq, Structural)]
pub struct GrassProps {
    pub wind_strength: Milli,
    pub wind_speed: Milli,
    pub blade_height: Milli,
    pub blade_width: Milli,
    pub blade_density: u32,
    pub render_distance: Milli,
    pub grid_size: Milli,
    pub brownian_strength: Milli,
}

/// The per-level procedural sky block.
#[derive(Clone, Copy, Debug, PartialEq, Eq, Structural)]
pub struct SkyConfig {
    pub horizon_color: Vec3,
    pub zenith_color: Vec3,
    pub sun_direction: Vec3,
    pub sun_color: Vec3,
    pub sun_intensity: Milli,
}

/// One placed entity of the durable document.
#[derive(Clone, Debug, PartialEq)]
pub struct ComponentRecord {
    pub id: String,
    pub kind: ComponentKind,
    pub asset_id: String,
    pub generic: GenericProps,
    pub light: Option<LightProps>,
    pub collectable: Option<CollectableProps>,
    pub npc: Option<NpcProps>,
    pub tree: Option<TreeProps>,
    pub grass: Option<GrassProps>,
    pub script_path: Option<String>,
}

/// One editable level: an ordered collection of components and an optional
/// environment block.
#[derive(Clone, Debug, PartialEq)]
pub struct Level {
    pub components: Vec<ComponentRecord>,
    pub sky: Option<SkyConfig>,
}

/// The durable, serializable description of one editable level set.
#[derive(Clone, Debug, PartialEq)]
pub struct SceneDocument {
    pub models: Vec<AssetFile>,
    pub textures: Vec<AssetFile>,
    pub pbr_textures: Vec<PbrTextureSet>,
    pub landscapes: Vec<LandscapeAsset>,
    pub stats: Vec<StatAsset>,
    pub levels: Vec<Level>,
}

impl ComponentRecord {
    /// At most one kind-specific block is populated, and it matches the
    /// record's kind tag.
    pub open spec fn wf(self) -> bool {
        &&& self.light is Some ==> self.kind == ComponentKind::PointLight
        &&& self.collectable is Some ==> self.kind == ComponentKind::Collectable
        &&& self.npc is Some ==> self.kind == ComponentKind::NPC
        &&& self.tree is Some ==> self.kind == ComponentKind::ProceduralTree
        &&& self.grass is Some ==> self.kind == ComponentKind::ProceduralGrass
    }
}

impl SceneDocument {
    /// The component list of the active (first) level; empty when the
    /// document has no level.
    pub open spec fn components0(self) -> Seq<ComponentRecord> {
        if self.levels@.len() == 0 {
            Seq::empty()
        } else {
            self.levels@[0].components@
        }
    }

    /// The sky block of the active level, if any.
    pub open spec fn sky0(self) -> Option<SkyConfig> {
        if self.levels@.len() == 0 {
            None
        } else {
            self.levels@[0].sky
        }
    }

    /// Every component record of every level is well formed.
    pub open spec fn wf(self) -> bool {
        forall|i: int, j: int|
            0 <= i < self.levels@.len() && 0 <= j < self.levels@[i].components@.len()
                ==> (#[trigger] self.levels@[i].components@[j]).wf()
    }

    /// Whether some component of the active level carries this id.
    pub open spec fn contains_component_id(self, id: Seq<char>) -> bool {
        exists|i: int| 0 <= i < self.components0().len() && self.components0()[i].id@ == id
    }
}

// ------------------------------------------------------------------
// Finding components and catalog entries (first match wins)
// ------------------------------------------------------------------

/// Index of the first component carrying `id`; the sequence's length when
/// there is none.
pub open spec fn first_with_id(s: Seq<ComponentRecord>, id: Seq<char>) -> int
    decreases s.len(),
{
    if s.len() == 0 {
        0
    } else if s[0].id@ == id {
        0
    } else {
        1 + first_with_id(s.drop_first(), id)
    }
}

pub proof fn lemma_first_with_id(s: Seq<ComponentRecord>, id: Seq<char>)
    ensures
        0 <= first_with_id(s, id) <= s.len(),
        first_with_id(s, id) < s.len() ==> s[first_with_id(s, id)].id@ == id,
        forall|k: int| 0 <= k < first_with_id(s, id) ==> s[k].id@ != id,
    decreases s.len(),
{
    if s.len() == 0 {
    } else if s[0].id@ == id {
    } else {
        lemma_first_with_id(s.drop_first(), id);
        let f = first_with_id(s, id);
        assert forall|k: int| 0 <= k < f implies s[k].id@ != id by {
            if k > 0 {
                assert(s.drop_first()[k - 1] == s[k]);
            }
        }
        if f < s.len() {
            assert(s.drop_first()[f - 1] == s[f]);
        }
    }
}

/// Whether a component matches a kind tag and an optional id filter.
pub open spec fn kind_target(c: ComponentRecord, kind: ComponentKind, t: Option<Seq<char>>) -> bool {
    c.kind == kind && match t {
        Some(id) => c.id@ == id,
        None => true,
    }
}

/// Index of the first component matching `kind` and the optional id
/// filter; the sequence's length when there is none.
pub open spec fn first_kind_target(
    s: Seq<ComponentRecord>,
    kind: ComponentKind,
    t: Option<Seq<char>>,
) -> int
    decreases s.len(),
{
    if s.len() == 0 {
        0
    } else if kind_target(s[0], kind, t) {
        0
    } else {
        1 + first_kind_target(s.drop_first(), kind, t)
    }
}

pub proof fn lemma_first_kind_target(s: Seq<ComponentRecord>, kind: ComponentKind, t: Option<Seq<char>>)
    ensures
        0 <= first_kind_target(s, kind, t) <= s.len(),
        first_kind_target(s, kind, t) < s.len() ==> kind_target(s[first_kind_target(s, kind, t)], kind, t),
        forall|k: int| 0 <= k < first_kind_target(s, kind, t) ==> !kind_target(s[k], kind, t),
    decreases s.len(),
{
    if s.len() == 0 {
    } else if kind_target(s[0], kind, t) {
    } else {
        lemma_first_kind_target(s.drop_first(), kind, t);
        let f = first_kind_target(s, kind, t);
        assert forall|k: int| 0 <= k < f implies !kind_target(s[k], kind, t) by {
            if k > 0 {
                assert(s.drop_first()[k - 1] == s[k]);
            }
        }
        if f < s.len() {
            assert(s.drop_first()[f - 1] == s[f]);
        }
    }
}

/// Index of the first catalog file carrying `id`; the length when none.
pub open spec fn first_file_with_id(s: Seq<AssetFile>, id: Seq<char>) -> int
    decreases s.len(),
{
    if s.len() == 0 {
        0
    } else if s[0].id@ == id {
        0
    } else {
        1 + first_file_with_id(s.drop_first(), id)
    }
}

pub proof fn lemma_first_file_with_id(s: Seq<AssetFile>, id: Seq<char>)
    ensures
        0 <= first_file_with_id(s, id) <= s.len(),
        first_file_with_id(s, id) < s.len() ==> s[first_file_with_id(s, id)].id@ == id,
        forall|k: int| 0 <= k < first_file_with_id(s, id) ==> s[k].id@ != id,
    decreases s.len(),
{
    if s.len() == 0 {
    } else if s[0].id@ == id {
    } else {
        lemma_first_file_with_id(s.drop_first(), id);
        let f = first_file_with_id(s, id);
        assert forall|k: int| 0 <= k < f implies s[k].id@ != id by {
            if k > 0 {
                assert(s.drop_first()[k - 1] == s[k]);
            }
        }
        if f < s.len() {
            assert(s.drop_first()[f - 1] == s[f]);
        }
    }
}

/// Index of the first landscape asset carrying `id`; the length when none.
pub open spec fn first_land_with_id(s: Seq<LandscapeAsset>, id: Seq<char>) -> int
    decreases s.len(),
{
    if s.len() == 0 {
        0
    } else if s[0].id@ == id {
        0
    } else {
        1 + first_land_with_id(s.drop_first(), id)
    }
}

pub proof fn lemma_first_land_with_id(s: Seq<LandscapeAsset>, id: Seq<char>)
    ensures
        0 <= first_land_with_id(s, id) <= s.len(),
        first_land_with_id(s, id) < s.len() ==> s[first_land_with_id(s, id)].id@ == id,
        forall|k: int| 0 <= k < first_land_with_id(s, id) ==> s[k].id@ != id,
    decreases s.len(),
{
    if s.len() == 0 {
    } else if s[0].id@ == id {
    } else {
        lemma_first_land_with_id(s.drop_first(), id);
        let f = first_land_with_id(s, id);
        assert forall|k: int| 0 <= k < f implies s[k].id@ != id by {
            if k > 0 {
                assert(s.drop_first()[k - 1] == s[k]);
            }
        }
        if f < s.len() {
            assert(s.drop_first()[f - 1] == s[f]);
        }
    }
}

// ------------------------------------------------------------------
// How a mutation relates the old and the new document
// ------------------------------------------------------------------

/// The new document equals the old one except that the active level now
/// holds components `c` and sky `sky`.  A document without levels is never
/// changed.
pub open spec fn doc_with_level0(
    d0: SceneDocument,
    d1: SceneDocument,
    c: Seq<ComponentRecord>,
    sky: Option<SkyConfig>,
) -> bool {
    &&& d1.models == d0.models
    &&& d1.textures == d0.textures
    &&& d1.pbr_textures == d0.pbr_textures
    &&& d1.landscapes == d0.landscapes
    &&& d1.stats == d0.stats
    &&& d1.levels@.len() == d0.levels@.len()
    &&& forall|i: int| 1 <= i < d0.levels@.len() ==> d1.levels@[i] == d0.levels@[i]
    &&& d0.levels@.len() > 0 ==> d1.levels@[0].components@ == c && d1.levels@[0].sky == sky
    &&& d0.levels@.len() == 0 ==> d1 == d0
}

/// As [`doc_with_level0`], leaving the sky untouched.
pub open spec fn doc_with_components0(d0: SceneDocument, d1: SceneDocument, c: Seq<ComponentRecord>) -> bool {
    doc_with_level0(d0, d1, c, d0.sky0())
}

/// The new document equals the old one except for the landscape asset
/// catalog, which now holds `l`.
pub open spec fn doc_with_landscapes(d0: SceneDocument, d1: SceneDocument, l: Seq<LandscapeAsset>) -> bool {
    &&& d1.models == d0.models
    &&& d1.textures == d0.textures
    &&& d1.pbr_textures == d0.pbr_textures
    &&& d1.landscapes@ == l
    &&& d1.stats == d0.stats
    &&& d1.levels == d0.levels
}

// ------------------------------------------------------------------
// Transform
// ------------------------------------------------------------------

/// A record with the placement fields present in the argument overwritten.
pub open spec fn transformed_record(c: ComponentRecord, a: TransformArgs) -> ComponentRecord {
    ComponentRecord {
        generic: GenericProps {
            name: c.generic.name,
            position: or_vec3(a.translation, c.generic.position),
            rotation: or_vec3(a.rotation, c.generic.rotation),
            scale: or_vec3(a.scale, c.generic.scale),
        },
        ..c
    }
}

/// The component list after a transform command: the first record carrying
/// the targeted id is updated; no record found means no change.
pub open spec fn spec_transform_components(s: Seq<ComponentRecord>, a: TransformArgs) -> Seq<ComponentRecord> {
    let j = first_with_id(s, a.component_id@);
    if j < s.len() {
        s.update(j, transformed_record(s[j], a))
    } else {
        s
    }
}

impl SceneDocument {
    /// Applies a transform command to the active level: the placement
    /// fields present in the argument overwrite those of the first record
    /// carrying the targeted id; everything else is untouched.
    pub fn transform(&mut self, a: &TransformArgs)
        ensures
            doc_with_components0(*old(self), *final(self), spec_transform_components(old(self).components0(), *a)),
    {
        proof {
            lemma_first_with_id(old(self).components0(), a.component_id@);
        }
        if self.levels.len() > 0 {
            let mut lvl = self.levels.remove(0);
            let ghost orig = lvl.components@;
            let mut j: usize = 0;
            let mut found = false;
            while j < lvl.components.len() && !found
                invariant
                    0 <= j <= lvl.components@.len(),
                    lvl.components@ == orig,
                    found ==> j < orig.len() && orig[j as int].id@ == a.component_id@,
                    forall|k: int| 0 <= k < j ==> orig[k].id@ != a.component_id@,
                decreases orig.len() - j + (if found { 0int } else { 1int }),
            {
                if lvl.components[j].id == a.component_id {
                    found = true;
                } else {
                    j = j + 1;
                }
            }
            proof {
                lemma_first_with_id(orig, a.component_id@);
                if found {
                    assert(first_with_id(orig, a.component_id@) == j);
                } else {
                    assert(first_with_id(orig, a.component_id@) == orig.len());
                }
            }
            if found {
                let mut c = lvl.components.remove(j);
                if let Some(t) = a.translation {
                    c.generic.position = t;
                }
                if let Some(r) = a.rotation {
                    c.generic.rotation = r;
                }
                if let Some(sc) = a.scale {
                    c.generic.scale = sc;
                }
                proof {
                    assert(c == transformed_record(orig[j as int], *a));
                }
                lvl.components.insert(j, c);
                proof {
                    assert(lvl.components@ =~= spec_transform_components(orig, *a));
                }
            }
            self.levels.insert(0, lvl);
            proof {
                assert(self.levels@ =~= old(self).levels@.update(0, self.levels@[0]));
            }
        }
    }
}

// ------------------------------------------------------------------
// Sky
// ------------------------------------------------------------------

/// The sky configuration a level starts from when it is first configured.
pub open spec fn default_sky() -> SkyConfig {
    SkyConfig {
        horizon_color: Vec3::zero(),
        zenith_color: Vec3::zero(),
        sun_direction: Vec3::zero(),
        sun_color: Vec3::zero(),
        sun_intensity: 1000,
    }
}

/// A sky with the fields present in the argument overwritten.
pub open spec fn merged_sky(s: SkyConfig, a: crate::args::SkyArgs) -> SkyConfig {
    SkyConfig {
        horizon_color: or_vec3(a.horizon_color, s.horizon_color),
        zenith_color: or_vec3(a.zenith_color, s.zenith_color),
        sun_direction: or_vec3(a.sun_direction, s.sun_direction),
        sun_color: or_vec3(a.sun_color, s.sun_color),
        sun_intensity: or_milli(a.sun_intensity, s.sun_intensity),
    }
}

/// The active level's sky after a configure-sky command: created with
/// defaults on first configuration, then merged with the argument.
pub open spec fn spec_sky_after(s0: Option<SkyConfig>, a: crate::args::SkyArgs) -> SkyConfig {
    merged_sky(
        match s0 {
            Some(s) => s,
            None => default_sky(),
        },
        a,
    )
}

// ------------------------------------------------------------------
// Procedural trees
// ------------------------------------------------------------------

/// The tree block an existing record is given when it has none yet.
pub open spec fn empty_tree_props() -> TreeProps {
    TreeProps { seed: 0, trunk_height: 0, trunk_radius: 0, branch_levels: 0, foliage_radius: 0 }
}

/// Tree tuning with the fields present in the argument overwritten.
pub open spec fn merged_tree_props(p: TreeProps, a: TreesArgs) -> TreeProps {
    TreeProps {
        seed: crate::geom::or_count(a.seed, p.seed),
        trunk_height: or_milli(a.trunk_height, p.trunk_height),
        trunk_radius: or_milli(a.trunk_radius, p.trunk_radius),
        branch_levels: crate::geom::or_count(a.branch_levels, p.branch_levels),
        foliage_radius: or_milli(a.foliage_radius, p.foliage_radius),
    }
}

/// The tuning of a freshly created tree component: documented defaults
/// overridden by the argument.
pub open spec fn creation_tree_props(a: TreesArgs) -> TreeProps {
    TreeProps {
        seed: crate::geom::or_count(a.seed, 0),
        trunk_height: or_milli(a.trunk_height, 3500),
        trunk_radius: or_milli(a.trunk_radius, 250),
        branch_levels: crate::geom::or_count(a.branch_levels, 4),
        foliage_radius: or_milli(a.foliage_radius, 500),
    }
}

/// The id filter of a configure command, as a character sequence.
pub open spec fn target_of(t: Option<String>) -> Option<Seq<char>> {
    match t {
        Some(s) => Some(s@),
        None => None,
    }
}

/// A freshly created generated component (tree or grass): empty asset
/// reference, empty name, default placement, exactly one block populated.
pub open spec fn generated_record_ok(r: ComponentRecord, id: String, kind: ComponentKind) -> bool {
    &&& r.id == id
    &&& r.kind == kind
    &&& r.asset_id@ == Seq::<char>::empty()
    &&& r.generic.name@ == Seq::<char>::empty()
    &&& r.generic.position == Vec3::zero()
    &&& r.generic.rotation == Vec3::zero()
    &&& r.generic.scale == Vec3::one()
    &&& r.light is None
    &&& r.collectable is None
    &&& r.npc is None
    &&& r.script_path is None
}

/// A freshly created tree component carrying `p`.
pub open spec fn tree_record_ok(r: ComponentRecord, id: String, p: TreeProps) -> bool {
    &&& generated_record_ok(r, id, ComponentKind::ProceduralTree)
    &&& r.tree == Some(p)
    &&& r.grass is None
}

/// How a configure-trees command relates the old and new document when the
/// document has a level: the first matching tree component is updated, a
/// new one is created when none matches and no id was targeted, and `p` is
/// the tuning handed on to the live mirror.
pub open spec fn trees_applied(
    d0: SceneDocument,
    d1: SceneDocument,
    a: TreesArgs,
    id: String,
    p: Option<TreeProps>,
) -> bool {
    let s = d0.components0();
    let j = first_kind_target(s, ComponentKind::ProceduralTree, target_of(a.component_id));
    if j < s.len() {
        let m = merged_tree_props(
            match s[j].tree {
                Some(q) => q,
                None => empty_tree_props(),
            },
            a,
        );
        &&& doc_with_components0(d0, d1, s.update(j, ComponentRecord { tree: Some(m), ..s[j] }))
        &&& p == Some(m)
    } else if a.component_id is None {
        &&& exists|nr: ComponentRecord|
            #[trigger] tree_record_ok(nr, id, creation_tree_props(a))
                && doc_with_components0(d0, d1, s.push(nr))
        &&& p == Some(creation_tree_props(a))
    } else {
        &&& doc_with_components0(d0, d1, s)
        &&& p is None
    }
}

// ------------------------------------------------------------------
// Procedural grass
// ------------------------------------------------------------------

/// Truncates a milli-unit quantity to a whole count, saturating at the
/// bounds, the way a narrowing cast of the external number would.
pub open spec fn milli_to_count(v: Milli) -> u32 {
    if v <= 0 {
        0u32
    } else if v / 1000 > u32::MAX as i64 {
        u32::MAX
    } else {
        (v / 1000) as u32
    }
}

/// Executable counterpart of [`milli_to_count`].
pub fn milli_to_count_exec(v: Milli) -> (r: u32)
    ensures
        r == milli_to_count(v),
{
    if v <= 0 {
        0u32
    } else {
        let q: u64 = (v as u64) / 1000;
        if q > u32::MAX as u64 {
            u32::MAX
        } else {
            q as u32
        }
    }
}

/// The grass block an existing record is given when it has none yet.
pub open spec fn empty_grass_props() -> GrassProps {
    GrassProps {
        wind_strength: 0,
        wind_speed: 0,
        blade_height: 0,
        blade_width: 0,
        blade_density: 0,
        render_distance: 0,
        grid_size: 0,
        brownian_strength: 0,
    }
}

/// Grass tuning with the fields present in the argument overwritten.
pub open spec fn merged_grass_props(p: GrassProps, a: GrassArgs) -> GrassProps {
    GrassProps {
        wind_strength: or_milli(a.wind_strength, p.wind_strength),
        wind_speed: or_milli(a.wind_speed, p.wind_speed),
        blade_height: or_milli(a.blade_height, p.blade_height),
        blade_width: or_milli(a.blade_width, p.blade_width),
        blade_density: match a.blade_density {
            Some(v) => milli_to_count(v),
            None => p.blade_density,
        },
        render_distance: or_milli(a.render_distance, p.render_distance),
        grid_size: p.grid_size,
        brownian_strength: p.brownian_strength,
    }
}

/// The tuning of a freshly created grass component: documented defaults
/// overridden by the argument.
pub open spec fn creation_grass_props(a: GrassArgs) -> GrassProps {
    GrassProps {
        wind_strength: or_milli(a.wind_strength, 2500),
        wind_speed: or_milli(a.wind_speed, 300),
        blade_height: or_milli(a.blade_height, 2750),
        blade_width: or_milli(a.blade_width, 30),
        blade_density: milli_to_count(or_milli(a.blade_density, 15000)),
        render_distance: or_milli(a.render_distance, 150000),
        grid_size: 10000,
        brownian_strength: 500,
    }
}

/// A freshly created grass component carrying `p`.
pub open spec fn grass_record_ok(r: ComponentRecord, id: String, p: GrassProps) -> bool {
    &&& generated_record_ok(r, id, ComponentKind::ProceduralGrass)
    &&& r.grass == Some(p)
    &&& r.tree is None
}

/// Whether a grass component is addressed by a configure-grass command.
pub open spec fn grass_target(c: ComponentRecord, a: GrassArgs) -> bool {
    kind_target(c, ComponentKind::ProceduralGrass, target_of(a.component_id))
}

/// A grass component with its block filled in and merged with the
/// argument.
pub open spec fn grass_updated(c: ComponentRecord, a: GrassArgs) -> ComponentRecord {
    ComponentRecord {
        grass: Some(merged_grass_props(
            match c.grass {
                Some(p) => p,
                None => empty_grass_props(),
            },
            a,
        )),
        ..c
    }
}

/// The active level's components with every addressed grass component
/// updated.
pub open spec fn grass_mapped(s: Seq<ComponentRecord>, a: GrassArgs) -> Seq<ComponentRecord> {
    Seq::new(s.len(), |i: int| if grass_target(s[i], a) { grass_updated(s[i], a) } else { s[i] })
}

/// How a configure-grass command relates the old and new document when the
/// document has a level: every matching grass component is updated, and a
/// new one is created when none matches and no id was targeted.
pub open spec fn grass_applied(d0: SceneDocument, d1: SceneDocument, a: GrassArgs, id: String) -> bool {
    let s = d0.components0();
    let found = exists|i: int| 0 <= i < s.len() && grass_target(s[i], a);
    if !found && a.component_id is None {
        exists|nr: ComponentRecord|
            #[trigger] grass_record_ok(nr, id, creation_grass_props(a))
                && doc_with_components0(d0, d1, grass_mapped(s, a).push(nr))
    } else {
        doc_with_components0(d0, d1, grass_mapped(s, a))
    }
}

// ------------------------------------------------------------------
// Spawned records
// ------------------------------------------------------------------

/// The record a spawn-model command appends.
pub open spec fn model_record_ok(r: ComponentRecord, id: String, a: ModelArgs) -> bool {
    &&& r.id == id
    &&& r.kind == ComponentKind::Model
    &&& r.asset_id == a.asset_id
    &&& r.generic.name@ == "New Model"@
    &&& r.generic.position == or_vec3(a.position, Vec3::zero())
    &&& r.generic.rotation == or_vec3(a.rotation, Vec3::zero())
    &&& r.generic.scale == or_vec3(a.scale, Vec3::one())
    &&& r.light is None && r.collectable is None && r.npc is None && r.tree is None
        && r.grass is None && r.script_path is None
}

/// The record a spawn-point-light command appends.  Only the position,
/// color and intensity reach the document; the radius lives only in the
/// live mirror.
pub open spec fn light_record_ok(r: ComponentRecord, id: String, a: LightArgs) -> bool {
    &&& r.id == id
    &&& r.kind == ComponentKind::PointLight
    &&& r.asset_id@ == Seq::<char>::empty()
    &&& r.generic.name@ == "New Light"@
    &&& r.generic.position == a.position
    &&& r.generic.rotation == Vec3::zero()
    &&& r.generic.scale == Vec3::one()
    &&& r.light == Some(LightProps {
        color: with_full_alpha(or_vec3(a.color, Vec3 { x: 1000, y: 1000, z: 1000 })),
        intensity: or_milli(a.intensity, 1000),
    })
    &&& r.collectable is None && r.npc is None && r.tree is None && r.grass is None
        && r.script_path is None
}

/// The collectable type a payload name denotes; unrecognized names fall
/// back to a plain item.
pub open spec fn spec_collectable_kind(s: Seq<char>) -> CollectableKind {
    if s == "MeleeWeapon"@ {
        CollectableKind::MeleeWeapon
    } else if s == "RangedWeapon"@ {
        CollectableKind::RangedWeapon
    } else if s == "Armor"@ {
        CollectableKind::Armor
    } else {
        CollectableKind::Item
    }
}

/// The record a spawn-collectable command appends; `stat_id` is the
/// document's first stat template.
pub open spec fn collectable_record_ok(r: ComponentRecord, id: String, a: CollectableArgs, stat_id: String) -> bool {
    &&& r.id == id
    &&& r.kind == ComponentKind::Collectable
    &&& r.asset_id == a.asset_id
    &&& r.generic.name@ == "New Collectable"@
    &&& r.generic.position == or_vec3(a.position, Vec3::zero())
    &&& r.generic.rotation == or_vec3(a.rotation, Vec3::zero())
    &&& r.generic.scale == or_vec3(a.scale, Vec3::one())
    &&& r.collectable matches Some(c) && c.model_id == Some(r.id)
        && c.kind == Some(spec_collectable_kind(a.kind_name@)) && c.stat_id == Some(stat_id)
    &&& r.light is None && r.npc is None && r.tree is None && r.grass is None
        && r.script_path is None
}

/// The combat style a payload name denotes; anything but ranged is melee.
pub open spec fn spec_combat_of(o: Option<String>) -> CombatKind {
    match o {
        Some(s) => if s@ == "Ranged"@ {
            CombatKind::Ranged
        } else {
            CombatKind::Melee
        },
        None => CombatKind::Melee,
    }
}

/// The behavior configuration a spawn-NPC command builds: documented
/// defaults overridden by the argument, with the attack tuning attached to
/// the chosen combat style.
pub open spec fn spec_behavior_of(a: NpcArgs) -> BehaviorConfig {
    let combat = spec_combat_of(a.combat_type);
    let atk = AttackStats {
        damage: or_milli(a.damage, 10000),
        range: if combat == CombatKind::Melee { 2000 } else { 15000 },
        cooldown: 1500,
        wind_up_time: 500,
        recovery_time: 500,
    };
    BehaviorConfig {
        aggressiveness: or_milli(a.aggressiveness, 500),
        combat,
        wander_radius: or_milli(a.wander_radius, 10000),
        wander_speed: or_milli(a.wander_speed, 2000),
        detection_radius: or_milli(a.detection_radius, 15000),
        melee_stats: if combat == CombatKind::Melee { Some(atk) } else { None },
        ranged_stats: if combat == CombatKind::Ranged { Some(atk) } else { None },
    }
}

/// The record a spawn-NPC command appends.  Its NPC block references the
/// catalog asset, not the component.
pub open spec fn npc_record_ok(r: ComponentRecord, id: String, a: NpcArgs) -> bool {
    &&& r.id == id
    &&& r.kind == ComponentKind::NPC
    &&& r.asset_id == a.asset_id
    &&& r.generic.name@ == "New NPC"@
    &&& r.generic.position == or_vec3(a.position, Vec3::zero())
    &&& r.generic.rotation == or_vec3(a.rotation, Vec3::zero())
    &&& r.generic.scale == or_vec3(a.scale, Vec3::one())
    &&& r.npc matches Some(n) && n.model_id == a.asset_id && n.behavior == spec_behavior_of(a)
    &&& r.light is None && r.collectable is None && r.tree is None && r.grass is None
        && r.script_path is None
}

// ------------------------------------------------------------------
// Scripts and landscape assets
// ------------------------------------------------------------------

/// The active level's components after a save-script command targeting
/// `cid`: the first record carrying that id points at `path`.
pub open spec fn spec_script_components(s: Seq<ComponentRecord>, cid: Seq<char>, path: String) -> Seq<ComponentRecord> {
    let j = first_with_id(s, cid);
    if j < s.len() {
        s.update(j, ComponentRecord { script_path: Some(path), ..s[j] })
    } else {
        s
    }
}

/// The landscape asset catalog after a generate-heightmap command: the
/// entry carrying `asset_id` points its heightmap at `filename`, and is
/// created when absent.
pub open spec fn spec_ensure_landscape(s: Seq<LandscapeAsset>, asset_id: String, filename: String) -> Seq<LandscapeAsset> {
    let j = first_land_with_id(s, asset_id@);
    let f = AssetFile { id: asset_id, file_name: filename };
    if j < s.len() {
        s.update(j, LandscapeAsset { heightmap: Some(f), ..s[j] })
    } else {
        s.push(LandscapeAsset { id: asset_id, heightmap: Some(f), rockmap: None, soil: None })
    }
}

// ------------------------------------------------------------------
// Asset resolution
// ------------------------------------------------------------------

/// The file name an asset id resolves to: the first catalog entry carrying
/// the id, provided its file name is not empty.
pub open spec fn spec_resolve_model(s: Seq<AssetFile>, id: Seq<char>) -> Option<String> {
    let j = first_file_with_id(s, id);
    if j < s.len() && s[j].file_name@.len() > 0 {
        Some(s[j].file_name)
    } else {
        None
    }
}

/// What a generate-heightmap command learns from the document: the
/// position, landscape asset id and heightmap file of the targeted (or
/// first) landscape component, when all three resolve.
#[derive(Clone, Debug, PartialEq)]
pub struct LandscapeInfo {
    pub position: Vec3,
    pub asset_id: String,
    pub filename: String,
}

/// Specification of [`SceneDocument::landscape_info`].
pub open spec fn spec_landscape_info(d: SceneDocument, t: Option<Seq<char>>) -> Option<LandscapeInfo> {
    let s = d.components0();
    let j = match t {
        Some(id) => first_with_id(s, id),
        None => first_kind_target(s, ComponentKind::Landscape, None),
    };
    if j < s.len() {
        let c = s[j];
        let k = first_land_with_id(d.landscapes@, c.asset_id@);
        if k < d.landscapes@.len() {
            match d.landscapes@[k].heightmap {
                Some(f) => Some(LandscapeInfo {
                    position: c.generic.position,
                    asset_id: c.asset_id,
                    filename: f.file_name,
                }),
                None => None,
            }
        } else {
            None
        }
    } else {
        None
    }
}

// ------------------------------------------------------------------
// Catalog-only mutations
// ------------------------------------------------------------------

/// The new document equals the old one except for the model catalog.
pub open spec fn doc_with_models(d0: SceneDocument, d1: SceneDocument, m: Seq<AssetFile>) -> bool {
    &&& d1.models@ == m
    &&& d1.textures == d0.textures
    &&& d1.pbr_textures == d0.pbr_textures
    &&& d1.landscapes == d0.landscapes
    &&& d1.stats == d0.stats
    &&& d1.levels == d0.levels
}

/// The new document equals the old one except for the texture catalog.
pub open spec fn doc_with_textures(d0: SceneDocument, d1: SceneDocument, t: Seq<AssetFile>) -> bool {
    &&& d1.models == d0.models
    &&& d1.textures@ == t
    &&& d1.pbr_textures == d0.pbr_textures
    &&& d1.landscapes == d0.landscapes
    &&& d1.stats == d0.stats
    &&& d1.levels == d0.levels
}

/// The new document equals the old one except for the PBR texture catalog.
pub open spec fn doc_with_pbr(d0: SceneDocument, d1: SceneDocument, p: Seq<PbrTextureSet>) -> bool {
    &&& d1.models == d0.models
    &&& d1.textures == d0.textures
    &&& d1.pbr_textures@ == p
    &&& d1.landscapes == d0.landscapes
    &&& d1.stats == d0.stats
    &&& d1.levels == d0.levels
}

/// The new document equals the old one except for the stat catalog.
pub open spec fn doc_with_stats(d0: SceneDocument, d1: SceneDocument, s: Seq<StatAsset>) -> bool {
    &&& d1.models == d0.models
    &&& d1.textures == d0.textures
    &&& d1.pbr_textures == d0.pbr_textures
    &&& d1.landscapes == d0.landscapes
    &&& d1.stats@ == s
    &&& d1.levels == d0.levels
}

// ------------------------------------------------------------------
// Executable mutators
// ------------------------------------------------------------------

impl SceneDocument {
    /// Applies a configure-sky command: the active level's sky block is
    /// created with defaults on first configuration, then the fields
    /// present in the argument overwrite it.
    pub fn configure_sky(&mut self, a: &crate::args::SkyArgs)
        ensures
            doc_with_level0(
                *old(self),
                *final(self),
                old(self).components0(),
                Some(spec_sky_after(old(self).sky0(), *a)),
            ) || (old(self).levels@.len() == 0 && *final(self) == *old(self)),
    {
        if self.levels.len() > 0 {
            let mut lvl = self.levels.remove(0);
            let mut s = match lvl.sky {
                Some(s) => s,
                None => SkyConfig {
                    horizon_color: Vec3 { x: 0, y: 0, z: 0 },
                    zenith_color: Vec3 { x: 0, y: 0, z: 0 },
                    sun_direction: Vec3 { x: 0, y: 0, z: 0 },
                    sun_color: Vec3 { x: 0, y: 0, z: 0 },
                    sun_intensity: 1000,
                },
            };
            if let Some(c) = a.horizon_color {
                s.horizon_color = c;
            }
            if let Some(c) = a.zenith_color {
                s.zenith_color = c;
            }
            if let Some(d) = a.sun_direction {
                s.sun_direction = d;
            }
            if let Some(c) = a.sun_color {
                s.sun_color = c;
            }
            if let Some(i) = a.sun_intensity {
                s.sun_intensity = i;
            }
            lvl.sky = Some(s);
            self.levels.insert(0, lvl);
            proof {
                assert(self.levels@ =~= old(self).levels@.update(0, self.levels@[0]));
            }
        }
    }

    /// Appends a freshly spawned component to the active level.  A
    /// document without levels is left untouched.
    pub fn append_component(&mut self, r: ComponentRecord)
        ensures
            doc_with_components0(*old(self), *final(self), old(self).components0().push(r)),
    {
        if self.levels.len() > 0 {
            let mut lvl = self.levels.remove(0);
            lvl.components.push(r);
            self.levels.insert(0, lvl);
            proof {
                assert(self.levels@ =~= old(self).levels@.update(0, self.levels@[0]));
            }
        }
    }

    /// Applies a configure-trees command; returns the tuning to hand to
    /// the live mirror, if any component was updated or created.
    pub fn configure_trees(&mut self, a: &TreesArgs, fresh_id: String) -> (p: Option<TreeProps>)
        ensures
            old(self).levels@.len() == 0 ==> *final(self) == *old(self) && p is None,
            old(self).levels@.len() > 0 ==> trees_applied(*old(self), *final(self), *a, fresh_id, p),
    {
        proof {
            lemma_first_kind_target(
                old(self).components0(),
                ComponentKind::ProceduralTree,
                target_of(a.component_id),
            );
        }
        if self.levels.len() == 0 {
            return None;
        }
        let mut lvl = self.levels.remove(0);
        let ghost orig = lvl.components@;
        let mut j: usize = 0;
        let mut found = false;
        while j < lvl.components.len() && !found
            invariant
                0 <= j <= lvl.components@.len(),
                lvl.components@ == orig,
                lvl.sky == old(self).levels@[0].sky,
                found ==> j < orig.len() && kind_target(orig[j as int], ComponentKind::ProceduralTree, target_of(a.component_id)),
                forall|k: int| 0 <= k < j ==> !kind_target(orig[k], ComponentKind::ProceduralTree, target_of(a.component_id)),
            decreases orig.len() - j + (if found { 0int } else { 1int }),
        {
            let c = &lvl.components[j];
            let kind_ok = c.kind == ComponentKind::ProceduralTree;
            let id_ok = match &a.component_id {
                Some(t) => c.id == *t,
                None => true,
            };
            if kind_ok && id_ok {
                found = true;
            } else {
                j = j + 1;
            }
        }
        proof {
            lemma_first_kind_target(orig, ComponentKind::ProceduralTree, target_of(a.component_id));
            if found {
                assert(first_kind_target(orig, ComponentKind::ProceduralTree, target_of(a.component_id)) == j);
            } else {
                assert(first_kind_target(orig, ComponentKind::ProceduralTree, target_of(a.component_id)) == orig.len());
            }
        }
        let result: Option<TreeProps>;
        if found {
            let mut c = lvl.components.remove(j);
            let p0 = match c.tree {
                Some(q) => q,
                None => TreeProps {
                    seed: 0,
                    trunk_height: 0,
                    trunk_radius: 0,
                    branch_levels: 0,
                    foliage_radius: 0,
                },
            };
            let m = TreeProps {
                seed: match a.seed { Some(v) => v, None => p0.seed },
                trunk_height: match a.trunk_height { Some(v) => v, None => p0.trunk_height },
                trunk_radius: match a.trunk_radius { Some(v) => v, None => p0.trunk_radius },
                branch_levels: match a.branch_levels { Some(v) => v, None => p0.branch_levels },
                foliage_radius: match a.foliage_radius { Some(v) => v, None => p0.foliage_radius },
            };
            c.tree = Some(m);
            lvl.components.insert(j, c);
            proof {
                assert(lvl.components@ =~= orig.update(
                    j as int,
                    ComponentRecord { tree: Some(merged_tree_props(match orig[j as int].tree {
                        Some(q) => q,
                        None => empty_tree_props(),
                    }, *a)), ..orig[j as int] },
                ));
            }
            result = Some(m);
        } else if a.component_id.is_none() {
            let m = TreeProps {
                seed: match a.seed { Some(v) => v, None => 0 },
                trunk_height: match a.trunk_height { Some(v) => v, None => 3500 },
                trunk_radius: match a.trunk_radius { Some(v) => v, None => 250 },
                branch_levels: match a.branch_levels { Some(v) => v, None => 4 },
                foliage_radius: match a.foliage_radius { Some(v) => v, None => 500 },
            };
            let nr = ComponentRecord {
                id: fresh_id,
                kind: ComponentKind::ProceduralTree,
                asset_id: String::new(),
                generic: GenericProps {
                    name: String::new(),
                    position: Vec3 { x: 0, y: 0, z: 0 },
                    rotation: Vec3 { x: 0, y: 0, z: 0 },
                    scale: Vec3 { x: 1000, y: 1000, z: 1000 },
                },
                light: None,
                collectable: None,
                npc: None,
                tree: Some(m),
                grass: None,
                script_path: None,
            };
            proof {
                assert(tree_record_ok(nr, nr.id, creation_tree_props(*a)));
            }
            lvl.components.push(nr);
            result = Some(m);
        } else {
            result = None;
        }
        self.levels.insert(0, lvl);
        proof {
            assert(self.levels@ =~= old(self).levels@.update(0, self.levels@[0]));
        }
        result
    }

    /// Applies a configure-grass command: every addressed grass component
    /// is updated, and a new one is created when none matches and no id
    /// was targeted.
    pub fn configure_grass(&mut self, a: &GrassArgs, fresh_id: String)
        ensures
            old(self).levels@.len() == 0 ==> *final(self) == *old(self),
            old(self).levels@.len() > 0 ==> grass_applied(*old(self), *final(self), *a, fresh_id),
    {
        if self.levels.len() == 0 {
            return;
        }
        let ghost fid: String = fresh_id;
        let mut lvl = self.levels.remove(0);
        let ghost orig = lvl.components@;
        let mut i: usize = 0;
        let mut found = false;
        while i < lvl.components.len()
            invariant
                0 <= i <= orig.len(),
                lvl.components@.len() == orig.len(),
                lvl.sky == old(self).levels@[0].sky,
                forall|k: int| 0 <= k < i ==> lvl.components@[k] == grass_mapped(orig, *a)[k],
                forall|k: int| i <= k < orig.len() ==> lvl.components@[k] == orig[k],
                found <==> exists|k: int| 0 <= k < i && grass_target(orig[k], *a),
            decreases orig.len() - i,
        {
            let c = &lvl.components[i];
            let kind_ok = c.kind == ComponentKind::ProceduralGrass;
            let id_ok = match &a.component_id {
                Some(t) => c.id == *t,
                None => true,
            };
            if kind_ok && id_ok {
                let mut c = lvl.components.remove(i);
                let p0 = match c.grass {
                    Some(p) => p,
                    None => GrassProps {
                        wind_strength: 0,
                        wind_speed: 0,
                        blade_height: 0,
                        blade_width: 0,
                        blade_density: 0,
                        render_distance: 0,
                        grid_size: 0,
                        brownian_strength: 0,
                    },
                };
                let m = GrassProps {
                    wind_strength: match a.wind_strength { Some(v) => v, None => p0.wind_strength },
                    wind_speed: match a.wind_speed { Some(v) => v, None => p0.wind_speed },
                    blade_height: match a.blade_height { Some(v) => v, None => p0.blade_height },
                    blade_width: match a.blade_width { Some(v) => v, None => p0.blade_width },
                    blade_density: match a.blade_density {
                        Some(v) => milli_to_count_exec(v),
                        None => p0.blade_density,
                    },
                    render_distance: match a.render_distance { Some(v) => v, None => p0.render_distance },
                    grid_size: p0.grid_size,
                    brownian_strength: p0.brownian_strength,
                };
                c.grass = Some(m);
                lvl.components.insert(i, c);
                proof {
                    assert(lvl.components@[i as int] == grass_updated(orig[i as int], *a));
                    assert(grass_target(orig[i as int], *a));
                }
                found = true;
            } else {
                proof {
                    assert(!grass_target(orig[i as int], *a));
                    assert(lvl.components@[i as int] == grass_mapped(orig, *a)[i as int]);
                }
            }
            i = i + 1;
        }
        proof {
            assert(lvl.components@ =~= grass_mapped(orig, *a));
        }
        if !found && a.component_id.is_none() {
            let m = GrassProps {
                wind_strength: match a.wind_strength { Some(v) => v, None => 2500 },
                wind_speed: match a.wind_speed { Some(v) => v, None => 300 },
                blade_height: match a.blade_height { Some(v) => v, None => 2750 },
                blade_width: match a.blade_width { Some(v) => v, None => 30 },
                blade_density: milli_to_count_exec(match a.blade_density { Some(v) => v, None => 15000 }),
                render_distance: match a.render_distance { Some(v) => v, None => 150000 },
                grid_size: 10000,
                brownian_strength: 500,
            };
            let nr = ComponentRecord {
                id: fresh_id,
                kind: ComponentKind::ProceduralGrass,
                asset_id: String::new(),
                generic: GenericProps {
                    name: String::new(),
                    position: Vec3 { x: 0, y: 0, z: 0 },
                    rotation: Vec3 { x: 0, y: 0, z: 0 },
                    scale: Vec3 { x: 1000, y: 1000, z: 1000 },
                },
                light: None,
                collectable: None,
                npc: None,
                tree: None,
                grass: Some(m),
                script_path: None,
            };
            proof {
                assert(grass_record_ok(nr, nr.id, creation_grass_props(*a)));
            }
            lvl.components.push(nr);
        }
        self.levels.insert(0, lvl);
        proof {
            assert(self.levels@ =~= old(self).levels@.update(0, self.levels@[0]));
            assert(orig == old(self).components0());
            assert(found <==> exists|k: int| 0 <= k < orig.len() && grass_target(orig[k], *a));
            assert(grass_applied(*old(self), *self, *a, fid));
        }
    }

    /// Points the targeted component's script path at `path`.
    pub fn set_script_path(&mut self, component_id: &String, path: String)
        ensures
            doc_with_components0(
                *old(self),
                *final(self),
                spec_script_components(old(self).components0(), component_id@, path),
            ),
    {
        proof {
            lemma_first_with_id(old(self).components0(), component_id@);
        }
        if self.levels.len() > 0 {
            let mut lvl = self.levels.remove(0);
            let ghost orig = lvl.components@;
            let mut j: usize = 0;
            let mut found = false;
            while j < lvl.components.len() && !found
                invariant
                    0 <= j <= lvl.components@.len(),
                    lvl.components@ == orig,
                    found ==> j < orig.len() && orig[j as int].id@ == component_id@,
                    forall|k: int| 0 <= k < j ==> orig[k].id@ != component_id@,
                decreases orig.len() - j + (if found { 0int } else { 1int }),
            {
                if lvl.components[j].id == *component_id {
                    found = true;
                } else {
                    j = j + 1;
                }
            }
            proof {
                lemma_first_with_id(orig, component_id@);
                if found {
                    assert(first_with_id(orig, component_id@) == j);
                } else {
                    assert(first_with_id(orig, component_id@) == orig.len());
                }
            }
            if found {
                let mut c = lvl.components.remove(j);
                c.script_path = Some(path);
                lvl.components.insert(j, c);
                proof {
                    assert(lvl.components@ =~= spec_script_components(orig, component_id@, c.script_path->Some_0));
                }
            }
            self.levels.insert(0, lvl);
            proof {
                assert(self.levels@ =~= old(self).levels@.update(0, self.levels@[0]));
            }
        }
    }

    /// Points the landscape asset entry carrying `asset_id` at the
    /// heightmap file `filename`, creating the entry when absent.
    pub fn ensure_landscape_asset(&mut self, asset_id: &String, filename: String)
        ensures
            doc_with_landscapes(
                *old(self),
                *final(self),
                spec_ensure_landscape(old(self).landscapes@, *asset_id, filename),
            ),
    {
        proof {
            lemma_first_land_with_id(old(self).landscapes@, asset_id@);
        }
        let ghost orig = self.landscapes@;
        let mut j: usize = 0;
        let mut found = false;
        while j < self.landscapes.len() && !found
            invariant
                0 <= j <= self.landscapes@.len(),
                self.landscapes@ == orig,
                self.models == old(self).models,
                self.textures == old(self).textures,
                self.pbr_textures == old(self).pbr_textures,
                self.stats == old(self).stats,
                self.levels == old(self).levels,
                found ==> j < orig.len() && orig[j as int].id@ == asset_id@,
                forall|k: int| 0 <= k < j ==> orig[k].id@ != asset_id@,
            decreases orig.len() - j + (if found { 0int } else { 1int }),
        {
            if self.landscapes[j].id == *asset_id {
                found = true;
            } else {
                j = j + 1;
            }
        }
        proof {
            lemma_first_land_with_id(orig, asset_id@);
            if found {
                assert(first_land_with_id(orig, asset_id@) == j);
            } else {
                assert(first_land_with_id(orig, asset_id@) == orig.len());
            }
        }
        let f = AssetFile { id: asset_id.clone(), file_name: filename };
        if found {
            let mut entry = self.landscapes.remove(j);
            entry.heightmap = Some(f);
            self.landscapes.insert(j, entry);
            proof {
                assert(self.landscapes@ =~= spec_ensure_landscape(orig, *asset_id, self.landscapes@[j as int].heightmap->Some_0.file_name));
            }
        } else {
            self.landscapes.push(LandscapeAsset {
                id: asset_id.clone(),
                heightmap: Some(f),
                rockmap: None,
                soil: None,
            });
        }
    }

    /// Resolves a model asset id to its file name (see
    /// [`spec_resolve_model`]).
    pub fn resolve_model_file(&self, asset_id: &String) -> (r: Option<String>)
        ensures
            r == spec_resolve_model(self.models@, asset_id@),
    {
        proof {
            lemma_first_file_with_id(self.models@, asset_id@);
        }
        let ghost s = self.models@;
        let mut j: usize = 0;
        let mut found = false;
        while j < self.models.len() && !found
            invariant
                0 <= j <= s.len(),
                self.models@ == s,
                found ==> j < s.len() && s[j as int].id@ == asset_id@,
                forall|k: int| 0 <= k < j ==> s[k].id@ != asset_id@,
            decreases s.len() - j + (if found { 0int } else { 1int }),
        {
            if self.models[j].id == *asset_id {
                found = true;
            } else {
                j = j + 1;
            }
        }
        proof {
            lemma_first_file_with_id(s, asset_id@);
            if found {
                assert(first_file_with_id(s, asset_id@) == j);
            } else {
                assert(first_file_with_id(s, asset_id@) == s.len());
            }
        }
        if found {
            let name = &self.models[j].file_name;
            if name.as_str().unicode_len() > 0 {
                Some(name.clone())
            } else {
                None
            }
        } else {
            None
        }
    }

    /// The id of the document's first stat template, when one exists.
    pub fn first_stat_id(&self) -> (r: Option<String>)
        ensures
            match r {
                Some(sid) => self.stats@.len() > 0 && sid == self.stats@[0].id,
                None => self.stats@.len() == 0,
            },
    {
        if self.stats.len() > 0 {
            Some(self.stats[0].id.clone())
        } else {
            None
        }
    }

    /// Looks up the landscape a generate-heightmap command starts from
    /// (see [`spec_landscape_info`]).
    pub fn landscape_info(&self, target: Option<&String>) -> (r: Option<LandscapeInfo>)
        ensures
            r == spec_landscape_info(*self, match target {
                Some(s) => Some(s@),
                None => None::<Seq<char>>,
            }),
    {
        let ghost s = self.components0();
        if self.levels.len() == 0 {
            return None;
        }
        let lvl = &self.levels[0];
        let mut j: usize = 0;
        let mut found = false;
        while j < lvl.components.len() && !found
            invariant
                0 <= j <= s.len(),
                lvl.components@ == s,
                match target {
                    Some(t) => {
                        &&& found ==> j < s.len() && s[j as int].id@ == t@
                        &&& forall|k: int| 0 <= k < j ==> s[k].id@ != t@
                    },
                    None => {
                        &&& found ==> j < s.len() && kind_target(s[j as int], ComponentKind::Landscape, None::<Seq<char>>)
                        &&& forall|k: int| 0 <= k < j ==> !kind_target(s[k], ComponentKind::Landscape, None::<Seq<char>>)
                    },
                },
            decreases s.len() - j + (if found { 0int } else { 1int }),
        {
            let hit = match target {
                Some(t) => str_eq(lvl.components[j].id.as_str(), t.as_str()),
                None => lvl.components[j].kind == ComponentKind::Landscape,
            };
            if hit {
                found = true;
            } else {
                j = j + 1;
            }
        }
        proof {
            match target {
                Some(t) => {
                    lemma_first_with_id(s, t@);
                    if found {
                        assert(first_with_id(s, t@) == j);
                    } else {
                        assert(first_with_id(s, t@) == s.len());
                    }
                },
                None => {
                    lemma_first_kind_target(s, ComponentKind::Landscape, None);
                    if found {
                        assert(first_kind_target(s, ComponentKind::Landscape, None) == j);
                    } else {
                        assert(first_kind_target(s, ComponentKind::Landscape, None) == s.len());
                    }
                },
            }
        }
        if !found {
            return None;
        }
        let c = &lvl.components[j];
        let ghost ls = self.landscapes@;
        let mut k: usize = 0;
        let mut lfound = false;
        while k < self.landscapes.len() && !lfound
            invariant
                0 <= k <= ls.len(),
                self.landscapes@ == ls,
                lfound ==> k < ls.len() && ls[k as int].id@ == c.asset_id@,
                forall|m: int| 0 <= m < k ==> ls[m].id@ != c.asset_id@,
            decreases ls.len() - k + (if lfound { 0int } else { 1int }),
        {
            if self.landscapes[k].id == c.asset_id {
                lfound = true;
            } else {
                k = k + 1;
            }
        }
        proof {
            lemma_first_land_with_id(ls, c.asset_id@);
            if lfound {
                assert(first_land_with_id(ls, c.asset_id@) == k);
            } else {
                assert(first_land_with_id(ls, c.asset_id@) == ls.len());
            }
        }
        if !lfound {
            return None;
        }
        match &self.landscapes[k].heightmap {
            Some(f) => Some(LandscapeInfo {
                position: c.generic.position,
                asset_id: c.asset_id.clone(),
                filename: f.file_name.clone(),
            }),
            None => None,
        }
    }

    /// Adds a model file to the catalog.
    pub fn add_model_asset(&mut self, f: AssetFile)
        ensures
            doc_with_models(*old(self), *final(self), old(self).models@.push(f)),
    {
        self.models.push(f);
    }

    /// Adds a texture file to the catalog.
    pub fn add_texture_asset(&mut self, f: AssetFile)
        ensures
            doc_with_textures(*old(self), *final(self), old(self).textures@.push(f)),
    {
        self.textures.push(f);
    }

    /// Adds a PBR texture set to the catalog.
    pub fn add_pbr_texture_set(&mut self, p: PbrTextureSet)
        ensures
            doc_with_pbr(*old(self), *final(self), old(self).pbr_textures@.push(p)),
    {
        self.pbr_textures.push(p);
    }

    /// Adds a landscape asset to the catalog.
    pub fn add_landscape_asset(&mut self, l: LandscapeAsset)
        ensures
            doc_with_landscapes(*old(self), *final(self), old(self).landscapes@.push(l)),
    {
        self.landscapes.push(l);
    }

    /// Adds a stat template to the catalog.
    pub fn add_stat(&mut self, s: StatAsset)
        ensures
            doc_with_stats(*old(self), *final(self), old(self).stats@.push(s)),
    {
        self.stats.push(s);
    }
}

// ------------------------------------------------------------------
// Spawned record constructors
// ------------------------------------------------------------------

/// Builds the record a spawn-model command appends.
pub fn make_model_record(id: String, a: &ModelArgs) -> (r: ComponentRecord)
    ensures
        model_record_ok(r, id, *a),
        r.wf(),
{
    ComponentRecord {
        id,
        kind: ComponentKind::Model,
        asset_id: a.asset_id.clone(),
        generic: GenericProps {
            name: "New Model".to_owned(),
            position: match a.position { Some(v) => v, None => Vec3 { x: 0, y: 0, z: 0 } },
            rotation: match a.rotation { Some(v) => v, None => Vec3 { x: 0, y: 0, z: 0 } },
            scale: match a.scale { Some(v) => v, None => Vec3 { x: 1000, y: 1000, z: 1000 } },
        },
        light: None,
        collectable: None,
        npc: None,
        tree: None,
        grass: None,
        script_path: None,
    }
}

/// Builds the record a spawn-point-light command appends.
pub fn make_light_record(id: String, a: &LightArgs) -> (r: ComponentRecord)
    ensures
        light_record_ok(r, id, *a),
        r.wf(),
{
    let color = match a.color { Some(v) => v, None => Vec3 { x: 1000, y: 1000, z: 1000 } };
    ComponentRecord {
        id,
        kind: ComponentKind::PointLight,
        asset_id: String::new(),
        generic: GenericProps {
            name: "New Light".to_owned(),
            position: a.position,
            rotation: Vec3 { x: 0, y: 0, z: 0 },
            scale: Vec3 { x: 1000, y: 1000, z: 1000 },
        },
        light: Some(LightProps {
            color: crate::geom::opaque_color(color),
            intensity: match a.intensity { Some(v) => v, None => 1000 },
        }),
        collectable: None,
        npc: None,
        tree: None,
        grass: None,
        script_path: None,
    }
}

/// Maps a payload name to a collectable type.
pub fn collectable_kind_of(name: &String) -> (k: CollectableKind)
    ensures
        k == spec_collectable_kind(name@),
{
    if str_eq(name.as_str(), "MeleeWeapon") {
        CollectableKind::MeleeWeapon
    } else if str_eq(name.as_str(), "RangedWeapon") {
        CollectableKind::RangedWeapon
    } else if str_eq(name.as_str(), "Armor") {
        CollectableKind::Armor
    } else {
        CollectableKind::Item
    }
}

/// Builds the record a spawn-collectable command appends; the component id
/// doubles as the model part's id, and the document's first stat template
/// is linked.
pub fn make_collectable_record(id: String, a: &CollectableArgs, stat_id: String) -> (r: ComponentRecord)
    ensures
        collectable_record_ok(r, id, *a, stat_id),
        r.wf(),
{
    let model_id = id.clone();
    ComponentRecord {
        id,
        kind: ComponentKind::Collectable,
        asset_id: a.asset_id.clone(),
        generic: GenericProps {
            name: "New Collectable".to_owned(),
            position: match a.position { Some(v) => v, None => Vec3 { x: 0, y: 0, z: 0 } },
            rotation: match a.rotation { Some(v) => v, None => Vec3 { x: 0, y: 0, z: 0 } },
            scale: match a.scale { Some(v) => v, None => Vec3 { x: 1000, y: 1000, z: 1000 } },
        },
        light: None,
        collectable: Some(CollectableProps {
            model_id: Some(model_id),
            kind: Some(collectable_kind_of(&a.kind_name)),
            stat_id: Some(stat_id),
        }),
        npc: None,
        tree: None,
        grass: None,
        script_path: None,
    }
}

/// Builds the behavior configuration of a spawn-NPC command.
pub fn make_behavior(a: &NpcArgs) -> (b: BehaviorConfig)
    ensures
        b == spec_behavior_of(*a),
{
    let combat = match &a.combat_type {
        Some(s) => if str_eq(s.as_str(), "Ranged") {
            CombatKind::Ranged
        } else {
            CombatKind::Melee
        },
        None => CombatKind::Melee,
    };
    let atk = AttackStats {
        damage: match a.damage { Some(v) => v, None => 10000 },
        range: if combat == CombatKind::Melee { 2000 } else { 15000 },
        cooldown: 1500,
        wind_up_time: 500,
        recovery_time: 500,
    };
    BehaviorConfig {
        aggressiveness: match a.aggressiveness { Some(v) => v, None => 500 },
        combat,
        wander_radius: match a.wander_radius { Some(v) => v, None => 10000 },
        wander_speed: match a.wander_speed { Some(v) => v, None => 2000 },
        detection_radius: match a.detection_radius { Some(v) => v, None => 15000 },
        melee_stats: if combat == CombatKind::Melee { Some(atk) } else { None },
        ranged_stats: if combat == CombatKind::Ranged { Some(atk) } else { None },
    }
}

/// Builds the record a spawn-NPC command appends.
pub fn make_npc_record(id: String, a: &NpcArgs) -> (r: ComponentRecord)
    ensures
        npc_record_ok(r, id, *a),
        r.wf(),
{
    ComponentRecord {
        id,
        kind: ComponentKind::NPC,
        asset_id: a.asset_id.clone(),
        generic: GenericProps {
            name: "New NPC".to_owned(),
            position: match a.position { Some(v) => v, None => Vec3 { x: 0, y: 0, z: 0 } },
            rotation: match a.rotation { Some(v) => v, None => Vec3 { x: 0, y: 0, z: 0 } },
            scale: match a.scale { Some(v) => v, None => Vec3 { x: 1000, y: 1000, z: 1000 } },
        },
        light: None,
        collectable: None,
        npc: Some(NpcProps { model_id: a.asset_id.clone(), behavior: make_behavior(a) }),
        tree: None,
        grass: None,
        script_path: None,
    }
}

} // verus!
