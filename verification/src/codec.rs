//! The persisted form of the scene document.
//!
//! [`encode_document`] lays a [`SceneDocument`] out as a [`Value`] tree —
//! the shape that is serialized and shipped to the remote store — and
//! [`decode_document`] reads one back.  The encoding predicates here pin
//! the form exactly: every member list has a fixed length and fixed key
//! order, so a document and its reloaded copy agree record for record
//! (see [`lemma_document_encoding_unique`] and [`roundtrip_document`]).

use vstd::prelude::*;
use crate::geom::{Color4, Vec3};
use crate::value::{as_int, as_string, as_vec3, spec_as_int, spec_as_string, spec_as_vec3, str_eq, Value};
use crate::doc::{
    AssetFile, AttackStats, BehaviorConfig, CollectableKind, CollectableProps, ComponentKind,
    ComponentRecord, GenericProps, GrassProps, LandscapeAsset, Level, LightProps, NpcProps,
    PbrTextureSet, SceneDocument, SkyConfig, StatAsset, TreeProps,
};

verus! {

// ------------------------------------------------------------------
// Leaf encodings
// ------------------------------------------------------------------

/// A three-vector in the persisted form.
pub open spec fn vec3_enc(x: Vec3, v: Value) -> bool {
    spec_as_vec3(v) == Some(x)
}

/// A four-channel color in the persisted form.
pub open spec fn color4_enc(c: Color4, v: Value) -> bool {
    &&& v matches Value::Arr(items)
    &&& items@.len() == 4
    &&& items@[0] == Value::Int(c.r)
    &&& items@[1] == Value::Int(c.g)
    &&& items@[2] == Value::Int(c.b)
    &&& items@[3] == Value::Int(c.a)
}

/// A whole count in the persisted form.
pub open spec fn count_enc(x: u32, v: Value) -> bool {
    v == Value::Int(x as i64)
}

/// An optional string in the persisted form.
pub open spec fn opt_str_enc(o: Option<String>, v: Value) -> bool {
    match o {
        None => v == Value::Null,
        Some(s) => v == Value::Str(s),
    }
}

/// The name of a component kind in the persisted form.
pub open spec fn kind_name(k: ComponentKind) -> Seq<char> {
    match k {
        ComponentKind::Model => "Model"@,
        ComponentKind::PointLight => "PointLight"@,
        ComponentKind::Collectable => "Collectable"@,
        ComponentKind::NPC => "NPC"@,
        ComponentKind::ProceduralTree => "ProceduralTree"@,
        ComponentKind::ProceduralGrass => "ProceduralGrass"@,
        ComponentKind::Landscape => "Landscape"@,
    }
}

/// The name of a collectable type in the persisted form.
pub open spec fn collectable_kind_name(k: CollectableKind) -> Seq<char> {
    match k {
        CollectableKind::Item => "Item"@,
        CollectableKind::MeleeWeapon => "MeleeWeapon"@,
        CollectableKind::RangedWeapon => "RangedWeapon"@,
        CollectableKind::Armor => "Armor"@,
    }
}

/// The name of a combat style in the persisted form.
pub open spec fn combat_name(k: crate::doc::CombatKind) -> Seq<char> {
    match k {
        crate::doc::CombatKind::Melee => "Melee"@,
        crate::doc::CombatKind::Ranged => "Ranged"@,
    }
}

/// Distinct kinds have distinct names.
pub proof fn lemma_kind_name_injective(k1: ComponentKind, k2: ComponentKind)
    requires
        kind_name(k1) == kind_name(k2),
    ensures
        k1 == k2,
{
    broadcast use vstd::string::group_string_axioms;

    reveal_strlit("Model");
    reveal_strlit("PointLight");
    reveal_strlit("Collectable");
    reveal_strlit("NPC");
    reveal_strlit("ProceduralTree");
    reveal_strlit("ProceduralGrass");
    reveal_strlit("Landscape");
    assert(("Model"@).len() == 5);
    assert(("PointLight"@).len() == 10);
    assert(("Collectable"@).len() == 11);
    assert(("NPC"@).len() == 3);
    assert(("ProceduralTree"@).len() == 14);
    assert(("ProceduralGrass"@).len() == 15);
    assert(("Landscape"@).len() == 9);
}

/// Distinct collectable types have distinct names.
pub proof fn lemma_collectable_kind_name_injective(k1: CollectableKind, k2: CollectableKind)
    requires
        collectable_kind_name(k1) == collectable_kind_name(k2),
    ensures
        k1 == k2,
{
    broadcast use vstd::string::group_string_axioms;

    reveal_strlit("Item");
    reveal_strlit("MeleeWeapon");
    reveal_strlit("RangedWeapon");
    reveal_strlit("Armor");
    assert(("Item"@).len() == 4);
    assert(("MeleeWeapon"@).len() == 11);
    assert(("RangedWeapon"@).len() == 12);
    assert(("Armor"@).len() == 5);
}

/// Distinct combat styles have distinct names.
pub proof fn lemma_combat_name_injective(k1: crate::doc::CombatKind, k2: crate::doc::CombatKind)
    requires
        combat_name(k1) == combat_name(k2),
    ensures
        k1 == k2,
{
    broadcast use vstd::string::group_string_axioms;

    reveal_strlit("Melee");
    reveal_strlit("Ranged");
    assert(("Melee"@).len() == 5);
    assert(("Ranged"@).len() == 6);
}

// ------------------------------------------------------------------
// Node encodings
// ------------------------------------------------------------------

/// A catalog file entry in the persisted form.
pub open spec fn file_enc(f: AssetFile, v: Value) -> bool {
    &&& v matches Value::Obj(ps)
    &&& ps@.len() == 2
    &&& ps@[0].0@ == "id"@ && ps@[0].1 == Value::Str(f.id)
    &&& ps@[1].0@ == "fileName"@ && ps@[1].1 == Value::Str(f.file_name)
}

/// An optional catalog file in the persisted form.
pub open spec fn opt_file_enc(o: Option<AssetFile>, v: Value) -> bool {
    match o {
        None => v == Value::Null,
        Some(f) => file_enc(f, v),
    }
}

/// A PBR texture set in the persisted form.
pub open spec fn pbr_enc(p: PbrTextureSet, v: Value) -> bool {
    &&& v matches Value::Obj(ps)
    &&& ps@.len() == 6
    &&& ps@[0].0@ == "id"@ && ps@[0].1 == Value::Str(p.id)
    &&& ps@[1].0@ == "diff"@ && opt_file_enc(p.diff, ps@[1].1)
    &&& ps@[2].0@ == "norGl"@ && opt_file_enc(p.nor_gl, ps@[2].1)
    &&& ps@[3].0@ == "rough"@ && opt_file_enc(p.rough, ps@[3].1)
    &&& ps@[4].0@ == "metallic"@ && opt_file_enc(p.metallic, ps@[4].1)
    &&& ps@[5].0@ == "ao"@ && opt_file_enc(p.ao, ps@[5].1)
}

/// A landscape asset in the persisted form.
pub open spec fn land_enc(l: LandscapeAsset, v: Value) -> bool {
    &&& v matches Value::Obj(ps)
    &&& ps@.len() == 4
    &&& ps@[0].0@ == "id"@ && ps@[0].1 == Value::Str(l.id)
    &&& ps@[1].0@ == "heightmap"@ && opt_file_enc(l.heightmap, ps@[1].1)
    &&& ps@[2].0@ == "rockmap"@ && opt_file_enc(l.rockmap, ps@[2].1)
    &&& ps@[3].0@ == "soil"@ && opt_file_enc(l.soil, ps@[3].1)
}

/// A stat template in the persisted form.
pub open spec fn stat_enc(s: StatAsset, v: Value) -> bool {
    &&& v matches Value::Obj(ps)
    &&& ps@.len() == 2
    &&& ps@[0].0@ == "id"@ && ps@[0].1 == Value::Str(s.id)
    &&& ps@[1].0@ == "name"@ && ps@[1].1 == Value::Str(s.name)
}

/// A light block in the persisted form.
pub open spec fn light_enc(l: LightProps, v: Value) -> bool {
    &&& v matches Value::Obj(ps)
    &&& ps@.len() == 2
    &&& ps@[0].0@ == "color"@ && color4_enc(l.color, ps@[0].1)
    &&& ps@[1].0@ == "intensity"@ && ps@[1].1 == Value::Int(l.intensity)
}

/// A collectable block in the persisted form.
pub open spec fn collectable_enc(c: CollectableProps, v: Value) -> bool {
    &&& v matches Value::Obj(ps)
    &&& ps@.len() == 3
    &&& ps@[0].0@ == "modelId"@ && opt_str_enc(c.model_id, ps@[0].1)
    &&& ps@[1].0@ == "type"@ && match c.kind {
        None => ps@[1].1 == Value::Null,
        Some(k) => ps@[1].1 matches Value::Str(s) && s@ == collectable_kind_name(k),
    }
    &&& ps@[2].0@ == "statId"@ && opt_str_enc(c.stat_id, ps@[2].1)
}

/// An attack tuning block in the persisted form.
pub open spec fn attack_enc(a: AttackStats, v: Value) -> bool {
    &&& v matches Value::Obj(ps)
    &&& ps@.len() == 5
    &&& ps@[0].0@ == "damage"@ && ps@[0].1 == Value::Int(a.damage)
    &&& ps@[1].0@ == "range"@ && ps@[1].1 == Value::Int(a.range)
    &&& ps@[2].0@ == "cooldown"@ && ps@[2].1 == Value::Int(a.cooldown)
    &&& ps@[3].0@ == "windUpTime"@ && ps@[3].1 == Value::Int(a.wind_up_time)
    &&& ps@[4].0@ == "recoveryTime"@ && ps@[4].1 == Value::Int(a.recovery_time)
}

/// An optional attack tuning block in the persisted form.
pub open spec fn opt_attack_enc(o: Option<AttackStats>, v: Value) -> bool {
    match o {
        None => v == Value::Null,
        Some(a) => attack_enc(a, v),
    }
}

/// A behavior block in the persisted form.
pub open spec fn behavior_enc(b: BehaviorConfig, v: Value) -> bool {
    &&& v matches Value::Obj(ps)
    &&& ps@.len() == 7
    &&& ps@[0].0@ == "aggressiveness"@ && ps@[0].1 == Value::Int(b.aggressiveness)
    &&& ps@[1].0@ == "combatType"@
    &&& ps@[1].1 matches Value::Str(s) && s@ == combat_name(b.combat)
    &&& ps@[2].0@ == "wanderRadius"@ && ps@[2].1 == Value::Int(b.wander_radius)
    &&& ps@[3].0@ == "wanderSpeed"@ && ps@[3].1 == Value::Int(b.wander_speed)
    &&& ps@[4].0@ == "detectionRadius"@ && ps@[4].1 == Value::Int(b.detection_radius)
    &&& ps@[5].0@ == "meleeStats"@ && opt_attack_enc(b.melee_stats, ps@[5].1)
    &&& ps@[6].0@ == "rangedStats"@ && opt_attack_enc(b.ranged_stats, ps@[6].1)
}

/// An NPC block in the persisted form.
pub open spec fn npc_enc(n: NpcProps, v: Value) -> bool {
    &&& v matches Value::Obj(ps)
    &&& ps@.len() == 2
    &&& ps@[0].0@ == "modelId"@ && ps@[0].1 == Value::Str(n.model_id)
    &&& ps@[1].0@ == "behavior"@ && behavior_enc(n.behavior, ps@[1].1)
}

/// A tree block in the persisted form.
pub open spec fn tree_enc(t: TreeProps, v: Value) -> bool {
    &&& v matches Value::Obj(ps)
    &&& ps@.len() == 5
    &&& ps@[0].0@ == "seed"@ && count_enc(t.seed, ps@[0].1)
    &&& ps@[1].0@ == "trunkHeight"@ && ps@[1].1 == Value::Int(t.trunk_height)
    &&& ps@[2].0@ == "trunkRadius"@ && ps@[2].1 == Value::Int(t.trunk_radius)
    &&& ps@[3].0@ == "branchLevels"@ && count_enc(t.branch_levels, ps@[3].1)
    &&& ps@[4].0@ == "foliageRadius"@ && ps@[4].1 == Value::Int(t.foliage_radius)
}

/// A grass block in the persisted form.
pub open spec fn grass_enc(g: GrassProps, v: Value) -> bool {
    &&& v matches Value::Obj(ps)
    &&& ps@.len() == 8
    &&& ps@[0].0@ == "windStrength"@ && ps@[0].1 == Value::Int(g.wind_strength)
    &&& ps@[1].0@ == "windSpeed"@ && ps@[1].1 == Value::Int(g.wind_speed)
    &&& ps@[2].0@ == "bladeHeight"@ && ps@[2].1 == Value::Int(g.blade_height)
    &&& ps@[3].0@ == "bladeWidth"@ && ps@[3].1 == Value::Int(g.blade_width)
    &&& ps@[4].0@ == "bladeDensity"@ && count_enc(g.blade_density, ps@[4].1)
    &&& ps@[5].0@ == "renderDistance"@ && ps@[5].1 == Value::Int(g.render_distance)
    &&& ps@[6].0@ == "gridSize"@ && ps@[6].1 == Value::Int(g.grid_size)
    &&& ps@[7].0@ == "brownianStrength"@ && ps@[7].1 == Value::Int(g.brownian_strength)
}

/// A sky block in the persisted form.
pub open spec fn sky_enc(s: SkyConfig, v: Value) -> bool {
    &&& v matches Value::Obj(ps)
    &&& ps@.len() == 5
    &&& ps@[0].0@ == "horizonColor"@ && vec3_enc(s.horizon_color, ps@[0].1)
    &&& ps@[1].0@ == "zenithColor"@ && vec3_enc(s.zenith_color, ps@[1].1)
    &&& ps@[2].0@ == "sunDirection"@ && vec3_enc(s.sun_direction, ps@[2].1)
    &&& ps@[3].0@ == "sunColor"@ && vec3_enc(s.sun_color, ps@[3].1)
    &&& ps@[4].0@ == "sunIntensity"@ && ps@[4].1 == Value::Int(s.sun_intensity)
}

/// A component record in the persisted form.
pub open spec fn record_enc(r: ComponentRecord, v: Value) -> bool {
    &&& v matches Value::Obj(ps)
    &&& ps@.len() == 13
    &&& ps@[0].0@ == "id"@ && ps@[0].1 == Value::Str(r.id)
    &&& ps@[1].0@ == "kind"@
    &&& ps@[1].1 matches Value::Str(s) && s@ == kind_name(r.kind)
    &&& ps@[2].0@ == "assetId"@ && ps@[2].1 == Value::Str(r.asset_id)
    &&& ps@[3].0@ == "name"@ && ps@[3].1 == Value::Str(r.generic.name)
    &&& ps@[4].0@ == "position"@ && vec3_enc(r.generic.position, ps@[4].1)
    &&& ps@[5].0@ == "rotation"@ && vec3_enc(r.generic.rotation, ps@[5].1)
    &&& ps@[6].0@ == "scale"@ && vec3_enc(r.generic.scale, ps@[6].1)
    &&& ps@[7].0@ == "light"@ && match r.light {
        None => ps@[7].1 == Value::Null,
        Some(l) => light_enc(l, ps@[7].1),
    }
    &&& ps@[8].0@ == "collectable"@ && match r.collectable {
        None => ps@[8].1 == Value::Null,
        Some(c) => collectable_enc(c, ps@[8].1),
    }
    &&& ps@[9].0@ == "npc"@ && match r.npc {
        None => ps@[9].1 == Value::Null,
        Some(n) => npc_enc(n, ps@[9].1),
    }
    &&& ps@[10].0@ == "proceduralTree"@ && match r.tree {
        None => ps@[10].1 == Value::Null,
        Some(t) => tree_enc(t, ps@[10].1),
    }
    &&& ps@[11].0@ == "proceduralGrass"@ && match r.grass {
        None => ps@[11].1 == Value::Null,
        Some(g) => grass_enc(g, ps@[11].1),
    }
    &&& ps@[12].0@ == "rhaiScriptPath"@ && opt_str_enc(r.script_path, ps@[12].1)
}

/// A record list in the persisted form, element by element.
pub open spec fn records_enc(xs: Seq<ComponentRecord>, vs: Seq<Value>) -> bool {
    vs.len() == xs.len() && forall|i: int| 0 <= i < xs.len() ==> record_enc(xs[i], #[trigger] vs[i])
}

/// A level in the persisted form.
pub open spec fn level_enc(l: Level, v: Value) -> bool {
    &&& v matches Value::Obj(ps)
    &&& ps@.len() == 2
    &&& ps@[0].0@ == "components"@
    &&& ps@[0].1 matches Value::Arr(items) && records_enc(l.components@, items@)
    &&& ps@[1].0@ == "proceduralSky"@ && match l.sky {
        None => ps@[1].1 == Value::Null,
        Some(s) => sky_enc(s, ps@[1].1),
    }
}

/// A file list in the persisted form, element by element.
pub open spec fn files_enc(xs: Seq<AssetFile>, vs: Seq<Value>) -> bool {
    vs.len() == xs.len() && forall|i: int| 0 <= i < xs.len() ==> file_enc(xs[i], #[trigger] vs[i])
}

/// A PBR set list in the persisted form, element by element.
pub open spec fn pbrs_enc(xs: Seq<PbrTextureSet>, vs: Seq<Value>) -> bool {
    vs.len() == xs.len() && forall|i: int| 0 <= i < xs.len() ==> pbr_enc(xs[i], #[trigger] vs[i])
}

/// A landscape asset list in the persisted form, element by element.
pub open spec fn lands_enc(xs: Seq<LandscapeAsset>, vs: Seq<Value>) -> bool {
    vs.len() == xs.len() && forall|i: int| 0 <= i < xs.len() ==> land_enc(xs[i], #[trigger] vs[i])
}

/// A stat list in the persisted form, element by element.
pub open spec fn stats_enc(xs: Seq<StatAsset>, vs: Seq<Value>) -> bool {
    vs.len() == xs.len() && forall|i: int| 0 <= i < xs.len() ==> stat_enc(xs[i], #[trigger] vs[i])
}

/// A level list in the persisted form, element by element.
pub open spec fn levels_enc(xs: Seq<Level>, vs: Seq<Value>) -> bool {
    vs.len() == xs.len() && forall|i: int| 0 <= i < xs.len() ==> level_enc(xs[i], #[trigger] vs[i])
}

/// A whole scene document in the persisted form.
pub open spec fn doc_enc(d: SceneDocument, v: Value) -> bool {
    &&& v matches Value::Obj(ps)
    &&& ps@.len() == 6
    &&& ps@[0].0@ == "models"@
    &&& ps@[0].1 matches Value::Arr(items) && files_enc(d.models@, items@)
    &&& ps@[1].0@ == "textures"@
    &&& ps@[1].1 matches Value::Arr(items) && files_enc(d.textures@, items@)
    &&& ps@[2].0@ == "pbrTextures"@
    &&& ps@[2].1 matches Value::Arr(items) && pbrs_enc(d.pbr_textures@, items@)
    &&& ps@[3].0@ == "landscapes"@
    &&& ps@[3].1 matches Value::Arr(items) && lands_enc(d.landscapes@, items@)
    &&& ps@[4].0@ == "stats"@
    &&& ps@[4].1 matches Value::Arr(items) && stats_enc(d.stats@, items@)
    &&& ps@[5].0@ == "levels"@
    &&& ps@[5].1 matches Value::Arr(items) && levels_enc(d.levels@, items@)
}

// ------------------------------------------------------------------
// Two documents with the same persisted form agree
// ------------------------------------------------------------------

/// Record-for-record agreement of two documents: equal catalogs and, level
/// by level, equal component lists and skies.
pub open spec fn doc_equiv(a: SceneDocument, b: SceneDocument) -> bool {
    &&& a.models@ == b.models@
    &&& a.textures@ == b.textures@
    &&& a.pbr_textures@ == b.pbr_textures@
    &&& a.landscapes@ == b.landscapes@
    &&& a.stats@ == b.stats@
    &&& a.levels@.len() == b.levels@.len()
    &&& forall|i: int| 0 <= i < a.levels@.len()
        ==> (#[trigger] a.levels@[i]).components@ == b.levels@[i].components@
            && a.levels@[i].sky == b.levels@[i].sky
}

/// One persisted record pins the component record.
pub proof fn lemma_record_enc_unique(r1: ComponentRecord, r2: ComponentRecord, v: Value)
    requires
        record_enc(r1, v),
        record_enc(r2, v),
    ensures
        r1 == r2,
{
    lemma_kind_name_injective(r1.kind, r2.kind);
    match (r1.collectable, r2.collectable) {
        (Some(c1), Some(c2)) => {
            match (c1.kind, c2.kind) {
                (Some(k1), Some(k2)) => {
                    lemma_collectable_kind_name_injective(k1, k2);
                },
                _ => {},
            }
        },
        _ => {},
    }
    match (r1.npc, r2.npc) {
        (Some(n1), Some(n2)) => {
            lemma_combat_name_injective(n1.behavior.combat, n2.behavior.combat);
        },
        _ => {},
    }
}

/// One persisted form pins the document, record for record.
pub proof fn lemma_document_encoding_unique(d1: SceneDocument, d2: SceneDocument, v: Value)
    requires
        doc_enc(d1, v),
        doc_enc(d2, v),
    ensures
        doc_equiv(d1, d2),
{
    match v {
        Value::Obj(ps) => {
            match ps@[0].1 {
                Value::Arr(items) => {
                    assert forall|i: int| 0 <= i < d1.models@.len()
                        implies #[trigger] d1.models@[i] == d2.models@[i] by {
                        assert(file_enc(d1.models@[i], items@[i]));
                        assert(file_enc(d2.models@[i], items@[i]));
                    }
                    assert(d1.models@ =~= d2.models@);
                },
                _ => {},
            }
            match ps@[1].1 {
                Value::Arr(items) => {
                    assert forall|i: int| 0 <= i < d1.textures@.len()
                        implies #[trigger] d1.textures@[i] == d2.textures@[i] by {
                        assert(file_enc(d1.textures@[i], items@[i]));
                        assert(file_enc(d2.textures@[i], items@[i]));
                    }
                    assert(d1.textures@ =~= d2.textures@);
                },
                _ => {},
            }
            match ps@[2].1 {
                Value::Arr(items) => {
                    assert forall|i: int| 0 <= i < d1.pbr_textures@.len()
                        implies #[trigger] d1.pbr_textures@[i] == d2.pbr_textures@[i] by {
                        assert(pbr_enc(d1.pbr_textures@[i], items@[i]));
                        assert(pbr_enc(d2.pbr_textures@[i], items@[i]));
                    }
                    assert(d1.pbr_textures@ =~= d2.pbr_textures@);
                },
                _ => {},
            }
            match ps@[3].1 {
                Value::Arr(items) => {
                    assert forall|i: int| 0 <= i < d1.landscapes@.len()
                        implies #[trigger] d1.landscapes@[i] == d2.landscapes@[i] by {
                        assert(land_enc(d1.landscapes@[i], items@[i]));
                        assert(land_enc(d2.landscapes@[i], items@[i]));
                    }
                    assert(d1.landscapes@ =~= d2.landscapes@);
                },
                _ => {},
            }
            match ps@[4].1 {
                Value::Arr(items) => {
                    assert forall|i: int| 0 <= i < d1.stats@.len()
                        implies #[trigger] d1.stats@[i] == d2.stats@[i] by {
                        assert(stat_enc(d1.stats@[i], items@[i]));
                        assert(stat_enc(d2.stats@[i], items@[i]));
                    }
                    assert(d1.stats@ =~= d2.stats@);
                },
                _ => {},
            }
            match ps@[5].1 {
                Value::Arr(items) => {
                    assert forall|i: int| 0 <= i < d1.levels@.len()
                        implies (#[trigger] d1.levels@[i]).components@ == d2.levels@[i].components@
                            && d1.levels@[i].sky == d2.levels@[i].sky by {
                        assert(level_enc(d1.levels@[i], items@[i]));
                        assert(level_enc(d2.levels@[i], items@[i]));
                        match items@[i] {
                            Value::Obj(lps) => {
                                match lps@[0].1 {
                                    Value::Arr(rvs) => {
                                        assert forall|j: int| 0 <= j < d1.levels@[i].components@.len()
                                            implies #[trigger] d1.levels@[i].components@[j]
                                                == d2.levels@[i].components@[j] by {
                                            lemma_record_enc_unique(
                                                d1.levels@[i].components@[j],
                                                d2.levels@[i].components@[j],
                                                rvs@[j],
                                            );
                                        }
                                        assert(d1.levels@[i].components@ =~= d2.levels@[i].components@);
                                    },
                                    _ => {},
                                }
                            },
                            _ => {},
                        }
                    }
                },
                _ => {},
            }
        },
        _ => {},
    }
}

// ------------------------------------------------------------------
// Encoding
// ------------------------------------------------------------------

fn enc_vec3(x: Vec3) -> (v: Value)
    ensures
        vec3_enc(x, v),
{
    let mut items: Vec<Value> = Vec::new();
    items.push(Value::Int(x.x));
    items.push(Value::Int(x.y));
    items.push(Value::Int(x.z));
    Value::Arr(items)
}

fn enc_color4(c: Color4) -> (v: Value)
    ensures
        color4_enc(c, v),
{
    let mut items: Vec<Value> = Vec::new();
    items.push(Value::Int(c.r));
    items.push(Value::Int(c.g));
    items.push(Value::Int(c.b));
    items.push(Value::Int(c.a));
    Value::Arr(items)
}

fn enc_opt_str(o: &Option<String>) -> (v: Value)
    ensures
        opt_str_enc(*o, v),
{
    match o {
        None => Value::Null,
        Some(s) => Value::Str(s.clone()),
    }
}

fn enc_file(f: &AssetFile) -> (v: Value)
    ensures
        file_enc(*f, v),
{
    let mut ps: Vec<(String, Value)> = Vec::new();
    ps.push(("id".to_owned(), Value::Str(f.id.clone())));
    ps.push(("fileName".to_owned(), Value::Str(f.file_name.clone())));
    Value::Obj(ps)
}

fn enc_opt_file(o: &Option<AssetFile>) -> (v: Value)
    ensures
        opt_file_enc(*o, v),
{
    match o {
        None => Value::Null,
        Some(f) => enc_file(f),
    }
}

fn enc_pbr(p: &PbrTextureSet) -> (v: Value)
    ensures
        pbr_enc(*p, v),
{
    let mut ps: Vec<(String, Value)> = Vec::new();
    ps.push(("id".to_owned(), Value::Str(p.id.clone())));
    ps.push(("diff".to_owned(), enc_opt_file(&p.diff)));
    ps.push(("norGl".to_owned(), enc_opt_file(&p.nor_gl)));
    ps.push(("rough".to_owned(), enc_opt_file(&p.rough)));
    ps.push(("metallic".to_owned(), enc_opt_file(&p.metallic)));
    ps.push(("ao".to_owned(), enc_opt_file(&p.ao)));
    Value::Obj(ps)
}

fn enc_land(l: &LandscapeAsset) -> (v: Value)
    ensures
        land_enc(*l, v),
{
    let mut ps: Vec<(String, Value)> = Vec::new();
    ps.push(("id".to_owned(), Value::Str(l.id.clone())));
    ps.push(("heightmap".to_owned(), enc_opt_file(&l.heightmap)));
    ps.push(("rockmap".to_owned(), enc_opt_file(&l.rockmap)));
    ps.push(("soil".to_owned(), enc_opt_file(&l.soil)));
    Value::Obj(ps)
}

fn enc_stat(s: &StatAsset) -> (v: Value)
    ensures
        stat_enc(*s, v),
{
    let mut ps: Vec<(String, Value)> = Vec::new();
    ps.push(("id".to_owned(), Value::Str(s.id.clone())));
    ps.push(("name".to_owned(), Value::Str(s.name.clone())));
    Value::Obj(ps)
}

fn enc_light(l: &LightProps) -> (v: Value)
    ensures
        light_enc(*l, v),
{
    let mut ps: Vec<(String, Value)> = Vec::new();
    ps.push(("color".to_owned(), enc_color4(l.color)));
    ps.push(("intensity".to_owned(), Value::Int(l.intensity)));
    Value::Obj(ps)
}

fn collectable_kind_string(k: CollectableKind) -> (r: String)
    ensures
        r@ == collectable_kind_name(k),
{
    match k {
        CollectableKind::Item => "Item".to_owned(),
        CollectableKind::MeleeWeapon => "MeleeWeapon".to_owned(),
        CollectableKind::RangedWeapon => "RangedWeapon".to_owned(),
        CollectableKind::Armor => "Armor".to_owned(),
    }
}

fn enc_collectable(c: &CollectableProps) -> (v: Value)
    ensures
        collectable_enc(*c, v),
{
    let kind_v = match &c.kind {
        None => Value::Null,
        Some(k) => Value::Str(collectable_kind_string(*k)),
    };
    let mut ps: Vec<(String, Value)> = Vec::new();
    ps.push(("modelId".to_owned(), enc_opt_str(&c.model_id)));
    ps.push(("type".to_owned(), kind_v));
    ps.push(("statId".to_owned(), enc_opt_str(&c.stat_id)));
    Value::Obj(ps)
}

fn enc_attack(a: &AttackStats) -> (v: Value)
    ensures
        attack_enc(*a, v),
{
    let mut ps: Vec<(String, Value)> = Vec::new();
    ps.push(("damage".to_owned(), Value::Int(a.damage)));
    ps.push(("range".to_owned(), Value::Int(a.range)));
    ps.push(("cooldown".to_owned(), Value::Int(a.cooldown)));
    ps.push(("windUpTime".to_owned(), Value::Int(a.wind_up_time)));
    ps.push(("recoveryTime".to_owned(), Value::Int(a.recovery_time)));
    Value::Obj(ps)
}

fn enc_opt_attack(o: &Option<AttackStats>) -> (v: Value)
    ensures
        opt_attack_enc(*o, v),
{
    match o {
        None => Value::Null,
        Some(a) => enc_attack(a),
    }
}

fn combat_string(k: crate::doc::CombatKind) -> (r: String)
    ensures
        r@ == combat_name(k),
{
    match k {
        crate::doc::CombatKind::Melee => "Melee".to_owned(),
        crate::doc::CombatKind::Ranged => "Ranged".to_owned(),
    }
}

fn enc_behavior(b: &BehaviorConfig) -> (v: Value)
    ensures
        behavior_enc(*b, v),
{
    let mut ps: Vec<(String, Value)> = Vec::new();
    ps.push(("aggressiveness".to_owned(), Value::Int(b.aggressiveness)));
    ps.push(("combatType".to_owned(), Value::Str(combat_string(b.combat))));
    ps.push(("wanderRadius".to_owned(), Value::Int(b.wander_radius)));
    ps.push(("wanderSpeed".to_owned(), Value::Int(b.wander_speed)));
    ps.push(("detectionRadius".to_owned(), Value::Int(b.detection_radius)));
    ps.push(("meleeStats".to_owned(), enc_opt_attack(&b.melee_stats)));
    ps.push(("rangedStats".to_owned(), enc_opt_attack(&b.ranged_stats)));
    Value::Obj(ps)
}

fn enc_npc(n: &NpcProps) -> (v: Value)
    ensures
        npc_enc(*n, v),
{
    let mut ps: Vec<(String, Value)> = Vec::new();
    ps.push(("modelId".to_owned(), Value::Str(n.model_id.clone())));
    ps.push(("behavior".to_owned(), enc_behavior(&n.behavior)));
    Value::Obj(ps)
}

fn enc_tree(t: &TreeProps) -> (v: Value)
    ensures
        tree_enc(*t, v),
{
    let mut ps: Vec<(String, Value)> = Vec::new();
    ps.push(("seed".to_owned(), Value::Int(t.seed as i64)));
    ps.push(("trunkHeight".to_owned(), Value::Int(t.trunk_height)));
    ps.push(("trunkRadius".to_owned(), Value::Int(t.trunk_radius)));
    ps.push(("branchLevels".to_owned(), Value::Int(t.branch_levels as i64)));
    ps.push(("foliageRadius".to_owned(), Value::Int(t.foliage_radius)));
    Value::Obj(ps)
}

fn enc_grass(g: &GrassProps) -> (v: Value)
    ensures
        grass_enc(*g, v),
{
    let mut ps: Vec<(String, Value)> = Vec::new();
    ps.push(("windStrength".to_owned(), Value::Int(g.wind_strength)));
    ps.push(("windSpeed".to_owned(), Value::Int(g.wind_speed)));
    ps.push(("bladeHeight".to_owned(), Value::Int(g.blade_height)));
    ps.push(("bladeWidth".to_owned(), Value::Int(g.blade_width)));
    ps.push(("bladeDensity".to_owned(), Value::Int(g.blade_density as i64)));
    ps.push(("renderDistance".to_owned(), Value::Int(g.render_distance)));
    ps.push(("gridSize".to_owned(), Value::Int(g.grid_size)));
    ps.push(("brownianStrength".to_owned(), Value::Int(g.brownian_strength)));
    Value::Obj(ps)
}

fn enc_sky(s: &SkyConfig) -> (v: Value)
    ensures
        sky_enc(*s, v),
{
    let mut ps: Vec<(String, Value)> = Vec::new();
    ps.push(("horizonColor".to_owned(), enc_vec3(s.horizon_color)));
    ps.push(("zenithColor".to_owned(), enc_vec3(s.zenith_color)));
    ps.push(("sunDirection".to_owned(), enc_vec3(s.sun_direction)));
    ps.push(("sunColor".to_owned(), enc_vec3(s.sun_color)));
    ps.push(("sunIntensity".to_owned(), Value::Int(s.sun_intensity)));
    Value::Obj(ps)
}

fn kind_string(k: ComponentKind) -> (r: String)
    ensures
        r@ == kind_name(k),
{
    match k {
        ComponentKind::Model => "Model".to_owned(),
        ComponentKind::PointLight => "PointLight".to_owned(),
        ComponentKind::Collectable => "Collectable".to_owned(),
        ComponentKind::NPC => "NPC".to_owned(),
        ComponentKind::ProceduralTree => "ProceduralTree".to_owned(),
        ComponentKind::ProceduralGrass => "ProceduralGrass".to_owned(),
        ComponentKind::Landscape => "Landscape".to_owned(),
    }
}

/// Lays one component record out in the persisted form.
pub fn encode_record(r: &ComponentRecord) -> (v: Value)
    ensures
        record_enc(*r, v),
{
    let light_v = match &r.light {
        None => Value::Null,
        Some(l) => enc_light(l),
    };
    let col_v = match &r.collectable {
        None => Value::Null,
        Some(c) => enc_collectable(c),
    };
    let npc_v = match &r.npc {
        None => Value::Null,
        Some(n) => enc_npc(n),
    };
    let tree_v = match &r.tree {
        None => Value::Null,
        Some(t) => enc_tree(t),
    };
    let grass_v = match &r.grass {
        None => Value::Null,
        Some(g) => enc_grass(g),
    };
    let mut ps: Vec<(String, Value)> = Vec::new();
    ps.push(("id".to_owned(), Value::Str(r.id.clone())));
    ps.push(("kind".to_owned(), Value::Str(kind_string(r.kind))));
    ps.push(("assetId".to_owned(), Value::Str(r.asset_id.clone())));
    ps.push(("name".to_owned(), Value::Str(r.generic.name.clone())));
    ps.push(("position".to_owned(), enc_vec3(r.generic.position)));
    ps.push(("rotation".to_owned(), enc_vec3(r.generic.rotation)));
    ps.push(("scale".to_owned(), enc_vec3(r.generic.scale)));
    ps.push(("light".to_owned(), light_v));
    ps.push(("collectable".to_owned(), col_v));
    ps.push(("npc".to_owned(), npc_v));
    ps.push(("proceduralTree".to_owned(), tree_v));
    ps.push(("proceduralGrass".to_owned(), grass_v));
    ps.push(("rhaiScriptPath".to_owned(), enc_opt_str(&r.script_path)));
    Value::Obj(ps)
}

fn enc_level(l: &Level) -> (v: Value)
    ensures
        level_enc(*l, v),
{
    let mut items: Vec<Value> = Vec::new();
    let mut i: usize = 0;
    while i < l.components.len()
        invariant
            0 <= i <= l.components@.len(),
            items@.len() == i,
            forall|k: int| 0 <= k < i ==> record_enc(l.components@[k], #[trigger] items@[k]),
        decreases l.components@.len() - i,
    {
        items.push(encode_record(&l.components[i]));
        i = i + 1;
    }
    let sky_v = match &l.sky {
        None => Value::Null,
        Some(s) => enc_sky(s),
    };
    let mut ps: Vec<(String, Value)> = Vec::new();
    ps.push(("components".to_owned(), Value::Arr(items)));
    ps.push(("proceduralSky".to_owned(), sky_v));
    Value::Obj(ps)
}

/// Lays the whole document out in the persisted form.
pub fn encode_document(d: &SceneDocument) -> (v: Value)
    ensures
        doc_enc(*d, v),
{
    let mut models: Vec<Value> = Vec::new();
    let mut i: usize = 0;
    while i < d.models.len()
        invariant
            0 <= i <= d.models@.len(),
            models@.len() == i,
            forall|k: int| 0 <= k < i ==> file_enc(d.models@[k], #[trigger] models@[k]),
        decreases d.models@.len() - i,
    {
        models.push(enc_file(&d.models[i]));
        i = i + 1;
    }
    let mut textures: Vec<Value> = Vec::new();
    let mut i: usize = 0;
    while i < d.textures.len()
        invariant
            0 <= i <= d.textures@.len(),
            textures@.len() == i,
            forall|k: int| 0 <= k < i ==> file_enc(d.textures@[k], #[trigger] textures@[k]),
        decreases d.textures@.len() - i,
    {
        textures.push(enc_file(&d.textures[i]));
        i = i + 1;
    }
    let mut pbrs: Vec<Value> = Vec::new();
    let mut i: usize = 0;
    while i < d.pbr_textures.len()
        invariant
            0 <= i <= d.pbr_textures@.len(),
            pbrs@.len() == i,
            forall|k: int| 0 <= k < i ==> pbr_enc(d.pbr_textures@[k], #[trigger] pbrs@[k]),
        decreases d.pbr_textures@.len() - i,
    {
        pbrs.push(enc_pbr(&d.pbr_textures[i]));
        i = i + 1;
    }
    let mut lands: Vec<Value> = Vec::new();
    let mut i: usize = 0;
    while i < d.landscapes.len()
        invariant
            0 <= i <= d.landscapes@.len(),
            lands@.len() == i,
            forall|k: int| 0 <= k < i ==> land_enc(d.landscapes@[k], #[trigger] lands@[k]),
        decreases d.landscapes@.len() - i,
    {
        lands.push(enc_land(&d.landscapes[i]));
        i = i + 1;
    }
    let mut stats: Vec<Value> = Vec::new();
    let mut i: usize = 0;
    while i < d.stats.len()
        invariant
            0 <= i <= d.stats@.len(),
            stats@.len() == i,
            forall|k: int| 0 <= k < i ==> stat_enc(d.stats@[k], #[trigger] stats@[k]),
        decreases d.stats@.len() - i,
    {
        stats.push(enc_stat(&d.stats[i]));
        i = i + 1;
    }
    let mut levels: Vec<Value> = Vec::new();
    let mut i: usize = 0;
    while i < d.levels.len()
        invariant
            0 <= i <= d.levels@.len(),
            levels@.len() == i,
            forall|k: int| 0 <= k < i ==> level_enc(d.levels@[k], #[trigger] levels@[k]),
        decreases d.levels@.len() - i,
    {
        levels.push(enc_level(&d.levels[i]));
        i = i + 1;
    }
    let mut ps: Vec<(String, Value)> = Vec::new();
    ps.push(("models".to_owned(), Value::Arr(models)));
    ps.push(("textures".to_owned(), Value::Arr(textures)));
    ps.push(("pbrTextures".to_owned(), Value::Arr(pbrs)));
    ps.push(("landscapes".to_owned(), Value::Arr(lands)));
    ps.push(("stats".to_owned(), Value::Arr(stats)));
    ps.push(("levels".to_owned(), Value::Arr(levels)));
    Value::Obj(ps)
}

// ------------------------------------------------------------------
// Decoding
// ------------------------------------------------------------------

fn key_is(ps: &Vec<(String, Value)>, i: usize, k: &str) -> (r: bool)
    requires
        i < ps@.len(),
    ensures
        r == (ps@[i as int].0@ == k@),
{
    str_eq(ps[i].0.as_str(), k)
}

fn dec_color4(v: &Value) -> (r: Option<Color4>)
    ensures
        match r {
            Some(c) => color4_enc(c, *v),
            None => forall|c: Color4| !color4_enc(c, *v),
        },
{
    let items = match v {
        Value::Arr(items) => items,
        _ => { return None; },
    };
    if items.len() != 4 {
        return None;
    }
    match (as_int(&items[0]), as_int(&items[1]), as_int(&items[2]), as_int(&items[3])) {
        (Some(red), Some(green), Some(blue), Some(alpha)) => Some(Color4 { r: red, g: green, b: blue, a: alpha }),
        _ => None,
    }
}

fn dec_count(v: &Value) -> (r: Option<u32>)
    ensures
        match r {
            Some(x) => count_enc(x, *v),
            None => forall|x: u32| !count_enc(x, *v),
        },
{
    match as_int(v) {
        Some(n) => {
            if 0 <= n && n <= u32::MAX as i64 {
                Some(n as u32)
            } else {
                None
            }
        },
        None => None,
    }
}

fn dec_opt_str(v: &Value) -> (r: Option<Option<String>>)
    ensures
        match r {
            Some(o) => opt_str_enc(o, *v),
            None => forall|o: Option<String>| !opt_str_enc(o, *v),
        },
{
    match v {
        Value::Null => Some(None),
        Value::Str(s) => Some(Some(s.clone())),
        _ => None,
    }
}

fn dec_file(v: &Value) -> (r: Option<AssetFile>)
    ensures
        match r {
            Some(f) => file_enc(f, *v),
            None => forall|f: AssetFile| !file_enc(f, *v),
        },
{
    let ps = match v {
        Value::Obj(ps) => ps,
        _ => { return None; },
    };
    if ps.len() != 2 {
        return None;
    }
    if !key_is(ps, 0, "id") || !key_is(ps, 1, "fileName") {
        return None;
    }
    let id = match as_string(&ps[0].1) {
        Some(s) => s,
        None => { return None; },
    };
    let file_name = match as_string(&ps[1].1) {
        Some(s) => s,
        None => { return None; },
    };
    Some(AssetFile { id, file_name })
}

fn dec_opt_file(v: &Value) -> (r: Option<Option<AssetFile>>)
    ensures
        match r {
            Some(o) => opt_file_enc(o, *v),
            None => forall|o: Option<AssetFile>| !opt_file_enc(o, *v),
        },
{
    match v {
        Value::Null => Some(None),
        _ => match dec_file(v) {
            Some(f) => Some(Some(f)),
            None => None,
        },
    }
}

fn dec_pbr(v: &Value) -> (r: Option<PbrTextureSet>)
    ensures
        match r {
            Some(p) => pbr_enc(p, *v),
            None => forall|p: PbrTextureSet| !pbr_enc(p, *v),
        },
{
    let ps = match v {
        Value::Obj(ps) => ps,
        _ => { return None; },
    };
    if ps.len() != 6 {
        return None;
    }
    if !key_is(ps, 0, "id") || !key_is(ps, 1, "diff") || !key_is(ps, 2, "norGl")
        || !key_is(ps, 3, "rough") || !key_is(ps, 4, "metallic") || !key_is(ps, 5, "ao") {
        return None;
    }
    let id = match as_string(&ps[0].1) {
        Some(s) => s,
        None => { return None; },
    };
    let diff = match dec_opt_file(&ps[1].1) {
        Some(o) => o,
        None => { return None; },
    };
    let nor_gl = match dec_opt_file(&ps[2].1) {
        Some(o) => o,
        None => { return None; },
    };
    let rough = match dec_opt_file(&ps[3].1) {
        Some(o) => o,
        None => { return None; },
    };
    let metallic = match dec_opt_file(&ps[4].1) {
        Some(o) => o,
        None => { return None; },
    };
    let ao = match dec_opt_file(&ps[5].1) {
        Some(o) => o,
        None => { return None; },
    };
    Some(PbrTextureSet { id, diff, nor_gl, rough, metallic, ao })
}

fn dec_land(v: &Value) -> (r: Option<LandscapeAsset>)
    ensures
        match r {
            Some(l) => land_enc(l, *v),
            None => forall|l: LandscapeAsset| !land_enc(l, *v),
        },
{
    let ps = match v {
        Value::Obj(ps) => ps,
        _ => { return None; },
    };
    if ps.len() != 4 {
        return None;
    }
    if !key_is(ps, 0, "id") || !key_is(ps, 1, "heightmap") || !key_is(ps, 2, "rockmap")
        || !key_is(ps, 3, "soil") {
        return None;
    }
    let id = match as_string(&ps[0].1) {
        Some(s) => s,
        None => { return None; },
    };
    let heightmap = match dec_opt_file(&ps[1].1) {
        Some(o) => o,
        None => { return None; },
    };
    let rockmap = match dec_opt_file(&ps[2].1) {
        Some(o) => o,
        None => { return None; },
    };
    let soil = match dec_opt_file(&ps[3].1) {
        Some(o) => o,
        None => { return None; },
    };
    Some(LandscapeAsset { id, heightmap, rockmap, soil })
}

fn dec_stat(v: &Value) -> (r: Option<StatAsset>)
    ensures
        match r {
            Some(s) => stat_enc(s, *v),
            None => forall|s: StatAsset| !stat_enc(s, *v),
        },
{
    let ps = match v {
        Value::Obj(ps) => ps,
        _ => { return None; },
    };
    if ps.len() != 2 {
        return None;
    }
    if !key_is(ps, 0, "id") || !key_is(ps, 1, "name") {
        return None;
    }
    let id = match as_string(&ps[0].1) {
        Some(s) => s,
        None => { return None; },
    };
    let name = match as_string(&ps[1].1) {
        Some(s) => s,
        None => { return None; },
    };
    Some(StatAsset { id, name })
}

fn dec_light(v: &Value) -> (r: Option<LightProps>)
    ensures
        match r {
            Some(l) => light_enc(l, *v),
            None => forall|l: LightProps| !light_enc(l, *v),
        },
{
    let ps = match v {
        Value::Obj(ps) => ps,
        _ => { return None; },
    };
    if ps.len() != 2 {
        return None;
    }
    if !key_is(ps, 0, "color") || !key_is(ps, 1, "intensity") {
        return None;
    }
    let color = match dec_color4(&ps[0].1) {
        Some(c) => c,
        None => { return None; },
    };
    let intensity = match as_int(&ps[1].1) {
        Some(n) => n,
        None => { return None; },
    };
    Some(LightProps { color, intensity })
}

fn dec_collectable_kind(s: &String) -> (r: Option<CollectableKind>)
    ensures
        match r {
            Some(k) => s@ == collectable_kind_name(k),
            None => forall|k: CollectableKind| s@ != collectable_kind_name(k),
        },
{
    if str_eq(s.as_str(), "Item") {
        Some(CollectableKind::Item)
    } else if str_eq(s.as_str(), "MeleeWeapon") {
        Some(CollectableKind::MeleeWeapon)
    } else if str_eq(s.as_str(), "RangedWeapon") {
        Some(CollectableKind::RangedWeapon)
    } else if str_eq(s.as_str(), "Armor") {
        Some(CollectableKind::Armor)
    } else {
        None
    }
}

fn dec_collectable(v: &Value) -> (r: Option<CollectableProps>)
    ensures
        match r {
            Some(c) => collectable_enc(c, *v),
            None => forall|c: CollectableProps| !collectable_enc(c, *v),
        },
{
    let ps = match v {
        Value::Obj(ps) => ps,
        _ => { return None; },
    };
    if ps.len() != 3 {
        return None;
    }
    if !key_is(ps, 0, "modelId") || !key_is(ps, 1, "type") || !key_is(ps, 2, "statId") {
        return None;
    }
    let model_id = match dec_opt_str(&ps[0].1) {
        Some(o) => o,
        None => { return None; },
    };
    let kind: Option<CollectableKind> = match &ps[1].1 {
        Value::Null => None,
        Value::Str(s) => match dec_collectable_kind(s) {
            Some(k) => Some(k),
            None => { return None; },
        },
        _ => { return None; },
    };
    let stat_id = match dec_opt_str(&ps[2].1) {
        Some(o) => o,
        None => { return None; },
    };
    Some(CollectableProps { model_id, kind, stat_id })
}

fn dec_attack(v: &Value) -> (r: Option<AttackStats>)
    ensures
        match r {
            Some(a) => attack_enc(a, *v),
            None => forall|a: AttackStats| !attack_enc(a, *v),
        },
{
    let ps = match v {
        Value::Obj(ps) => ps,
        _ => { return None; },
    };
    if ps.len() != 5 {
        return None;
    }
    if !key_is(ps, 0, "damage") || !key_is(ps, 1, "range") || !key_is(ps, 2, "cooldown")
        || !key_is(ps, 3, "windUpTime") || !key_is(ps, 4, "recoveryTime") {
        return None;
    }
    match (as_int(&ps[0].1), as_int(&ps[1].1), as_int(&ps[2].1), as_int(&ps[3].1), as_int(&ps[4].1)) {
        (Some(damage), Some(range), Some(cooldown), Some(wind_up_time), Some(recovery_time)) =>
            Some(AttackStats { damage, range, cooldown, wind_up_time, recovery_time }),
        _ => None,
    }
}

fn dec_opt_attack(v: &Value) -> (r: Option<Option<AttackStats>>)
    ensures
        match r {
            Some(o) => opt_attack_enc(o, *v),
            None => forall|o: Option<AttackStats>| !opt_attack_enc(o, *v),
        },
{
    match v {
        Value::Null => Some(None),
        _ => match dec_attack(v) {
            Some(a) => Some(Some(a)),
            None => None,
        },
    }
}

fn dec_behavior(v: &Value) -> (r: Option<BehaviorConfig>)
    ensures
        match r {
            Some(b) => behavior_enc(b, *v),
            None => forall|b: BehaviorConfig| !behavior_enc(b, *v),
        },
{
    let ps = match v {
        Value::Obj(ps) => ps,
        _ => { return None; },
    };
    if ps.len() != 7 {
        return None;
    }
    if !key_is(ps, 0, "aggressiveness") || !key_is(ps, 1, "combatType")
        || !key_is(ps, 2, "wanderRadius") || !key_is(ps, 3, "wanderSpeed")
        || !key_is(ps, 4, "detectionRadius") || !key_is(ps, 5, "meleeStats")
        || !key_is(ps, 6, "rangedStats") {
        return None;
    }
    let aggressiveness = match as_int(&ps[0].1) {
        Some(n) => n,
        None => { return None; },
    };
    let combat = match &ps[1].1 {
        Value::Str(s) => {
            if str_eq(s.as_str(), "Melee") {
                crate::doc::CombatKind::Melee
            } else if str_eq(s.as_str(), "Ranged") {
                crate::doc::CombatKind::Ranged
            } else {
                return None;
            }
        },
        _ => { return None; },
    };
    let wander_radius = match as_int(&ps[2].1) {
        Some(n) => n,
        None => { return None; },
    };
    let wander_speed = match as_int(&ps[3].1) {
        Some(n) => n,
        None => { return None; },
    };
    let detection_radius = match as_int(&ps[4].1) {
        Some(n) => n,
        None => { return None; },
    };
    let melee_stats = match dec_opt_attack(&ps[5].1) {
        Some(o) => o,
        None => { return None; },
    };
    let ranged_stats = match dec_opt_attack(&ps[6].1) {
        Some(o) => o,
        None => { return None; },
    };
    Some(BehaviorConfig {
        aggressiveness,
        combat,
        wander_radius,
        wander_speed,
        detection_radius,
        melee_stats,
        ranged_stats,
    })
}

fn dec_npc(v: &Value) -> (r: Option<NpcProps>)
    ensures
        match r {
            Some(n) => npc_enc(n, *v),
            None => forall|n: NpcProps| !npc_enc(n, *v),
        },
{
    let ps = match v {
        Value::Obj(ps) => ps,
        _ => { return None; },
    };
    if ps.len() != 2 {
        return None;
    }
    if !key_is(ps, 0, "modelId") || !key_is(ps, 1, "behavior") {
        return None;
    }
    let model_id = match as_string(&ps[0].1) {
        Some(s) => s,
        None => { return None; },
    };
    let behavior = match dec_behavior(&ps[1].1) {
        Some(b) => b,
        None => { return None; },
    };
    Some(NpcProps { model_id, behavior })
}

fn dec_tree(v: &Value) -> (r: Option<TreeProps>)
    ensures
        match r {
            Some(t) => tree_enc(t, *v),
            None => forall|t: TreeProps| !tree_enc(t, *v),
        },
{
    let ps = match v {
        Value::Obj(ps) => ps,
        _ => { return None; },
    };
    if ps.len() != 5 {
        return None;
    }
    if !key_is(ps, 0, "seed") || !key_is(ps, 1, "trunkHeight") || !key_is(ps, 2, "trunkRadius")
        || !key_is(ps, 3, "branchLevels") || !key_is(ps, 4, "foliageRadius") {
        return None;
    }
    let seed = match dec_count(&ps[0].1) {
        Some(x) => x,
        None => { return None; },
    };
    let trunk_height = match as_int(&ps[1].1) {
        Some(n) => n,
        None => { return None; },
    };
    let trunk_radius = match as_int(&ps[2].1) {
        Some(n) => n,
        None => { return None; },
    };
    let branch_levels = match dec_count(&ps[3].1) {
        Some(x) => x,
        None => { return None; },
    };
    let foliage_radius = match as_int(&ps[4].1) {
        Some(n) => n,
        None => { return None; },
    };
    Some(TreeProps { seed, trunk_height, trunk_radius, branch_levels, foliage_radius })
}

fn dec_grass(v: &Value) -> (r: Option<GrassProps>)
    ensures
        match r {
            Some(g) => grass_enc(g, *v),
            None => forall|g: GrassProps| !grass_enc(g, *v),
        },
{
    let ps = match v {
        Value::Obj(ps) => ps,
        _ => { return None; },
    };
    if ps.len() != 8 {
        return None;
    }
    if !key_is(ps, 0, "windStrength") || !key_is(ps, 1, "windSpeed")
        || !key_is(ps, 2, "bladeHeight") || !key_is(ps, 3, "bladeWidth")
        || !key_is(ps, 4, "bladeDensity") || !key_is(ps, 5, "renderDistance")
        || !key_is(ps, 6, "gridSize") || !key_is(ps, 7, "brownianStrength") {
        return None;
    }
    let wind_strength = match as_int(&ps[0].1) {
        Some(n) => n,
        None => { return None; },
    };
    let wind_speed = match as_int(&ps[1].1) {
        Some(n) => n,
        None => { return None; },
    };
    let blade_height = match as_int(&ps[2].1) {
        Some(n) => n,
        None => { return None; },
    };
    let blade_width = match as_int(&ps[3].1) {
        Some(n) => n,
        None => { return None; },
    };
    let blade_density = match dec_count(&ps[4].1) {
        Some(x) => x,
        None => { return None; },
    };
    let render_distance = match as_int(&ps[5].1) {
        Some(n) => n,
        None => { return None; },
    };
    let grid_size = match as_int(&ps[6].1) {
        Some(n) => n,
        None => { return None; },
    };
    let brownian_strength = match as_int(&ps[7].1) {
        Some(n) => n,
        None => { return None; },
    };
    Some(GrassProps {
        wind_strength,
        wind_speed,
        blade_height,
        blade_width,
        blade_density,
        render_distance,
        grid_size,
        brownian_strength,
    })
}

fn dec_sky(v: &Value) -> (r: Option<SkyConfig>)
    ensures
        match r {
            Some(s) => sky_enc(s, *v),
            None => forall|s: SkyConfig| !sky_enc(s, *v),
        },
{
    let ps = match v {
        Value::Obj(ps) => ps,
        _ => { return None; },
    };
    if ps.len() != 5 {
        return None;
    }
    if !key_is(ps, 0, "horizonColor") || !key_is(ps, 1, "zenithColor")
        || !key_is(ps, 2, "sunDirection") || !key_is(ps, 3, "sunColor")
        || !key_is(ps, 4, "sunIntensity") {
        return None;
    }
    let horizon_color = match as_vec3(&ps[0].1) {
        Some(x) => x,
        None => { return None; },
    };
    let zenith_color = match as_vec3(&ps[1].1) {
        Some(x) => x,
        None => { return None; },
    };
    let sun_direction = match as_vec3(&ps[2].1) {
        Some(x) => x,
        None => { return None; },
    };
    let sun_color = match as_vec3(&ps[3].1) {
        Some(x) => x,
        None => { return None; },
    };
    let sun_intensity = match as_int(&ps[4].1) {
        Some(n) => n,
        None => { return None; },
    };
    Some(SkyConfig { horizon_color, zenith_color, sun_direction, sun_color, sun_intensity })
}

fn dec_kind(s: &String) -> (r: Option<ComponentKind>)
    ensures
        match r {
            Some(k) => s@ == kind_name(k),
            None => forall|k: ComponentKind| s@ != kind_name(k),
        },
{
    if str_eq(s.as_str(), "Model") {
        Some(ComponentKind::Model)
    } else if str_eq(s.as_str(), "PointLight") {
        Some(ComponentKind::PointLight)
    } else if str_eq(s.as_str(), "Collectable") {
        Some(ComponentKind::Collectable)
    } else if str_eq(s.as_str(), "NPC") {
        Some(ComponentKind::NPC)
    } else if str_eq(s.as_str(), "ProceduralTree") {
        Some(ComponentKind::ProceduralTree)
    } else if str_eq(s.as_str(), "ProceduralGrass") {
        Some(ComponentKind::ProceduralGrass)
    } else if str_eq(s.as_str(), "Landscape") {
        Some(ComponentKind::Landscape)
    } else {
        None
    }
}

/// Reads one component record back from the persisted form.
pub fn decode_record(v: &Value) -> (r: Option<ComponentRecord>)
    ensures
        match r {
            Some(c) => record_enc(c, *v),
            None => forall|c: ComponentRecord| !record_enc(c, *v),
        },
{
    let ps = match v {
        Value::Obj(ps) => ps,
        _ => { return None; },
    };
    if ps.len() != 13 {
        return None;
    }
    if !key_is(ps, 0, "id") || !key_is(ps, 1, "kind") || !key_is(ps, 2, "assetId")
        || !key_is(ps, 3, "name") || !key_is(ps, 4, "position") || !key_is(ps, 5, "rotation")
        || !key_is(ps, 6, "scale") || !key_is(ps, 7, "light") || !key_is(ps, 8, "collectable")
        || !key_is(ps, 9, "npc") || !key_is(ps, 10, "proceduralTree")
        || !key_is(ps, 11, "proceduralGrass") || !key_is(ps, 12, "rhaiScriptPath") {
        return None;
    }
    let id = match as_string(&ps[0].1) {
        Some(s) => s,
        None => { return None; },
    };
    let kind = match &ps[1].1 {
        Value::Str(s) => match dec_kind(s) {
            Some(k) => k,
            None => { return None; },
        },
        _ => { return None; },
    };
    let asset_id = match as_string(&ps[2].1) {
        Some(s) => s,
        None => { return None; },
    };
    let name = match as_string(&ps[3].1) {
        Some(s) => s,
        None => { return None; },
    };
    let position = match as_vec3(&ps[4].1) {
        Some(x) => x,
        None => { return None; },
    };
    let rotation = match as_vec3(&ps[5].1) {
        Some(x) => x,
        None => { return None; },
    };
    let scale = match as_vec3(&ps[6].1) {
        Some(x) => x,
        None => { return None; },
    };
    let light = match &ps[7].1 {
        Value::Null => None,
        other => match dec_light(other) {
            Some(l) => Some(l),
            None => { return None; },
        },
    };
    let collectable = match &ps[8].1 {
        Value::Null => None,
        other => match dec_collectable(other) {
            Some(c) => Some(c),
            None => { return None; },
        },
    };
    let npc = match &ps[9].1 {
        Value::Null => None,
        other => match dec_npc(other) {
            Some(n) => Some(n),
            None => { return None; },
        },
    };
    let tree = match &ps[10].1 {
        Value::Null => None,
        other => match dec_tree(other) {
            Some(t) => Some(t),
            None => { return None; },
        },
    };
    let grass = match &ps[11].1 {
        Value::Null => None,
        other => match dec_grass(other) {
            Some(g) => Some(g),
            None => { return None; },
        },
    };
    let script_path = match dec_opt_str(&ps[12].1) {
        Some(o) => o,
        None => { return None; },
    };
    Some(ComponentRecord {
        id,
        kind,
        asset_id,
        generic: GenericProps { name, position, rotation, scale },
        light,
        collectable,
        npc,
        tree,
        grass,
        script_path,
    })
}

fn dec_records(items: &Vec<Value>) -> (r: Option<Vec<ComponentRecord>>)
    ensures
        match r {
            Some(xs) => records_enc(xs@, items@),
            None => forall|xs: Seq<ComponentRecord>| !records_enc(xs, items@),
        },
{
    let mut xs: Vec<ComponentRecord> = Vec::new();
    let mut i: usize = 0;
    while i < items.len()
        invariant
            0 <= i <= items@.len(),
            xs@.len() == i,
            forall|k: int| 0 <= k < i ==> record_enc(#[trigger] xs@[k], items@[k]),
        decreases items@.len() - i,
    {
        match decode_record(&items[i]) {
            Some(c) => xs.push(c),
            None => {
                proof {
                    assert forall|ys: Seq<ComponentRecord>| !records_enc(ys, items@) by {
                        if records_enc(ys, items@) {
                            assert(record_enc(ys[i as int], items@[i as int]));
                        }
                    }
                }
                return None;
            },
        }
        i = i + 1;
    }
    Some(xs)
}

fn dec_level(v: &Value) -> (r: Option<Level>)
    ensures
        match r {
            Some(l) => level_enc(l, *v),
            None => forall|l: Level| !level_enc(l, *v),
        },
{
    let ps = match v {
        Value::Obj(ps) => ps,
        _ => { return None; },
    };
    if ps.len() != 2 {
        return None;
    }
    if !key_is(ps, 0, "components") || !key_is(ps, 1, "proceduralSky") {
        return None;
    }
    let items = match &ps[0].1 {
        Value::Arr(items) => items,
        _ => { return None; },
    };
    let components = match dec_records(items) {
        Some(xs) => xs,
        None => {
            proof {
                assert forall|l: Level| !level_enc(l, *v) by {
                    if level_enc(l, *v) {
                        assert(records_enc(l.components@, items@));
                    }
                }
            }
            return None;
        },
    };
    let sky = match &ps[1].1 {
        Value::Null => None,
        other => match dec_sky(other) {
            Some(s) => Some(s),
            None => { return None; },
        },
    };
    Some(Level { components, sky })
}

fn dec_files(items: &Vec<Value>) -> (r: Option<Vec<AssetFile>>)
    ensures
        match r {
            Some(xs) => files_enc(xs@, items@),
            None => forall|xs: Seq<AssetFile>| !files_enc(xs, items@),
        },
{
    let mut xs: Vec<AssetFile> = Vec::new();
    let mut i: usize = 0;
    while i < items.len()
        invariant
            0 <= i <= items@.len(),
            xs@.len() == i,
            forall|k: int| 0 <= k < i ==> file_enc(#[trigger] xs@[k], items@[k]),
        decreases items@.len() - i,
    {
        match dec_file(&items[i]) {
            Some(f) => xs.push(f),
            None => {
                proof {
                    assert forall|ys: Seq<AssetFile>| !files_enc(ys, items@) by {
                        if files_enc(ys, items@) {
                            assert(file_enc(ys[i as int], items@[i as int]));
                        }
                    }
                }
                return None;
            },
        }
        i = i + 1;
    }
    Some(xs)
}

fn dec_pbrs(items: &Vec<Value>) -> (r: Option<Vec<PbrTextureSet>>)
    ensures
        match r {
            Some(xs) => pbrs_enc(xs@, items@),
            None => forall|xs: Seq<PbrTextureSet>| !pbrs_enc(xs, items@),
        },
{
    let mut xs: Vec<PbrTextureSet> = Vec::new();
    let mut i: usize = 0;
    while i < items.len()
        invariant
            0 <= i <= items@.len(),
            xs@.len() == i,
            forall|k: int| 0 <= k < i ==> pbr_enc(#[trigger] xs@[k], items@[k]),
        decreases items@.len() - i,
    {
        match dec_pbr(&items[i]) {
            Some(p) => xs.push(p),
            None => {
                proof {
                    assert forall|ys: Seq<PbrTextureSet>| !pbrs_enc(ys, items@) by {
                        if pbrs_enc(ys, items@) {
                            assert(pbr_enc(ys[i as int], items@[i as int]));
                        }
                    }
                }
                return None;
            },
        }
        i = i + 1;
    }
    Some(xs)
}

fn dec_lands(items: &Vec<Value>) -> (r: Option<Vec<LandscapeAsset>>)
    ensures
        match r {
            Some(xs) => lands_enc(xs@, items@),
            None => forall|xs: Seq<LandscapeAsset>| !lands_enc(xs, items@),
        },
{
    let mut xs: Vec<LandscapeAsset> = Vec::new();
    let mut i: usize = 0;
    while i < items.len()
        invariant
            0 <= i <= items@.len(),
            xs@.len() == i,
            forall|k: int| 0 <= k < i ==> land_enc(#[trigger] xs@[k], items@[k]),
        decreases items@.len() - i,
    {
        match dec_land(&items[i]) {
            Some(l) => xs.push(l),
            None => {
                proof {
                    assert forall|ys: Seq<LandscapeAsset>| !lands_enc(ys, items@) by {
                        if lands_enc(ys, items@) {
                            assert(land_enc(ys[i as int], items@[i as int]));
                        }
                    }
                }
                return None;
            },
        }
        i = i + 1;
    }
    Some(xs)
}

fn dec_stats(items: &Vec<Value>) -> (r: Option<Vec<StatAsset>>)
    ensures
        match r {
            Some(xs) => stats_enc(xs@, items@),
            None => forall|xs: Seq<StatAsset>| !stats_enc(xs, items@),
        },
{
    let mut xs: Vec<StatAsset> = Vec::new();
    let mut i: usize = 0;
    while i < items.len()
        invariant
            0 <= i <= items@.len(),
            xs@.len() == i,
            forall|k: int| 0 <= k < i ==> stat_enc(#[trigger] xs@[k], items@[k]),
        decreases items@.len() - i,
    {
        match dec_stat(&items[i]) {
            Some(s) => xs.push(s),
            None => {
                proof {
                    assert forall|ys: Seq<StatAsset>| !stats_enc(ys, items@) by {
                        if stats_enc(ys, items@) {
                            assert(stat_enc(ys[i as int], items@[i as int]));
                        }
                    }
                }
                return None;
            },
        }
        i = i + 1;
    }
    Some(xs)
}

fn dec_levels(items: &Vec<Value>) -> (r: Option<Vec<Level>>)
    ensures
        match r {
            Some(xs) => levels_enc(xs@, items@),
            None => forall|xs: Seq<Level>| !levels_enc(xs, items@),
        },
{
    let mut xs: Vec<Level> = Vec::new();
    let mut i: usize = 0;
    while i < items.len()
        invariant
            0 <= i <= items@.len(),
            xs@.len() == i,
            forall|k: int| 0 <= k < i ==> level_enc(#[trigger] xs@[k], items@[k]),
        decreases items@.len() - i,
    {
        match dec_level(&items[i]) {
            Some(l) => xs.push(l),
            None => {
                proof {
                    assert forall|ys: Seq<Level>| !levels_enc(ys, items@) by {
                        if levels_enc(ys, items@) {
                            assert(level_enc(ys[i as int], items@[i as int]));
                        }
                    }
                }
                return None;
            },
        }
        i = i + 1;
    }
    Some(xs)
}

/// Reads a whole document back from the persisted form.
pub fn decode_document(v: &Value) -> (r: Option<SceneDocument>)
    ensures
        match r {
            Some(d) => doc_enc(d, *v),
            None => forall|d: SceneDocument| !doc_enc(d, *v),
        },
{
    let ps = match v {
        Value::Obj(ps) => ps,
        _ => { return None; },
    };
    if ps.len() != 6 {
        return None;
    }
    if !key_is(ps, 0, "models") || !key_is(ps, 1, "textures") || !key_is(ps, 2, "pbrTextures")
        || !key_is(ps, 3, "landscapes") || !key_is(ps, 4, "stats") || !key_is(ps, 5, "levels") {
        return None;
    }
    let models_items = match &ps[0].1 {
        Value::Arr(items) => items,
        _ => { return None; },
    };
    let textures_items = match &ps[1].1 {
        Value::Arr(items) => items,
        _ => { return None; },
    };
    let pbr_items = match &ps[2].1 {
        Value::Arr(items) => items,
        _ => { return None; },
    };
    let land_items = match &ps[3].1 {
        Value::Arr(items) => items,
        _ => { return None; },
    };
    let stat_items = match &ps[4].1 {
        Value::Arr(items) => items,
        _ => { return None; },
    };
    let level_items = match &ps[5].1 {
        Value::Arr(items) => items,
        _ => { return None; },
    };
    let models = match dec_files(models_items) {
        Some(xs) => xs,
        None => {
            proof {
                assert forall|d: SceneDocument| !doc_enc(d, *v) by {
                    if doc_enc(d, *v) {
                        assert(files_enc(d.models@, models_items@));
                    }
                }
            }
            return None;
        },
    };
    let textures = match dec_files(textures_items) {
        Some(xs) => xs,
        None => {
            proof {
                assert forall|d: SceneDocument| !doc_enc(d, *v) by {
                    if doc_enc(d, *v) {
                        assert(files_enc(d.textures@, textures_items@));
                    }
                }
            }
            return None;
        },
    };
    let pbr_textures = match dec_pbrs(pbr_items) {
        Some(xs) => xs,
        None => {
            proof {
                assert forall|d: SceneDocument| !doc_enc(d, *v) by {
                    if doc_enc(d, *v) {
                        assert(pbrs_enc(d.pbr_textures@, pbr_items@));
                    }
                }
            }
            return None;
        },
    };
    let landscapes = match dec_lands(land_items) {
        Some(xs) => xs,
        None => {
            proof {
                assert forall|d: SceneDocument| !doc_enc(d, *v) by {
                    if doc_enc(d, *v) {
                        assert(lands_enc(d.landscapes@, land_items@));
                    }
                }
            }
            return None;
        },
    };
    let stats = match dec_stats(stat_items) {
        Some(xs) => xs,
        None => {
            proof {
                assert forall|d: SceneDocument| !doc_enc(d, *v) by {
                    if doc_enc(d, *v) {
                        assert(stats_enc(d.stats@, stat_items@));
                    }
                }
            }
            return None;
        },
    };
    let levels = match dec_levels(level_items) {
        Some(xs) => xs,
        None => {
            proof {
                assert forall|d: SceneDocument| !doc_enc(d, *v) by {
                    if doc_enc(d, *v) {
                        assert(levels_enc(d.levels@, level_items@));
                    }
                }
            }
            return None;
        },
    };
    Some(SceneDocument { models, textures, pbr_textures, landscapes, stats, levels })
}

/// Writing a document out and reading it back reproduces it record for
/// record, order preserved.
pub fn roundtrip_document(d: &SceneDocument) -> (r: SceneDocument)
    ensures
        doc_equiv(r, *d),
{
    let v = encode_document(d);
    match decode_document(&v) {
        Some(d2) => {
            proof {
                lemma_document_encoding_unique(d2, *d, v);
            }
            d2
        },
        None => {
            proof {
                assert(false);
            }
            vstd::pervasive::unreached()
        },
    }
}

} // verus!
