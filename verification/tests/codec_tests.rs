//! Round-trip and rejection tests for the persisted form.

use scene_commands::codec::{decode_document, encode_document, roundtrip_document};
use scene_commands::doc::{
    AssetFile, AttackStats, BehaviorConfig, CollectableKind, CollectableProps, CombatKind,
    ComponentKind, ComponentRecord, GenericProps, GrassProps, LandscapeAsset, Level, LightProps,
    NpcProps, PbrTextureSet, SceneDocument, SkyConfig, StatAsset, TreeProps,
};
use scene_commands::geom::{Color4, Vec3};
use scene_commands::value::Value;

fn record(id: &str, kind: ComponentKind) -> ComponentRecord {
    ComponentRecord {
        id: id.to_string(),
        kind,
        asset_id: "asset".to_string(),
        generic: GenericProps {
            name: "a name".to_string(),
            position: Vec3 { x: 1, y: 2, z: 3 },
            rotation: Vec3 { x: 0, y: 90000, z: 0 },
            scale: Vec3 { x: 1000, y: 1000, z: 1000 },
        },
        light: None,
        collectable: None,
        npc: None,
        tree: None,
        grass: None,
        script_path: None,
    }
}

fn full_doc() -> SceneDocument {
    let mut light = record("c-light", ComponentKind::PointLight);
    light.light = Some(LightProps {
        color: Color4 { r: 1000, g: 500, b: 250, a: 1000 },
        intensity: 1500,
    });
    let mut col = record("c-col", ComponentKind::Collectable);
    col.collectable = Some(CollectableProps {
        model_id: Some("c-col".to_string()),
        kind: Some(CollectableKind::RangedWeapon),
        stat_id: Some("s1".to_string()),
    });
    let mut npc = record("c-npc", ComponentKind::NPC);
    npc.npc = Some(NpcProps {
        model_id: "asset".to_string(),
        behavior: BehaviorConfig {
            aggressiveness: 500,
            combat: CombatKind::Ranged,
            wander_radius: 10000,
            wander_speed: 2000,
            detection_radius: 15000,
            melee_stats: None,
            ranged_stats: Some(AttackStats {
                damage: 10000,
                range: 15000,
                cooldown: 1500,
                wind_up_time: 500,
                recovery_time: 500,
            }),
        },
    });
    let mut tree = record("c-tree", ComponentKind::ProceduralTree);
    tree.tree = Some(TreeProps {
        seed: 7,
        trunk_height: 3500,
        trunk_radius: 250,
        branch_levels: 4,
        foliage_radius: 500,
    });
    let mut grass = record("c-grass", ComponentKind::ProceduralGrass);
    grass.grass = Some(GrassProps {
        wind_strength: 2500,
        wind_speed: 300,
        blade_height: 2750,
        blade_width: 30,
        blade_density: 15,
        render_distance: 150000,
        grid_size: 10000,
        brownian_strength: 500,
    });
    let mut scripted = record("c-scripted", ComponentKind::Model);
    scripted.script_path = Some("scripts/hello.rhai".to_string());
    SceneDocument {
        models: vec![AssetFile { id: "m1".to_string(), file_name: "chair.glb".to_string() }],
        textures: vec![AssetFile { id: "t1".to_string(), file_name: "wood.png".to_string() }],
        pbr_textures: vec![PbrTextureSet {
            id: "p1".to_string(),
            diff: Some(AssetFile { id: "p1d".to_string(), file_name: "d.png".to_string() }),
            nor_gl: None,
            rough: None,
            metallic: None,
            ao: None,
        }],
        landscapes: vec![LandscapeAsset {
            id: "l1".to_string(),
            heightmap: Some(AssetFile { id: "hf".to_string(), file_name: "hm.png".to_string() }),
            rockmap: None,
            soil: None,
        }],
        stats: vec![StatAsset { id: "s1".to_string(), name: "stats".to_string() }],
        levels: vec![
            Level {
                components: vec![light, col, npc, tree, grass, scripted],
                sky: Some(SkyConfig {
                    horizon_color: Vec3 { x: 1, y: 2, z: 3 },
                    zenith_color: Vec3 { x: 4, y: 5, z: 6 },
                    sun_direction: Vec3 { x: 0, y: -1000, z: 0 },
                    sun_color: Vec3 { x: 1000, y: 1000, z: 900 },
                    sun_intensity: 1200,
                }),
            },
            Level { components: vec![record("c-other", ComponentKind::Model)], sky: None },
        ],
    }
}

#[test]
fn document_roundtrip_preserves_records_in_order() {
    let d = full_doc();
    let d2 = roundtrip_document(&d);
    assert_eq!(d2.levels.len(), d.levels.len());
    for (l2, l1) in d2.levels.iter().zip(d.levels.iter()) {
        assert_eq!(l2.components, l1.components);
        assert_eq!(l2.sky, l1.sky);
    }
    assert_eq!(d2.models, d.models);
    assert_eq!(d2.textures, d.textures);
    assert_eq!(d2.pbr_textures, d.pbr_textures);
    assert_eq!(d2.landscapes, d.landscapes);
    assert_eq!(d2.stats, d.stats);
}

#[test]
fn decode_of_encode_succeeds_directly() {
    let d = full_doc();
    let v = encode_document(&d);
    let d2 = decode_document(&v).expect("the persisted form must decode");
    assert_eq!(d2.levels[0].components, d.levels[0].components);
}

#[test]
fn decode_rejects_foreign_shapes() {
    assert!(decode_document(&Value::Int(3)).is_none());
    assert!(decode_document(&Value::Obj(vec![])).is_none());
    let half = Value::Obj(vec![("models".to_string(), Value::Arr(vec![]))]);
    assert!(decode_document(&half).is_none());
}

#[test]
fn decode_rejects_a_corrupted_record() {
    let d = full_doc();
    let v = encode_document(&d);
    // swap the record list for something that is not a record
    match v {
        Value::Obj(mut ps) => {
            ps[5] = (
                "levels".to_string(),
                Value::Arr(vec![Value::Obj(vec![
                    ("components".to_string(), Value::Arr(vec![Value::Int(1)])),
                    ("proceduralSky".to_string(), Value::Null),
                ])]),
            );
            assert!(decode_document(&Value::Obj(ps)).is_none());
        },
        other => panic!("unexpected encoding root: {:?}", other),
    }
}
