//! Scenario tests for the command dispatcher: one handle per test, raw
//! payloads built by hand, results checked against the documented
//! behavior of each command kind.

use scene_commands::dispatch::{EngineAction, SceneHandle};
use scene_commands::dispatch::run_command;
use scene_commands::doc::{
    AssetFile, CollectableKind, CombatKind, ComponentKind, ComponentRecord, GenericProps,
    LandscapeAsset, Level, SceneDocument, StatAsset,
};
use scene_commands::geom::Vec3;
use scene_commands::live::{LiveLandscape, LiveScene};
use scene_commands::value::Value;

fn obj(pairs: Vec<(&str, Value)>) -> Value {
    Value::Obj(pairs.into_iter().map(|(k, v)| (k.to_string(), v)).collect())
}

fn v3(x: i64, y: i64, z: i64) -> Value {
    Value::Arr(vec![Value::Int(x), Value::Int(y), Value::Int(z)])
}

fn s(text: &str) -> Value {
    Value::Str(text.to_string())
}

fn empty_level() -> Level {
    Level { components: vec![], sky: None }
}

fn base_doc() -> SceneDocument {
    SceneDocument {
        models: vec![AssetFile { id: "m1".to_string(), file_name: "chair.glb".to_string() }],
        textures: vec![],
        pbr_textures: vec![],
        landscapes: vec![],
        stats: vec![],
        levels: vec![empty_level()],
    }
}

fn model_record(id: &str, position: Vec3) -> ComponentRecord {
    ComponentRecord {
        id: id.to_string(),
        kind: ComponentKind::Model,
        asset_id: "m1".to_string(),
        generic: GenericProps {
            name: "thing".to_string(),
            position,
            rotation: Vec3 { x: 0, y: 0, z: 0 },
            scale: Vec3 { x: 1000, y: 1000, z: 1000 },
        },
        light: None,
        collectable: None,
        npc: None,
        tree: None,
        grass: None,
        script_path: None,
    }
}

#[test]
fn spawn_model_scenario() {
    let mut h = SceneHandle::new(base_doc(), LiveScene::empty());
    let payload = obj(vec![("assetId", s("m1")), ("position", v3(1000, 2000, 3000))]);
    let out = run_command(&mut h, "spawnModel", &payload);
    assert!(out.persist);
    assert_eq!(h.doc.levels[0].components.len(), 1);
    let rec = &h.doc.levels[0].components[0];
    assert_eq!(rec.kind, ComponentKind::Model);
    assert_eq!(rec.generic.position, Vec3 { x: 1000, y: 2000, z: 3000 });
    assert_eq!(rec.generic.scale, Vec3 { x: 1000, y: 1000, z: 1000 });
    assert_eq!(rec.generic.rotation, Vec3 { x: 0, y: 0, z: 0 });
    assert_eq!(rec.generic.name, "New Model");
    assert_eq!(rec.asset_id, "m1");
    assert_eq!(h.live.models.len(), 1);
    assert_eq!(h.live.models[0].id, rec.id);
    assert_eq!(h.live.models[0].asset_file, "chair.glb");
    assert_eq!(rec.id.len(), 36);
}

#[test]
fn spawned_ids_differ_between_commands() {
    let mut h = SceneHandle::new(base_doc(), LiveScene::empty());
    let payload1 = obj(vec![("assetId", s("m1"))]);
    let payload2 = obj(vec![("assetId", s("m1"))]);
    run_command(&mut h, "spawnModel", &payload1);
    run_command(&mut h, "spawnModel", &payload2);
    assert_eq!(h.doc.levels[0].components.len(), 2);
    let id0 = h.doc.levels[0].components[0].id.clone();
    let id1 = h.doc.levels[0].components[1].id.clone();
    assert_ne!(id0, id1);
}

#[test]
fn spawn_model_unresolvable_asset_is_noop() {
    let doc = base_doc();
    let before = doc.clone();
    let mut h = SceneHandle::new(doc, LiveScene::empty());
    let payload = obj(vec![("assetId", s("missing"))]);
    let out = run_command(&mut h, "spawnModel", &payload);
    assert!(!out.persist);
    assert_eq!(h.doc, before);
    assert!(h.live.models.is_empty());
}

#[test]
fn water_without_landscape_is_noop() {
    let doc = base_doc();
    let before = doc.clone();
    let mut h = SceneHandle::new(doc, LiveScene::empty());
    let payload = obj(vec![("shallow_color", v3(100, 200, 300))]);
    let out = run_command(&mut h, "configureWater", &payload);
    assert!(!out.persist);
    assert!(h.live.water_planes.is_empty());
    assert_eq!(h.doc, before);
}

#[test]
fn water_created_on_existing_landscape() {
    let mut live = LiveScene::empty();
    live.landscapes.push(LiveLandscape {
        id: "L1".to_string(),
        position: Vec3 { x: 0, y: 0, z: 0 },
    });
    let mut h = SceneHandle::new(base_doc(), live);
    let payload = obj(vec![
        ("ripple_freq", Value::Int(500)),
        ("wave2_amplitude", Value::Int(250)),
        ("shallow_color", v3(100, 200, 300)),
    ]);
    let out = run_command(&mut h, "configureWater", &payload);
    assert!(out.persist);
    assert_eq!(h.live.water_planes.len(), 1);
    let plane = &h.live.water_planes[0];
    assert_eq!(plane.landscape_id, "L1");
    assert_eq!(plane.config.ripple_freq, 500);
    assert_eq!(plane.config.wave2_amplitude, 250);
    assert_eq!(plane.config.shallow_color.r, 100);
    assert_eq!(plane.config.shallow_color.a, 1000);
    assert_eq!(plane.config.ripple_speed, 0);
}

#[test]
fn heightmap_reuses_landscape_position() {
    let mut doc = base_doc();
    let mut land_rec = model_record("c-land", Vec3 { x: 5000, y: 0, z: 5000 });
    land_rec.kind = ComponentKind::Landscape;
    land_rec.asset_id = "land1".to_string();
    doc.levels[0].components.push(land_rec);
    doc.landscapes.push(LandscapeAsset {
        id: "land1".to_string(),
        heightmap: Some(AssetFile { id: "hf".to_string(), file_name: "hm.png".to_string() }),
        rockmap: None,
        soil: None,
    });
    let mut live = LiveScene::empty();
    live.landscapes.push(LiveLandscape { id: "old-a".to_string(), position: Vec3 { x: 1, y: 2, z: 3 } });
    live.landscapes.push(LiveLandscape { id: "old-b".to_string(), position: Vec3 { x: 4, y: 5, z: 6 } });
    let mut h = SceneHandle::new(doc, live);
    let payload = obj(vec![("seed", Value::Int(7000))]);
    let out = run_command(&mut h, "generateHeightmap", &payload);
    assert!(out.persist);
    assert_eq!(h.live.landscapes.len(), 1);
    assert_eq!(h.live.landscapes[0].id, "generated_landscape");
    assert_eq!(h.live.landscapes[0].position, Vec3 { x: 5000, y: 0, z: 5000 });
    assert_eq!(out.actions.len(), 1);
    match &out.actions[0] {
        EngineAction::UploadHeightmap { asset_id, filename, params } => {
            assert_eq!(asset_id, "land1");
            assert_eq!(filename, "hm.png");
            assert_eq!(params.seed, 7);
            assert_eq!(params.width, 1024);
            assert_eq!(params.height, 1024);
            assert_eq!(params.octaves, 8);
            assert_eq!(params.scale, 1024000);
            assert_eq!(params.persistence, 500);
            assert_eq!(params.lacunarity, None);
            assert!(params.features.is_empty());
        },
        other => panic!("unexpected action: {:?}", other),
    }
    assert_eq!(h.doc.landscapes[0].heightmap.as_ref().unwrap().file_name, "hm.png");
}

#[test]
fn heightmap_features_are_mapped() {
    let mut h = SceneHandle::new(base_doc(), LiveScene::empty());
    let feature = obj(vec![
        ("type", s("Valley")),
        ("center", Value::Arr(vec![Value::Int(1000), Value::Int(2000)])),
        ("radius", Value::Int(3000)),
        ("intensity", Value::Int(4000)),
        ("falloff", s("Gaussian")),
        ("flat_top", Value::Int(500)),
    ]);
    let payload = obj(vec![("features", Value::Arr(vec![feature])), ("lacunarity", Value::Int(2100))]);
    let out = run_command(&mut h, "generateHeightmap", &payload);
    match &out.actions[0] {
        EngineAction::UploadHeightmap { params, .. } => {
            assert_eq!(params.lacunarity, Some(2100));
            assert_eq!(params.features.len(), 1);
            let f = &params.features[0];
            assert_eq!(f.kind, scene_commands::dispatch::FeatureKind::Valley);
            assert_eq!(f.falloff, scene_commands::dispatch::FalloffKind::Gaussian);
            assert_eq!(f.center.x, 1000);
            assert_eq!(f.radius, 3000);
            assert_eq!(f.flat_top, Some(500));
            assert_eq!(f.transition, None);
        },
        other => panic!("unexpected action: {:?}", other),
    }
    // no landscape resolved, so the terrain is rebuilt at the origin
    assert_eq!(h.live.landscapes.len(), 1);
    assert_eq!(h.live.landscapes[0].position, Vec3 { x: 0, y: 0, z: 0 });
}

#[test]
fn malformed_payload_changes_nothing() {
    let doc = base_doc();
    let before_doc = doc.clone();
    let mut h = SceneHandle::new(doc, LiveScene::empty());
    let before_live = h.live.clone();
    // componentId is required and missing
    let payload = obj(vec![("translation", v3(1, 2, 3))]);
    let out = run_command(&mut h, "transformObject", &payload);
    assert!(!out.persist);
    assert!(out.actions.is_empty());
    assert_eq!(h.doc, before_doc);
    assert_eq!(h.live, before_live);
}

#[test]
fn unknown_command_is_ignored() {
    let doc = base_doc();
    let before = doc.clone();
    let mut h = SceneHandle::new(doc, LiveScene::empty());
    let payload = obj(vec![("anything", Value::Int(1))]);
    let out = run_command(&mut h, "doSomethingElse", &payload);
    assert!(!out.persist);
    assert!(out.actions.is_empty());
    assert_eq!(h.doc, before);
}

#[test]
fn transform_twice_equals_once() {
    let mut doc = base_doc();
    doc.levels[0].components.push(model_record("c1", Vec3 { x: 1, y: 2, z: 3 }));
    let mut h1 = SceneHandle::new(doc.clone(), LiveScene::empty());
    let mut h2 = SceneHandle::new(doc, LiveScene::empty());
    let payload = || obj(vec![
        ("componentId", s("c1")),
        ("translation", v3(7000, 0, 0)),
        ("scale", v3(2000, 2000, 2000)),
    ]);
    run_command(&mut h1, "transformObject", &payload());
    run_command(&mut h2, "transformObject", &payload());
    run_command(&mut h2, "transformObject", &payload());
    assert_eq!(h1.doc, h2.doc);
    assert_eq!(h1.live, h2.live);
    let rec = &h2.doc.levels[0].components[0];
    assert_eq!(rec.generic.position, Vec3 { x: 7000, y: 0, z: 0 });
    assert_eq!(rec.generic.rotation, Vec3 { x: 0, y: 0, z: 0 });
    assert_eq!(rec.generic.scale, Vec3 { x: 2000, y: 2000, z: 2000 });
}

#[test]
fn transform_unknown_id_keeps_document_but_persists() {
    let mut doc = base_doc();
    doc.levels[0].components.push(model_record("c1", Vec3 { x: 1, y: 2, z: 3 }));
    let before = doc.clone();
    let mut h = SceneHandle::new(doc, LiveScene::empty());
    let payload = obj(vec![("componentId", s("nobody")), ("translation", v3(9, 9, 9))]);
    let out = run_command(&mut h, "transformObject", &payload);
    assert!(out.persist);
    assert_eq!(h.doc, before);
}

#[test]
fn grass_twice_creates_one_record_with_field_union() {
    let mut h = SceneHandle::new(base_doc(), LiveScene::empty());
    let first = obj(vec![("wind_strength", Value::Int(9000))]);
    let second = obj(vec![
        ("blade_height", Value::Int(1234)),
        ("wind_strength", Value::Int(7777)),
    ]);
    run_command(&mut h, "configureGrass", &first);
    run_command(&mut h, "configureGrass", &second);
    let grass_records: Vec<&ComponentRecord> = h.doc.levels[0]
        .components
        .iter()
        .filter(|c| c.kind == ComponentKind::ProceduralGrass)
        .collect();
    assert_eq!(grass_records.len(), 1);
    let props = grass_records[0].grass.as_ref().unwrap();
    assert_eq!(props.wind_strength, 7777); // later call wins
    assert_eq!(props.blade_height, 1234); // union of both calls
    assert_eq!(props.wind_speed, 300); // creation default
    assert_eq!(props.blade_density, 15);
    assert_eq!(props.render_distance, 150000);
    assert_eq!(props.grid_size, 10000);
    assert_eq!(props.brownian_strength, 500);
}

#[test]
fn grass_live_update_touches_all_systems_and_keeps_milli_density() {
    let mut live = LiveScene::empty();
    let base = scene_commands::live::GrassConfig {
        wind_strength: 1,
        wind_speed: 2,
        blade_height: 3,
        blade_width: 4,
        blade_density: 5,
        render_distance: 6,
    };
    live.grasses.push(base);
    live.grasses.push(base);
    let mut h = SceneHandle::new(base_doc(), live);
    let payload = obj(vec![("blade_density", Value::Int(15500))]);
    run_command(&mut h, "configureGrass", &payload);
    assert_eq!(h.live.grasses.len(), 2);
    for g in &h.live.grasses {
        assert_eq!(g.blade_density, 15500); // live keeps the fraction
        assert_eq!(g.wind_speed, 2);
    }
    let props = h.doc.levels[0].components[0].grass.as_ref().unwrap();
    assert_eq!(props.blade_density, 15); // the document truncates
}

#[test]
fn point_light_defaults() {
    let mut h = SceneHandle::new(base_doc(), LiveScene::empty());
    let payload = obj(vec![("position", v3(1000, 0, 0))]);
    let out = run_command(&mut h, "spawnPointLight", &payload);
    assert!(out.persist);
    assert_eq!(h.live.point_lights.len(), 1);
    let light = &h.live.point_lights[0];
    assert_eq!(light.color, Vec3 { x: 1000, y: 1000, z: 1000 });
    assert_eq!(light.intensity, 1000);
    assert_eq!(light.max_distance, 10000);
    let rec = &h.doc.levels[0].components[0];
    assert_eq!(rec.kind, ComponentKind::PointLight);
    assert_eq!(rec.generic.name, "New Light");
    assert_eq!(rec.id, light.id);
    let props = rec.light.as_ref().unwrap();
    assert_eq!(props.color.a, 1000);
    assert_eq!(props.intensity, 1000);
}

#[test]
fn collectable_requires_a_stat_template() {
    let doc = base_doc(); // no stats
    let before = doc.clone();
    let mut h = SceneHandle::new(doc, LiveScene::empty());
    let payload = obj(vec![("assetId", s("m1")), ("type", s("MeleeWeapon"))]);
    let out = run_command(&mut h, "spawnCollectable", &payload);
    assert!(!out.persist);
    assert_eq!(h.doc, before);
    assert!(h.live.collectables.is_empty());
}

#[test]
fn collectable_links_first_stat() {
    let mut doc = base_doc();
    doc.stats.push(StatAsset { id: "s1".to_string(), name: "sword stats".to_string() });
    doc.stats.push(StatAsset { id: "s2".to_string(), name: "other".to_string() });
    let mut h = SceneHandle::new(doc, LiveScene::empty());
    let payload = obj(vec![("assetId", s("m1")), ("type", s("MeleeWeapon"))]);
    let out = run_command(&mut h, "spawnCollectable", &payload);
    assert!(out.persist);
    let rec = &h.doc.levels[0].components[0];
    assert_eq!(rec.kind, ComponentKind::Collectable);
    let props = rec.collectable.as_ref().unwrap();
    assert_eq!(props.kind, Some(CollectableKind::MeleeWeapon));
    assert_eq!(props.stat_id.as_deref(), Some("s1"));
    assert_eq!(props.model_id.as_ref(), Some(&rec.id));
    assert_eq!(h.live.collectables[0].id, rec.id);
}

#[test]
fn npc_combat_styles_and_defaults() {
    let mut doc = base_doc();
    let mut h = SceneHandle::new(doc.clone(), LiveScene::empty());
    let ranged = obj(vec![("assetId", s("m1")), ("combat_type", s("Ranged"))]);
    run_command(&mut h, "spawnNPC", &ranged);
    let rec = &h.doc.levels[0].components[0];
    assert_eq!(rec.kind, ComponentKind::NPC);
    let props = rec.npc.as_ref().unwrap();
    assert_eq!(props.model_id, "m1"); // the block references the asset
    assert_eq!(props.behavior.combat, CombatKind::Ranged);
    assert!(props.behavior.melee_stats.is_none());
    let atk = props.behavior.ranged_stats.unwrap();
    assert_eq!(atk.range, 15000);
    assert_eq!(atk.damage, 10000);
    assert_eq!(atk.cooldown, 1500);
    assert_eq!(props.behavior.aggressiveness, 500);
    assert_eq!(props.behavior.wander_radius, 10000);

    doc.levels[0].components.clear();
    let mut h2 = SceneHandle::new(doc, LiveScene::empty());
    let melee = obj(vec![("assetId", s("m1")), ("damage", Value::Int(25000))]);
    run_command(&mut h2, "spawnNPC", &melee);
    let props2 = h2.doc.levels[0].components[0].npc.as_ref().unwrap();
    assert_eq!(props2.behavior.combat, CombatKind::Melee);
    let atk2 = props2.behavior.melee_stats.unwrap();
    assert_eq!(atk2.range, 2000);
    assert_eq!(atk2.damage, 25000);
    assert!(props2.behavior.ranged_stats.is_none());
    assert_eq!(h2.live.npcs.len(), 1);
}

#[test]
fn primitives_reach_only_the_live_mirror() {
    let doc = base_doc();
    let before = doc.clone();
    let mut h = SceneHandle::new(doc, LiveScene::empty());
    let cube = obj(vec![("type", s("Cube")), ("position", v3(1, 2, 3))]);
    let sphere = obj(vec![
        ("type", s("Sphere")),
        ("position", v3(4, 5, 6)),
        ("scale", v3(2000, 2000, 2000)),
    ]);
    let unknown = obj(vec![("type", s("Pyramid")), ("position", v3(0, 0, 0))]);
    assert!(run_command(&mut h, "spawnPrimitive", &cube).persist);
    assert!(run_command(&mut h, "spawnPrimitive", &sphere).persist);
    assert!(run_command(&mut h, "spawnPrimitive", &unknown).persist);
    assert_eq!(h.live.cubes.len(), 1);
    assert_eq!(h.live.spheres.len(), 1);
    assert_eq!(h.live.cubes[0].scale, Vec3 { x: 1000, y: 1000, z: 1000 });
    assert_eq!(h.live.spheres[0].scale, Vec3 { x: 2000, y: 2000, z: 2000 });
    assert_eq!(h.doc, before); // primitives leave no record
}

#[test]
fn save_script_points_record_at_path() {
    let mut doc = base_doc();
    doc.levels[0].components.push(model_record("c1", Vec3 { x: 0, y: 0, z: 0 }));
    let mut h = SceneHandle::new(doc, LiveScene::empty());
    let payload = obj(vec![
        ("filename", s("hello.rhai")),
        ("content", s("print(42);")),
        ("componentId", s("c1")),
    ]);
    let out = run_command(&mut h, "saveScript", &payload);
    assert!(out.persist);
    assert_eq!(
        h.doc.levels[0].components[0].script_path.as_deref(),
        Some("scripts/hello.rhai")
    );
    assert_eq!(out.actions.len(), 1);
    match &out.actions[0] {
        EngineAction::UploadScript { filename, content } => {
            assert_eq!(filename, "hello.rhai");
            assert_eq!(content, "print(42);");
        },
        other => panic!("unexpected action: {:?}", other),
    }
}

#[test]
fn save_script_without_target_only_uploads() {
    let doc = base_doc();
    let before = doc.clone();
    let mut h = SceneHandle::new(doc, LiveScene::empty());
    let payload = obj(vec![("filename", s("a.rhai")), ("content", s("1"))]);
    let out = run_command(&mut h, "saveScript", &payload);
    assert!(!out.persist);
    assert_eq!(out.actions.len(), 1);
    assert_eq!(h.doc, before);
}

#[test]
fn sky_created_with_defaults_then_merged() {
    let mut h = SceneHandle::new(base_doc(), LiveScene::empty());
    let first = obj(vec![("sun_intensity", Value::Int(2000))]);
    run_command(&mut h, "configureSky", &first);
    let sky = h.doc.levels[0].sky.unwrap();
    assert_eq!(sky.sun_intensity, 2000);
    assert_eq!(sky.horizon_color, Vec3 { x: 0, y: 0, z: 0 });
    let second = obj(vec![("horizon_color", v3(1, 2, 3))]);
    run_command(&mut h, "configureSky", &second);
    let sky2 = h.doc.levels[0].sky.unwrap();
    assert_eq!(sky2.sun_intensity, 2000); // kept from the first call
    assert_eq!(sky2.horizon_color, Vec3 { x: 1, y: 2, z: 3 });
}

#[test]
fn trees_create_then_update() {
    let mut live = LiveScene::empty();
    live.trees.push(scene_commands::doc::TreeProps {
        seed: 1,
        trunk_height: 1,
        trunk_radius: 1,
        branch_levels: 1,
        foliage_radius: 1,
    });
    live.trees.push(scene_commands::doc::TreeProps {
        seed: 2,
        trunk_height: 2,
        trunk_radius: 2,
        branch_levels: 2,
        foliage_radius: 2,
    });
    let mut h = SceneHandle::new(base_doc(), live);
    let first = obj(vec![("trunk_height", Value::Int(4000))]);
    run_command(&mut h, "configureTrees", &first);
    let rec = &h.doc.levels[0].components[0];
    assert_eq!(rec.kind, ComponentKind::ProceduralTree);
    let props = rec.tree.unwrap();
    assert_eq!(props.trunk_height, 4000);
    assert_eq!(props.seed, 0);
    assert_eq!(props.trunk_radius, 250);
    assert_eq!(props.branch_levels, 4);
    assert_eq!(props.foliage_radius, 500);
    // every live system was regenerated with the settled tuning
    assert_eq!(h.live.trees.len(), 2);
    assert_eq!(h.live.trees[0], props);
    assert_eq!(h.live.trees[1], props);
    // a second call updates the same record rather than creating another
    let second = obj(vec![("seed", Value::Int(9000))]);
    run_command(&mut h, "configureTrees", &second);
    assert_eq!(h.doc.levels[0].components.len(), 1);
    let props2 = h.doc.levels[0].components[0].tree.unwrap();
    assert_eq!(props2.seed, 9);
    assert_eq!(props2.trunk_height, 4000);
}

#[test]
fn counts_must_be_whole_and_in_range() {
    let doc = base_doc();
    let before = doc.clone();
    let mut h = SceneHandle::new(doc, LiveScene::empty());
    let fractional = obj(vec![("seed", Value::Int(7500))]);
    let out = run_command(&mut h, "configureTrees", &fractional);
    assert!(!out.persist);
    assert_eq!(h.doc, before);
    let negative = obj(vec![("seed", Value::Int(-1000))]);
    let out2 = run_command(&mut h, "configureTrees", &negative);
    assert!(!out2.persist);
    assert_eq!(h.doc, before);
}

#[test]
fn null_fields_count_as_absent() {
    let mut doc = base_doc();
    doc.levels[0].components.push(model_record("c1", Vec3 { x: 1, y: 2, z: 3 }));
    let mut h = SceneHandle::new(doc, LiveScene::empty());
    let payload = obj(vec![
        ("componentId", s("c1")),
        ("translation", v3(9000, 0, 0)),
        ("rotation", Value::Null),
    ]);
    let out = run_command(&mut h, "transformObject", &payload);
    assert!(out.persist);
    let rec = &h.doc.levels[0].components[0];
    assert_eq!(rec.generic.position, Vec3 { x: 9000, y: 0, z: 0 });
    assert_eq!(rec.generic.rotation, Vec3 { x: 0, y: 0, z: 0 });
}

#[test]
fn handle_can_be_taken_and_released_between_commands() {
    let mut h = SceneHandle::new(base_doc(), LiveScene::empty());
    assert!(!h.busy);
    h.acquire();
    assert!(h.busy);
    h.release();
    assert!(!h.busy);
    let payload = obj(vec![("assetId", s("m1"))]);
    run_command(&mut h, "spawnModel", &payload);
    assert!(!h.busy);
}

#[test]
fn ack_is_the_fixed_success_payload() {
    assert_eq!(scene_commands::dispatch::ack(), "{\"success\": true}");
}

#[test]
fn unknown_payload_fields_are_ignored() {
    let mut doc = base_doc();
    doc.levels[0].components.push(model_record("c1", Vec3 { x: 0, y: 0, z: 0 }));
    let mut h = SceneHandle::new(doc, LiveScene::empty());
    let payload = obj(vec![
        ("componentId", s("c1")),
        ("translation", v3(5, 5, 5)),
        ("banana", Value::Bool(true)),
    ]);
    let out = run_command(&mut h, "transformObject", &payload);
    assert!(out.persist);
    assert_eq!(h.doc.levels[0].components[0].generic.position, Vec3 { x: 5, y: 5, z: 5 });
}

#[test]
fn wrong_field_shape_rejects_the_whole_payload() {
    let mut doc = base_doc();
    doc.levels[0].components.push(model_record("c1", Vec3 { x: 1, y: 1, z: 1 }));
    let before = doc.clone();
    let mut h = SceneHandle::new(doc, LiveScene::empty());
    let payload = obj(vec![
        ("componentId", s("c1")),
        ("translation", s("up and to the left")),
    ]);
    let out = run_command(&mut h, "transformObject", &payload);
    assert!(!out.persist);
    assert_eq!(h.doc, before);
}
