//! Laws of the engine: properties that hold across commands, proved from
//! the dispatcher's and mutators' contracts.

use vstd::prelude::*;
use crate::args::{GrassArgs, ModelArgs, NpcArgs, CollectableArgs, LightArgs, TransformArgs};
use crate::decode::command_decodable;
use crate::doc::{
    creation_grass_props, doc_with_components0, grass_applied, grass_mapped, grass_record_ok,
    grass_target, grass_updated, merged_grass_props, spec_transform_components,
    transformed_record, first_with_id, lemma_first_with_id, ComponentKind, ComponentRecord,
    SceneDocument,
};
use crate::live::{first_obj_with_id, lemma_first_obj_with_id, spec_transform_live, transformed_object, LiveObject, LiveScene};
use crate::value::Value;
use crate::dispatch::{
    dispatch_post, light_step, spawn_collectable_step, spawn_model_step, spawn_npc_step,
    CommandOutcome,
};

verus! {

/// A command with an unknown name or a malformed payload is dropped
/// without any visible change: the document and the live state are
/// exactly what they were, nothing is persisted and nothing uploaded.
pub proof fn lemma_rejected_command_changes_nothing(
    name: Seq<char>, v: Value,
    d0: SceneDocument, l0: LiveScene, d1: SceneDocument, l1: LiveScene,
    out: CommandOutcome,
)
    requires
        dispatch_post(name, v, d0, l0, d1, l1, out),
        !command_decodable(name, v),
    ensures
        d1 == d0,
        l1 == l0,
        !out.persist,
        out.actions@.len() == 0,
{
}

/// Applying the same transform twice to the document's component list
/// yields the same list as applying it once.
pub proof fn lemma_transform_components_idempotent(s: Seq<ComponentRecord>, a: TransformArgs)
    ensures
        spec_transform_components(spec_transform_components(s, a), a) == spec_transform_components(s, a),
{
    let id = a.component_id@;
    let s1 = spec_transform_components(s, a);
    lemma_first_with_id(s, id);
    let j = first_with_id(s, id);
    if j < s.len() {
        lemma_first_with_id(s1, id);
        let j1 = first_with_id(s1, id);
        assert(s1[j].id@ == id);
        assert(j1 <= j);
        assert(forall|k: int| 0 <= k < j1 ==> s1[k] == s[k]);
        assert(j1 == j);
        assert(transformed_record(s1[j], a) == s1[j]);
        assert(spec_transform_components(s1, a) =~= s1);
    } else {
        assert(s1 == s);
    }
}

/// Applying the same transform twice to the live model collection yields
/// the same collection as applying it once.
pub proof fn lemma_transform_live_idempotent(s: Seq<LiveObject>, a: TransformArgs)
    ensures
        spec_transform_live(spec_transform_live(s, a), a) == spec_transform_live(s, a),
{
    let id = a.component_id@;
    let s1 = spec_transform_live(s, a);
    lemma_first_obj_with_id(s, id);
    let j = first_obj_with_id(s, id);
    if j < s.len() {
        lemma_first_obj_with_id(s1, id);
        let j1 = first_obj_with_id(s1, id);
        assert(s1[j].id@ == id);
        assert(j1 <= j);
        assert(forall|k: int| 0 <= k < j1 ==> s1[k] == s[k]);
        assert(j1 == j);
        assert(transformed_object(s1[j], a) == s1[j]);
        assert(spec_transform_live(s1, a) =~= s1);
    } else {
        assert(s1 == s);
    }
}

/// Issuing the same transform command twice yields the same document
/// components and live models as issuing it once.
pub proof fn lemma_transform_twice_is_once(
    d0: SceneDocument, l0: LiveScene, d1: SceneDocument, l1: LiveScene,
    d2: SceneDocument, l2: LiveScene,
    out1: CommandOutcome, out2: CommandOutcome, a: TransformArgs,
)
    requires
        crate::dispatch::transform_step(d0, l0, d1, l1, out1, a),
        crate::dispatch::transform_step(d1, l1, d2, l2, out2, a),
    ensures
        d2.components0() == d1.components0(),
        l2.models@ == l1.models@,
{
    lemma_transform_components_idempotent(d0.components0(), a);
    lemma_transform_live_idempotent(l0.models@, a);
    if d0.levels@.len() == 0 {
    } else {
        assert(d1.components0() == spec_transform_components(d0.components0(), a));
        assert(d2.components0() == spec_transform_components(d1.components0(), a));
    }
}

/// A successful spawn-model command gives the component record and the
/// live object one and the same freshly generated id, and that id is
/// carried by exactly one record of the document, provided it was not
/// already taken.
pub proof fn lemma_spawn_model_id_unique(
    d0: SceneDocument, l0: LiveScene, d1: SceneDocument, l1: LiveScene,
    out: CommandOutcome, a: ModelArgs, id: String,
)
    requires
        spawn_model_step(d0, l0, d1, l1, out, a, id),
        crate::doc::spec_resolve_model(d0.models@, a.asset_id@) is Some,
        !d0.contains_component_id(id@),
        d0.levels@.len() > 0,
    ensures
        d1.components0().len() == d0.components0().len() + 1,
        d1.components0().last().id == id,
        forall|k: int| 0 <= k < d1.components0().len() - 1
            ==> (#[trigger] d1.components0()[k]).id@ != id@,
        l1.models@.len() == l0.models@.len() + 1,
        l1.models@.last().id == id,
{
    let r = choose|r: ComponentRecord|
        #[trigger] crate::doc::model_record_ok(r, id, a)
            && doc_with_components0(d0, d1, d0.components0().push(r));
    assert(crate::doc::model_record_ok(r, id, a));
    assert(d1.components0() == d0.components0().push(r));
    assert forall|k: int| 0 <= k < d1.components0().len() - 1
        implies (#[trigger] d1.components0()[k]).id@ != id@ by {
        assert(d1.components0()[k] == d0.components0()[k]);
    }
}

/// As [`lemma_spawn_model_id_unique`], for spawn-point-light.
pub proof fn lemma_spawn_light_id_unique(
    d0: SceneDocument, l0: LiveScene, d1: SceneDocument, l1: LiveScene,
    out: CommandOutcome, a: LightArgs, id: String,
)
    requires
        light_step(d0, l0, d1, l1, out, a, id),
        !d0.contains_component_id(id@),
        d0.levels@.len() > 0,
    ensures
        d1.components0().len() == d0.components0().len() + 1,
        d1.components0().last().id == id,
        forall|k: int| 0 <= k < d1.components0().len() - 1
            ==> (#[trigger] d1.components0()[k]).id@ != id@,
        l1.point_lights@.len() == l0.point_lights@.len() + 1,
        l1.point_lights@.last().id == id,
{
    let r = choose|r: ComponentRecord|
        #[trigger] crate::doc::light_record_ok(r, id, a)
            && doc_with_components0(d0, d1, d0.components0().push(r));
    assert(crate::doc::light_record_ok(r, id, a));
    assert(d1.components0() == d0.components0().push(r));
    assert forall|k: int| 0 <= k < d1.components0().len() - 1
        implies (#[trigger] d1.components0()[k]).id@ != id@ by {
        assert(d1.components0()[k] == d0.components0()[k]);
    }
}

/// As [`lemma_spawn_model_id_unique`], for spawn-collectable.
pub proof fn lemma_spawn_collectable_id_unique(
    d0: SceneDocument, l0: LiveScene, d1: SceneDocument, l1: LiveScene,
    out: CommandOutcome, a: CollectableArgs, id: String,
)
    requires
        spawn_collectable_step(d0, l0, d1, l1, out, a, id),
        crate::doc::spec_resolve_model(d0.models@, a.asset_id@) is Some,
        d0.stats@.len() > 0,
        !d0.contains_component_id(id@),
        d0.levels@.len() > 0,
    ensures
        d1.components0().len() == d0.components0().len() + 1,
        d1.components0().last().id == id,
        forall|k: int| 0 <= k < d1.components0().len() - 1
            ==> (#[trigger] d1.components0()[k]).id@ != id@,
        l1.collectables@.len() == l0.collectables@.len() + 1,
        l1.collectables@.last().id == id,
{
    let r = choose|r: ComponentRecord|
        #[trigger] crate::doc::collectable_record_ok(r, id, a, d0.stats@[0].id)
            && doc_with_components0(d0, d1, d0.components0().push(r));
    assert(crate::doc::collectable_record_ok(r, id, a, d0.stats@[0].id));
    assert(d1.components0() == d0.components0().push(r));
    assert forall|k: int| 0 <= k < d1.components0().len() - 1
        implies (#[trigger] d1.components0()[k]).id@ != id@ by {
        assert(d1.components0()[k] == d0.components0()[k]);
    }
}

/// As [`lemma_spawn_model_id_unique`], for spawn-NPC.
pub proof fn lemma_spawn_npc_id_unique(
    d0: SceneDocument, l0: LiveScene, d1: SceneDocument, l1: LiveScene,
    out: CommandOutcome, a: NpcArgs, id: String,
)
    requires
        spawn_npc_step(d0, l0, d1, l1, out, a, id),
        crate::doc::spec_resolve_model(d0.models@, a.asset_id@) is Some,
        !d0.contains_component_id(id@),
        d0.levels@.len() > 0,
    ensures
        d1.components0().len() == d0.components0().len() + 1,
        d1.components0().last().id == id,
        forall|k: int| 0 <= k < d1.components0().len() - 1
            ==> (#[trigger] d1.components0()[k]).id@ != id@,
        l1.npcs@.len() == l0.npcs@.len() + 1,
        l1.npcs@.last().id == id,
{
    let r = choose|r: ComponentRecord|
        #[trigger] crate::doc::npc_record_ok(r, id, a)
            && doc_with_components0(d0, d1, d0.components0().push(r));
    assert(crate::doc::npc_record_ok(r, id, a));
    assert(d1.components0() == d0.components0().push(r));
    assert forall|k: int| 0 <= k < d1.components0().len() - 1
        implies (#[trigger] d1.components0()[k]).id@ != id@ by {
        assert(d1.components0()[k] == d0.components0()[k]);
    }
}

/// Two consecutive configure-grass commands, with no target id and no
/// pre-existing grass component, leave exactly one grass record, carrying
/// the union of the fields set across both calls — the later call's
/// fields win on conflict, and fields neither call set keep the creation
/// defaults.
pub proof fn lemma_grass_find_or_create_union(
    d0: SceneDocument, d1: SceneDocument, d2: SceneDocument,
    a1: GrassArgs, a2: GrassArgs, id1: String, id2: String,
)
    requires
        d0.levels@.len() > 0,
        a1.component_id is None,
        a2.component_id is None,
        forall|k: int| 0 <= k < d0.components0().len()
            ==> (#[trigger] d0.components0()[k]).kind != ComponentKind::ProceduralGrass,
        grass_applied(d0, d1, a1, id1),
        grass_applied(d1, d2, a2, id2),
    ensures
        d2.components0().len() == d0.components0().len() + 1,
        forall|k: int| 0 <= k < d0.components0().len()
            ==> #[trigger] d2.components0()[k] == d0.components0()[k],
        d2.components0().last().kind == ComponentKind::ProceduralGrass,
        d2.components0().last().grass == Some(merged_grass_props(creation_grass_props(a1), a2)),
        forall|k: int| 0 <= k < d2.components0().len() - 1
            ==> (#[trigger] d2.components0()[k]).kind != ComponentKind::ProceduralGrass,
{
    let s0 = d0.components0();
    assert(!(exists|i: int| 0 <= i < s0.len() && grass_target(s0[i], a1)));
    assert(grass_mapped(s0, a1) =~= s0);
    let nr = choose|nr: ComponentRecord|
        #[trigger] grass_record_ok(nr, id1, creation_grass_props(a1))
            && doc_with_components0(d0, d1, grass_mapped(s0, a1).push(nr));
    assert(grass_record_ok(nr, id1, creation_grass_props(a1)));
    let s1 = d1.components0();
    assert(s1 == s0.push(nr));
    assert(d1.levels@.len() == d0.levels@.len());
    // the second call finds the created component
    assert(grass_target(s1[s0.len() as int], a2));
    assert(exists|i: int| 0 <= i < s1.len() && grass_target(s1[i], a2));
    assert(doc_with_components0(d1, d2, grass_mapped(s1, a2)));
    let s2 = d2.components0();
    assert(s2 == grass_mapped(s1, a2));
    assert forall|k: int| 0 <= k < s0.len() implies #[trigger] s2[k] == s0[k] by {
        assert(s1[k] == s0[k]);
        assert(!grass_target(s1[k], a2));
    }
    assert(s2[s0.len() as int] == grass_updated(nr, a2));
    assert(nr.grass == Some(creation_grass_props(a1)));
    assert(s2.last().grass == Some(merged_grass_props(creation_grass_props(a1), a2)));
}

// ------------------------------------------------------------------
// The document invariant is preserved
// ------------------------------------------------------------------

/// A mutation of the active level whose new components are all well
/// formed keeps the whole document well formed.
pub proof fn lemma_wf_level0(
    d0: SceneDocument, d1: SceneDocument, c: Seq<ComponentRecord>,
    sky: Option<crate::doc::SkyConfig>,
)
    requires
        d0.wf(),
        crate::doc::doc_with_level0(d0, d1, c, sky),
        forall|j: int| 0 <= j < c.len() ==> (#[trigger] c[j]).wf(),
    ensures
        d1.wf(),
{
    if d0.levels@.len() == 0 {
    } else {
        assert forall|i: int, j: int|
            0 <= i < d1.levels@.len() && 0 <= j < d1.levels@[i].components@.len()
            implies (#[trigger] d1.levels@[i].components@[j]).wf() by {
            if i == 0 {
                assert(d1.levels@[0].components@[j] == c[j]);
            } else {
                assert(d1.levels@[i] == d0.levels@[i]);
                assert(d0.levels@[i].components@[j].wf());
            }
        }
    }
}

/// A transform command keeps every record well formed: it only moves
/// placement fields.
pub proof fn lemma_transform_preserves_wf(d0: SceneDocument, d1: SceneDocument, a: TransformArgs)
    requires
        d0.wf(),
        doc_with_components0(d0, d1, spec_transform_components(d0.components0(), a)),
    ensures
        d1.wf(),
{
    let s = d0.components0();
    let c = spec_transform_components(s, a);
    lemma_first_with_id(s, a.component_id@);
    assert forall|j: int| 0 <= j < c.len() implies (#[trigger] c[j]).wf() by {
        if d0.levels@.len() > 0 {
            assert(s[j] == d0.levels@[0].components@[j]);
            assert(s[j].wf());
        }
    }
    lemma_wf_level0(d0, d1, c, d0.sky0());
}

/// Appending a well-formed spawned record keeps the document well formed.
pub proof fn lemma_append_preserves_wf(d0: SceneDocument, d1: SceneDocument, r: ComponentRecord)
    requires
        d0.wf(),
        r.wf(),
        doc_with_components0(d0, d1, d0.components0().push(r)),
    ensures
        d1.wf(),
{
    let s = d0.components0();
    let c = s.push(r);
    assert forall|j: int| 0 <= j < c.len() implies (#[trigger] c[j]).wf() by {
        if j < s.len() {
            if d0.levels@.len() > 0 {
                assert(s[j] == d0.levels@[0].components@[j]);
                assert(s[j].wf());
            }
        } else {
            assert(c[j] == r);
        }
    }
    lemma_wf_level0(d0, d1, c, d0.sky0());
}

/// A configure-grass command keeps the document well formed: it only
/// touches grass blocks of grass components and creates well-formed
/// records.
pub proof fn lemma_grass_preserves_wf(d0: SceneDocument, d1: SceneDocument, a: GrassArgs, id: String)
    requires
        d0.wf(),
        grass_applied(d0, d1, a, id),
    ensures
        d1.wf(),
{
    let s = d0.components0();
    let mapped = grass_mapped(s, a);
    assert forall|j: int| 0 <= j < mapped.len() implies (#[trigger] mapped[j]).wf() by {
        if d0.levels@.len() > 0 {
            assert(s[j] == d0.levels@[0].components@[j]);
            assert(s[j].wf());
        }
    }
    let found = exists|i: int| 0 <= i < s.len() && grass_target(s[i], a);
    if !found && a.component_id is None {
        let nr = choose|nr: ComponentRecord|
            #[trigger] grass_record_ok(nr, id, creation_grass_props(a))
                && doc_with_components0(d0, d1, mapped.push(nr));
        assert(grass_record_ok(nr, id, creation_grass_props(a)));
        assert forall|j: int| 0 <= j < mapped.push(nr).len()
            implies (#[trigger] mapped.push(nr)[j]).wf() by {
            if j < mapped.len() {
                assert(mapped.push(nr)[j] == mapped[j]);
            } else {
                assert(mapped.push(nr)[j] == nr);
            }
        }
        lemma_wf_level0(d0, d1, mapped.push(nr), d0.sky0());
    } else {
        lemma_wf_level0(d0, d1, mapped, d0.sky0());
    }
}

/// A configure-trees command keeps the document well formed.
pub proof fn lemma_trees_preserves_wf(
    d0: SceneDocument, d1: SceneDocument, a: crate::args::TreesArgs, id: String,
    p: Option<crate::doc::TreeProps>,
)
    requires
        d0.wf(),
        crate::doc::trees_applied(d0, d1, a, id, p),
    ensures
        d1.wf(),
{
    let s = d0.components0();
    let j = crate::doc::first_kind_target(
        s,
        ComponentKind::ProceduralTree,
        crate::doc::target_of(a.component_id),
    );
    crate::doc::lemma_first_kind_target(
        s,
        ComponentKind::ProceduralTree,
        crate::doc::target_of(a.component_id),
    );
    if j < s.len() {
        let updated = s.update(j, ComponentRecord {
            tree: Some(crate::doc::merged_tree_props(
                match s[j].tree {
                    Some(q) => q,
                    None => crate::doc::empty_tree_props(),
                },
                a,
            )),
            ..s[j]
        });
        assert forall|k: int| 0 <= k < updated.len() implies (#[trigger] updated[k]).wf() by {
            if d0.levels@.len() > 0 {
                assert(s[k] == d0.levels@[0].components@[k]);
                assert(s[k].wf());
            }
        }
        lemma_wf_level0(d0, d1, updated, d0.sky0());
    } else if a.component_id is None {
        let nr = choose|nr: ComponentRecord|
            #[trigger] crate::doc::tree_record_ok(nr, id, crate::doc::creation_tree_props(a))
                && doc_with_components0(d0, d1, s.push(nr));
        assert(crate::doc::tree_record_ok(nr, id, crate::doc::creation_tree_props(a)));
        assert forall|k: int| 0 <= k < s.push(nr).len()
            implies (#[trigger] s.push(nr)[k]).wf() by {
            if k < s.len() {
                if d0.levels@.len() > 0 {
                    assert(s[k] == d0.levels@[0].components@[k]);
                    assert(s[k].wf());
                }
            } else {
                assert(s.push(nr)[k] == nr);
            }
        }
        lemma_wf_level0(d0, d1, s.push(nr), d0.sky0());
    } else {
        assert forall|k: int| 0 <= k < s.len() implies (#[trigger] s[k]).wf() by {
            if d0.levels@.len() > 0 {
                assert(s[k] == d0.levels@[0].components@[k]);
            }
        }
        lemma_wf_level0(d0, d1, s, d0.sky0());
    }
}

} // verus!
