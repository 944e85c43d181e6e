//! The command argument decoder.
//!
//! Given a command name and a raw payload, [`decode_command`] produces the
//! typed argument record of that command kind, or nothing when the name is
//! unknown or the payload malformed.  Decoding follows the conventions of
//! the external envelope: an object with stable field names, where an
//! optional field may be absent or null, a present field of the wrong
//! shape rejects the whole payload, and unknown fields are ignored.

use vstd::prelude::*;
use crate::geom::{Milli, Vec2, Vec3};
use crate::value::{
    as_count, as_int, as_string, as_vec2, as_vec3, obj_get, spec_as_count, spec_as_int,
    spec_as_string, spec_as_vec2, spec_as_vec3, spec_get, str_eq, Value,
};
use crate::args::{
    CollectableArgs, FeatureArgs, GrassArgs, HeightmapArgs, LightArgs, ModelArgs, NpcArgs,
    PrimitiveArgs, ScriptArgs, SkyArgs, TransformArgs, TreesArgs, WaterArgs, WaveArgs,
};

verus! {

// ------------------------------------------------------------------
// Field access with envelope semantics
// ------------------------------------------------------------------

/// The value bound to `key`, with an explicit null counting as absent.
pub open spec fn spec_field(ps: Seq<(String, Value)>, key: Seq<char>) -> Option<Value> {
    match spec_get(ps, key) {
        None => None,
        Some(Value::Null) => None,
        Some(v) => Some(v),
    }
}

/// An optional number field: `None` on failure, otherwise the field's
/// value or its absence.
pub open spec fn spec_opt_milli(ps: Seq<(String, Value)>, key: Seq<char>) -> Option<Option<Milli>> {
    match spec_field(ps, key) {
        None => Some(None),
        Some(v) => match spec_as_int(v) {
            Some(n) => Some(Some(n)),
            None => None,
        },
    }
}

/// An optional whole-count field.
pub open spec fn spec_opt_count(ps: Seq<(String, Value)>, key: Seq<char>) -> Option<Option<u32>> {
    match spec_field(ps, key) {
        None => Some(None),
        Some(v) => match spec_as_count(v) {
            Some(n) => Some(Some(n)),
            None => None,
        },
    }
}

/// An optional string field.
pub open spec fn spec_opt_string(ps: Seq<(String, Value)>, key: Seq<char>) -> Option<Option<String>> {
    match spec_field(ps, key) {
        None => Some(None),
        Some(v) => match spec_as_string(v) {
            Some(s) => Some(Some(s)),
            None => None,
        },
    }
}

/// An optional three-vector field.
pub open spec fn spec_opt_vec3(ps: Seq<(String, Value)>, key: Seq<char>) -> Option<Option<Vec3>> {
    match spec_field(ps, key) {
        None => Some(None),
        Some(v) => match spec_as_vec3(v) {
            Some(x) => Some(Some(x)),
            None => None,
        },
    }
}

/// An optional two-vector field.
pub open spec fn spec_opt_vec2(ps: Seq<(String, Value)>, key: Seq<char>) -> Option<Option<Vec2>> {
    match spec_field(ps, key) {
        None => Some(None),
        Some(v) => match spec_as_vec2(v) {
            Some(x) => Some(Some(x)),
            None => None,
        },
    }
}

/// A required string field.
pub open spec fn spec_req_string(ps: Seq<(String, Value)>, key: Seq<char>) -> Option<String> {
    match spec_field(ps, key) {
        None => None,
        Some(v) => spec_as_string(v),
    }
}

/// A required three-vector field.
pub open spec fn spec_req_vec3(ps: Seq<(String, Value)>, key: Seq<char>) -> Option<Vec3> {
    match spec_field(ps, key) {
        None => None,
        Some(v) => spec_as_vec3(v),
    }
}

/// A required two-vector field.
pub open spec fn spec_req_vec2(ps: Seq<(String, Value)>, key: Seq<char>) -> Option<Vec2> {
    match spec_field(ps, key) {
        None => None,
        Some(v) => spec_as_vec2(v),
    }
}

/// A required number field.
pub open spec fn spec_req_milli(ps: Seq<(String, Value)>, key: Seq<char>) -> Option<Milli> {
    match spec_field(ps, key) {
        None => None,
        Some(v) => spec_as_int(v),
    }
}

fn get_field<'a>(ps: &'a Vec<(String, Value)>, key: &str) -> (r: Option<&'a Value>)
    ensures
        match r {
            Some(v) => spec_field(ps@, key@) == Some(*v),
            None => spec_field(ps@, key@) is None,
        },
{
    match obj_get(ps, key) {
        Some(v) => match v {
            Value::Null => None,
            _ => Some(v),
        },
        None => None,
    }
}

fn get_opt_milli(ps: &Vec<(String, Value)>, key: &str) -> (r: Option<Option<Milli>>)
    ensures
        r == spec_opt_milli(ps@, key@),
{
    match get_field(ps, key) {
        None => Some(None),
        Some(v) => match as_int(v) {
            Some(n) => Some(Some(n)),
            None => None,
        },
    }
}

fn get_opt_count(ps: &Vec<(String, Value)>, key: &str) -> (r: Option<Option<u32>>)
    ensures
        r == spec_opt_count(ps@, key@),
{
    match get_field(ps, key) {
        None => Some(None),
        Some(v) => match as_count(v) {
            Some(n) => Some(Some(n)),
            None => None,
        },
    }
}

fn get_opt_string(ps: &Vec<(String, Value)>, key: &str) -> (r: Option<Option<String>>)
    ensures
        r == spec_opt_string(ps@, key@),
{
    match get_field(ps, key) {
        None => Some(None),
        Some(v) => match as_string(v) {
            Some(s) => Some(Some(s)),
            None => None,
        },
    }
}

fn get_opt_vec3(ps: &Vec<(String, Value)>, key: &str) -> (r: Option<Option<Vec3>>)
    ensures
        r == spec_opt_vec3(ps@, key@),
{
    match get_field(ps, key) {
        None => Some(None),
        Some(v) => match as_vec3(v) {
            Some(x) => Some(Some(x)),
            None => None,
        },
    }
}

fn get_opt_vec2(ps: &Vec<(String, Value)>, key: &str) -> (r: Option<Option<Vec2>>)
    ensures
        r == spec_opt_vec2(ps@, key@),
{
    match get_field(ps, key) {
        None => Some(None),
        Some(v) => match as_vec2(v) {
            Some(x) => Some(Some(x)),
            None => None,
        },
    }
}

fn get_req_string(ps: &Vec<(String, Value)>, key: &str) -> (r: Option<String>)
    ensures
        r == spec_req_string(ps@, key@),
{
    match get_field(ps, key) {
        None => None,
        Some(v) => as_string(v),
    }
}

fn get_req_vec3(ps: &Vec<(String, Value)>, key: &str) -> (r: Option<Vec3>)
    ensures
        r == spec_req_vec3(ps@, key@),
{
    match get_field(ps, key) {
        None => None,
        Some(v) => as_vec3(v),
    }
}

fn get_req_vec2(ps: &Vec<(String, Value)>, key: &str) -> (r: Option<Vec2>)
    ensures
        r == spec_req_vec2(ps@, key@),
{
    match get_field(ps, key) {
        None => None,
        Some(v) => as_vec2(v),
    }
}

fn get_req_milli(ps: &Vec<(String, Value)>, key: &str) -> (r: Option<Milli>)
    ensures
        r == spec_req_milli(ps@, key@),
{
    match get_field(ps, key) {
        None => None,
        Some(v) => as_int(v),
    }
}

// ------------------------------------------------------------------
// Per-command argument records
// ------------------------------------------------------------------

/// What a decoded transform record holds, field by field.
pub open spec fn transform_args_ok(v: Value, a: TransformArgs) -> bool {
    &&& v matches Value::Obj(pairs)
    &&& spec_req_string(pairs@, "componentId"@) == Some(a.component_id)
    &&& spec_opt_vec3(pairs@, "translation"@) == Some(a.translation)
    &&& spec_opt_vec3(pairs@, "rotation"@) == Some(a.rotation)
    &&& spec_opt_vec3(pairs@, "scale"@) == Some(a.scale)
}

/// Whether a transform payload decodes at all.
pub open spec fn transform_decodable(v: Value) -> bool {
    &&& v matches Value::Obj(pairs)
    &&& spec_req_string(pairs@, "componentId"@) is Some
    &&& spec_opt_vec3(pairs@, "translation"@) is Some
    &&& spec_opt_vec3(pairs@, "rotation"@) is Some
    &&& spec_opt_vec3(pairs@, "scale"@) is Some
}

/// Decodes a transform payload.
pub fn decode_transform(v: &Value) -> (r: Option<TransformArgs>)
    ensures
        match r {
            Some(a) => transform_args_ok(*v, a),
            None => !transform_decodable(*v),
        },
{
    let pairs = match v {
        Value::Obj(pairs) => pairs,
        _ => { return None; },
    };
    let component_id = match get_req_string(pairs, "componentId") {
        Some(s) => s,
        None => { return None; },
    };
    let translation = match get_opt_vec3(pairs, "translation") {
        Some(x) => x,
        None => { return None; },
    };
    let rotation = match get_opt_vec3(pairs, "rotation") {
        Some(x) => x,
        None => { return None; },
    };
    let scale = match get_opt_vec3(pairs, "scale") {
        Some(x) => x,
        None => { return None; },
    };
    Some(TransformArgs { component_id, translation, rotation, scale })
}

/// One wave's fields of a configure-water payload.
pub open spec fn wave_ok(
    ps: Seq<(String, Value)>,
    ka: Seq<char>,
    kf: Seq<char>,
    ksp: Seq<char>,
    kst: Seq<char>,
    kd: Seq<char>,
    w: WaveArgs,
) -> bool {
    &&& spec_opt_milli(ps, ka) == Some(w.amplitude)
    &&& spec_opt_milli(ps, kf) == Some(w.frequency)
    &&& spec_opt_milli(ps, ksp) == Some(w.speed)
    &&& spec_opt_milli(ps, kst) == Some(w.steepness)
    &&& spec_opt_vec2(ps, kd) == Some(w.direction)
}

/// Whether one wave's fields decode.
pub open spec fn wave_decodable(
    ps: Seq<(String, Value)>,
    ka: Seq<char>,
    kf: Seq<char>,
    ksp: Seq<char>,
    kst: Seq<char>,
    kd: Seq<char>,
) -> bool {
    &&& spec_opt_milli(ps, ka) is Some
    &&& spec_opt_milli(ps, kf) is Some
    &&& spec_opt_milli(ps, ksp) is Some
    &&& spec_opt_milli(ps, kst) is Some
    &&& spec_opt_vec2(ps, kd) is Some
}

fn decode_wave(
    ps: &Vec<(String, Value)>,
    ka: &str,
    kf: &str,
    ksp: &str,
    kst: &str,
    kd: &str,
) -> (r: Option<WaveArgs>)
    ensures
        match r {
            Some(w) => wave_ok(ps@, ka@, kf@, ksp@, kst@, kd@, w),
            None => !wave_decodable(ps@, ka@, kf@, ksp@, kst@, kd@),
        },
{
    let amplitude = match get_opt_milli(ps, ka) {
        Some(x) => x,
        None => { return None; },
    };
    let frequency = match get_opt_milli(ps, kf) {
        Some(x) => x,
        None => { return None; },
    };
    let speed = match get_opt_milli(ps, ksp) {
        Some(x) => x,
        None => { return None; },
    };
    let steepness = match get_opt_milli(ps, kst) {
        Some(x) => x,
        None => { return None; },
    };
    let direction = match get_opt_vec2(ps, kd) {
        Some(x) => x,
        None => { return None; },
    };
    Some(WaveArgs { amplitude, frequency, speed, steepness, direction })
}

/// What a decoded configure-water record holds, field by field.
pub open spec fn water_args_ok(v: Value, a: WaterArgs) -> bool {
    &&& v matches Value::Obj(pairs)
    &&& spec_opt_string(pairs@, "componentId"@) == Some(a.component_id)
    &&& spec_opt_vec3(pairs@, "shallow_color"@) == Some(a.shallow_color)
    &&& spec_opt_vec3(pairs@, "medium_color"@) == Some(a.medium_color)
    &&& spec_opt_vec3(pairs@, "deep_color"@) == Some(a.deep_color)
    &&& spec_opt_milli(pairs@, "ripple_amplitude_multiplier"@) == Some(a.ripple_amplitude_multiplier)
    &&& spec_opt_milli(pairs@, "ripple_freq"@) == Some(a.ripple_freq)
    &&& spec_opt_milli(pairs@, "ripple_speed"@) == Some(a.ripple_speed)
    &&& spec_opt_milli(pairs@, "shoreline_foam_range"@) == Some(a.shoreline_foam_range)
    &&& spec_opt_milli(pairs@, "crest_foam_min"@) == Some(a.crest_foam_min)
    &&& spec_opt_milli(pairs@, "crest_foam_max"@) == Some(a.crest_foam_max)
    &&& spec_opt_milli(pairs@, "sparkle_intensity"@) == Some(a.sparkle_intensity)
    &&& spec_opt_milli(pairs@, "sparkle_threshold"@) == Some(a.sparkle_threshold)
    &&& spec_opt_milli(pairs@, "subsurface_multiplier"@) == Some(a.subsurface_multiplier)
    &&& spec_opt_milli(pairs@, "fresnel_power"@) == Some(a.fresnel_power)
    &&& spec_opt_milli(pairs@, "fresnel_multiplier"@) == Some(a.fresnel_multiplier)
    &&& wave_ok(pairs@, "wave1_amplitude"@, "wave1_frequency"@, "wave1_speed"@, "wave1_steepness"@, "wave1_direction"@, a.wave1)
    &&& wave_ok(pairs@, "wave2_amplitude"@, "wave2_frequency"@, "wave2_speed"@, "wave2_steepness"@, "wave2_direction"@, a.wave2)
    &&& wave_ok(pairs@, "wave3_amplitude"@, "wave3_frequency"@, "wave3_speed"@, "wave3_steepness"@, "wave3_direction"@, a.wave3)
}

/// Whether a configure-water payload decodes at all.
pub open spec fn water_decodable(v: Value) -> bool {
    &&& v matches Value::Obj(pairs)
    &&& spec_opt_string(pairs@, "componentId"@) is Some
    &&& spec_opt_vec3(pairs@, "shallow_color"@) is Some
    &&& spec_opt_vec3(pairs@, "medium_color"@) is Some
    &&& spec_opt_vec3(pairs@, "deep_color"@) is Some
    &&& spec_opt_milli(pairs@, "ripple_amplitude_multiplier"@) is Some
    &&& spec_opt_milli(pairs@, "ripple_freq"@) is Some
    &&& spec_opt_milli(pairs@, "ripple_speed"@) is Some
    &&& spec_opt_milli(pairs@, "shoreline_foam_range"@) is Some
    &&& spec_opt_milli(pairs@, "crest_foam_min"@) is Some
    &&& spec_opt_milli(pairs@, "crest_foam_max"@) is Some
    &&& spec_opt_milli(pairs@, "sparkle_intensity"@) is Some
    &&& spec_opt_milli(pairs@, "sparkle_threshold"@) is Some
    &&& spec_opt_milli(pairs@, "subsurface_multiplier"@) is Some
    &&& spec_opt_milli(pairs@, "fresnel_power"@) is Some
    &&& spec_opt_milli(pairs@, "fresnel_multiplier"@) is Some
    &&& wave_decodable(pairs@, "wave1_amplitude"@, "wave1_frequency"@, "wave1_speed"@, "wave1_steepness"@, "wave1_direction"@)
    &&& wave_decodable(pairs@, "wave2_amplitude"@, "wave2_frequency"@, "wave2_speed"@, "wave2_steepness"@, "wave2_direction"@)
    &&& wave_decodable(pairs@, "wave3_amplitude"@, "wave3_frequency"@, "wave3_speed"@, "wave3_steepness"@, "wave3_direction"@)
}

/// Decodes a configure-water payload.
#[verifier::rlimit(60)]
pub fn decode_water(v: &Value) -> (r: Option<WaterArgs>)
    ensures
        match r {
            Some(a) => water_args_ok(*v, a),
            None => !water_decodable(*v),
        },
{
    let pairs = match v {
        Value::Obj(pairs) => pairs,
        _ => { return None; },
    };
    let component_id = match get_opt_string(pairs, "componentId") {
        Some(x) => x,
        None => { return None; },
    };
    let shallow_color = match get_opt_vec3(pairs, "shallow_color") {
        Some(x) => x,
        None => { return None; },
    };
    let medium_color = match get_opt_vec3(pairs, "medium_color") {
        Some(x) => x,
        None => { return None; },
    };
    let deep_color = match get_opt_vec3(pairs, "deep_color") {
        Some(x) => x,
        None => { return None; },
    };
    let ripple_amplitude_multiplier = match get_opt_milli(pairs, "ripple_amplitude_multiplier") {
        Some(x) => x,
        None => { return None; },
    };
    let ripple_freq = match get_opt_milli(pairs, "ripple_freq") {
        Some(x) => x,
        None => { return None; },
    };
    let ripple_speed = match get_opt_milli(pairs, "ripple_speed") {
        Some(x) => x,
        None => { return None; },
    };
    let shoreline_foam_range = match get_opt_milli(pairs, "shoreline_foam_range") {
        Some(x) => x,
        None => { return None; },
    };
    let crest_foam_min = match get_opt_milli(pairs, "crest_foam_min") {
        Some(x) => x,
        None => { return None; },
    };
    let crest_foam_max = match get_opt_milli(pairs, "crest_foam_max") {
        Some(x) => x,
        None => { return None; },
    };
    let sparkle_intensity = match get_opt_milli(pairs, "sparkle_intensity") {
        Some(x) => x,
        None => { return None; },
    };
    let sparkle_threshold = match get_opt_milli(pairs, "sparkle_threshold") {
        Some(x) => x,
        None => { return None; },
    };
    let subsurface_multiplier = match get_opt_milli(pairs, "subsurface_multiplier") {
        Some(x) => x,
        None => { return None; },
    };
    let fresnel_power = match get_opt_milli(pairs, "fresnel_power") {
        Some(x) => x,
        None => { return None; },
    };
    let fresnel_multiplier = match get_opt_milli(pairs, "fresnel_multiplier") {
        Some(x) => x,
        None => { return None; },
    };
    let wave1 = match decode_wave(pairs, "wave1_amplitude", "wave1_frequency", "wave1_speed", "wave1_steepness", "wave1_direction") {
        Some(w) => w,
        None => { return None; },
    };
    let wave2 = match decode_wave(pairs, "wave2_amplitude", "wave2_frequency", "wave2_speed", "wave2_steepness", "wave2_direction") {
        Some(w) => w,
        None => { return None; },
    };
    let wave3 = match decode_wave(pairs, "wave3_amplitude", "wave3_frequency", "wave3_speed", "wave3_steepness", "wave3_direction") {
        Some(w) => w,
        None => { return None; },
    };
    Some(WaterArgs {
        component_id,
        shallow_color,
        medium_color,
        deep_color,
        ripple_amplitude_multiplier,
        ripple_freq,
        ripple_speed,
        shoreline_foam_range,
        crest_foam_min,
        crest_foam_max,
        sparkle_intensity,
        sparkle_threshold,
        subsurface_multiplier,
        fresnel_power,
        fresnel_multiplier,
        wave1,
        wave2,
        wave3,
    })
}

/// What a decoded configure-sky record holds, field by field.
pub open spec fn sky_args_ok(v: Value, a: SkyArgs) -> bool {
    &&& v matches Value::Obj(pairs)
    &&& spec_opt_string(pairs@, "componentId"@) == Some(a.component_id)
    &&& spec_opt_vec3(pairs@, "horizon_color"@) == Some(a.horizon_color)
    &&& spec_opt_vec3(pairs@, "zenith_color"@) == Some(a.zenith_color)
    &&& spec_opt_vec3(pairs@, "sun_direction"@) == Some(a.sun_direction)
    &&& spec_opt_vec3(pairs@, "sun_color"@) == Some(a.sun_color)
    &&& spec_opt_milli(pairs@, "sun_intensity"@) == Some(a.sun_intensity)
}

/// Whether a configure-sky payload decodes at all.
pub open spec fn sky_decodable(v: Value) -> bool {
    &&& v matches Value::Obj(pairs)
    &&& spec_opt_string(pairs@, "componentId"@) is Some
    &&& spec_opt_vec3(pairs@, "horizon_color"@) is Some
    &&& spec_opt_vec3(pairs@, "zenith_color"@) is Some
    &&& spec_opt_vec3(pairs@, "sun_direction"@) is Some
    &&& spec_opt_vec3(pairs@, "sun_color"@) is Some
    &&& spec_opt_milli(pairs@, "sun_intensity"@) is Some
}

/// Decodes a configure-sky payload.
pub fn decode_sky(v: &Value) -> (r: Option<SkyArgs>)
    ensures
        match r {
            Some(a) => sky_args_ok(*v, a),
            None => !sky_decodable(*v),
        },
{
    let pairs = match v {
        Value::Obj(pairs) => pairs,
        _ => { return None; },
    };
    let component_id = match get_opt_string(pairs, "componentId") {
        Some(x) => x,
        None => { return None; },
    };
    let horizon_color = match get_opt_vec3(pairs, "horizon_color") {
        Some(x) => x,
        None => { return None; },
    };
    let zenith_color = match get_opt_vec3(pairs, "zenith_color") {
        Some(x) => x,
        None => { return None; },
    };
    let sun_direction = match get_opt_vec3(pairs, "sun_direction") {
        Some(x) => x,
        None => { return None; },
    };
    let sun_color = match get_opt_vec3(pairs, "sun_color") {
        Some(x) => x,
        None => { return None; },
    };
    let sun_intensity = match get_opt_milli(pairs, "sun_intensity") {
        Some(x) => x,
        None => { return None; },
    };
    Some(SkyArgs { component_id, horizon_color, zenith_color, sun_direction, sun_color, sun_intensity })
}

/// What a decoded configure-trees record holds, field by field.
pub open spec fn trees_args_ok(v: Value, a: TreesArgs) -> bool {
    &&& v matches Value::Obj(pairs)
    &&& spec_opt_string(pairs@, "componentId"@) == Some(a.component_id)
    &&& spec_opt_count(pairs@, "seed"@) == Some(a.seed)
    &&& spec_opt_milli(pairs@, "trunk_height"@) == Some(a.trunk_height)
    &&& spec_opt_milli(pairs@, "trunk_radius"@) == Some(a.trunk_radius)
    &&& spec_opt_count(pairs@, "branch_levels"@) == Some(a.branch_levels)
    &&& spec_opt_milli(pairs@, "foliage_radius"@) == Some(a.foliage_radius)
}

/// Whether a configure-trees payload decodes at all.
pub open spec fn trees_decodable(v: Value) -> bool {
    &&& v matches Value::Obj(pairs)
    &&& spec_opt_string(pairs@, "componentId"@) is Some
    &&& spec_opt_count(pairs@, "seed"@) is Some
    &&& spec_opt_milli(pairs@, "trunk_height"@) is Some
    &&& spec_opt_milli(pairs@, "trunk_radius"@) is Some
    &&& spec_opt_count(pairs@, "branch_levels"@) is Some
    &&& spec_opt_milli(pairs@, "foliage_radius"@) is Some
}

/// Decodes a configure-trees payload.
pub fn decode_trees(v: &Value) -> (r: Option<TreesArgs>)
    ensures
        match r {
            Some(a) => trees_args_ok(*v, a),
            None => !trees_decodable(*v),
        },
{
    let pairs = match v {
        Value::Obj(pairs) => pairs,
        _ => { return None; },
    };
    let component_id = match get_opt_string(pairs, "componentId") {
        Some(x) => x,
        None => { return None; },
    };
    let seed = match get_opt_count(pairs, "seed") {
        Some(x) => x,
        None => { return None; },
    };
    let trunk_height = match get_opt_milli(pairs, "trunk_height") {
        Some(x) => x,
        None => { return None; },
    };
    let trunk_radius = match get_opt_milli(pairs, "trunk_radius") {
        Some(x) => x,
        None => { return None; },
    };
    let branch_levels = match get_opt_count(pairs, "branch_levels") {
        Some(x) => x,
        None => { return None; },
    };
    let foliage_radius = match get_opt_milli(pairs, "foliage_radius") {
        Some(x) => x,
        None => { return None; },
    };
    Some(TreesArgs { component_id, seed, trunk_height, trunk_radius, branch_levels, foliage_radius })
}

/// What a decoded configure-grass record holds, field by field.
pub open spec fn grass_args_ok(v: Value, a: GrassArgs) -> bool {
    &&& v matches Value::Obj(pairs)
    &&& spec_opt_string(pairs@, "componentId"@) == Some(a.component_id)
    &&& spec_opt_milli(pairs@, "wind_strength"@) == Some(a.wind_strength)
    &&& spec_opt_milli(pairs@, "wind_speed"@) == Some(a.wind_speed)
    &&& spec_opt_milli(pairs@, "blade_height"@) == Some(a.blade_height)
    &&& spec_opt_milli(pairs@, "blade_width"@) == Some(a.blade_width)
    &&& spec_opt_milli(pairs@, "blade_density"@) == Some(a.blade_density)
    &&& spec_opt_milli(pairs@, "render_distance"@) == Some(a.render_distance)
}

/// Whether a configure-grass payload decodes at all.
pub open spec fn grass_decodable(v: Value) -> bool {
    &&& v matches Value::Obj(pairs)
    &&& spec_opt_string(pairs@, "componentId"@) is Some
    &&& spec_opt_milli(pairs@, "wind_strength"@) is Some
    &&& spec_opt_milli(pairs@, "wind_speed"@) is Some
    &&& spec_opt_milli(pairs@, "blade_height"@) is Some
    &&& spec_opt_milli(pairs@, "blade_width"@) is Some
    &&& spec_opt_milli(pairs@, "blade_density"@) is Some
    &&& spec_opt_milli(pairs@, "render_distance"@) is Some
}

/// Decodes a configure-grass payload.
pub fn decode_grass(v: &Value) -> (r: Option<GrassArgs>)
    ensures
        match r {
            Some(a) => grass_args_ok(*v, a),
            None => !grass_decodable(*v),
        },
{
    let pairs = match v {
        Value::Obj(pairs) => pairs,
        _ => { return None; },
    };
    let component_id = match get_opt_string(pairs, "componentId") {
        Some(x) => x,
        None => { return None; },
    };
    let wind_strength = match get_opt_milli(pairs, "wind_strength") {
        Some(x) => x,
        None => { return None; },
    };
    let wind_speed = match get_opt_milli(pairs, "wind_speed") {
        Some(x) => x,
        None => { return None; },
    };
    let blade_height = match get_opt_milli(pairs, "blade_height") {
        Some(x) => x,
        None => { return None; },
    };
    let blade_width = match get_opt_milli(pairs, "blade_width") {
        Some(x) => x,
        None => { return None; },
    };
    let blade_density = match get_opt_milli(pairs, "blade_density") {
        Some(x) => x,
        None => { return None; },
    };
    let render_distance = match get_opt_milli(pairs, "render_distance") {
        Some(x) => x,
        None => { return None; },
    };
    Some(GrassArgs { component_id, wind_strength, wind_speed, blade_height, blade_width, blade_density, render_distance })
}

/// What a decoded spawn-model record holds, field by field.
pub open spec fn model_args_ok(v: Value, a: ModelArgs) -> bool {
    &&& v matches Value::Obj(pairs)
    &&& spec_req_string(pairs@, "assetId"@) == Some(a.asset_id)
    &&& spec_opt_vec3(pairs@, "position"@) == Some(a.position)
    &&& spec_opt_vec3(pairs@, "rotation"@) == Some(a.rotation)
    &&& spec_opt_vec3(pairs@, "scale"@) == Some(a.scale)
}

/// Whether a spawn-model payload decodes at all.
pub open spec fn model_decodable(v: Value) -> bool {
    &&& v matches Value::Obj(pairs)
    &&& spec_req_string(pairs@, "assetId"@) is Some
    &&& spec_opt_vec3(pairs@, "position"@) is Some
    &&& spec_opt_vec3(pairs@, "rotation"@) is Some
    &&& spec_opt_vec3(pairs@, "scale"@) is Some
}

/// Decodes a spawn-model payload.
pub fn decode_model(v: &Value) -> (r: Option<ModelArgs>)
    ensures
        match r {
            Some(a) => model_args_ok(*v, a),
            None => !model_decodable(*v),
        },
{
    let pairs = match v {
        Value::Obj(pairs) => pairs,
        _ => { return None; },
    };
    let asset_id = match get_req_string(pairs, "assetId") {
        Some(s) => s,
        None => { return None; },
    };
    let position = match get_opt_vec3(pairs, "position") {
        Some(x) => x,
        None => { return None; },
    };
    let rotation = match get_opt_vec3(pairs, "rotation") {
        Some(x) => x,
        None => { return None; },
    };
    let scale = match get_opt_vec3(pairs, "scale") {
        Some(x) => x,
        None => { return None; },
    };
    Some(ModelArgs { asset_id, position, rotation, scale })
}

/// What a decoded spawn-point-light record holds, field by field.
pub open spec fn light_args_ok(v: Value, a: LightArgs) -> bool {
    &&& v matches Value::Obj(pairs)
    &&& spec_req_vec3(pairs@, "position"@) == Some(a.position)
    &&& spec_opt_vec3(pairs@, "color"@) == Some(a.color)
    &&& spec_opt_milli(pairs@, "intensity"@) == Some(a.intensity)
    &&& spec_opt_milli(pairs@, "radius"@) == Some(a.radius)
}

/// Whether a spawn-point-light payload decodes at all.
pub open spec fn light_decodable(v: Value) -> bool {
    &&& v matches Value::Obj(pairs)
    &&& spec_req_vec3(pairs@, "position"@) is Some
    &&& spec_opt_vec3(pairs@, "color"@) is Some
    &&& spec_opt_milli(pairs@, "intensity"@) is Some
    &&& spec_opt_milli(pairs@, "radius"@) is Some
}

/// Decodes a spawn-point-light payload.
pub fn decode_light(v: &Value) -> (r: Option<LightArgs>)
    ensures
        match r {
            Some(a) => light_args_ok(*v, a),
            None => !light_decodable(*v),
        },
{
    let pairs = match v {
        Value::Obj(pairs) => pairs,
        _ => { return None; },
    };
    let position = match get_req_vec3(pairs, "position") {
        Some(x) => x,
        None => { return None; },
    };
    let color = match get_opt_vec3(pairs, "color") {
        Some(x) => x,
        None => { return None; },
    };
    let intensity = match get_opt_milli(pairs, "intensity") {
        Some(x) => x,
        None => { return None; },
    };
    let radius = match get_opt_milli(pairs, "radius") {
        Some(x) => x,
        None => { return None; },
    };
    Some(LightArgs { position, color, intensity, radius })
}

/// What a decoded spawn-collectable record holds, field by field.
pub open spec fn collectable_args_ok(v: Value, a: CollectableArgs) -> bool {
    &&& v matches Value::Obj(pairs)
    &&& spec_req_string(pairs@, "assetId"@) == Some(a.asset_id)
    &&& spec_req_string(pairs@, "type"@) == Some(a.kind_name)
    &&& spec_opt_vec3(pairs@, "position"@) == Some(a.position)
    &&& spec_opt_vec3(pairs@, "rotation"@) == Some(a.rotation)
    &&& spec_opt_vec3(pairs@, "scale"@) == Some(a.scale)
}

/// Whether a spawn-collectable payload decodes at all.
pub open spec fn collectable_decodable(v: Value) -> bool {
    &&& v matches Value::Obj(pairs)
    &&& spec_req_string(pairs@, "assetId"@) is Some
    &&& spec_req_string(pairs@, "type"@) is Some
    &&& spec_opt_vec3(pairs@, "position"@) is Some
    &&& spec_opt_vec3(pairs@, "rotation"@) is Some
    &&& spec_opt_vec3(pairs@, "scale"@) is Some
}

/// Decodes a spawn-collectable payload.
pub fn decode_collectable(v: &Value) -> (r: Option<CollectableArgs>)
    ensures
        match r {
            Some(a) => collectable_args_ok(*v, a),
            None => !collectable_decodable(*v),
        },
{
    let pairs = match v {
        Value::Obj(pairs) => pairs,
        _ => { return None; },
    };
    let asset_id = match get_req_string(pairs, "assetId") {
        Some(s) => s,
        None => { return None; },
    };
    let kind_name = match get_req_string(pairs, "type") {
        Some(s) => s,
        None => { return None; },
    };
    let position = match get_opt_vec3(pairs, "position") {
        Some(x) => x,
        None => { return None; },
    };
    let rotation = match get_opt_vec3(pairs, "rotation") {
        Some(x) => x,
        None => { return None; },
    };
    let scale = match get_opt_vec3(pairs, "scale") {
        Some(x) => x,
        None => { return None; },
    };
    Some(CollectableArgs { asset_id, kind_name, position, rotation, scale })
}

/// What a decoded spawn-NPC record holds, field by field.
pub open spec fn npc_args_ok(v: Value, a: NpcArgs) -> bool {
    &&& v matches Value::Obj(pairs)
    &&& spec_req_string(pairs@, "assetId"@) == Some(a.asset_id)
    &&& spec_opt_vec3(pairs@, "position"@) == Some(a.position)
    &&& spec_opt_vec3(pairs@, "rotation"@) == Some(a.rotation)
    &&& spec_opt_vec3(pairs@, "scale"@) == Some(a.scale)
    &&& spec_opt_milli(pairs@, "aggressiveness"@) == Some(a.aggressiveness)
    &&& spec_opt_string(pairs@, "combat_type"@) == Some(a.combat_type)
    &&& spec_opt_milli(pairs@, "wander_radius"@) == Some(a.wander_radius)
    &&& spec_opt_milli(pairs@, "wander_speed"@) == Some(a.wander_speed)
    &&& spec_opt_milli(pairs@, "detection_radius"@) == Some(a.detection_radius)
    &&& spec_opt_milli(pairs@, "damage"@) == Some(a.damage)
    &&& spec_opt_milli(pairs@, "health"@) == Some(a.health)
}

/// Whether a spawn-NPC payload decodes at all.
pub open spec fn npc_decodable(v: Value) -> bool {
    &&& v matches Value::Obj(pairs)
    &&& spec_req_string(pairs@, "assetId"@) is Some
    &&& spec_opt_vec3(pairs@, "position"@) is Some
    &&& spec_opt_vec3(pairs@, "rotation"@) is Some
    &&& spec_opt_vec3(pairs@, "scale"@) is Some
    &&& spec_opt_milli(pairs@, "aggressiveness"@) is Some
    &&& spec_opt_string(pairs@, "combat_type"@) is Some
    &&& spec_opt_milli(pairs@, "wander_radius"@) is Some
    &&& spec_opt_milli(pairs@, "wander_speed"@) is Some
    &&& spec_opt_milli(pairs@, "detection_radius"@) is Some
    &&& spec_opt_milli(pairs@, "damage"@) is Some
    &&& spec_opt_milli(pairs@, "health"@) is Some
}

/// Decodes a spawn-NPC payload.
pub fn decode_npc(v: &Value) -> (r: Option<NpcArgs>)
    ensures
        match r {
            Some(a) => npc_args_ok(*v, a),
            None => !npc_decodable(*v),
        },
{
    let pairs = match v {
        Value::Obj(pairs) => pairs,
        _ => { return None; },
    };
    let asset_id = match get_req_string(pairs, "assetId") {
        Some(s) => s,
        None => { return None; },
    };
    let position = match get_opt_vec3(pairs, "position") {
        Some(x) => x,
        None => { return None; },
    };
    let rotation = match get_opt_vec3(pairs, "rotation") {
        Some(x) => x,
        None => { return None; },
    };
    let scale = match get_opt_vec3(pairs, "scale") {
        Some(x) => x,
        None => { return None; },
    };
    let aggressiveness = match get_opt_milli(pairs, "aggressiveness") {
        Some(x) => x,
        None => { return None; },
    };
    let combat_type = match get_opt_string(pairs, "combat_type") {
        Some(x) => x,
        None => { return None; },
    };
    let wander_radius = match get_opt_milli(pairs, "wander_radius") {
        Some(x) => x,
        None => { return None; },
    };
    let wander_speed = match get_opt_milli(pairs, "wander_speed") {
        Some(x) => x,
        None => { return None; },
    };
    let detection_radius = match get_opt_milli(pairs, "detection_radius") {
        Some(x) => x,
        None => { return None; },
    };
    let damage = match get_opt_milli(pairs, "damage") {
        Some(x) => x,
        None => { return None; },
    };
    let health = match get_opt_milli(pairs, "health") {
        Some(x) => x,
        None => { return None; },
    };
    Some(NpcArgs {
        asset_id,
        position,
        rotation,
        scale,
        aggressiveness,
        combat_type,
        wander_radius,
        wander_speed,
        detection_radius,
        damage,
        health,
    })
}

/// What a decoded spawn-primitive record holds, field by field.
pub open spec fn primitive_args_ok(v: Value, a: PrimitiveArgs) -> bool {
    &&& v matches Value::Obj(pairs)
    &&& spec_req_string(pairs@, "type"@) == Some(a.shape)
    &&& spec_req_vec3(pairs@, "position"@) == Some(a.position)
    &&& spec_opt_vec3(pairs@, "scale"@) == Some(a.scale)
}

/// Whether a spawn-primitive payload decodes at all.
pub open spec fn primitive_decodable(v: Value) -> bool {
    &&& v matches Value::Obj(pairs)
    &&& spec_req_string(pairs@, "type"@) is Some
    &&& spec_req_vec3(pairs@, "position"@) is Some
    &&& spec_opt_vec3(pairs@, "scale"@) is Some
}

/// Decodes a spawn-primitive payload.
pub fn decode_primitive(v: &Value) -> (r: Option<PrimitiveArgs>)
    ensures
        match r {
            Some(a) => primitive_args_ok(*v, a),
            None => !primitive_decodable(*v),
        },
{
    let pairs = match v {
        Value::Obj(pairs) => pairs,
        _ => { return None; },
    };
    let shape = match get_req_string(pairs, "type") {
        Some(s) => s,
        None => { return None; },
    };
    let position = match get_req_vec3(pairs, "position") {
        Some(x) => x,
        None => { return None; },
    };
    let scale = match get_opt_vec3(pairs, "scale") {
        Some(x) => x,
        None => { return None; },
    };
    Some(PrimitiveArgs { shape, position, scale })
}

/// What a decoded save-script record holds, field by field.
pub open spec fn script_args_ok(v: Value, a: ScriptArgs) -> bool {
    &&& v matches Value::Obj(pairs)
    &&& spec_req_string(pairs@, "filename"@) == Some(a.filename)
    &&& spec_req_string(pairs@, "content"@) == Some(a.content)
    &&& spec_opt_string(pairs@, "componentId"@) == Some(a.component_id)
}

/// Whether a save-script payload decodes at all.
pub open spec fn script_decodable(v: Value) -> bool {
    &&& v matches Value::Obj(pairs)
    &&& spec_req_string(pairs@, "filename"@) is Some
    &&& spec_req_string(pairs@, "content"@) is Some
    &&& spec_opt_string(pairs@, "componentId"@) is Some
}

/// Decodes a save-script payload.
pub fn decode_script(v: &Value) -> (r: Option<ScriptArgs>)
    ensures
        match r {
            Some(a) => script_args_ok(*v, a),
            None => !script_decodable(*v),
        },
{
    let pairs = match v {
        Value::Obj(pairs) => pairs,
        _ => { return None; },
    };
    let filename = match get_req_string(pairs, "filename") {
        Some(s) => s,
        None => { return None; },
    };
    let content = match get_req_string(pairs, "content") {
        Some(s) => s,
        None => { return None; },
    };
    let component_id = match get_opt_string(pairs, "componentId") {
        Some(x) => x,
        None => { return None; },
    };
    Some(ScriptArgs { filename, content, component_id })
}

/// Every element of a feature list decodes into the matching element of
/// the argument list.
pub open spec fn features_ok(items: Seq<Value>, fs: Seq<FeatureArgs>) -> bool {
    fs.len() == items.len() && forall|i: int| 0 <= i < items.len()
        ==> feature_args_ok(items[i], #[trigger] fs[i])
}

/// Every element of a feature list decodes.
pub open spec fn features_decodable(items: Seq<Value>) -> bool {
    forall|i: int| 0 <= i < items.len() ==> feature_decodable(#[trigger] items[i])
}

/// What one decoded terrain feature holds, field by field.
pub open spec fn feature_args_ok(v: Value, f: FeatureArgs) -> bool {
    &&& v matches Value::Obj(pairs)
    &&& spec_req_string(pairs@, "type"@) == Some(f.kind_name)
    &&& spec_req_vec2(pairs@, "center"@) == Some(f.center)
    &&& spec_req_milli(pairs@, "radius"@) == Some(f.radius)
    &&& spec_req_milli(pairs@, "intensity"@) == Some(f.intensity)
    &&& spec_req_string(pairs@, "falloff"@) == Some(f.falloff_name)
    &&& spec_opt_milli(pairs@, "flat_top"@) == Some(f.flat_top)
    &&& spec_opt_milli(pairs@, "transition"@) == Some(f.transition)
}

/// Whether one terrain feature decodes at all.
pub open spec fn feature_decodable(v: Value) -> bool {
    &&& v matches Value::Obj(pairs)
    &&& spec_req_string(pairs@, "type"@) is Some
    &&& spec_req_vec2(pairs@, "center"@) is Some
    &&& spec_req_milli(pairs@, "radius"@) is Some
    &&& spec_req_milli(pairs@, "intensity"@) is Some
    &&& spec_req_string(pairs@, "falloff"@) is Some
    &&& spec_opt_milli(pairs@, "flat_top"@) is Some
    &&& spec_opt_milli(pairs@, "transition"@) is Some
}

fn decode_feature(v: &Value) -> (r: Option<FeatureArgs>)
    ensures
        match r {
            Some(f) => feature_args_ok(*v, f),
            None => !feature_decodable(*v),
        },
{
    let pairs = match v {
        Value::Obj(pairs) => pairs,
        _ => { return None; },
    };
    let kind_name = match get_req_string(pairs, "type") {
        Some(s) => s,
        None => { return None; },
    };
    let center = match get_req_vec2(pairs, "center") {
        Some(x) => x,
        None => { return None; },
    };
    let radius = match get_req_milli(pairs, "radius") {
        Some(x) => x,
        None => { return None; },
    };
    let intensity = match get_req_milli(pairs, "intensity") {
        Some(x) => x,
        None => { return None; },
    };
    let falloff_name = match get_req_string(pairs, "falloff") {
        Some(s) => s,
        None => { return None; },
    };
    let flat_top = match get_opt_milli(pairs, "flat_top") {
        Some(x) => x,
        None => { return None; },
    };
    let transition = match get_opt_milli(pairs, "transition") {
        Some(x) => x,
        None => { return None; },
    };
    Some(FeatureArgs { kind_name, center, radius, intensity, falloff_name, flat_top, transition })
}

/// What a decoded generate-heightmap record holds, field by field; the
/// feature list is matched element by element.
pub open spec fn heightmap_args_ok(v: Value, a: HeightmapArgs) -> bool {
    &&& v matches Value::Obj(pairs)
    &&& spec_opt_string(pairs@, "componentId"@) == Some(a.component_id)
    &&& spec_opt_count(pairs@, "seed"@) == Some(a.seed)
    &&& spec_opt_milli(pairs@, "scale"@) == Some(a.scale)
    &&& spec_opt_milli(pairs@, "persistence"@) == Some(a.persistence)
    &&& spec_opt_milli(pairs@, "lacunarity"@) == Some(a.lacunarity)
    &&& match spec_field(pairs@, "features"@) {
        None => a.features is None,
        Some(Value::Arr(items)) => a.features matches Some(fs) && features_ok(items@, fs@),
        Some(_) => false,
    }
}

/// Whether a generate-heightmap payload decodes at all.
pub open spec fn heightmap_decodable(v: Value) -> bool {
    &&& v matches Value::Obj(pairs)
    &&& spec_opt_string(pairs@, "componentId"@) is Some
    &&& spec_opt_count(pairs@, "seed"@) is Some
    &&& spec_opt_milli(pairs@, "scale"@) is Some
    &&& spec_opt_milli(pairs@, "persistence"@) is Some
    &&& spec_opt_milli(pairs@, "lacunarity"@) is Some
    &&& match spec_field(pairs@, "features"@) {
        None => true,
        Some(Value::Arr(items)) => features_decodable(items@),
        Some(_) => false,
    }
}

/// Decodes a generate-heightmap payload.
pub fn decode_heightmap(v: &Value) -> (r: Option<HeightmapArgs>)
    ensures
        match r {
            Some(a) => heightmap_args_ok(*v, a),
            None => !heightmap_decodable(*v),
        },
{
    let pairs = match v {
        Value::Obj(pairs) => pairs,
        _ => { return None; },
    };
    let component_id = match get_opt_string(pairs, "componentId") {
        Some(x) => x,
        None => { return None; },
    };
    let seed = match get_opt_count(pairs, "seed") {
        Some(x) => x,
        None => { return None; },
    };
    let scale = match get_opt_milli(pairs, "scale") {
        Some(x) => x,
        None => { return None; },
    };
    let persistence = match get_opt_milli(pairs, "persistence") {
        Some(x) => x,
        None => { return None; },
    };
    let lacunarity = match get_opt_milli(pairs, "lacunarity") {
        Some(x) => x,
        None => { return None; },
    };
    let features: Option<Vec<FeatureArgs>> = match get_field(pairs, "features") {
        None => None,
        Some(fv) => match fv {
            Value::Arr(items) => {
                let mut fs: Vec<FeatureArgs> = Vec::new();
                let mut i: usize = 0;
                while i < items.len()
                    invariant
                        0 <= i <= items@.len(),
                        fs@.len() == i,
                        v matches Value::Obj(prs) && spec_field(prs@, "features"@) == Some(Value::Arr(*items)),
                        forall|k: int| 0 <= k < i ==> feature_args_ok(items@[k], #[trigger] fs@[k]),
                    decreases items@.len() - i,
                {
                    match decode_feature(&items[i]) {
                        Some(f) => fs.push(f),
                        None => {
                            proof {
                                assert(!feature_decodable(items@[i as int]));
                                assert(!features_decodable(items@));
                            }
                            return None;
                        },
                    }
                    i = i + 1;
                }
                Some(fs)
            },
            _ => { return None; },
        },
    };
    Some(HeightmapArgs { component_id, seed, scale, persistence, lacunarity, features })
}

// ------------------------------------------------------------------
// The command itself
// ------------------------------------------------------------------

/// A decoded command: the kind tag and its typed arguments.
#[derive(Debug, PartialEq)]
pub enum Command {
    Transform(TransformArgs),
    ConfigureWater(WaterArgs),
    ConfigureSky(SkyArgs),
    ConfigureTrees(TreesArgs),
    ConfigureGrass(GrassArgs),
    SpawnModel(ModelArgs),
    SpawnPointLight(LightArgs),
    SpawnCollectable(CollectableArgs),
    SpawnNpc(NpcArgs),
    SpawnPrimitive(PrimitiveArgs),
    SaveScript(ScriptArgs),
    GenerateHeightmap(HeightmapArgs),
}

/// Whether a decoded command matches the named command and its payload.
pub open spec fn command_ok(name: Seq<char>, v: Value, c: Command) -> bool {
    if name == "transformObject"@ {
        c matches Command::Transform(a) && transform_args_ok(v, a)
    } else if name == "configureWater"@ {
        c matches Command::ConfigureWater(a) && water_args_ok(v, a)
    } else if name == "configureSky"@ {
        c matches Command::ConfigureSky(a) && sky_args_ok(v, a)
    } else if name == "configureTrees"@ {
        c matches Command::ConfigureTrees(a) && trees_args_ok(v, a)
    } else if name == "configureGrass"@ {
        c matches Command::ConfigureGrass(a) && grass_args_ok(v, a)
    } else if name == "spawnModel"@ {
        c matches Command::SpawnModel(a) && model_args_ok(v, a)
    } else if name == "spawnPointLight"@ {
        c matches Command::SpawnPointLight(a) && light_args_ok(v, a)
    } else if name == "spawnCollectable"@ {
        c matches Command::SpawnCollectable(a) && collectable_args_ok(v, a)
    } else if name == "spawnNPC"@ {
        c matches Command::SpawnNpc(a) && npc_args_ok(v, a)
    } else if name == "spawnPrimitive"@ {
        c matches Command::SpawnPrimitive(a) && primitive_args_ok(v, a)
    } else if name == "saveScript"@ {
        c matches Command::SaveScript(a) && script_args_ok(v, a)
    } else if name == "generateHeightmap"@ {
        c matches Command::GenerateHeightmap(a) && heightmap_args_ok(v, a)
    } else {
        false
    }
}

/// Whether the named command exists and its payload decodes.  An unknown
/// name or a malformed payload makes the whole dispatch a no-op.
pub open spec fn command_decodable(name: Seq<char>, v: Value) -> bool {
    if name == "transformObject"@ {
        transform_decodable(v)
    } else if name == "configureWater"@ {
        water_decodable(v)
    } else if name == "configureSky"@ {
        sky_decodable(v)
    } else if name == "configureTrees"@ {
        trees_decodable(v)
    } else if name == "configureGrass"@ {
        grass_decodable(v)
    } else if name == "spawnModel"@ {
        model_decodable(v)
    } else if name == "spawnPointLight"@ {
        light_decodable(v)
    } else if name == "spawnCollectable"@ {
        collectable_decodable(v)
    } else if name == "spawnNPC"@ {
        npc_decodable(v)
    } else if name == "spawnPrimitive"@ {
        primitive_decodable(v)
    } else if name == "saveScript"@ {
        script_decodable(v)
    } else if name == "generateHeightmap"@ {
        heightmap_decodable(v)
    } else {
        false
    }
}

/// Decodes a named command and its payload.
pub fn decode_command(name: &str, v: &Value) -> (r: Option<Command>)
    ensures
        match r {
            Some(c) => command_ok(name@, *v, c),
            None => !command_decodable(name@, *v),
        },
{
    if str_eq(name, "transformObject") {
        match decode_transform(v) {
            Some(a) => Some(Command::Transform(a)),
            None => None,
        }
    } else if str_eq(name, "configureWater") {
        match decode_water(v) {
            Some(a) => Some(Command::ConfigureWater(a)),
            None => None,
        }
    } else if str_eq(name, "configureSky") {
        match decode_sky(v) {
            Some(a) => Some(Command::ConfigureSky(a)),
            None => None,
        }
    } else if str_eq(name, "configureTrees") {
        match decode_trees(v) {
            Some(a) => Some(Command::ConfigureTrees(a)),
            None => None,
        }
    } else if str_eq(name, "configureGrass") {
        match decode_grass(v) {
            Some(a) => Some(Command::ConfigureGrass(a)),
            None => None,
        }
    } else if str_eq(name, "spawnModel") {
        match decode_model(v) {
            Some(a) => Some(Command::SpawnModel(a)),
            None => None,
        }
    } else if str_eq(name, "spawnPointLight") {
        match decode_light(v) {
            Some(a) => Some(Command::SpawnPointLight(a)),
            None => None,
        }
    } else if str_eq(name, "spawnCollectable") {
        match decode_collectable(v) {
            Some(a) => Some(Command::SpawnCollectable(a)),
            None => None,
        }
    } else if str_eq(name, "spawnNPC") {
        match decode_npc(v) {
            Some(a) => Some(Command::SpawnNpc(a)),
            None => None,
        }
    } else if str_eq(name, "spawnPrimitive") {
        match decode_primitive(v) {
            Some(a) => Some(Command::SpawnPrimitive(a)),
            None => None,
        }
    } else if str_eq(name, "saveScript") {
        match decode_script(v) {
            Some(a) => Some(Command::SaveScript(a)),
            None => None,
        }
    } else if str_eq(name, "generateHeightmap") {
        match decode_heightmap(v) {
            Some(a) => Some(Command::GenerateHeightmap(a)),
            None => None,
        }
    } else {
        None
    }
}

} // verus!
