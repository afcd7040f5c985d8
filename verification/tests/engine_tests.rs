use glam::{EulerRot, FloatExt};
use palette::{FromColor, Hsv, Mix, Srgb};
use tracks_rs::easings::functions::Functions;
use tracks_rs::error::TracksError;
use tracks_rs::float_unit::{Quad, Work};
use tracks_rs::json::{JsonValue, JsonValueType};
use tracks_rs::modifiers::operation::Operation;
use tracks_rs::modifiers::{Modifier, ModifierValues};
use tracks_rs::point_data::PointData;
use tracks_rs::point_definition::base_point_definition::BasePointDefinition;
use tracks_rs::point_definition::float_point_definition::FloatPointDefinition;
use tracks_rs::point_definition::quaternion_point_definition::QuaternionPointDefinition;
use tracks_rs::point_definition::vector3_point_definition::Vector3PointDefinition;
use tracks_rs::point_definition::vector4_point_definition::Vector4PointDefinition;
use tracks_rs::point_definition::{group_values, GroupType};
use tracks_rs::values::base::{head, BaseProviderValues};
use tracks_rs::values::base_provider_context::{slot_index, BaseProviderContext, SLOT_COUNT};
use tracks_rs::values::deserialize::deserialize_values;
use tracks_rs::values::quat::QuaternionProviderValues;
use tracks_rs::values::smooth::SmoothProvidersValues;
use tracks_rs::values::smooth_rot::SmoothRotationProvidersValues;
use tracks_rs::values::static_values::StaticValues;
use tracks_rs::values::updatable::PartialProviderValues;
use tracks_rs::values::value::{BaseValue, Quat, Vec3, Vec4, WrapBaseValueType};
use tracks_rs::values::{JsonPointValues, UpdatableProviderContext, UpdatableValueProvider, ValueProvider};

fn bits(x: f32) -> u32 {
    x.to_bits()
}

fn num(b: u32) -> f32 {
    f32::from_bits(b)
}

fn one(x: f32) -> Quad {
    Quad { x: bits(x), y: 0, z: 0, w: 0 }
}

fn four(x: f32, y: f32, z: f32, w: f32) -> Quad {
    Quad { x: bits(x), y: bits(y), z: bits(z), w: bits(w) }
}

fn v3(x: f32, y: f32, z: f32) -> Vec3 {
    Vec3 { x: bits(x), y: bits(y), z: bits(z) }
}

fn v4(x: f32, y: f32, z: f32, w: f32) -> Vec4 {
    Vec4 { x: bits(x), y: bits(y), z: bits(z), w: bits(w) }
}

fn g3(v: Vec3) -> glam::Vec3 {
    glam::Vec3::new(num(v.x), num(v.y), num(v.z))
}

fn g4(v: Vec4) -> glam::Vec4 {
    glam::Vec4::new(num(v.x), num(v.y), num(v.z), num(v.w))
}

fn gq(q: Quat) -> glam::Quat {
    glam::Quat::from_xyzw(num(q.x), num(q.y), num(q.z), num(q.w))
}

fn ease(f: Functions, p: f32) -> f32 {
    match f {
        Functions::EaseLinear => p,
        Functions::EaseStep => p.floor(),
        Functions::EaseInQuad => p * p,
        Functions::EaseOutQuad => -(p * (p - 2.0)),
        Functions::EaseInCubic => p * p * p,
        _ => p,
    }
}

fn unit(work: Work) -> Quad {
    match work {
        Work::Add(a, b) => one(num(a) + num(b)),
        Work::Sub(a, b) => one(num(a) - num(b)),
        Work::Mul(a, b) => one(num(a) * num(b)),
        Work::Div(a, b) => one(num(a) / num(b)),
        Work::Ease(f, u) => one(ease(f, num(u))),
        Work::Lerp(a, b, t) => match (a, b) {
            (BaseValue::Float(x), BaseValue::Float(y)) => one(num(x).lerp(num(y), num(t))),
            (BaseValue::Vector3(x), BaseValue::Vector3(y)) => {
                let r = g3(x).lerp(g3(y), num(t));
                four(r.x, r.y, r.z, 0.0)
            }
            (BaseValue::Vector4(x), BaseValue::Vector4(y)) => {
                let r = g4(x).lerp(g4(y), num(t));
                four(r.x, r.y, r.z, r.w)
            }
            (BaseValue::Quaternion(x), BaseValue::Quaternion(y)) => {
                let r = gq(x).slerp(gq(y), num(t));
                four(r.x, r.y, r.z, r.w)
            }
            _ => one(0.0),
        },
        Work::LerpHsv(a, b, t) => {
            let c1 = g4(a);
            let c2 = g4(b);
            let s = num(t);
            let h1: Hsv = Hsv::from_color(Srgb::new(c1.x, c1.y, c1.z));
            let h2: Hsv = Hsv::from_color(Srgb::new(c2.x, c2.y, c2.z));
            let rgb: Srgb = Srgb::from_color(h1.mix(h2, s));
            four(rgb.red, rgb.green, rgb.blue, c1.w * (1.0 - s) + c2.w * s)
        }
        Work::FromEuler(v) => {
            let a = g3(v);
            let q = glam::Quat::from_euler(EulerRot::XYZ, a.x.to_radians(), a.y.to_radians(), a.z.to_radians());
            four(q.x, q.y, q.z, q.w)
        }
        Work::ToEuler(q) => {
            let (x, y, z) = gq(q).to_euler(EulerRot::XYZ);
            four(x.to_degrees(), y.to_degrees(), z.to_degrees(), 0.0)
        }
    }
}

fn n(x: f32) -> JsonValue {
    JsonValue::Number(bits(x))
}

fn s(text: &str) -> JsonValue {
    JsonValue::String(text.to_string())
}

fn arr(items: Vec<JsonValue>) -> JsonValue {
    JsonValue::Array(items)
}

fn close(a: f32, b: f32) -> bool {
    (a - b).abs() < 1e-5
}

fn ramp() -> JsonValue {
    arr(vec![
        arr(vec![n(1.0), n(0.0)]),
        arr(vec![n(3.0), n(0.25)]),
        arr(vec![n(-2.0), n(0.5), s("easeInQuad")]),
        arr(vec![n(8.0), n(1.0)]),
    ])
}

#[test]
fn before_first_time_yields_first_keyframe() {
    let context = BaseProviderContext::new();
    let curve = FloatPointDefinition::new(&ramp(), &context).unwrap();
    for t in [-10.0f32, -0.5, 0.0, -0.0] {
        assert_eq!(curve.interpolate(bits(t), &context, &unit), Ok((bits(1.0), false)));
    }
}

#[test]
fn after_last_time_yields_last_keyframe_as_final() {
    let context = BaseProviderContext::new();
    let curve = FloatPointDefinition::new(&ramp(), &context).unwrap();
    for t in [1.0f32, 1.5, 100.0, f32::INFINITY] {
        assert_eq!(curve.interpolate(bits(t), &context, &unit), Ok((bits(8.0), true)));
    }
}

#[test]
fn single_keyframe_at_its_time_is_final() {
    let context = BaseProviderContext::new();
    let curve = FloatPointDefinition::new(&arr(vec![arr(vec![n(7.0), n(2.0)])]), &context).unwrap();
    assert_eq!(curve.interpolate(bits(2.0), &context, &unit), Ok((bits(7.0), true)));
    assert_eq!(curve.interpolate(bits(1.0), &context, &unit), Ok((bits(7.0), false)));
}

#[test]
fn repeated_queries_agree() {
    let context = BaseProviderContext::new();
    let curve = FloatPointDefinition::new(&ramp(), &context).unwrap();
    for t in [0.1f32, 0.3, 0.6, 0.99] {
        let first = curve.interpolate(bits(t), &context, &unit);
        let second = curve.interpolate(bits(t), &context, &unit);
        assert_eq!(first, second);
        assert!(first.is_ok());
    }
}

#[test]
fn keyframe_times_reproduce_keyframe_values() {
    let context = BaseProviderContext::new();
    let curve = FloatPointDefinition::new(&ramp(), &context).unwrap();
    let expected = [(0.0f32, 1.0f32, false), (0.25, 3.0, false), (0.5, -2.0, false), (1.0, 8.0, true)];
    for (t, v, last) in expected {
        let (value, is_last) = curve.interpolate(bits(t), &context, &unit).unwrap();
        assert!(close(num(value), v));
        assert_eq!(is_last, last);
    }
}

#[test]
fn segment_uses_easing_of_right_keyframe() {
    let context = BaseProviderContext::new();
    let curve = FloatPointDefinition::new(&ramp(), &context).unwrap();
    // between 0.25 and 0.5 the right keyframe eases in quadratically
    let (value, _) = curve.interpolate(bits(0.375), &context, &unit).unwrap();
    let u = (0.375f32 - 0.25) / (0.5 - 0.25);
    let expected = 3.0f32.lerp(-2.0, u * u);
    assert_eq!(value, bits(expected));
    // between 0 and 0.25 the blend is linear
    let (value, _) = curve.interpolate(bits(0.125), &context, &unit).unwrap();
    assert_eq!(value, bits(1.0f32.lerp(3.0, 0.5)));
}

#[test]
fn search_index_finds_the_neighbours() {
    let context = BaseProviderContext::new();
    let curve = BasePointDefinition::new(WrapBaseValueType::Float, &ramp(), &context).unwrap();
    assert_eq!(curve.search_index(bits(0.1)), (0, 1));
    assert_eq!(curve.search_index(bits(0.25)), (0, 1));
    assert_eq!(curve.search_index(bits(0.26)), (1, 2));
    assert_eq!(curve.search_index(bits(0.5)), (1, 2));
    assert_eq!(curve.search_index(bits(0.75)), (2, 3));
    assert_eq!(curve.get_points().len(), 4);
}

#[test]
fn empty_curve_yields_zero() {
    let context = BaseProviderContext::new();
    let json = arr(vec![arr(vec![s("easeLinear")]), JsonValue::Null]);
    let floats = FloatPointDefinition::new(&json, &context).unwrap();
    assert_eq!(floats.get_count(), 0);
    assert_eq!(floats.interpolate(bits(0.5), &context, &unit), Ok((0, false)));
    let vectors = Vector3PointDefinition::new(&json, &context).unwrap();
    assert_eq!(vectors.interpolate(bits(0.5), &context, &unit), Ok((v3(0.0, 0.0, 0.0), false)));
    let colors = Vector4PointDefinition::new(&json, &context).unwrap();
    assert_eq!(colors.interpolate(bits(0.5), &context, &unit), Ok((v4(0.0, 0.0, 0.0, 0.0), false)));
    let rotations = QuaternionPointDefinition::new(&json, &context).unwrap();
    let identity = Quat { x: 0, y: 0, z: 0, w: bits(1.0) };
    assert_eq!(rotations.interpolate(bits(0.5), &context, &unit), Ok((identity, false)));
}

#[test]
fn rotation_blend_stays_unit_length() {
    let context = BaseProviderContext::new();
    let json = arr(vec![
        arr(vec![n(0.0), n(0.0), n(0.0), n(0.0)]),
        arr(vec![n(30.0), n(90.0), n(-45.0), n(1.0)]),
    ]);
    let curve = QuaternionPointDefinition::new(&json, &context).unwrap();
    for t in [0.0f32, 0.1, 0.5, 0.9, 1.0] {
        let (q, _) = curve.interpolate(bits(t), &context, &unit).unwrap();
        assert!(close(gq(q).length(), 1.0));
    }
    let (end, last) = curve.interpolate(bits(1.0), &context, &unit).unwrap();
    let expected = glam::Quat::from_euler(
        EulerRot::XYZ,
        30.0f32.to_radians(),
        90.0f32.to_radians(),
        (-45.0f32).to_radians(),
    );
    assert!(last);
    assert!(gq(end).abs_diff_eq(expected, 1e-5));
}

#[test]
fn raw_rotation_keyframe_takes_four_numbers() {
    let context = BaseProviderContext::new();
    let json = arr(vec![arr(vec![n(0.0), n(0.0), n(0.0), n(1.0), n(0.0)])]);
    let curve = QuaternionPointDefinition::new(&json, &context).unwrap();
    let (q, _) = curve.interpolate(bits(0.0), &context, &unit).unwrap();
    assert!(gq(q).abs_diff_eq(glam::Quat::IDENTITY, 1e-6));
}

#[test]
fn hsv_blend_keeps_achromatic_colours() {
    let context = BaseProviderContext::new();
    let json = arr(vec![
        arr(vec![n(0.0), n(0.0), n(0.0), n(0.2), n(0.0)]),
        arr(vec![n(0.0), n(0.0), n(0.0), n(1.0), n(1.0), s("lerpHSV")]),
    ]);
    let curve = Vector4PointDefinition::new(&json, &context).unwrap();
    for t in [0.25f32, 0.5, 0.75] {
        let (c, _) = curve.interpolate(bits(t), &context, &unit).unwrap();
        let c = g4(c);
        assert!(close(c.x, 0.0) && close(c.y, 0.0) && close(c.z, 0.0));
        assert!(close(c.w, 0.2 * (1.0 - t) + 1.0 * t));
    }
}

#[test]
fn hsv_blend_goes_round_the_shorter_arc() {
    let context = BaseProviderContext::new();
    // red to blue: through magenta, not through green
    let json = arr(vec![
        arr(vec![n(1.0), n(0.0), n(0.0), n(1.0), n(0.0)]),
        arr(vec![n(0.0), n(0.0), n(1.0), n(1.0), n(1.0), s("lerpHSV")]),
    ]);
    let curve = Vector4PointDefinition::new(&json, &context).unwrap();
    let (c, _) = curve.interpolate(bits(0.5), &context, &unit).unwrap();
    let c = g4(c);
    assert!(close(c.x, 1.0) && close(c.y, 0.0) && close(c.z, 1.0) && close(c.w, 1.0));
    // without the flag the blend is linear
    let plain = arr(vec![
        arr(vec![n(1.0), n(0.0), n(0.0), n(1.0), n(0.0)]),
        arr(vec![n(0.0), n(0.0), n(1.0), n(1.0), n(1.0)]),
    ]);
    let curve = Vector4PointDefinition::new(&plain, &context).unwrap();
    let (c, _) = curve.interpolate(bits(0.5), &context, &unit).unwrap();
    assert_eq!(c, v4(0.5, 0.0, 0.5, 1.0));
}

#[test]
fn spline_on_two_keyframes_uses_the_keyframes_as_control_points() {
    let context = BaseProviderContext::new();
    let json = arr(vec![
        arr(vec![n(0.0), n(0.0), n(0.0), n(0.0)]),
        arr(vec![n(1.0), n(2.0), n(-4.0), n(1.0), s("splineCatmullRom")]),
    ]);
    let curve = Vector3PointDefinition::new(&json, &context).unwrap();
    // at the middle the spline meets the straight line
    let (mid, _) = curve.interpolate(bits(0.5), &context, &unit).unwrap();
    let mid = g3(mid);
    assert!(close(mid.x, 0.5) && close(mid.y, 1.0) && close(mid.z, -2.0));
    // at a quarter the weight of the right keyframe is (-2t^3 + 3t^2 + t) / 2
    let (quarter, _) = curve.interpolate(bits(0.25), &context, &unit).unwrap();
    let quarter = g3(quarter);
    let w = 0.203125f32;
    assert!(close(quarter.x, w) && close(quarter.y, 2.0 * w) && close(quarter.z, -4.0 * w));
}

#[test]
fn spline_reads_the_keyframes_around_the_segment() {
    let context = BaseProviderContext::new();
    let json = arr(vec![
        arr(vec![n(0.0), n(0.0), n(0.0), n(0.0)]),
        arr(vec![n(1.0), n(0.0), n(0.0), n(1.0)]),
        arr(vec![n(2.0), n(4.0), n(0.0), n(2.0), s("splineCatmullRom")]),
        arr(vec![n(3.0), n(0.0), n(0.0), n(3.0)]),
    ]);
    let curve = Vector3PointDefinition::new(&json, &context).unwrap();
    let (value, _) = curve.interpolate(bits(1.5), &context, &unit).unwrap();
    let t = 0.5f32;
    let (tt, ttt) = (t * t, t * t * t);
    let q0 = -ttt + 2.0 * tt - t;
    let q1 = 3.0 * ttt - 5.0 * tt + 2.0;
    let q2 = -3.0 * ttt + 4.0 * tt + t;
    let q3 = ttt - tt;
    let y = 0.5 * (0.0 * q0 + 0.0 * q1 + 4.0 * q2 + 0.0 * q3);
    let x = 0.5 * (0.0 * q0 + 1.0 * q1 + 2.0 * q2 + 3.0 * q3);
    let value = g3(value);
    assert!(close(value.x, x) && close(value.y, y) && close(value.z, 0.0));
    // the segment before it is not flagged and blends linearly
    let (value, _) = curve.interpolate(bits(0.5), &context, &unit).unwrap();
    assert_eq!(value, v3(0.5, 0.0, 0.0));
}

#[test]
fn child_modifiers_fold_left_to_right() {
    let context = BaseProviderContext::new();
    let mul = arr(vec![arr(vec![n(2.0), n(0.0), arr(vec![n(3.0), s("opMul")])])]);
    let curve = FloatPointDefinition::new(&mul, &context).unwrap();
    assert_eq!(curve.interpolate(bits(0.0), &context, &unit), Ok((bits(6.0), true)));
    let over = arr(vec![arr(vec![n(2.0), n(0.0), arr(vec![n(5.0)])])]);
    let curve = FloatPointDefinition::new(&over, &context).unwrap();
    assert_eq!(curve.interpolate(bits(0.0), &context, &unit), Ok((bits(5.0), true)));
    let chain = arr(vec![arr(vec![
        n(2.0),
        n(0.0),
        arr(vec![n(3.0), s("opAdd")]),
        arr(vec![n(4.0), s("opMul")]),
        arr(vec![n(10.0), s("opSub")]),
        arr(vec![n(4.0), s("opDiv")]),
    ])]);
    let curve = FloatPointDefinition::new(&chain, &context).unwrap();
    assert_eq!(curve.interpolate(bits(0.0), &context, &unit), Ok((bits(2.5), true)));
    let nested = arr(vec![arr(vec![
        n(1.0),
        n(0.0),
        arr(vec![n(2.0), s("opAdd"), arr(vec![n(10.0), s("opMul")])]),
    ])]);
    let curve = FloatPointDefinition::new(&nested, &context).unwrap();
    assert_eq!(curve.interpolate(bits(0.0), &context, &unit), Ok((bits(21.0), true)));
}

#[test]
fn vector_modifiers_combine_by_component() {
    let mut context = BaseProviderContext::new();
    context.set_values("baseHeadPosition", BaseValue::Vector3(v3(1.0, 2.0, 3.0))).unwrap();
    let json = arr(vec![arr(vec![
        s("baseHeadPosition"),
        n(0.0),
        arr(vec![n(2.0), n(4.0), n(6.0), s("opMul")]),
    ])]);
    let curve = Vector3PointDefinition::new(&json, &context).unwrap();
    assert!(curve.has_base_provider());
    assert_eq!(curve.interpolate(bits(0.0), &context, &unit), Ok((v3(2.0, 8.0, 18.0), true)));
}

#[test]
fn rotation_modifiers_compose_as_euler_angles() {
    let context = BaseProviderContext::new();
    let json = arr(vec![arr(vec![
        n(10.0),
        n(20.0),
        n(30.0),
        n(0.0),
        arr(vec![n(5.0), n(5.0), n(5.0), s("opAdd")]),
    ])]);
    let curve = QuaternionPointDefinition::new(&json, &context).unwrap();
    let (q, _) = curve.interpolate(bits(0.0), &context, &unit).unwrap();
    let expected = glam::Quat::from_euler(
        EulerRot::XYZ,
        15.0f32.to_radians(),
        25.0f32.to_radians(),
        35.0f32.to_radians(),
    );
    assert!(gq(q).abs_diff_eq(expected, 1e-6));
    let point = &curve.definition.get_points()[0];
    assert_eq!(point.modifier.get_vector_point(&context, &unit), Ok(v3(15.0, 25.0, 35.0)));
    assert!(point.modifier.get_quaternion(&context, &unit).is_ok());
    assert_eq!(point.modifier.get_float(&context, &unit), Err(TracksError::WrongCase));
    assert_eq!(point.modifier.get_vector3(&context, &unit), Err(TracksError::WrongCase));
    assert_eq!(point.modifier.get_vector4(&context, &unit), Err(TracksError::WrongCase));
}

#[test]
fn unknown_lookup_is_an_error_never_a_default() {
    let mut context = BaseProviderContext::new();
    assert_eq!(context.get_values("baseNothing"), Err(TracksError::UnknownSlot));
    assert_eq!(context.get_values(""), Err(TracksError::UnknownSlot));
    assert_eq!(context.get_values("basecombo"), Err(TracksError::UnknownSlot));
    assert_eq!(context.set_values("baseNothing", BaseValue::Float(0)), Err(TracksError::UnknownSlot));
    let json = arr(vec![arr(vec![s("baseNothing"), n(0.0)])]);
    assert!(matches!(FloatPointDefinition::new(&json, &context), Err(TracksError::UnknownSlot)));
    // a lone lookup in a vector keyframe is not read until it is evaluated
    let json = arr(vec![arr(vec![s("baseNothing")])]);
    let curve = Vector3PointDefinition::new(&json, &context).unwrap();
    assert_eq!(curve.interpolate(bits(0.0), &context, &unit), Err(TracksError::UnknownSlot));
    let provider = BaseProviderValues::new("baseNothing".to_string());
    assert_eq!(provider.values(&context), Err(TracksError::UnknownSlot));
}

#[test]
fn context_holds_what_was_set() {
    let mut context = BaseProviderContext::new();
    assert_eq!(context.get_values("baseCombo"), Ok(BaseValue::Float(0)));
    assert_eq!(context.get_values("baseHeadLocalScale"), Ok(BaseValue::Vector3(v3(1.0, 1.0, 1.0))));
    assert_eq!(
        context.get_values("baseLeftHandRotation"),
        Ok(BaseValue::Quaternion(Quat { x: 0, y: 0, z: 0, w: bits(1.0) }))
    );
    assert_eq!(context.get_values("baseSaberAColor"), Ok(BaseValue::Vector4(v4(0.0, 0.0, 0.0, 0.0))));
    assert_eq!(context.set_values("baseEnergy", BaseValue::Float(bits(0.5))), Ok(()));
    assert_eq!(context.get_values("baseEnergy"), Ok(BaseValue::Float(bits(0.5))));
    assert_eq!(context.get_values("baseCombo"), Ok(BaseValue::Float(0)));
    let colour = BaseValue::Vector4(v4(0.1, 0.2, 0.3, 1.0));
    assert_eq!(context.set_values("baseNote1Color", colour), Ok(()));
    assert_eq!(context.get_values("baseNote1Color"), Ok(colour));
    assert_eq!(context.set_values("baseNote1Color", BaseValue::Float(0)), Err(TracksError::WrongCase));
    assert_eq!(context.get_values("baseNote1Color"), Ok(colour));
    assert_eq!(
        context.set_values("baseHeadRotation", BaseValue::Vector4(v4(0.0, 0.0, 0.0, 1.0))),
        Err(TracksError::WrongCase)
    );
}

#[test]
fn every_slot_has_a_name_and_a_case() {
    let names = [
        "baseCombo",
        "baseMultipliedScore",
        "baseImmediateMaxPossibleMultipliedScore",
        "baseModifiedScore",
        "baseImmediateMaxPossibleModifiedScore",
        "baseRelativeScore",
        "baseMultiplier",
        "baseEnergy",
        "baseSongTime",
        "baseSongLength",
        "baseEnvironmentColor0",
        "baseEnvironmentColor0Boost",
        "baseEnvironmentColor1",
        "baseEnvironmentColor1Boost",
        "baseEnvironmentColorW",
        "baseEnvironmentColorWBoost",
        "baseNote0Color",
        "baseNote1Color",
        "baseObstaclesColor",
        "baseSaberAColor",
        "baseSaberBColor",
        "baseHeadLocalPosition",
        "baseHeadLocalRotation",
        "baseHeadLocalScale",
        "baseHeadPosition",
        "baseHeadRotation",
        "baseLeftHandLocalPosition",
        "baseLeftHandLocalRotation",
        "baseLeftHandLocalScale",
        "baseLeftHandPosition",
        "baseLeftHandRotation",
        "baseRightHandLocalPosition",
        "baseRightHandLocalRotation",
        "baseRightHandLocalScale",
        "baseRightHandPosition",
        "baseRightHandRotation",
    ];
    assert_eq!(names.len(), SLOT_COUNT);
    let context = BaseProviderContext::new();
    for (i, name) in names.iter().enumerate() {
        assert_eq!(slot_index(name), Some(i));
        let value = context.get_values(name).unwrap();
        let expected = if i < 10 {
            WrapBaseValueType::Float
        } else if i < 21 {
            WrapBaseValueType::Vec4
        } else if name.ends_with("Rotation") {
            WrapBaseValueType::Quat
        } else {
            WrapBaseValueType::Vec3
        };
        assert_eq!(value.ty(), expected);
    }
    assert_eq!(slot_index("base"), None);
}

#[test]
fn arity_and_configuration_errors() {
    let context = BaseProviderContext::new();
    // a child of a scalar keyframe with two numbers
    let json = arr(vec![arr(vec![n(1.0), n(0.0), arr(vec![n(1.0), n(2.0), s("opAdd")])])]);
    assert!(matches!(FloatPointDefinition::new(&json, &context), Err(TracksError::ArityMismatch)));
    // a child of a vector keyframe with a scalar lookup
    let json = arr(vec![arr(vec![n(1.0), n(1.0), n(1.0), n(0.0), arr(vec![s("baseCombo"), s("opAdd")])])]);
    assert!(matches!(Vector3PointDefinition::new(&json, &context), Err(TracksError::ArityMismatch)));
    // a child without a value group
    let json = arr(vec![arr(vec![n(1.0), n(0.0), arr(vec![s("opAdd")])])]);
    assert!(matches!(FloatPointDefinition::new(&json, &context), Err(TracksError::Configuration)));
    // text that is no array
    assert!(matches!(FloatPointDefinition::new(&s("easeLinear"), &context), Err(TracksError::Configuration)));
    assert!(matches!(FloatPointDefinition::new(&JsonValue::Null, &context), Err(TracksError::Configuration)));
    // a vector keyframe with too few numbers is accepted and fails when evaluated
    let json = arr(vec![arr(vec![n(1.0), n(2.0)])]);
    let curve = Vector3PointDefinition::new(&json, &context).unwrap();
    assert_eq!(curve.interpolate(bits(0.0), &context, &unit), Err(TracksError::ArityMismatch));
    assert_eq!(TracksError::UnknownSlot.message(), "base provider not found");
    assert_eq!(TracksError::WrongCase.message(), "value is not of the slot's case");
    assert_eq!(TracksError::ArityMismatch.message(), "wrong number of values");
    assert_eq!(TracksError::Configuration.message(), "malformed point definition");
}

#[test]
fn scalar_keyframe_of_one_number_is_lenient() {
    let context = BaseProviderContext::new();
    // one number: it is the time, and the value is zero
    let json = arr(vec![arr(vec![n(5.0)])]);
    let curve = FloatPointDefinition::new(&json, &context).unwrap();
    assert_eq!(curve.interpolate(bits(5.0), &context, &unit), Ok((bits(0.0), true)));
    assert_eq!(curve.interpolate(bits(4.0), &context, &unit), Ok((bits(0.0), false)));
    // three numbers: the first is the value and the last the time
    let json = arr(vec![arr(vec![n(1.0), n(2.0), n(3.0)])]);
    let curve = FloatPointDefinition::new(&json, &context).unwrap();
    assert_eq!(curve.interpolate(bits(3.0), &context, &unit), Ok((bits(1.0), true)));
    assert_eq!(curve.interpolate(bits(2.5), &context, &unit), Ok((bits(1.0), false)));
}

#[test]
fn keyframe_groups_keep_their_order() {
    let keyframe = arr(vec![
        n(1.0),
        s("easeInQuad"),
        arr(vec![n(2.0)]),
        s("baseCombo"),
        n(3.0),
        s("lerpHSV"),
        arr(vec![n(4.0)]),
        JsonValue::Null,
    ]);
    let groups = group_values(&keyframe);
    assert_eq!(groups.len(), 3);
    assert_eq!(groups[0].0, GroupType::Value);
    assert_eq!(groups[1].0, GroupType::Flag);
    assert_eq!(groups[2].0, GroupType::Modifier);
    let kinds: Vec<JsonValueType> = groups[0].1.iter().map(|v| v.value_type()).collect();
    assert_eq!(
        kinds,
        vec![JsonValueType::Number, JsonValueType::String, JsonValueType::Number, JsonValueType::Null]
    );
    assert_eq!(groups[1].1.len(), 2);
    assert!(matches!(groups[1].1[0], JsonValue::String(t) if t == "easeInQuad"));
    assert!(matches!(groups[1].1[1], JsonValue::String(t) if t == "lerpHSV"));
    assert_eq!(groups[2].1.len(), 2);
    assert!(group_values(&n(1.0)).is_empty());
    let only_flags = arr(vec![s("easeStep")]);
    let groups = group_values(&only_flags);
    assert_eq!(groups.len(), 1);
    assert_eq!(groups[0].0, GroupType::Flag);
}

#[test]
fn value_group_becomes_runs_and_lookups() {
    let items = vec![n(1.0), n(2.0), s("baseCombo"), s("baseEnergy"), n(3.0), JsonValue::Null, n(4.0)];
    let borrowed: Vec<&JsonValue> = items.iter().collect();
    let providers = deserialize_values(&borrowed);
    assert_eq!(providers.len(), 4);
    assert!(matches!(&providers[0], ValueProvider::Static(v) if v.values == vec![bits(1.0), bits(2.0)]));
    assert!(matches!(&providers[1], ValueProvider::BaseProvider(b) if b.base == "baseCombo"));
    assert!(matches!(&providers[2], ValueProvider::BaseProvider(b) if b.base == "baseEnergy"));
    assert!(matches!(&providers[3], ValueProvider::Static(v) if v.values == vec![bits(3.0), bits(4.0)]));
    let none: Vec<&JsonValue> = Vec::new();
    assert!(deserialize_values(&none).is_empty());
}

#[test]
fn easing_names_are_read() {
    assert_eq!(Functions::from_str("easeLinear"), Some(Functions::EaseLinear));
    assert_eq!(Functions::from_str("easeStep"), Some(Functions::EaseStep));
    assert_eq!(Functions::from_str("easeInOutQuad"), Some(Functions::EaseInOutQuad));
    assert_eq!(Functions::from_str("easeOutBounce"), Some(Functions::EaseOutBounce));
    assert_eq!(Functions::from_str("easeInElastic"), Some(Functions::EaseInElastic));
    assert_eq!(Functions::from_str("easeInOutBack"), Some(Functions::EaseInOutBack));
    assert_eq!(Functions::from_str("EaseLinear"), None);
    assert_eq!(Functions::from_str("easeNothing"), None);
    assert_eq!(Functions::from_flag("easeNothing"), Functions::EaseLinear);
    assert_eq!(Functions::from_flag("easeOutCirc"), Functions::EaseOutCirc);
    assert_eq!(Functions::EaseInQuad.interpolate(bits(0.5), &unit), bits(0.25));
    let shapes = ["Quad", "Cubic", "Quart", "Quint", "Sine", "Circ", "Expo", "Elastic", "Back", "Bounce"];
    let mut seen = vec![Functions::EaseLinear, Functions::EaseStep];
    for shape in shapes {
        for direction in ["In", "Out", "InOut"] {
            let f = Functions::from_str(&format!("ease{}{}", direction, shape)).unwrap();
            assert!(!seen.contains(&f));
            seen.push(f);
        }
    }
    assert_eq!(seen.len(), 32);
}

#[test]
fn unknown_easing_falls_back_to_linear() {
    let context = BaseProviderContext::new();
    let json = arr(vec![arr(vec![n(0.0), n(0.0)]), arr(vec![n(2.0), n(1.0), s("easeWobble")])]);
    let curve = FloatPointDefinition::new(&json, &context).unwrap();
    assert_eq!(curve.interpolate(bits(0.5), &context, &unit), Ok((bits(1.0), false)));
    let json = arr(vec![arr(vec![n(0.0), n(0.0)]), arr(vec![n(2.0), n(1.0), s("easeStep")])]);
    let curve = FloatPointDefinition::new(&json, &context).unwrap();
    assert_eq!(curve.interpolate(bits(0.5), &context, &unit), Ok((bits(0.0), false)));
}

#[test]
fn lookup_names_may_carry_a_suffix() {
    assert_eq!(head("baseHeadPosition.x"), "baseHeadPosition");
    assert_eq!(head("baseCombo"), "baseCombo");
    assert_eq!(head(".x"), "");
    assert_eq!(head(""), "");
    let mut context = BaseProviderContext::new();
    context.set_values("baseHeadPosition", BaseValue::Vector3(v3(1.0, 2.0, 3.0))).unwrap();
    let provider = BaseProviderValues::new("baseHeadPosition.s10".to_string());
    assert_eq!(provider.values(&context), Ok(vec![bits(1.0), bits(2.0), bits(3.0)]));
    let points = JsonPointValues::BaseProvider(BaseProviderValues::new("baseHeadPosition".to_string()));
    assert_eq!(points.to_raw_values(&context), Ok(vec![bits(1.0), bits(2.0), bits(3.0)]));
    let fixed = JsonPointValues::Static(vec![bits(9.0)]);
    assert_eq!(fixed.to_raw_values(&context), Ok(vec![bits(9.0)]));
    assert!(matches!(fixed.to_provider(), ValueProvider::Static(v) if v.values == vec![bits(9.0)]));
}

#[test]
fn values_are_built_and_indexed() {
    let f = BaseValue::from_vec(vec![bits(2.0)]);
    assert_eq!(f, BaseValue::Float(bits(2.0)));
    assert_eq!(f.index(0), bits(2.0));
    assert_eq!(f.index(3), bits(2.0));
    assert_eq!(f.len(), 1);
    let v = BaseValue::from_slice(&[bits(1.0), bits(2.0), bits(3.0)]);
    assert_eq!(v, BaseValue::Vector3(v3(1.0, 2.0, 3.0)));
    assert_eq!(v.index(1), bits(2.0));
    assert_eq!(v.as_vec3(), Some(v3(1.0, 2.0, 3.0)));
    assert_eq!(v.as_float(), None);
    assert_eq!(v.as_vec4(), None);
    assert_eq!(v.as_quat(), None);
    let c = BaseValue::from_slice(&[bits(1.0), bits(2.0), bits(3.0), bits(4.0)]);
    assert_eq!(c.ty(), WrapBaseValueType::Vec4);
    assert_eq!(c.as_slice(), vec![bits(1.0), bits(2.0), bits(3.0), bits(4.0)]);
    assert_eq!(c.with(3, bits(9.0)).index(3), bits(9.0));
    let q = BaseValue::assemble(WrapBaseValueType::Quat, bits(0.0), bits(0.0), bits(0.0), bits(1.0));
    assert_eq!(q.as_quat(), Some(Quat { x: 0, y: 0, z: 0, w: bits(1.0) }));
    assert_eq!(q.len(), 4);
    assert_eq!(q.index(3), bits(1.0));
    assert_eq!(WrapBaseValueType::Vec3.count(), 3);
    let blend = BaseValue::lerp(BaseValue::Float(bits(1.0)), BaseValue::Float(bits(3.0)), bits(0.25), &unit);
    assert_eq!(blend, BaseValue::Float(bits(1.5)));
}

#[test]
fn smooth_provider_approaches_without_overshoot() {
    let target = BaseValue::Vector3(v3(10.0, -4.0, 0.0));
    let mut smooth = SmoothProvidersValues::new(target, bits(2.0), &unit);
    assert_eq!(smooth.values(), vec![bits(0.0), bits(-0.0), bits(0.0)]);
    let mut last = smooth.values.as_vec3().unwrap();
    for _ in 0..20 {
        smooth.update(bits(0.1), &unit);
        let now = smooth.values.as_vec3().unwrap();
        assert!(num(now.x) >= num(last.x) && num(now.x) <= 10.0);
        assert!(num(now.y) <= num(last.y) && num(now.y) >= -4.0);
        last = now;
    }
    assert!(num(last.x) > 9.0);
    // a large step snaps to the target and stays there
    let mut snap = SmoothProvidersValues::new(target, bits(2.0), &unit);
    snap.update(bits(1000.0), &unit);
    assert_eq!(snap.values, target);
    snap.update(bits(1000.0), &unit);
    assert_eq!(snap.values, target);
    // a negative step does not move the cache
    let mut still = SmoothProvidersValues::new(target, bits(2.0), &unit);
    still.update(bits(-1.0), &unit);
    assert_eq!(num(still.values.as_vec3().unwrap().x), 0.0);
}

#[test]
fn smooth_rotation_turns_towards_target() {
    let target = glam::Quat::from_euler(EulerRot::XYZ, 0.0, 90.0f32.to_radians(), 0.0);
    let target_bits = Quat { x: bits(target.x), y: bits(target.y), z: bits(target.z), w: bits(target.w) };
    let mut smooth = SmoothRotationProvidersValues::new(target_bits, bits(1.0));
    assert_eq!(smooth.values(), vec![0, 0, 0]);
    smooth.update(bits(0.5), &unit);
    let half = gq(smooth.last_quaternion);
    assert!(half.abs_diff_eq(glam::Quat::IDENTITY.slerp(target, 0.5), 1e-6));
    assert!(close(num(smooth.values.y), 45.0));
    smooth.update(bits(5.0), &unit);
    assert!(gq(smooth.last_quaternion).abs_diff_eq(target, 1e-5));
}

#[test]
fn scheduler_advances_each_provider_once_in_order() {
    let mut scheduler = UpdatableProviderContext::new();
    let a = SmoothProvidersValues::new(BaseValue::Float(bits(8.0)), bits(1.0), &unit);
    let b = SmoothProvidersValues::new(BaseValue::Float(bits(-8.0)), bits(1.0), &unit);
    assert_eq!(scheduler.register(UpdatableValueProvider::SmoothProviders(a)), 0);
    assert_eq!(scheduler.register(UpdatableValueProvider::SmoothProviders(b)), 1);
    let identity = Quat { x: 0, y: 0, z: 0, w: bits(1.0) };
    let r = SmoothRotationProvidersValues::new(identity, bits(1.0));
    assert_eq!(scheduler.register(UpdatableValueProvider::SmoothRotationProviders(r)), 2);
    scheduler.advance(bits(0.5), &unit);
    assert_eq!(scheduler.values(0), Some(vec![bits(4.0)]));
    assert_eq!(scheduler.values(1), Some(vec![bits(-4.0)]));
    assert_eq!(scheduler.values(3), None);
    scheduler.advance(bits(0.5), &unit);
    assert_eq!(scheduler.values(0), Some(vec![bits(6.0)]));
    // a read without an advance returns the same
    assert_eq!(scheduler.values(0), Some(vec![bits(6.0)]));
    let mut single = UpdatableValueProvider::SmoothProviders(a);
    single.update(bits(0.25), &unit);
    assert_eq!(single.values(), vec![bits(2.0)]);
}

#[test]
fn partial_provider_copies_chosen_components() {
    let source = BaseValue::Vector4(v4(1.0, 2.0, 3.0, 4.0));
    let mut partial = PartialProviderValues::new(source, vec![3, 0, 0]).unwrap();
    assert_eq!(partial.values(), vec![0, 0, 0]);
    partial.update();
    assert_eq!(partial.values(), vec![bits(4.0), bits(1.0), bits(1.0)]);
    assert!(matches!(PartialProviderValues::new(source, vec![4]), Err(TracksError::ArityMismatch)));
    let scalar = PartialProviderValues::new(BaseValue::Float(bits(7.0)), vec![5]);
    let mut scalar = scalar.unwrap();
    scalar.update();
    assert_eq!(scalar.values(), vec![bits(7.0)]);
}

#[test]
fn rotation_reader_caches_euler_angles_on_update() {
    let mut context = BaseProviderContext::new();
    let turn = glam::Quat::from_euler(EulerRot::XYZ, 0.0, 0.0, 30.0f32.to_radians());
    let turn_bits = Quat { x: bits(turn.x), y: bits(turn.y), z: bits(turn.z), w: bits(turn.w) };
    context.set_values("baseHeadRotation", BaseValue::Quaternion(turn_bits)).unwrap();
    let source = ValueProvider::BaseProvider(BaseProviderValues::new("baseHeadRotation".to_string()));
    let mut reader = ValueProvider::QuaternionProvider(QuaternionProviderValues::new(source));
    assert!(reader.has_base_provider());
    // stale but valid before the first update
    assert_eq!(reader.values(&context), Ok(vec![0, 0, 0]));
    assert_eq!(reader.update(bits(0.016), &context, &unit), Ok(()));
    let angles = reader.values(&context).unwrap();
    assert!(close(num(angles[0]), 0.0) && close(num(angles[1]), 0.0) && close(num(angles[2]), 30.0));
    // a source of too few numbers is an arity error and keeps the cache
    let short = ValueProvider::Static(StaticValues::new(vec![bits(1.0)]));
    let mut reader = ValueProvider::QuaternionProvider(QuaternionProviderValues::new(short));
    assert!(!reader.has_base_provider());
    assert_eq!(reader.update(bits(0.016), &context, &unit), Err(TracksError::ArityMismatch));
    assert_eq!(reader.values(&context), Ok(vec![0, 0, 0]));
    let missing = ValueProvider::BaseProvider(BaseProviderValues::new("baseNothing".to_string()));
    let mut reader = ValueProvider::QuaternionProvider(QuaternionProviderValues::new(missing));
    assert_eq!(reader.update(bits(0.016), &context, &unit), Err(TracksError::UnknownSlot));
}

#[test]
fn curve_advance_updates_stateful_providers_once() {
    let context = BaseProviderContext::new();
    let smooth = SmoothProvidersValues::new(BaseValue::Float(bits(4.0)), bits(1.0), &unit);
    let child = Modifier::new(
        WrapBaseValueType::Float,
        ModifierValues::Dynamic(vec![ValueProvider::SmoothProviders(smooth)]),
        Vec::new(),
        Operation::Add,
    );
    assert_eq!(child.get_operation(), Operation::Add);
    let modifier = Modifier::new(
        WrapBaseValueType::Float,
        ModifierValues::Dynamic(vec![ValueProvider::SmoothProviders(smooth)]),
        vec![child],
        Operation::Override,
    );
    assert!(!modifier.has_base_provider());
    let point = PointData::new(bits(0.0), modifier, Functions::EaseLinear, false, false);
    assert_eq!(point.get_time(), bits(0.0));
    assert_eq!(point.get_easing(), Functions::EaseLinear);
    let mut curve = FloatPointDefinition {
        definition: BasePointDefinition { kind: WrapBaseValueType::Float, points: vec![point] },
    };
    assert!(!curve.has_base_provider());
    assert_eq!(curve.interpolate(bits(0.0), &context, &unit), Ok((bits(0.0), true)));
    assert_eq!(curve.advance(bits(0.5), &context, &unit), Ok(()));
    assert_eq!(curve.interpolate(bits(0.0), &context, &unit), Ok((bits(4.0), true)));
    // reads between advances do not move the caches
    assert_eq!(curve.interpolate(bits(0.0), &context, &unit), Ok((bits(4.0), true)));
    assert_eq!(curve.advance(bits(0.5), &context, &unit), Ok(()));
    assert_eq!(curve.interpolate(bits(0.0), &context, &unit), Ok((bits(6.0), true)));
}

#[test]
fn time_of_dynamic_keyframe_is_read_when_built() {
    let mut context = BaseProviderContext::new();
    context.set_values("baseSongTime", BaseValue::Float(bits(3.0))).unwrap();
    // the last number that the value group yields is the time
    let json = arr(vec![arr(vec![n(1.0), n(2.0), n(3.0), s("baseSongTime")])]);
    let curve = Vector3PointDefinition::new(&json, &context).unwrap();
    assert_eq!(curve.definition.get_points()[0].get_time(), bits(3.0));
    assert_eq!(curve.interpolate(bits(4.0), &context, &unit), Ok((v3(1.0, 2.0, 3.0), true)));
    assert_eq!(curve.interpolate(bits(2.0), &context, &unit), Ok((v3(1.0, 2.0, 3.0), false)));
}
