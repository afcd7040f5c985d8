use tracks_rs::easings::functions::Functions;
use tracks_rs::error::TracksError;
use tracks_rs::float_unit::{Quad, Work};
use tracks_rs::json::JsonValue;
use tracks_rs::point_definition::float_point_definition::FloatPointDefinition;
use tracks_rs::point_definition::vector3_point_definition::Vector3PointDefinition;
use tracks_rs::values::base_provider_context::BaseProviderContext;
use tracks_rs::values::value::{BaseValue, Vec3};

fn bits(x: f32) -> u32 {
    x.to_bits()
}

fn num(b: u32) -> f32 {
    f32::from_bits(b)
}

fn one(x: f32) -> Quad {
    Quad { x: bits(x), y: 0, z: 0, w: 0 }
}

fn ease(f: Functions, p: f32) -> f32 {
    match f {
        Functions::EaseLinear => p,
        Functions::EaseStep => p.floor(),
        Functions::EaseInQuad => p * p,
        Functions::EaseOutQuad => -(p * (p - 2.0)),
        _ => p,
    }
}

fn unit(work: Work) -> Quad {
    match work {
        Work::Add(a, b) => one(num(a) + num(b)),
        Work::Sub(a, b) => one(num(a) - num(b)),
        Work::Mul(a, b) => one(num(a) * num(b)),
        Work::Div(a, b) => one(num(a) / num(b)),
        Work::Ease(f, u) => one(ease(f, num(u))),
        Work::Lerp(a, b, t) => {
            let x = a.as_slice();
            let y = b.as_slice();
            let s = num(t);
            let mut out = [0u32; 4];
            for i in 0..x.len().min(y.len()) {
                out[i] = bits(num(x[i]) * (1.0 - s) + num(y[i]) * s);
            }
            Quad { x: out[0], y: out[1], z: out[2], w: out[3] }
        }
        _ => one(0.0),
    }
}

fn n(x: f32) -> JsonValue {
    JsonValue::Number(bits(x))
}

fn s(text: &str) -> JsonValue {
    JsonValue::String(text.to_string())
}

fn arr(items: Vec<JsonValue>) -> JsonValue {
    JsonValue::Array(items)
}

#[test]
fn linear_scalar_curve_blends_and_clamps() {
    let context = BaseProviderContext::new();
    let json = arr(vec![arr(vec![n(0.0), n(0.0)]), arr(vec![n(1.0), n(1.0), s("easeLinear")])]);
    let curve = FloatPointDefinition::new(&json, &context).unwrap();
    assert_eq!(curve.get_count(), 2);
    assert_eq!(curve.interpolate(bits(0.5), &context, &unit), Ok((bits(0.5), false)));
    assert_eq!(curve.interpolate(bits(-1.0), &context, &unit), Ok((bits(0.0), false)));
    assert_eq!(curve.interpolate(bits(2.0), &context, &unit), Ok((bits(1.0), true)));
}

#[test]
fn empty_text_is_malformed() {
    let context = BaseProviderContext::new();
    let r = FloatPointDefinition::new(&arr(vec![]), &context);
    assert!(matches!(r, Err(TracksError::Configuration)));
    let r = FloatPointDefinition::new(&n(1.0), &context);
    assert!(matches!(r, Err(TracksError::Configuration)));
}

#[test]
fn bare_keyframe_is_wrapped() {
    let context = BaseProviderContext::new();
    let json = arr(vec![n(1.0), n(2.0), n(3.0), n(0.0)]);
    let curve = Vector3PointDefinition::new(&json, &context).unwrap();
    assert_eq!(curve.get_count(), 1);
    let expected = Vec3 { x: bits(1.0), y: bits(2.0), z: bits(3.0) };
    assert_eq!(curve.interpolate(bits(0.0), &context, &unit), Ok((expected, true)));
    assert_eq!(curve.interpolate(bits(-5.0), &context, &unit), Ok((expected, false)));
    assert_eq!(curve.interpolate(bits(f32::NAN), &context, &unit), Ok((expected, false)));
}

#[test]
fn lookup_keyframe_reads_the_context() {
    let mut context = BaseProviderContext::new();
    let json = arr(vec![arr(vec![s("baseCombo"), n(0.0)]), arr(vec![n(10.0), n(1.0)])]);
    let curve = FloatPointDefinition::new(&json, &context).unwrap();
    context.set_values("baseCombo", BaseValue::Float(bits(4.0))).unwrap();
    assert_eq!(curve.interpolate(bits(0.0), &context, &unit), Ok((bits(4.0), false)));
    assert_eq!(curve.interpolate(bits(0.5), &context, &unit), Ok((bits(7.0), false)));
    context.set_values("baseCombo", BaseValue::Float(bits(8.0))).unwrap();
    assert_eq!(curve.interpolate(bits(0.5), &context, &unit), Ok((bits(9.0), false)));
}

#[test]
fn caller_order_of_keyframes_is_kept() {
    let context = BaseProviderContext::new();
    // times are not sorted: the curve is searched as it stands
    let json = arr(vec![
        arr(vec![n(0.0), n(0.0)]),
        arr(vec![n(10.0), n(3.0)]),
        arr(vec![n(20.0), n(1.0)]),
        arr(vec![n(30.0), n(4.0)]),
    ]);
    let curve = FloatPointDefinition::new(&json, &context).unwrap();
    assert_eq!(curve.get_count(), 4);
    // the midpoint keyframe (time 1) is below 2, so the search goes right of it
    let u = (2.0f32 - 1.0) / (4.0 - 1.0);
    let expected = 20.0f32 * (1.0 - u) + 30.0 * u;
    assert_eq!(curve.interpolate(bits(2.0), &context, &unit), Ok((bits(expected), false)));
    assert_eq!(curve.interpolate(bits(4.0), &context, &unit), Ok((bits(30.0), true)));
}

#[test]
fn nan_queries_and_times_do_not_fail() {
    let context = BaseProviderContext::new();
    let json = arr(vec![arr(vec![n(1.0), n(0.0)]), arr(vec![n(2.0), n(1.0)]), arr(vec![n(3.0), n(2.0)])]);
    let curve = FloatPointDefinition::new(&json, &context).unwrap();
    // a NaN is neither after the last time nor before the first
    let (_, last) = curve.interpolate(bits(f32::NAN), &context, &unit).unwrap();
    assert!(!last);
    let json = arr(vec![arr(vec![n(1.0), n(0.0)]), arr(vec![n(2.0), n(f32::NAN)]), arr(vec![n(3.0), n(2.0)])]);
    let curve = FloatPointDefinition::new(&json, &context).unwrap();
    assert_eq!(curve.interpolate(bits(5.0), &context, &unit), Ok((bits(3.0), true)));
    assert_eq!(curve.interpolate(bits(-5.0), &context, &unit), Ok((bits(1.0), false)));
    assert!(curve.interpolate(bits(1.0), &context, &unit).is_ok());
}

#[test]
fn keyframes_at_one_time_are_searched_as_they_stand() {
    let context = BaseProviderContext::new();
    // two keyframes at one time between a first and a last: a query falls on a
    // segment whose left time is below it and whose right time is not
    let json = arr(vec![
        arr(vec![n(0.0), n(0.0)]),
        arr(vec![n(5.0), n(1.0)]),
        arr(vec![n(7.0), n(1.0)]),
        arr(vec![n(9.0), n(2.0)]),
    ]);
    let curve = FloatPointDefinition::new(&json, &context).unwrap();
    assert_eq!(curve.interpolate(bits(1.0), &context, &unit), Ok((bits(5.0), false)));
    assert_eq!(curve.interpolate(bits(1.5), &context, &unit), Ok((bits(8.0), false)));
    assert_eq!(curve.interpolate(bits(0.5), &context, &unit), Ok((bits(2.5), false)));
}
