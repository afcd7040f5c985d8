use tracks_rs::float_unit::{Quad, Work};
use tracks_rs::modifiers::operation::Operation;
use tracks_rs::number;
use tracks_rs::values::value::{BaseValue, Vec3};

fn bits(x: f32) -> u32 {
    x.to_bits()
}

fn num(b: u32) -> f32 {
    f32::from_bits(b)
}

fn one(x: f32) -> Quad {
    Quad { x: bits(x), y: 0, z: 0, w: 0 }
}

fn unit(work: Work) -> Quad {
    match work {
        Work::Add(a, b) => one(num(a) + num(b)),
        Work::Sub(a, b) => one(num(a) - num(b)),
        Work::Mul(a, b) => one(num(a) * num(b)),
        Work::Div(a, b) => one(num(a) / num(b)),
        _ => one(0.0),
    }
}

#[test]
fn operation_flags_are_read() {
    assert!(Operation::from_str("opAdd") == Operation::Add);
    assert!(Operation::from_str("opSub") == Operation::Sub);
    assert!(Operation::from_str("opMul") == Operation::Mul);
    assert!(Operation::from_str("opDiv") == Operation::Div);
    assert!(Operation::from_str("opNone") == Operation::Override);
    assert!(Operation::from_str("") == Operation::Override);
}

#[test]
fn numbers_order_as_floats() {
    assert!(number::lt(bits(-1.0), bits(0.5)));
    assert!(!number::lt(bits(0.0), bits(-0.0)));
    assert!(number::le(bits(0.0), bits(-0.0)));
    assert!(!number::le(bits(f32::NAN), bits(1.0)));
    assert!(number::lt(bits(-2.0), bits(-1.0)));
    assert!(number::zero(bits(-0.0)));
    assert_eq!(number::neg(bits(1.5)), bits(-1.5));
    assert_eq!(number::clamp_unit(bits(3.0)), bits(1.0));
    assert_eq!(number::clamp_unit(bits(-3.0)), bits(0.0));
    assert_eq!(number::clamp_unit(bits(0.25)), bits(0.25));
    assert_eq!(number::ONE, bits(1.0));
    assert_eq!(number::HALF, bits(0.5));
    assert_eq!(number::TWO, bits(2.0));
    assert_eq!(number::THREE, bits(3.0));
    assert_eq!(number::FOUR, bits(4.0));
    assert_eq!(number::FIVE, bits(5.0));
}

#[test]
fn value_scales_by_component() {
    let v = BaseValue::Vector3(Vec3 { x: bits(1.0), y: bits(2.0), z: bits(-3.0) });
    let r = v.mul(bits(2.0), &unit);
    assert_eq!(r.as_slice(), vec![bits(2.0), bits(4.0), bits(-6.0)]);
    let d = v.div(bits(2.0), &unit);
    assert_eq!(d.as_slice(), vec![bits(0.5), bits(1.0), bits(-1.5)]);
}
