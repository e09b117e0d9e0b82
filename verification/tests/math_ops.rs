use simuforge::arith::{
    cos, count_to_double, count_to_single, double_minus, minus, narrow, over, plus, sin,
    single_to_count, sqrt, times, widen, Operation,
};
use simuforge::ieee::{Double, Single};
use simuforge::math::{Quat, Transform, Vec3};

fn unit(op: Operation, a: u64, b: u64) -> u64 {
    let x = f32::from_bits(a as u32);
    let y = f32::from_bits(b as u32);
    match op {
        Operation::Add => (x + y).to_bits() as u64,
        Operation::Subtract => (x - y).to_bits() as u64,
        Operation::Multiply => (x * y).to_bits() as u64,
        Operation::Divide => (x / y).to_bits() as u64,
        Operation::SquareRoot => x.sqrt().to_bits() as u64,
        Operation::Sine => x.sin().to_bits() as u64,
        Operation::Cosine => x.cos().to_bits() as u64,
        Operation::Widen => (x as f64).to_bits(),
        Operation::Narrow => (f64::from_bits(a) as f32).to_bits() as u64,
        Operation::DoubleSubtract => (f64::from_bits(a) - f64::from_bits(b)).to_bits(),
        Operation::CountToSingle => (a as f32).to_bits() as u64,
        Operation::CountToDouble => (a as f64).to_bits(),
        Operation::SingleToCount => x as u64,
    }
}

fn s(v: f32) -> Single {
    Single::from_bits(v.to_bits())
}

fn f(v: Single) -> f32 {
    f32::from_bits(v.to_bits())
}

fn d(v: f64) -> Double {
    Double::from_bits(v.to_bits())
}

fn g(v: Double) -> f64 {
    f64::from_bits(v.to_bits())
}

fn v3(x: f32, y: f32, z: f32) -> Vec3 {
    Vec3::new(s(x), s(y), s(z))
}

#[test]
fn test_vec3_magnitude() {
    let v = v3(3.0, 4.0, 0.0);
    assert!((f(v.magnitude(&unit)) - 5.0).abs() < 1e-6);
}

#[test]
fn test_vec3_normalize() {
    let v = v3(3.0, 4.0, 0.0).normalized(&unit);
    assert!((f(v.magnitude(&unit)) - 1.0).abs() < 1e-6);
}

#[test]
fn test_quat_identity() {
    let q = Quat::identity();
    assert_eq!(f(q.w), 1.0);
    assert_eq!(f(q.x), 0.0);
}

#[test]
fn the_unit_helpers_hand_each_operation_to_the_unit() {
    let a = 7.25f32;
    let b = -0.3f32;
    assert_eq!(f(plus(&unit, s(a), s(b))), a + b);
    assert_eq!(f(minus(&unit, s(a), s(b))), a - b);
    assert_eq!(f(times(&unit, s(a), s(b))), a * b);
    assert_eq!(f(over(&unit, s(a), s(b))), a / b);
    assert_eq!(f(sqrt(&unit, s(a))), a.sqrt());
    assert_eq!(f(sin(&unit, s(a))), a.sin());
    assert_eq!(f(cos(&unit, s(a))), a.cos());
    assert_eq!(g(widen(&unit, s(b))), b as f64);
    assert_eq!(f(narrow(&unit, d(0.1))), 0.1f64 as f32);
    assert_eq!(g(double_minus(&unit, d(10.05), d(10.0))), 10.05 - 10.0);
    assert_eq!(f(count_to_single(&unit, 16_777_217)), 16_777_217u64 as f32);
    assert_eq!(g(count_to_double(&unit, u64::MAX)), u64::MAX as f64);
    assert_eq!(single_to_count(&unit, s(59.999)), 59);
    assert_eq!(single_to_count(&unit, s(-3.0)), 0);
    assert_eq!(single_to_count(&unit, s(f32::NAN)), 0);
}

#[test]
fn a_subtraction_is_not_answered_with_its_first_operand() {
    assert_eq!(f(minus(&unit, s(5.0), s(2.0))), 3.0);
    assert_eq!(g(double_minus(&unit, d(5.0), d(2.0))), 3.0);
}

#[test]
fn vector_operations_follow_their_formulas() {
    let a = v3(1.5, -2.0, 0.25);
    let b = v3(-4.0, 0.5, 3.0);
    assert_eq!(f(a.magnitude_squared(&unit)), 1.5 * 1.5 + -2.0 * -2.0 + 0.25 * 0.25);
    assert_eq!(f(a.dot(&b, &unit)), 1.5f32 * -4.0 + -2.0 * 0.5 + 0.25 * 3.0);
    let c = a.cross(&b, &unit);
    assert_eq!(f(c.x), -2.0f32 * 3.0 - 0.25 * 0.5);
    assert_eq!(f(c.y), 0.25f32 * -4.0 - 1.5 * 3.0);
    assert_eq!(f(c.z), 1.5f32 * 0.5 - -2.0 * -4.0);
    let sum = a.plus(b, &unit);
    assert_eq!((f(sum.x), f(sum.y), f(sum.z)), (-2.5, -1.5, 3.25));
    let diff = a.minus(b, &unit);
    assert_eq!((f(diff.x), f(diff.y), f(diff.z)), (5.5, -2.5, -2.75));
    let twice = a.scaled(s(2.0), &unit);
    assert_eq!((f(twice.x), f(twice.y), f(twice.z)), (3.0, -4.0, 0.5));
}

#[test]
fn a_vector_without_length_normalizes_to_zero() {
    let n = v3(0.0, 0.0, 0.0).normalized(&unit);
    assert_eq!(n, Vec3::zero());
    let nan = v3(f32::NAN, 0.0, 0.0).normalized(&unit);
    assert_eq!(nan, Vec3::zero());
}

#[test]
fn named_vectors_have_their_components() {
    assert_eq!(Vec3::zero(), v3(0.0, 0.0, 0.0));
    assert_eq!(Vec3::one(), v3(1.0, 1.0, 1.0));
    assert_eq!(Vec3::up(), v3(0.0, 1.0, 0.0));
    assert_eq!(Vec3::down(), v3(0.0, -1.0, 0.0));
    assert_eq!(Vec3::forward(), v3(0.0, 0.0, -1.0));
    assert_eq!(Vec3::default(), Vec3::zero());
    assert_eq!(Vec3::from_array([s(1.0), s(2.0), s(3.0)]), v3(1.0, 2.0, 3.0));
    assert_eq!(v3(1.0, 2.0, 3.0).to_array(), [s(1.0), s(2.0), s(3.0)]);
}

#[test]
fn a_quaternion_about_an_axis_is_half_the_angle() {
    let angle = 1.25f32;
    let q = Quat::from_axis_angle(v3(0.0, 0.0, 2.0), s(angle), &unit);
    assert_eq!(f(q.x), 0.0);
    assert_eq!(f(q.y), 0.0);
    assert_eq!(f(q.z), 1.0 * (angle * 0.5).sin());
    assert_eq!(f(q.w), (angle * 0.5).cos());
}

#[test]
fn a_quaternion_of_euler_angles_follows_its_formula() {
    let (roll, pitch, yaw) = (0.3f32, -0.7f32, 1.1f32);
    let q = Quat::from_euler(s(roll), s(pitch), s(yaw), &unit);
    let (sr, cr) = (roll * 0.5).sin_cos();
    let (sp, cp) = (pitch * 0.5).sin_cos();
    let (sy, cy) = (yaw * 0.5).sin_cos();
    assert_eq!(f(q.x), sr * cp * cy - cr * sp * sy);
    assert_eq!(f(q.y), cr * sp * cy + sr * cp * sy);
    assert_eq!(f(q.z), cr * cp * sy - sr * sp * cy);
    assert_eq!(f(q.w), cr * cp * cy + sr * sp * sy);
    let none = Quat::from_euler(s(0.0), s(0.0), s(0.0), &unit);
    assert_eq!(none, Quat::identity());
}

#[test]
fn poses_default_to_the_origin() {
    let t = Transform::default();
    assert_eq!(t, Transform::identity());
    assert_eq!(t.position, Vec3::zero());
    assert_eq!(t.rotation, Quat::new(s(0.0), s(0.0), s(0.0), s(1.0)));
    assert_eq!(Quat::default(), Quat::identity());
    let p = Transform::from_position(v3(1.0, 2.0, 3.0));
    assert_eq!(p, Transform::new(v3(1.0, 2.0, 3.0), Quat::identity()));
}
