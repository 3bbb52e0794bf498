use single_integrator::{compute_control, update_state, Arithmetic, Vector2, GAIN};

type Op = fn(u64, u64) -> u64;

fn float_add(a: u64, b: u64) -> u64 {
    (f64::from_bits(a) + f64::from_bits(b)).to_bits()
}

fn float_sub(a: u64, b: u64) -> u64 {
    (f64::from_bits(a) - f64::from_bits(b)).to_bits()
}

fn float_mul(a: u64, b: u64) -> u64 {
    (f64::from_bits(a) * f64::from_bits(b)).to_bits()
}

fn binary64() -> Arithmetic<Op, Op, Op> {
    Arithmetic { add: float_add, sub: float_sub, mul: float_mul }
}

fn wrapping() -> Arithmetic<Op, Op, Op> {
    Arithmetic { add: u64::wrapping_add, sub: u64::wrapping_sub, mul: u64::wrapping_mul }
}

fn vector(x: f64, y: f64) -> Vector2 {
    Vector2::new(x.to_bits(), y.to_bits())
}

fn floats(v: Vector2) -> (f64, f64) {
    (f64::from_bits(v.x), f64::from_bits(v.y))
}

#[test]
fn gain_is_the_number_two() {
    assert_eq!(GAIN, 2.0f64.to_bits());
    assert_eq!(f64::from_bits(GAIN), 2.0);
}

#[test]
fn vector_new_keeps_its_coordinates() {
    let v = Vector2::new(7, 9);
    assert_eq!(v.x, 7);
    assert_eq!(v.y, 9);
    assert_eq!(v, Vector2 { x: 7, y: 9 });
    assert_ne!(v, Vector2 { x: 9, y: 7 });
}

#[test]
fn arithmetic_methods_call_their_operations() {
    let arith = wrapping();
    assert_eq!(arith.sum(3, 4), 7);
    assert_eq!(arith.difference(10, 4), 6);
    assert_eq!(arith.difference(4, 10), u64::MAX - 5);
    assert_eq!(arith.product(6, 7), 42);
    let floats = binary64();
    assert_eq!(floats.sum(1.5f64.to_bits(), 2.25f64.to_bits()), 3.75f64.to_bits());
    assert_eq!(floats.difference(1.5f64.to_bits(), 2.25f64.to_bits()), (-0.75f64).to_bits());
    assert_eq!(floats.product(1.5f64.to_bits(), 2.0f64.to_bits()), 3.0f64.to_bits());
}

#[test]
fn control_is_twice_the_error() {
    let u = compute_control(vector(0.0, 0.0), vector(5.0, 5.0), &binary64());
    assert_eq!(floats(u), (-10.0, -10.0));
}

#[test]
fn control_points_from_state_to_goal() {
    let u = compute_control(vector(1.5, -0.25), vector(0.5, 0.75), &binary64());
    assert_eq!(floats(u), (2.0, -2.0));
    let back = compute_control(vector(0.5, 0.75), vector(1.5, -0.25), &binary64());
    assert_eq!(floats(back), (-2.0, 2.0));
}

#[test]
fn control_vanishes_at_the_goal() {
    let u = compute_control(vector(3.25, -8.5), vector(3.25, -8.5), &binary64());
    assert_eq!(floats(u), (0.0, 0.0));
}

#[test]
fn control_treats_coordinates_separately() {
    let u = compute_control(vector(1.0, 10.0), vector(4.0, 4.0), &binary64());
    assert_eq!(floats(u), (-6.0, 12.0));
}

#[test]
fn control_is_not_guarded_against_overflow() {
    let u = compute_control(vector(f64::MAX, 0.0), vector(-f64::MAX, 0.0), &binary64());
    assert_eq!(floats(u), (f64::INFINITY, 0.0));
}

#[test]
fn control_multiplies_the_gain_by_goal_minus_state() {
    let goal = Vector2::new(10, 3);
    let state = Vector2::new(4, 5);
    let u = compute_control(goal, state, &wrapping());
    assert_eq!(u.x, GAIN.wrapping_mul(6));
    assert_eq!(u.y, GAIN.wrapping_mul(3u64.wrapping_sub(5)));
}

#[test]
fn update_adds_the_scaled_control() {
    let next = update_state(vector(5.0, 5.0), vector(-10.0, -10.0), 0.1f64.to_bits(), &binary64());
    assert_eq!(floats(next), (4.0, 4.0));
}

#[test]
fn update_is_state_plus_dt_times_control() {
    let next = update_state(vector(1.0, -2.0), vector(4.0, 8.0), 0.25f64.to_bits(), &binary64());
    assert_eq!(floats(next), (2.0, 0.0));
    let next = update_state(Vector2::new(100, 200), Vector2::new(3, 4), 5, &wrapping());
    assert_eq!(next, Vector2::new(115, 220));
}

#[test]
fn update_with_zero_dt_keeps_the_state() {
    let next = update_state(vector(1.25, -7.5), vector(4.0, 8.0), 0.0f64.to_bits(), &binary64());
    assert_eq!(floats(next), (1.25, -7.5));
}

#[test]
fn update_with_negative_dt_steps_backwards() {
    let next = update_state(vector(1.0, 1.0), vector(4.0, -8.0), (-0.5f64).to_bits(), &binary64());
    assert_eq!(floats(next), (-1.0, 5.0));
}

#[test]
fn one_step_decays_the_error_by_one_minus_twice_dt() {
    let arith = binary64();
    let goal = vector(0.0, 0.0);
    let state = vector(8.0, -16.0);
    let u = compute_control(goal, state, &arith);
    let next = update_state(state, u, 0.25f64.to_bits(), &arith);
    assert_eq!(floats(next), (4.0, -8.0));
}
