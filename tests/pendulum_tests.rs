use pendulum::{Pendulum, Vector};

fn start(x: f32, y: f32, r: f32) -> Pendulum<f32> {
    Pendulum::new(x, y, r, 1.0, 1.5, 0.0)
}

#[test]
fn vector_new_keeps_coordinates() {
    let v = Vector::new(3.5f32, -2.25);
    assert_eq!(v.x, 3.5);
    assert_eq!(v.y, -2.25);
}

#[test]
fn vector_add_adds_each_coordinate() {
    let mut a = Vector::new(1.5f32, 2.0);
    let b = Vector::new(0.25f32, -4.0);
    let r = a.add(&b);
    assert_eq!(r.x, 1.75);
    assert_eq!(r.y, -2.0);
    assert_eq!(a.x, 1.75);
    assert_eq!(a.y, -2.0);
    assert_eq!(b.x, 0.25);
    assert_eq!(b.y, -4.0);
}

#[test]
fn vector_add_on_integers() {
    let mut a = Vector::new(7i64, -3);
    a.add(&Vector::new(5i64, 10));
    assert_eq!(a.x, 12);
    assert_eq!(a.y, 7);
}

#[test]
fn vector_set_overwrites_exactly() {
    let mut a = Vector::new(9.0f32, 9.0);
    let r = a.set(Vector::new(0.1f32, -123.456));
    assert_eq!(r.x, 0.1);
    assert_eq!(r.y, -123.456);
    assert_eq!(a.x, 0.1);
    assert_eq!(a.y, -123.456);
}

#[test]
fn new_pendulum_starts_at_rest_at_one_radian() {
    let p = start(400.0, 0.0, 200.0);
    assert_eq!(p.angle, 1.0);
    assert_eq!(p.angular_velocity, 0.0);
    assert_eq!(p.angular_acceleration, 0.0);
    assert_eq!(p.origin.x, 400.0);
    assert_eq!(p.origin.y, 0.0);
    assert_eq!(p.position.x, 0.0);
    assert_eq!(p.position.y, 0.0);
    assert_eq!(p.r, 200.0);
    assert_eq!(p.g, 1.5);
}

#[test]
fn one_update_from_the_start() {
    let mut p = start(400.0, 0.0, 200.0);
    p.update(f32::sin, f32::cos);

    let acceleration = -1.5f32 * 1.0f32.sin() / 200.0;
    let angle = 1.0f32 + acceleration;
    assert_eq!(p.angular_acceleration, acceleration);
    assert_eq!(p.angular_velocity, acceleration);
    assert_eq!(p.angle, angle);
    assert_eq!(p.position.x, 200.0 * angle.sin() + 400.0);
    assert_eq!(p.position.y, 200.0 * angle.cos() + 0.0);

    assert!((p.angular_acceleration - (-0.006311)).abs() < 1e-6);
    assert!((p.angle - 0.993689).abs() < 1e-5);
    assert!((p.position.x - 567.609).abs() < 1e-2);
    assert!((p.position.y - 109.120).abs() < 1e-2);
    assert_eq!(p.origin.x, 400.0);
    assert_eq!(p.origin.y, 0.0);
}

#[test]
fn update_is_deterministic() {
    let mut a = start(120.0, 35.0, 80.0);
    let mut b = start(120.0, 35.0, 80.0);
    for _ in 0..50 {
        a.update(f32::sin, f32::cos);
        b.update(f32::sin, f32::cos);
        assert_eq!(a.angle.to_bits(), b.angle.to_bits());
        assert_eq!(a.angular_velocity.to_bits(), b.angular_velocity.to_bits());
        assert_eq!(a.position.x.to_bits(), b.position.x.to_bits());
        assert_eq!(a.position.y.to_bits(), b.position.y.to_bits());
    }
}

#[test]
fn velocity_is_not_clamped_when_gravity_dominates() {
    let mut p = start(0.0, 0.0, 0.1);
    let mut fastest: f32 = 0.0;
    for _ in 0..10000 {
        p.update(f32::sin, f32::cos);
        fastest = fastest.max(p.angular_velocity.abs());
    }
    assert!(fastest > 100.0);
}

#[test]
fn angle_is_never_wrapped() {
    let mut p = start(0.0, 0.0, 0.25);
    let mut widest: f32 = 0.0;
    for _ in 0..2000 {
        p.update(f32::sin, f32::cos);
        widest = widest.max(p.angle.abs());
    }
    assert!(widest > 7.0);
}

#[test]
fn swing_on_integers() {
    let mut p = Pendulum::new(10i64, 20, 4, 7, 2, 0);
    p.swing(3);
    assert_eq!(p.angular_acceleration, -1);
    assert_eq!(p.angular_velocity, -1);
    assert_eq!(p.angle, 6);
    assert_eq!(p.position.x, 0);
    assert_eq!(p.position.y, 0);
}

#[test]
fn place_on_integers() {
    let mut p = Pendulum::new(10i64, 20, 4, 7, 2, 0);
    p.place(5, -2);
    assert_eq!(p.position.x, 30);
    assert_eq!(p.position.y, 12);
    assert_eq!(p.angle, 7);
    assert_eq!(p.origin.x, 10);
    assert_eq!(p.origin.y, 20);
}
