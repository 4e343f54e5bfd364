use vstd::prelude::*;

use crate::vector::Vector;

verus! {

use core::ops::Neg;
use vstd::std_specs::ops::{AddSpec, DivSpec, MulSpec, NegSpec};

/// A single-arm pendulum hanging from `origin`, advanced one unit time step per `update`.
pub struct Pendulum<T> {
    /// The pivot point.
    pub origin: Vector<T>,
    /// The centre of the bob, recomputed from `origin`, `r` and `angle` on each step.
    pub position: Vector<T>,
    /// The angle from the downward vertical, never wrapped.
    pub angle: T,
    pub angular_velocity: T,
    pub angular_acceleration: T,
    /// The length of the arm.
    pub r: T,
    /// The gravity constant.
    pub g: T,
}

/// Whether the scalar operations the pendulum uses behave as their spec functions say.
pub open spec fn arithmetic_specified<T: core::ops::Add<Output = T> + core::ops::Mul<
    Output = T,
> + core::ops::Div<Output = T> + core::ops::Neg<Output = T>>() -> bool {
    &&& T::obeys_add_spec()
    &&& T::obeys_mul_spec()
    &&& T::obeys_div_spec()
    &&& T::obeys_neg_spec()
}

/// Whether every scalar operation the pendulum uses may be applied to any operands.
pub open spec fn arithmetic_total<T: core::ops::Add<Output = T> + core::ops::Mul<
    Output = T,
> + core::ops::Div<Output = T> + core::ops::Neg<Output = T>>() -> bool {
    &&& forall|a: T, b: T| #[trigger] a.add_req(b)
    &&& forall|a: T, b: T| #[trigger] a.mul_req(b)
    &&& forall|a: T, b: T| #[trigger] a.div_req(b)
    &&& forall|a: T| #[trigger] a.neg_req()
}

/// The state after one integration step, given `s`, the sine of the current angle:
/// the acceleration follows from the pendulum equation, then the velocity takes
/// the new acceleration and the angle takes the new velocity (semi-implicit Euler).
pub open spec fn swung<T: Copy + core::ops::Add<Output = T> + core::ops::Mul<
    Output = T,
> + core::ops::Div<Output = T> + core::ops::Neg<Output = T>>(p: Pendulum<T>, s: T) -> Pendulum<T> {
    let acceleration = p.g.neg_spec().mul_spec(s).div_spec(p.r);
    let velocity = p.angular_velocity.add_spec(acceleration);
    Pendulum {
        angular_acceleration: acceleration,
        angular_velocity: velocity,
        angle: p.angle.add_spec(velocity),
        ..p
    }
}

/// The state with the bob placed at `origin + (r * s, r * c)`, where `s` and `c`
/// are the sine and cosine of the angle.
pub open spec fn placed<T: Copy + core::ops::Add<Output = T> + core::ops::Mul<
    Output = T,
> + core::ops::Div<Output = T> + core::ops::Neg<Output = T>>(p: Pendulum<T>, s: T, c: T) -> Pendulum<T> {
    Pendulum {
        position: Vector {
            x: p.r.mul_spec(s).add_spec(p.origin.x),
            y: p.r.mul_spec(c).add_spec(p.origin.y),
        },
        ..p
    }
}

/// Whether each operation of one integration step of `p` with sine `s` may be applied.
pub open spec fn swing_defined<T: Copy + core::ops::Add<Output = T> + core::ops::Mul<
    Output = T,
> + core::ops::Div<Output = T> + core::ops::Neg<Output = T>>(p: Pendulum<T>, s: T) -> bool {
    ||| arithmetic_total::<T>()
    ||| {
        let q = swung(p, s);
        &&& arithmetic_specified::<T>()
        &&& p.g.neg_req()
        &&& p.g.neg_spec().mul_req(s)
        &&& p.g.neg_spec().mul_spec(s).div_req(p.r)
        &&& p.angular_velocity.add_req(q.angular_acceleration)
        &&& p.angle.add_req(q.angular_velocity)
    }
}

/// Whether each operation of placing the bob of `p` with sine `s` and cosine `c` may
/// be applied.
pub open spec fn place_defined<T: Copy + core::ops::Add<Output = T> + core::ops::Mul<
    Output = T,
> + core::ops::Div<Output = T> + core::ops::Neg<Output = T>>(p: Pendulum<T>, s: T, c: T) -> bool {
    ||| arithmetic_total::<T>()
    ||| {
        &&& arithmetic_specified::<T>()
        &&& p.r.mul_req(s)
        &&& p.r.mul_req(c)
        &&& p.r.mul_spec(s).add_req(p.origin.x)
        &&& p.r.mul_spec(c).add_req(p.origin.y)
    }
}

/// Whether `q` is what one `update` of `p` gives when the sine and cosine come from
/// `sin` and `cos`.
pub open spec fn updated<T: Copy + core::ops::Add<Output = T> + core::ops::Mul<
    Output = T,
> + core::ops::Div<Output = T> + core::ops::Neg<Output = T>, S: Fn(T) -> T, C: Fn(T) -> T>(
    p: Pendulum<T>,
    sin: S,
    cos: C,
    q: Pendulum<T>,
) -> bool {
    exists|s0: T, s1: T, c1: T|
        #![trigger sin.ensures((p.angle,), s0), sin.ensures((swung(p, s0).angle,), s1), cos.ensures((swung(p, s0).angle,), c1)]
        {
            &&& sin.ensures((p.angle,), s0)
            &&& sin.ensures((swung(p, s0).angle,), s1)
            &&& cos.ensures((swung(p, s0).angle,), c1)
            &&& q == placed(swung(p, s0), s1, c1)
        }
}

/// Whether `f` gives one result for each argument.
pub open spec fn functional<T, F: Fn(T) -> T>(f: F) -> bool {
    forall|a: T, u: T, v: T| #[trigger] f.ensures((a,), u) && #[trigger] f.ensures((a,), v) ==> u == v
}

/// One step is a function of the state: from equal states, with trigonometry that
/// gives one result per angle, `update` reaches equal states.
pub proof fn lemma_update_deterministic<T: Copy + core::ops::Add<Output = T> + core::ops::Mul<
    Output = T,
> + core::ops::Div<Output = T> + core::ops::Neg<Output = T>, S: Fn(T) -> T, C: Fn(T) -> T>(
    p: Pendulum<T>,
    sin: S,
    cos: C,
    q1: Pendulum<T>,
    q2: Pendulum<T>,
)
    requires
        functional(sin),
        functional(cos),
        updated(p, sin, cos, q1),
        updated(p, sin, cos, q2),
    ensures
        q1 == q2,
{
}

/// The bob's position is recomputed on every step and the acceleration from the
/// pendulum equation: states that differ only in `position` and
/// `angular_acceleration` reach equal states after one `update`.
pub proof fn lemma_update_ignores_position<T: Copy + core::ops::Add<Output = T> + core::ops::Mul<
    Output = T,
> + core::ops::Div<Output = T> + core::ops::Neg<Output = T>, S: Fn(T) -> T, C: Fn(T) -> T>(
    p1: Pendulum<T>,
    p2: Pendulum<T>,
    sin: S,
    cos: C,
    q1: Pendulum<T>,
    q2: Pendulum<T>,
)
    requires
        functional(sin),
        functional(cos),
        p1.origin == p2.origin,
        p1.angle == p2.angle,
        p1.angular_velocity == p2.angular_velocity,
        p1.r == p2.r,
        p1.g == p2.g,
        updated(p1, sin, cos, q1),
        updated(p2, sin, cos, q2),
    ensures
        q1 == q2,
{
}

impl<T: Copy + core::ops::Add<Output = T> + core::ops::Mul<Output = T> + core::ops::Div<
    Output = T,
> + core::ops::Neg<Output = T>> Pendulum<T> {
    /// A pendulum hanging from `(x, y)` with arm length `r`, released at `angle`
    /// under gravity `g`; its velocity and acceleration start at `rest`, and the bob
    /// sits at `(rest, rest)` until the first step places it.
    pub fn new(x: T, y: T, r: T, angle: T, g: T, rest: T) -> (p: Pendulum<T>)
        ensures
            p.origin == (Vector { x, y }),
            p.position == (Vector { x: rest, y: rest }),
            p.angle == angle,
            p.angular_velocity == rest,
            p.angular_acceleration == rest,
            p.r == r,
            p.g == g,
    {
        Pendulum {
            origin: Vector::new(x, y),
            position: Vector::new(rest, rest),
            angle,
            angular_velocity: rest,
            angular_acceleration: rest,
            r,
            g,
        }
    }

    /// Integrates one step, given the sine of the current angle.
    pub fn swing(&mut self, sin_angle: T)
        requires
            swing_defined(*old(self), sin_angle),
        ensures
            final(self).origin == old(self).origin,
            final(self).position == old(self).position,
            final(self).r == old(self).r,
            final(self).g == old(self).g,
            arithmetic_specified::<T>() ==> *final(self) == swung(*old(self), sin_angle),
    {
        self.angular_acceleration = self.g.neg() * sin_angle / self.r;
        self.angular_velocity = self.angular_velocity + self.angular_acceleration;
        self.angle = self.angle + self.angular_velocity;
    }

    /// Places the bob, given the sine and cosine of the current angle.
    pub fn place(&mut self, sin_angle: T, cos_angle: T)
        requires
            place_defined(*old(self), sin_angle, cos_angle),
        ensures
            final(self).origin == old(self).origin,
            final(self).angle == old(self).angle,
            final(self).angular_velocity == old(self).angular_velocity,
            final(self).angular_acceleration == old(self).angular_acceleration,
            final(self).r == old(self).r,
            final(self).g == old(self).g,
            arithmetic_specified::<T>() ==> *final(self) == placed(*old(self), sin_angle, cos_angle),
    {
        self.position.set(Vector::new(self.r * sin_angle, self.r * cos_angle));
        self.position.add(&self.origin);
    }

    /// Advances the pendulum by one step, with `sin` and `cos` as the trigonometry.
    pub fn update<S: Fn(T) -> T, C: Fn(T) -> T>(&mut self, sin: S, cos: C)
        requires
            arithmetic_total::<T>(),
            forall|a: T| #[trigger] sin.requires((a,)),
            forall|a: T| #[trigger] cos.requires((a,)),
        ensures
            final(self).origin == old(self).origin,
            final(self).r == old(self).r,
            final(self).g == old(self).g,
            arithmetic_specified::<T>() ==> updated(*old(self), sin, cos, *final(self)),
    {
        let s0 = sin(self.angle);
        self.swing(s0);
        let s1 = sin(self.angle);
        let c1 = cos(self.angle);
        self.place(s1, c1);
    }
}

} // verus!
