//! Force model and classical fourth-order Runge-Kutta integrator.
//!
//! `RK4Integrator` owns the configuration, the projectile mass and the
//! fixed spin vector.  Each step evaluates the force model at up to four
//! trial velocities, combines the slopes in the classical RK4 weighting,
//! and the trajectory loop stops either when the configured number of
//! steps is exhausted or when the projectile first returns to ground
//! level after the first post-launch step.
//!
//! Every executable function returns exactly the value of its spec-level
//! mirror, so a whole simulation run is pinned to one mathematical
//! sequence of trajectory points.

use vstd::prelude::*;

use crate::fixed::abs_i;
use crate::fixed::fdiv;
use crate::fixed::fmul;
use crate::fixed::fmul_int;
use crate::fixed::fneg;
use crate::fixed::lemma_fmul_in_range;
use crate::fixed::lemma_fmul_zero;
use crate::fixed::spec_fdiv;
use crate::fixed::spec_fmul;
use crate::fixed::spec_fmul_int;
use crate::fixed::spec_fneg;
use crate::fixed::SAT_MAX;
use crate::parameter::spec_launch_velocity;
use crate::parameter::MagnusParameter;
use crate::parameter::ParamV;
use crate::vector3::v3_add;
use crate::vector3::v3_cross;
use crate::vector3::v3_div_s;
use crate::vector3::v3_mag;
use crate::vector3::v3_scale;
use crate::vector3::v3_zero;
use crate::vector3::Vec3;
use crate::vector3::V3;

verus! {

/// Standard gravity, raw fixed-point units (9.81 in real units).
pub const GRAVITY: i64 = 9_810_000_000;

/// One half, raw fixed-point units.
pub const FX_HALF: i64 = 500_000_000;

/// Two, raw fixed-point units.
pub const FX_TWO: i64 = 2_000_000_000;

/// Six, raw fixed-point units.
pub const FX_SIX: i64 = 6_000_000_000;

/// Mathematical view of a `PresentState`.
pub ghost struct StateV {
    pub position: V3,
    pub velocity: V3,
}

/// Mathematical view of a `DerivativeState`.
pub ghost struct DerivV {
    pub velocity: V3,
    pub acceleration: V3,
}

/// Mathematical view of a `Forces` (and of a `ForceData`).
pub ghost struct ForcesV {
    pub magnus: V3,
    pub drag: V3,
    pub gravity: V3,
    pub total: V3,
}

/// Mathematical view of a `TrajectoryPoint`.
pub ghost struct TrajPV {
    pub time: int,
    pub position: V3,
    pub velocity: V3,
    pub acceleration: V3,
    pub forces: ForcesV,
}

/// Mathematical view of an `RK4Integrator`.
pub ghost struct IntegV {
    pub params: ParamV,
    pub mass: int,
    pub spin: V3,
}

/// Position and velocity of the projectile at one instant.
#[derive(Clone, Copy, Debug, PartialEq, Eq, Structural)]
pub struct PresentState {
    pub position: Vec3,
    pub velocity: Vec3,
}

impl View for PresentState {
    type V = StateV;

    open spec fn view(&self) -> StateV {
        StateV { position: self.position@, velocity: self.velocity@ }
    }
}

impl PresentState {
    /// Pair a position with a velocity.
    pub fn new(position: Vec3, velocity: Vec3) -> (r: PresentState)
        ensures
            r@ == (StateV { position: position@, velocity: velocity@ }),
    {
        PresentState { position, velocity }
    }
}

/// The RK4 slope: the time derivative (velocity, acceleration) of a state.
#[derive(Clone, Copy, Debug, PartialEq, Eq, Structural)]
pub struct DerivativeState {
    pub velocity: Vec3,
    pub acceleration: Vec3,
}

impl View for DerivativeState {
    type V = DerivV;

    open spec fn view(&self) -> DerivV {
        DerivV { velocity: self.velocity@, acceleration: self.acceleration@ }
    }
}

impl DerivativeState {
    /// Pair a velocity with an acceleration.
    pub fn new(velocity: Vec3, acceleration: Vec3) -> (r: DerivativeState)
        ensures
            r@ == (DerivV { velocity: velocity@, acceleration: acceleration@ }),
    {
        DerivativeState { velocity, acceleration }
    }
}

/// The decomposed force contributions at one instant.  The total is always
/// the (saturating) vector sum of the three parts.
#[derive(Clone, Copy, Debug, PartialEq, Eq, Structural)]
pub struct Forces {
    pub magnus: Vec3,
    pub drag: Vec3,
    pub gravity: Vec3,
    pub total: Vec3,
}

impl View for Forces {
    type V = ForcesV;

    open spec fn view(&self) -> ForcesV {
        ForcesV {
            magnus: self.magnus@,
            drag: self.drag@,
            gravity: self.gravity@,
            total: self.total@,
        }
    }
}

/// A force breakdown whose total is the sum of the three contributions.
pub open spec fn spec_forces_new(magnus: V3, drag: V3, gravity: V3) -> ForcesV {
    ForcesV { magnus, drag, gravity, total: v3_add(v3_add(magnus, drag), gravity) }
}

impl Forces {
    /// Assemble a breakdown from its three contributions; the total is
    /// computed here and is never stored independently.
    pub fn new(magnus: Vec3, drag: Vec3, gravity: Vec3) -> (r: Forces)
        ensures
            r@ == spec_forces_new(magnus@, drag@, gravity@),
    {
        let total = magnus.plus(&drag).plus(&gravity);
        Forces { magnus, drag, gravity, total }
    }
}

/// The same breakdown as `Forces`, in the plain data-only shape handed to
/// the boundary layer inside a `DetailedTrajectoryPoint`.
#[derive(Clone, Copy, Debug, PartialEq, Eq, Structural)]
pub struct ForceData {
    pub magnus: Vec3,
    pub drag: Vec3,
    pub gravity: Vec3,
    pub total: Vec3,
}

impl View for ForceData {
    type V = ForcesV;

    open spec fn view(&self) -> ForcesV {
        ForcesV {
            magnus: self.magnus@,
            drag: self.drag@,
            gravity: self.gravity@,
            total: self.total@,
        }
    }
}

/// One sample of the trajectory: elapsed time, kinematic state and the
/// force breakdown at that instant.
#[derive(Clone, Copy, Debug, PartialEq, Eq, Structural)]
pub struct TrajectoryPoint {
    pub time: i64,
    pub position: Vec3,
    pub velocity: Vec3,
    pub acceleration: Vec3,
    pub forces: Forces,
}

impl View for TrajectoryPoint {
    type V = TrajPV;

    open spec fn view(&self) -> TrajPV {
        TrajPV {
            time: self.time as int,
            position: self.position@,
            velocity: self.velocity@,
            acceleration: self.acceleration@,
            forces: self.forces@,
        }
    }
}

/// The gravity force `(0, -mass * g, 0)`.
pub open spec fn spec_gravity_force(mass: int) -> V3 {
    V3 { x: 0, y: spec_fneg(spec_fmul(mass, GRAVITY as int)), z: 0 }
}

/// The force breakdown at a velocity.  At zero speed (the only grid point
/// whose magnitude lies below the degenerate-case threshold) drag and
/// Magnus are exactly zero and only gravity acts.
pub open spec fn spec_forces_at(c: IntegV, vel: V3) -> ForcesV {
    if v3_mag(vel) == 0 {
        spec_forces_new(v3_zero(), v3_zero(), spec_gravity_force(c.mass))
    } else {
        spec_forces_new(
            v3_scale(c.params.lift_coefficient, v3_cross(c.spin, vel)),
            v3_scale(spec_fmul(spec_fneg(c.params.drag_coefficient), v3_mag(vel)), vel),
            spec_gravity_force(c.mass),
        )
    }
}

/// The acceleration at a velocity.  At zero speed it is the constant
/// `(0, -g, 0)`, computed independently of the mass; otherwise it is the
/// total force divided by the mass.
pub open spec fn spec_accel_at(c: IntegV, vel: V3) -> V3 {
    if v3_mag(vel) == 0 {
        V3 { x: 0, y: -(GRAVITY as int), z: 0 }
    } else {
        v3_div_s(spec_forces_at(c, vel).total, c.mass)
    }
}

/// The RK4 slope at a state: its velocity paired with the acceleration of
/// its velocity.
pub open spec fn spec_slope(c: IntegV, s: StateV) -> DerivV {
    DerivV { velocity: s.velocity, acceleration: spec_accel_at(c, s.velocity) }
}

/// The slope at the state advanced along an earlier slope over `dt`.
pub open spec fn spec_slope_future(c: IntegV, s: StateV, d: DerivV, dt: int) -> DerivV {
    spec_slope(
        c,
        StateV {
            position: v3_add(s.position, v3_scale(dt, d.velocity)),
            velocity: v3_add(s.velocity, v3_scale(dt, d.acceleration)),
        },
    )
}

/// One classical RK4 step of size `dt` from a state.  Marked opaque: its
/// unfolding is large, and only the step function itself needs it.
#[verifier::opaque]
pub open spec fn spec_step(c: IntegV, s: StateV, dt: int) -> StateV {
    let k1 = spec_slope(c, s);
    let k2 = spec_slope_future(c, s, k1, spec_fmul(dt, FX_HALF as int));
    let k3 = spec_slope_future(c, s, k2, spec_fmul(dt, FX_HALF as int));
    let k4 = spec_slope_future(c, s, k3, dt);
    let dt6 = spec_fdiv(dt, FX_SIX as int);
    let position_change = v3_scale(
        dt6,
        v3_add(v3_add(k1.velocity, v3_scale(FX_TWO as int, v3_add(k2.velocity, k3.velocity))), k4.velocity),
    );
    let velocity_change = v3_scale(
        dt6,
        v3_add(
            v3_add(k1.acceleration, v3_scale(FX_TWO as int, v3_add(k2.acceleration, k3.acceleration))),
            k4.acceleration,
        ),
    );
    StateV {
        position: v3_add(s.position, position_change),
        velocity: v3_add(s.velocity, velocity_change),
    }
}

/// The trajectory point recorded for a state at a given elapsed time.
pub open spec fn spec_traj_point(c: IntegV, t: int, s: StateV) -> TrajPV {
    TrajPV {
        time: t,
        position: s.position,
        velocity: s.velocity,
        acceleration: spec_accel_at(c, s.velocity),
        forces: spec_forces_at(c, s.velocity),
    }
}

/// Ceiling of `a / b` for positive `a` and `b`.
pub open spec fn ceil_div(a: int, b: int) -> int
    recommends
        a > 0,
        b > 0,
{
    (a + b - 1) / b
}

/// The trajectory points after the launch point, starting from state `s`
/// just before step `i` of `n`.  A step whose new height is at or below
/// zero ends the sequence with the height clamped to zero, unless it is
/// the very first post-launch step.
pub open spec fn spec_sim_rest(c: IntegV, s: StateV, i: int, n: int, dt: int) -> Seq<TrajPV>
    decreases n - i,
{
    if i >= n {
        Seq::empty()
    } else {
        let s1 = spec_step(c, s, dt);
        let t = spec_fmul_int(i + 1, dt);
        if s1.position.y <= 0 && i > 0 {
            let s2 = StateV {
                position: V3 { x: s1.position.x, y: 0, z: s1.position.z },
                velocity: s1.velocity,
            };
            seq![spec_traj_point(c, t, s2)]
        } else {
            seq![spec_traj_point(c, t, s1)] + spec_sim_rest(c, s1, i + 1, n, dt)
        }
    }
}

/// The full trajectory of a run: the launch point at time zero, followed
/// by one point per RK4 step until the step budget `ceil(duration / dt)`
/// is exhausted or the ground is hit.
pub open spec fn spec_trajectory(c: IntegV, duration: int, dt: int) -> Seq<TrajPV> {
    let s0 = StateV { position: v3_zero(), velocity: spec_launch_velocity(c.params) };
    seq![spec_traj_point(c, 0, s0)] + spec_sim_rest(c, s0, 0, ceil_div(duration, dt), dt)
}

/// The views of a sequence of trajectory points.
pub open spec fn views_of(s: Seq<TrajectoryPoint>) -> Seq<TrajPV> {
    s.map_values(|p: TrajectoryPoint| p@)
}

/// Whether a force breakdown's total is the (saturating) vector sum of
/// its Magnus, drag and gravity contributions.
pub open spec fn force_sum_ok(p: TrajPV) -> bool {
    p.forces.total == v3_add(v3_add(p.forces.magnus, p.forces.drag), p.forces.gravity)
}

/// At zero speed the Magnus and drag forces are exactly the zero vector
/// and the acceleration is the constant `(0, -g, 0)`, whatever the mass.
pub proof fn lemma_zero_speed_branch(c: IntegV, vel: V3)
    requires
        v3_mag(vel) == 0,
    ensures
        spec_forces_at(c, vel).magnus == v3_zero(),
        spec_forces_at(c, vel).drag == v3_zero(),
        spec_accel_at(c, vel) == (V3 { x: 0, y: -(GRAVITY as int), z: 0 }),
{
}

/// No-force free fall: with zero drag and lift coefficients the Magnus
/// and drag forces vanish at every velocity, and the total force is the
/// gravity force alone, whatever the spin vector.
pub proof fn lemma_free_fall_only_gravity(c: IntegV, vel: V3)
    requires
        c.params.lift_coefficient == 0,
        c.params.drag_coefficient == 0,
    ensures
        spec_forces_at(c, vel).magnus == v3_zero(),
        spec_forces_at(c, vel).drag == v3_zero(),
        spec_forces_at(c, vel).total == spec_forces_at(c, vel).gravity,
{
    let g = spec_gravity_force(c.mass);
    let w = v3_cross(c.spin, vel);
    lemma_fmul_zero(0, w.x);
    lemma_fmul_zero(0, w.y);
    lemma_fmul_zero(0, w.z);
    lemma_fmul_zero(0, v3_mag(vel));
    lemma_fmul_zero(0, vel.x);
    lemma_fmul_zero(0, vel.y);
    lemma_fmul_zero(0, vel.z);
    lemma_fmul_in_range(c.mass, GRAVITY as int);
    assert(v3_add(v3_add(v3_zero(), v3_zero()), g) == g);
}

/// Every point after the launch point carries a force breakdown whose
/// total is the sum of its three contributions.
#[verifier::rlimit(100)]
proof fn lemma_force_decomposition_rest(c: IntegV, s: StateV, i: int, n: int, dt: int)
    ensures
        forall|j: int|
            0 <= j < spec_sim_rest(c, s, i, n, dt).len() ==> force_sum_ok(
                #[trigger] spec_sim_rest(c, s, i, n, dt)[j],
            ),
    decreases n - i,
{
    if i >= n {
    } else {
        let s1 = spec_step(c, s, dt);
        let rest = spec_sim_rest(c, s, i, n, dt);
        if s1.position.y <= 0 && i > 0 {
            assert forall|j: int| 0 <= j < rest.len() implies force_sum_ok(rest[j]) by {
                assert(j == 0);
            }
        } else {
            lemma_force_decomposition_rest(c, s1, i + 1, n, dt);
            let tail = spec_sim_rest(c, s1, i + 1, n, dt);
            assert forall|j: int| 0 <= j < rest.len() implies force_sum_ok(rest[j]) by {
                if j > 0 {
                    assert(rest[j] == tail[j - 1]);
                    assert(force_sum_ok(tail[j - 1]));
                }
            }
        }
    }
}

/// For every point of a trajectory, the total force equals the Magnus
/// force plus the drag force plus the gravity force.
pub proof fn lemma_force_decomposition(c: IntegV, duration: int, dt: int)
    ensures
        forall|j: int|
            0 <= j < spec_trajectory(c, duration, dt).len() ==> force_sum_ok(
                #[trigger] spec_trajectory(c, duration, dt)[j],
            ),
{
    let s0 = StateV { position: v3_zero(), velocity: spec_launch_velocity(c.params) };
    lemma_force_decomposition_rest(c, s0, 0, ceil_div(duration, dt), dt);
}

/// The sequence after the launch point never holds more points than steps
/// remain.
proof fn lemma_rest_len(c: IntegV, s: StateV, i: int, n: int, dt: int)
    requires
        i <= n,
    ensures
        spec_sim_rest(c, s, i, n, dt).len() <= n - i,
    decreases n - i,
{
    if i >= n {
    } else {
        let s1 = spec_step(c, s, dt);
        if s1.position.y <= 0 && i > 0 {
        } else {
            lemma_rest_len(c, s1, i + 1, n, dt);
        }
    }
}

/// Point `j` of the sequence after the launch point carries the elapsed
/// time of step `i + 1 + j`.
#[verifier::rlimit(100)]
proof fn lemma_rest_times(c: IntegV, s: StateV, i: int, n: int, dt: int)
    requires
        i >= 0,
    ensures
        forall|j: int|
            0 <= j < spec_sim_rest(c, s, i, n, dt).len() ==> (#[trigger] spec_sim_rest(
                c,
                s,
                i,
                n,
                dt,
            )[j]).time == spec_fmul_int(i + 1 + j, dt),
    decreases n - i,
{
    if i >= n {
    } else {
        let s1 = spec_step(c, s, dt);
        let rest = spec_sim_rest(c, s, i, n, dt);
        if s1.position.y <= 0 && i > 0 {
            assert forall|j: int| 0 <= j < rest.len() implies rest[j].time == spec_fmul_int(
                i + 1 + j,
                dt,
            ) by {
                assert(j == 0);
            }
        } else {
            lemma_rest_times(c, s1, i + 1, n, dt);
            let tail = spec_sim_rest(c, s1, i + 1, n, dt);
            assert forall|j: int| 0 <= j < rest.len() implies rest[j].time == spec_fmul_int(
                i + 1 + j,
                dt,
            ) by {
                if j > 0 {
                    assert(rest[j] == tail[j - 1]);
                    assert(tail[j - 1].time == spec_fmul_int(i + 1 + j, dt));
                }
            }
        }
    }
}

/// On a run whose whole simulated span stays inside the representable
/// range, point `j` of the trajectory carries the elapsed time `j * dt`
/// exactly: times start at zero, grow by exactly `dt` from one point to
/// the next, and are strictly increasing.
#[verifier::rlimit(100)]
pub proof fn lemma_monotonic_time(c: IntegV, duration: int, dt: int)
    requires
        dt > 0,
        duration > 0,
        ceil_div(duration, dt) * dt <= SAT_MAX as int,
    ensures
        spec_trajectory(c, duration, dt)[0].time == 0,
        forall|j: int|
            0 <= j < spec_trajectory(c, duration, dt).len() ==> (#[trigger] spec_trajectory(
                c,
                duration,
                dt,
            )[j]).time == j * dt,
        forall|j: int|
            0 <= j < spec_trajectory(c, duration, dt).len() - 1 ==> (#[trigger] spec_trajectory(
                c,
                duration,
                dt,
            )[j]).time < spec_trajectory(c, duration, dt)[j + 1].time,
{
    let n = ceil_div(duration, dt);
    let s0 = StateV { position: v3_zero(), velocity: spec_launch_velocity(c.params) };
    let traj = spec_trajectory(c, duration, dt);
    assert(n >= 1) by {
        vstd::arithmetic::div_mod::lemma_div_pos_is_pos(duration + dt - 1, dt);
        vstd::arithmetic::div_mod::lemma_div_non_zero(duration + dt - 1, dt);
    }
    lemma_rest_len(c, s0, 0, n, dt);
    lemma_rest_times(c, s0, 0, n, dt);
    assert forall|j: int| 0 <= j < traj.len() implies (#[trigger] traj[j]).time == j * dt by {
        if j == 0 {
        } else {
            assert(traj[j] == spec_sim_rest(c, s0, 0, n, dt)[j - 1]);
            assert(traj[j].time == spec_fmul_int(j, dt));
            assert(j * dt <= n * dt) by (nonlinear_arith)
                requires
                    0 < j <= n,
                    dt > 0,
            ;
            assert(j * abs_i(dt) == j * dt);
        }
    }
    assert forall|j: int| 0 <= j < traj.len() - 1 implies (#[trigger] traj[j]).time < traj[j
        + 1].time by {
        assert(j * dt < (j + 1) * dt) by (nonlinear_arith)
            requires
                dt > 0,
        ;
    }
}

/// A run is deterministic: any two trajectories obtained from the same
/// configuration, mass and spin vector are one and the same sequence.
pub proof fn lemma_simulation_deterministic(
    a: Seq<TrajPV>,
    b: Seq<TrajPV>,
    c: IntegV,
    duration: int,
    dt: int,
)
    requires
        a == spec_trajectory(c, duration, dt),
        b == spec_trajectory(c, duration, dt),
    ensures
        a == b,
{
}

/// The fixed-step RK4 integrator: configuration, projectile mass and spin
/// vector, all owned for the duration of one simulation call.
pub struct RK4Integrator {
    pub params: MagnusParameter,
    pub mass: i64,
    pub spin_vector: Vec3,
}

impl View for RK4Integrator {
    type V = IntegV;

    open spec fn view(&self) -> IntegV {
        IntegV { params: self.params@, mass: self.mass as int, spin: self.spin_vector@ }
    }
}

impl RK4Integrator {
    /// Bind a configuration, a mass and a spin vector for one run.
    pub fn new(params: MagnusParameter, mass: i64, spin_vector: Vec3) -> (r: RK4Integrator)
        ensures
            r@ == (IntegV { params: params@, mass: mass as int, spin: spin_vector@ }),
    {
        RK4Integrator { params, mass, spin_vector }
    }

    /// The force breakdown and the acceleration at a velocity.
    pub fn calculate_forces_and_acceleration(&self, velocity: Vec3) -> (r: (Forces, Vec3))
        requires
            self@.mass > 0,
        ensures
            r.0@ == spec_forces_at(self@, velocity@),
            r.1@ == spec_accel_at(self@, velocity@),
    {
        let speed = velocity.magnitude();

        // The degenerate-case threshold lies below the resolution of the
        // fixed-point grid, so the only magnitude under it is zero.
        if speed == 0 {
            let gravity = Vec3::new(0, fneg(fmul(self.mass, GRAVITY)), 0);
            let forces = Forces::new(Vec3::new(0, 0, 0), Vec3::new(0, 0, 0), gravity);
            return (forces, Vec3::new(0, -GRAVITY, 0));
        }

        let magnus_force = self.spin_vector.cross(&velocity).scaled(self.params.lift_coefficient);
        let drag_force = velocity.scaled(fmul(fneg(self.params.drag_coefficient), speed));
        let grav_force = Vec3::new(0, fneg(fmul(self.mass, GRAVITY)), 0);

        let forces = Forces::new(magnus_force, drag_force, grav_force);
        let acceleration = forces.total.divided_by(self.mass);

        (forces, acceleration)
    }

    /// The RK4 slope exactly at a state.
    pub fn slope_now(&self, state: &PresentState) -> (r: DerivativeState)
        requires
            self@.mass > 0,
        ensures
            r@ == spec_slope(self@, state@),
    {
        let fa = self.calculate_forces_and_acceleration(state.velocity);
        DerivativeState::new(state.velocity, fa.1)
    }

    /// The RK4 slope at the state advanced along an earlier slope over `dt`.
    pub fn slope_future(
        &self,
        present_state: &PresentState,
        derivative_state: &DerivativeState,
        dt: i64,
    ) -> (r: DerivativeState)
        requires
            self@.mass > 0,
        ensures
            r@ == spec_slope_future(self@, present_state@, derivative_state@, dt as int),
    {
        let updated_present_state = PresentState {
            position: present_state.position.plus(&derivative_state.velocity.scaled(dt)),
            velocity: present_state.velocity.plus(&derivative_state.acceleration.scaled(dt)),
        };
        self.slope_now(&updated_present_state)
    }

    /// One classical RK4 step of size `dt`.
    pub fn advance_single_step(&self, current_state: &PresentState, dt: i64) -> (r: PresentState)
        requires
            self@.mass > 0,
        ensures
            r@ == spec_step(self@, current_state@, dt as int),
    {
        proof {
            reveal(spec_step);
        }
        let half_dt = fmul(dt, FX_HALF);
        let k1 = self.slope_now(current_state);
        let k2 = self.slope_future(current_state, &k1, half_dt);
        let k3 = self.slope_future(current_state, &k2, half_dt);
        let k4 = self.slope_future(current_state, &k3, dt);

        let dt6 = fdiv(dt, FX_SIX);
        let position_change = k1.velocity.plus(
            &k2.velocity.plus(&k3.velocity).scaled(FX_TWO),
        ).plus(&k4.velocity).scaled(dt6);
        let velocity_change = k1.acceleration.plus(
            &k2.acceleration.plus(&k3.acceleration).scaled(FX_TWO),
        ).plus(&k4.acceleration).scaled(dt6);
        PresentState {
            position: current_state.position.plus(&position_change),
            velocity: current_state.velocity.plus(&velocity_change),
        }
    }

    /// Run the whole simulation: the launch point at time zero, then one
    /// RK4 step per point until the step budget is exhausted or the
    /// projectile first returns to ground level after the first
    /// post-launch step, whose height is then clamped to exactly zero.
    #[verifier::rlimit(100)]
    pub fn simulate_points(&self, duration: i64, dt: i64) -> (r: Vec<TrajectoryPoint>)
        requires
            self@.mass > 0,
            dt > 0,
            duration > 0,
        ensures
            views_of(r@) == spec_trajectory(self@, duration as int, dt as int),
    {
        let ghost full = spec_trajectory(self@, duration as int, dt as int);
        let num_steps: u64 = (((duration as u128) + (dt as u128) - 1) / (dt as u128)) as u64;
        proof {
            assert(num_steps as int == ceil_div(duration as int, dt as int));
        }
        let mut trajectory: Vec<TrajectoryPoint> = Vec::new();

        let launch = self.params.launch_velocity();
        let mut state = PresentState::new(Vec3::new(0, 0, 0), launch);
        let fa0 = self.calculate_forces_and_acceleration(state.velocity);

        trajectory.push(
            TrajectoryPoint {
                time: 0,
                position: state.position,
                velocity: state.velocity,
                acceleration: fa0.1,
                forces: fa0.0,
            },
        );
        proof {
            assert(views_of(trajectory@) =~= seq![spec_traj_point(
                self@,
                0,
                StateV { position: v3_zero(), velocity: spec_launch_velocity(self@.params) },
            )]);
        }

        let mut i: u64 = 0;
        while i < num_steps
            invariant_except_break
                i <= num_steps,
                self@.mass > 0,
                num_steps as int == ceil_div(duration as int, dt as int),
                full == spec_trajectory(self@, duration as int, dt as int),
                full == views_of(trajectory@) + spec_sim_rest(
                    self@,
                    state@,
                    i as int,
                    num_steps as int,
                    dt as int,
                ),
            ensures
                views_of(trajectory@) == full || (i >= num_steps && full == views_of(trajectory@)
                    + spec_sim_rest(self@, state@, i as int, num_steps as int, dt as int)),
            decreases num_steps - i,
        {
            let ghost pre_views = views_of(trajectory@);
            let ghost rest = spec_sim_rest(self@, state@, i as int, num_steps as int, dt as int);
            state = self.advance_single_step(&state, dt);
            let fa = self.calculate_forces_and_acceleration(state.velocity);
            let t = fmul_int(i + 1, dt);

            if state.position.y <= 0 && i > 0 {
                state.position.y = 0;
                let point = TrajectoryPoint {
                    time: t,
                    position: state.position,
                    velocity: state.velocity,
                    acceleration: fa.1,
                    forces: fa.0,
                };
                trajectory.push(point);
                proof {
                    assert(rest == seq![point@]);
                    assert(views_of(trajectory@) =~= pre_views + rest);
                }
                break;
            }

            let point = TrajectoryPoint {
                time: t,
                position: state.position,
                velocity: state.velocity,
                acceleration: fa.1,
                forces: fa.0,
            };
            trajectory.push(point);
            i = i + 1;
            proof {
                assert(rest == seq![point@] + spec_sim_rest(
                    self@,
                    state@,
                    i as int,
                    num_steps as int,
                    dt as int,
                ));
                assert(views_of(trajectory@) =~= pre_views + seq![point@]);
                assert(pre_views + rest =~= views_of(trajectory@) + spec_sim_rest(
                    self@,
                    state@,
                    i as int,
                    num_steps as int,
                    dt as int,
                ));
            }
        }

        proof {
            if views_of(trajectory@) != full {
                assert(spec_sim_rest(self@, state@, i as int, num_steps as int, dt as int)
                    =~= Seq::<TrajPV>::empty());
                assert(views_of(trajectory@) + Seq::<TrajPV>::empty() =~= views_of(trajectory@));
            }
        }
        trajectory
    }
}

} // verus!
