//! Tests of the force model, the RK4 integrator and the trajectory rules.

use magnus_simulation::fixed::SCALE;
use magnus_simulation::integrator::Forces;
use magnus_simulation::integrator::RK4Integrator;
use magnus_simulation::parameter::MagnusParameter;
use magnus_simulation::simulate_trajectory;
use magnus_simulation::vector3::Vec3;

/// A real number as a raw fixed-point value.
fn fx(x: f64) -> i64 {
    (x * SCALE as f64).round() as i64
}

/// A raw fixed-point value as a real number.
fn re(r: i64) -> f64 {
    r as f64 / SCALE as f64
}

/// The standard test shot: 20 m/s at 45 degrees elevation, no azimuth,
/// no spin, no drag, no lift, dt = 0.01 s, duration 10 s.
fn ballistic_params() -> MagnusParameter {
    MagnusParameter::new(
        fx(20.0),
        fx(std::f64::consts::FRAC_PI_4),
        0,
        0,
        0,
        0,
        true,
        fx(1.225),
        fx(0.01),
        fx(10.0),
    )
}

#[test]
fn parameter_fields_carried() {
    let p = MagnusParameter::new(
        fx(20.0),
        fx(0.3),
        fx(0.1),
        fx(0.02),
        fx(0.01),
        fx(50.0),
        false,
        fx(1.225),
        fx(0.01),
        fx(2.0),
    );
    assert_eq!(p.initial_velocity, fx(20.0));
    assert_eq!(p.elevation_angle, fx(0.3));
    assert_eq!(p.azimuth_angle, fx(0.1));
    assert_eq!(p.drag_coefficient, fx(0.02));
    assert_eq!(p.lift_coefficient, fx(0.01));
    assert_eq!(p.spin_rate, fx(50.0));
    assert!(!p.is_top_spin);
    assert_eq!(p.air_density, fx(1.225));
    assert_eq!(p.time_step, fx(0.01));
    assert_eq!(p.duration, fx(2.0));
}

#[test]
fn forces_total_is_sum() {
    let m = Vec3::new(fx(1.0), fx(2.0), fx(3.0));
    let d = Vec3::new(fx(-0.5), fx(0.25), fx(1.0));
    let g = Vec3::new(0, fx(-9.81), 0);
    let f = Forces::new(m, d, g);
    assert_eq!(f.magnus, m);
    assert_eq!(f.drag, d);
    assert_eq!(f.gravity, g);
    assert_eq!(f.total, m.plus(&d).plus(&g));
}

#[test]
fn zero_speed_branch_kills_drag_and_magnus() {
    let p = MagnusParameter::new(
        0,
        0,
        0,
        fx(0.3),
        fx(0.2),
        fx(100.0),
        true,
        fx(1.225),
        fx(0.01),
        fx(1.0),
    );
    // Mass 2.5: the acceleration must still be exactly (0, -9.81, 0).
    let integ = RK4Integrator::new(p, fx(2.5), Vec3::new(fx(10.0), fx(20.0), fx(30.0)));
    let (forces, accel) = integ.calculate_forces_and_acceleration(Vec3::new(0, 0, 0));
    assert_eq!(forces.magnus, Vec3::new(0, 0, 0));
    assert_eq!(forces.drag, Vec3::new(0, 0, 0));
    assert_eq!(forces.gravity, Vec3::new(0, fx(-2.5 * 9.81), 0));
    assert_eq!(forces.total, forces.gravity);
    assert_eq!(accel, Vec3::new(0, fx(-9.81), 0));
}

#[test]
fn initial_forces_match_force_model() {
    let p = MagnusParameter::new(
        fx(30.0),
        fx(0.4),
        fx(0.2),
        fx(0.05),
        fx(0.02),
        fx(80.0),
        true,
        fx(1.225),
        fx(0.01),
        fx(3.0),
    );
    let spin = Vec3::new(0, 0, fx(-80.0));
    let mass = fx(0.145);
    let (magnus, drag, gravity) = p.initial_forces(spin, mass);
    let v = p.launch_velocity();
    assert_eq!(magnus, spin.cross(&v).scaled(p.lift_coefficient));
    let speed = v.magnitude();
    assert_eq!(
        drag,
        v.scaled(magnus_simulation::fixed::fmul(
            magnus_simulation::fixed::fneg(p.drag_coefficient),
            speed
        ))
    );
    assert_eq!(gravity, Vec3::new(0, fx(-0.145 * 9.81), 0));
}

#[test]
fn launch_velocity_components() {
    let p = MagnusParameter::new(
        fx(20.0),
        fx(std::f64::consts::FRAC_PI_4),
        fx(0.5),
        0,
        0,
        0,
        true,
        fx(1.225),
        fx(0.01),
        fx(1.0),
    );
    let v = p.launch_velocity();
    let c = std::f64::consts::FRAC_PI_4.cos();
    assert!((re(v.x) - 20.0 * c * 0.5f64.cos()).abs() < 1e-4);
    assert!((re(v.y) - 20.0 * std::f64::consts::FRAC_PI_4.sin()).abs() < 1e-4);
    assert!((re(v.z) - 20.0 * c * 0.5f64.sin()).abs() < 1e-4);
}

#[test]
fn trajectory_starts_at_origin_at_time_zero() {
    let p = ballistic_params();
    let integ = RK4Integrator::new(p, fx(1.0), Vec3::new(0, 0, 0));
    let traj = integ.simulate_points(p.duration, p.time_step);
    assert!(traj.len() > 2);
    assert_eq!(traj[0].time, 0);
    assert_eq!(traj[0].position, Vec3::new(0, 0, 0));
    assert!((re(traj[0].velocity.y) - 20.0 * std::f64::consts::FRAC_PI_4.sin()).abs() < 1e-4);
}

#[test]
fn ground_termination_at_analytic_flight_time() {
    let p = ballistic_params();
    let integ = RK4Integrator::new(p, fx(1.0), Vec3::new(0, 0, 0));
    let traj = integ.simulate_points(p.duration, p.time_step);
    let last = traj[traj.len() - 1];
    // The last point is clamped to exactly ground level ...
    assert_eq!(last.position.y, 0);
    // ... close to the analytic time of flight 2 v0 sin(45deg) / g ~ 2.88 s ...
    let tof = 2.0 * 20.0 * std::f64::consts::FRAC_PI_4.sin() / 9.81;
    assert!((re(last.time) - tof).abs() < 0.02, "time {}", re(last.time));
    // ... and well after the very first post-launch step.
    assert!(traj.len() > 100);
    assert!(traj[1].position.y > 0);
}

#[test]
fn first_post_launch_step_never_terminates() {
    // Fired straight down: the height is negative from the first step on,
    // but the first post-launch step must not be treated as a ground hit;
    // the second one is, and it is clamped.
    let p = MagnusParameter::new(
        fx(20.0),
        fx(-std::f64::consts::FRAC_PI_2),
        0,
        0,
        0,
        0,
        true,
        fx(1.225),
        fx(0.01),
        fx(10.0),
    );
    let integ = RK4Integrator::new(p, fx(1.0), Vec3::new(0, 0, 0));
    let traj = integ.simulate_points(p.duration, p.time_step);
    assert_eq!(traj.len(), 3);
    assert!(traj[1].position.y < 0);
    assert_eq!(traj[2].position.y, 0);
    assert_eq!(traj[2].time, 2 * p.time_step);
}

#[test]
fn no_clamp_when_duration_runs_out() {
    // Still ascending when the step budget ends: no clamping happens.
    let p = MagnusParameter::new(
        fx(20.0),
        fx(std::f64::consts::FRAC_PI_4),
        0,
        0,
        0,
        0,
        true,
        fx(1.225),
        fx(0.01),
        fx(0.5),
    );
    let integ = RK4Integrator::new(p, fx(1.0), Vec3::new(0, 0, 0));
    let traj = integ.simulate_points(p.duration, p.time_step);
    assert_eq!(traj.len(), 51);
    assert!(traj[50].position.y > 0);
}

#[test]
fn free_fall_matches_parabola() {
    let p = ballistic_params();
    let integ = RK4Integrator::new(p, fx(1.0), Vec3::new(0, 0, 0));
    let traj = integ.simulate_points(p.duration, p.time_step);
    let vy0 = re(traj[0].velocity.y);
    let vx0 = re(traj[0].velocity.x);
    for (j, pt) in traj.iter().enumerate() {
        if j == traj.len() - 1 {
            break; // the last point's height is clamped
        }
        let t = re(pt.time);
        let y = vy0 * t - 0.5 * 9.81 * t * t;
        let x = vx0 * t;
        assert!((re(pt.position.y) - y).abs() < 1e-4, "y at {}: {}", t, re(pt.position.y));
        assert!((re(pt.position.x) - x).abs() < 1e-4, "x at {}: {}", t, re(pt.position.x));
        assert!((re(pt.velocity.y) - (vy0 - 9.81 * t)).abs() < 1e-4);
    }
}

#[test]
fn force_decomposition_holds_along_trajectory() {
    let p = MagnusParameter::new(
        fx(30.0),
        fx(0.6),
        fx(0.2),
        fx(0.02),
        fx(0.01),
        fx(80.0),
        true,
        fx(1.225),
        fx(0.01),
        fx(3.0),
    );
    let integ = RK4Integrator::new(p, fx(0.145), Vec3::new(0, 0, fx(-80.0)));
    let traj = integ.simulate_points(p.duration, p.time_step);
    assert!(traj.len() > 2);
    for pt in traj.iter() {
        assert_eq!(pt.forces.total, pt.forces.magnus.plus(&pt.forces.drag).plus(&pt.forces.gravity));
    }
}

#[test]
fn monotonic_time_with_exact_steps() {
    let p = ballistic_params();
    let integ = RK4Integrator::new(p, fx(1.0), Vec3::new(0, 0, 0));
    let traj = integ.simulate_points(p.duration, p.time_step);
    assert_eq!(traj[0].time, 0);
    for j in 0..traj.len() {
        assert_eq!(traj[j].time, j as i64 * p.time_step);
        if j > 0 {
            assert!(traj[j].time > traj[j - 1].time);
            assert_eq!(traj[j].time - traj[j - 1].time, p.time_step);
        }
    }
}

#[test]
fn determinism_bit_for_bit() {
    let p = MagnusParameter::new(
        fx(30.0),
        fx(0.6),
        fx(0.2),
        fx(0.02),
        fx(0.01),
        fx(80.0),
        false,
        fx(1.225),
        fx(0.01),
        fx(3.0),
    );
    let spin = Vec3::new(fx(5.0), fx(-3.0), fx(-80.0));
    let a = RK4Integrator::new(p, fx(0.145), spin).simulate_points(p.duration, p.time_step);
    let b = RK4Integrator::new(p, fx(0.145), spin).simulate_points(p.duration, p.time_step);
    assert_eq!(a, b);
    let c = simulate_trajectory(p, fx(0.145), spin);
    let d = simulate_trajectory(p, fx(0.145), spin);
    assert_eq!(c, d);
}

#[test]
fn simulate_trajectory_mirrors_points() {
    let p = MagnusParameter::new(
        fx(25.0),
        fx(0.5),
        fx(0.1),
        fx(0.01),
        fx(0.005),
        fx(40.0),
        true,
        fx(1.225),
        fx(0.02),
        fx(2.0),
    );
    let spin = Vec3::new(0, fx(40.0), 0);
    let mass = fx(0.5);
    let points = RK4Integrator::new(p, mass, spin).simulate_points(p.duration, p.time_step);
    let detailed = simulate_trajectory(p, mass, spin);
    assert_eq!(points.len(), detailed.len());
    for j in 0..points.len() {
        assert_eq!(detailed[j].time, points[j].time);
        assert_eq!(detailed[j].position, points[j].position);
        assert_eq!(detailed[j].velocity, points[j].velocity);
        assert_eq!(detailed[j].acceleration, points[j].acceleration);
        assert_eq!(detailed[j].forces.magnus, points[j].forces.magnus);
        assert_eq!(detailed[j].forces.drag, points[j].forces.drag);
        assert_eq!(detailed[j].forces.gravity, points[j].forces.gravity);
        assert_eq!(detailed[j].forces.total, points[j].forces.total);
    }
}

#[test]
fn magnus_force_bends_the_shot() {
    // Back-spin about the z axis on a shot along x lifts the ball: spin
    // cross velocity points up, so a small positive lift raises the apex
    // above the spinless apex.
    let mut p = MagnusParameter::new(
        fx(30.0),
        fx(0.6),
        0,
        0,
        fx(0.0001),
        fx(80.0),
        false,
        fx(1.225),
        fx(0.01),
        fx(6.0),
    );
    let mass = fx(0.145);
    let no_spin = RK4Integrator::new(p, mass, Vec3::new(0, 0, 0))
        .simulate_points(p.duration, p.time_step);
    let spun = RK4Integrator::new(p, mass, Vec3::new(0, 0, fx(80.0)))
        .simulate_points(p.duration, p.time_step);
    let apex = |t: &Vec<magnus_simulation::integrator::TrajectoryPoint>| {
        t.iter().map(|q| q.position.y).max().unwrap()
    };
    assert!(apex(&spun) > apex(&no_spin));
    p.lift_coefficient = 0;
    let relabelled = RK4Integrator::new(p, mass, Vec3::new(0, 0, fx(80.0)))
        .simulate_points(p.duration, p.time_step);
    // With zero lift the spin vector has no effect at all.
    assert_eq!(relabelled, no_spin);
}

#[test]
fn force_model_exact_values() {
    // speed = |(3,4,0)| = 5; drag = -0.1 * 5 * v = (-1.5, -2.0, 0);
    // magnus = 2 * (spin x v) = 2 * (-4, 3, 0) = (-8, 6, 0);
    // gravity = (0, -9.81, 0); acceleration = total / 1.
    let p = MagnusParameter::new(
        0,
        0,
        0,
        fx(0.1),
        fx(2.0),
        fx(1.0),
        true,
        fx(1.225),
        fx(0.01),
        fx(1.0),
    );
    let integ = RK4Integrator::new(p, fx(1.0), Vec3::new(0, 0, fx(1.0)));
    let v = Vec3::new(fx(3.0), fx(4.0), 0);
    let (forces, accel) = integ.calculate_forces_and_acceleration(v);
    assert_eq!(forces.drag, Vec3::new(fx(-1.5), fx(-2.0), 0));
    assert_eq!(forces.magnus, Vec3::new(fx(-8.0), fx(6.0), 0));
    assert_eq!(forces.gravity, Vec3::new(0, fx(-9.81), 0));
    assert_eq!(forces.total, Vec3::new(fx(-9.5), fx(4.0 - 9.81), 0));
    assert_eq!(accel, forces.total);
}
