//! Immutable simulation configuration.
//!
//! `MagnusParameter` bundles the launch conditions, the aerodynamic
//! coefficients and the integration grid.  The spin sense flag and the air
//! density are carried for the caller's interpretation only: the force
//! model expects them already folded into the spin vector and into the
//! drag and lift coefficients.

use vstd::prelude::*;

use crate::fixed::fmul;
use crate::fixed::fneg;
use crate::fixed::spec_fneg;
use crate::fixed::spec_fmul;
use crate::integrator::spec_gravity_force;
use crate::integrator::GRAVITY;
use crate::trig::fcos;
use crate::trig::fsin;
use crate::trig::spec_fcos;
use crate::trig::spec_fsin;
use crate::vector3::v3_cross;
use crate::vector3::v3_mag;
use crate::vector3::v3_scale;
use crate::vector3::Vec3;
use crate::vector3::V3;

verus! {

/// Mathematical view of a `MagnusParameter`.
pub ghost struct ParamV {
    pub initial_velocity: int,
    pub azimuth_angle: int,
    pub elevation_angle: int,
    pub spin_rate: int,
    pub is_top_spin: bool,
    pub drag_coefficient: int,
    pub lift_coefficient: int,
    pub air_density: int,
    pub time_step: int,
    pub duration: int,
}

/// Configuration of one simulation run.  Scalars are raw fixed-point
/// values; angles are radians.
#[derive(Clone, Copy, Debug, PartialEq, Eq, Structural)]
pub struct MagnusParameter {
    pub initial_velocity: i64,
    pub azimuth_angle: i64,
    pub elevation_angle: i64,
    pub spin_rate: i64,
    pub is_top_spin: bool,
    pub drag_coefficient: i64,
    pub lift_coefficient: i64,
    pub air_density: i64,
    pub time_step: i64,
    pub duration: i64,
}

impl View for MagnusParameter {
    type V = ParamV;

    open spec fn view(&self) -> ParamV {
        ParamV {
            initial_velocity: self.initial_velocity as int,
            azimuth_angle: self.azimuth_angle as int,
            elevation_angle: self.elevation_angle as int,
            spin_rate: self.spin_rate as int,
            is_top_spin: self.is_top_spin,
            drag_coefficient: self.drag_coefficient as int,
            lift_coefficient: self.lift_coefficient as int,
            air_density: self.air_density as int,
            time_step: self.time_step as int,
            duration: self.duration as int,
        }
    }
}

/// Launch velocity derived from the configured speed and angles:
/// `vx = v0 cos(el) cos(az)`, `vy = v0 sin(el)`, `vz = v0 cos(el) sin(az)`.
/// Marked opaque: the trig chain inside is large, and only the launch
/// computation itself needs it.
#[verifier::opaque]
pub open spec fn spec_launch_velocity(p: ParamV) -> V3 {
    V3 {
        x: spec_fmul(
            spec_fmul(p.initial_velocity, spec_fcos(p.elevation_angle)),
            spec_fcos(p.azimuth_angle),
        ),
        y: spec_fmul(p.initial_velocity, spec_fsin(p.elevation_angle)),
        z: spec_fmul(
            spec_fmul(p.initial_velocity, spec_fcos(p.elevation_angle)),
            spec_fsin(p.azimuth_angle),
        ),
    }
}

impl MagnusParameter {
    /// Bundle the ten configuration fields; no validation happens here,
    /// matching the core's contract that the caller screens its inputs.
    pub fn new(
        initial_velocity: i64,
        elevation_angle: i64,
        azimuth_angle: i64,
        drag_coefficient: i64,
        lift_coefficient: i64,
        spin_rate: i64,
        is_top_spin: bool,
        air_density: i64,
        time_step: i64,
        duration: i64,
    ) -> (r: MagnusParameter)
        ensures
            r@ == (ParamV {
                initial_velocity: initial_velocity as int,
                azimuth_angle: azimuth_angle as int,
                elevation_angle: elevation_angle as int,
                spin_rate: spin_rate as int,
                is_top_spin,
                drag_coefficient: drag_coefficient as int,
                lift_coefficient: lift_coefficient as int,
                air_density: air_density as int,
                time_step: time_step as int,
                duration: duration as int,
            }),
    {
        MagnusParameter {
            initial_velocity,
            azimuth_angle,
            elevation_angle,
            spin_rate,
            is_top_spin,
            drag_coefficient,
            lift_coefficient,
            air_density,
            time_step,
            duration,
        }
    }

    /// The launch velocity vector of this configuration.
    pub fn launch_velocity(&self) -> (r: Vec3)
        ensures
            r@ == spec_launch_velocity(self@),
    {
        proof {
            reveal(spec_launch_velocity);
        }
        let cos_el = fcos(self.elevation_angle);
        let vx = fmul(fmul(self.initial_velocity, cos_el), fcos(self.azimuth_angle));
        let vy = fmul(self.initial_velocity, fsin(self.elevation_angle));
        let vz = fmul(fmul(self.initial_velocity, cos_el), fsin(self.azimuth_angle));
        Vec3::new(vx, vy, vz)
    }

    /// The Magnus, drag and gravity forces acting on the launch state,
    /// in that order.
    pub fn initial_forces(&self, spin_vector: Vec3, mass: i64) -> (r: (Vec3, Vec3, Vec3))
        ensures
            r.0@ == v3_scale(self@.lift_coefficient, v3_cross(spin_vector@, spec_launch_velocity(self@))),
            r.1@ == v3_scale(
                spec_fmul(spec_fneg(self@.drag_coefficient), v3_mag(spec_launch_velocity(self@))),
                spec_launch_velocity(self@),
            ),
            r.2@ == spec_gravity_force(mass as int),
    {
        let v = self.launch_velocity();
        let mag_v = v.magnitude();
        let magnus_force = spin_vector.cross(&v).scaled(self.lift_coefficient);
        let drag_force = v.scaled(fmul(fneg(self.drag_coefficient), mag_v));
        let gravitational_force = Vec3::new(0, fneg(fmul(mass, GRAVITY)), 0);
        (magnus_force, drag_force, gravitational_force)
    }
}

} // verus!
