//! Simulation of a spinning projectile moving through air under gravity,
//! quadratic drag and the Magnus (spin-induced) force.
//!
//! All physical quantities are fixed-point numbers: an `i64` raw value
//! stands for the real number `raw / SCALE`, and every arithmetic
//! operation saturates at `SAT_MAX` instead of wrapping, so the whole
//! force model and integrator are total functions whose results are
//! pinned exactly by the spec-level mirrors in each module.

pub mod fixed;
pub mod integrator;
pub mod parameter;
pub mod trig;
pub mod vector3;

use vstd::prelude::*;

use crate::integrator::spec_trajectory;
use crate::integrator::ForceData;
use crate::integrator::IntegV;
use crate::integrator::RK4Integrator;
use crate::integrator::TrajPV;
use crate::parameter::MagnusParameter;
use crate::vector3::Vec3;

verus! {

/// One trajectory sample in the plain data-only shape handed to the
/// boundary layer: time, kinematic state and the force breakdown, all as
/// raw fixed-point scalars and vectors.
#[derive(Clone, Copy, Debug, PartialEq, Eq, Structural)]
pub struct DetailedTrajectoryPoint {
    pub time: i64,
    pub position: Vec3,
    pub velocity: Vec3,
    pub acceleration: Vec3,
    pub forces: ForceData,
}

impl View for DetailedTrajectoryPoint {
    type V = TrajPV;

    open spec fn view(&self) -> TrajPV {
        TrajPV {
            time: self.time as int,
            position: self.position@,
            velocity: self.velocity@,
            acceleration: self.acceleration@,
            forces: self.forces@,
        }
    }
}

/// The views of a sequence of detailed trajectory points.
pub open spec fn detailed_views_of(s: Seq<DetailedTrajectoryPoint>) -> Seq<TrajPV> {
    s.map_values(|p: DetailedTrajectoryPoint| p@)
}

/// Run one whole simulation: build the integrator from the configuration,
/// the mass and the spin vector, and hand back the ordered trajectory in
/// the boundary layer's data-only shape.
pub fn simulate_trajectory(params: MagnusParameter, mass: i64, spin_vector: Vec3) -> (r: Vec<
    DetailedTrajectoryPoint,
>)
    requires
        mass > 0,
        params.time_step > 0,
        params.duration > 0,
    ensures
        detailed_views_of(r@) == spec_trajectory(
            IntegV { params: params@, mass: mass as int, spin: spin_vector@ },
            params.duration as int,
            params.time_step as int,
        ),
{
    let dt = params.time_step;
    let duration = params.duration;

    let integrator = RK4Integrator::new(params, mass, spin_vector);
    let trajectory = integrator.simulate_points(duration, dt);

    let mut results: Vec<DetailedTrajectoryPoint> = Vec::new();
    let mut idx: usize = 0;
    while idx < trajectory.len()
        invariant
            idx <= trajectory@.len(),
            results@.len() == idx,
            forall|j: int| 0 <= j < idx ==> (#[trigger] results@[j])@ == trajectory@[j]@,
        decreases trajectory@.len() - idx,
    {
        let point = trajectory[idx];
        results.push(
            DetailedTrajectoryPoint {
                time: point.time,
                position: point.position,
                velocity: point.velocity,
                acceleration: point.acceleration,
                forces: ForceData {
                    magnus: point.forces.magnus,
                    drag: point.forces.drag,
                    gravity: point.forces.gravity,
                    total: point.forces.total,
                },
            },
        );
        idx = idx + 1;
    }
    proof {
        assert(detailed_views_of(results@) =~= crate::integrator::views_of(trajectory@));
    }
    results
}

} // verus!
