//! Kinematics of a point in uniform circular motion, in exact fixed-point
//! integer units, and the geometry drawn for it each frame.
//!
//! Units used throughout:
//! - time in microseconds;
//! - angles (the phase) in picoradians, reduced into one full turn;
//! - angular velocity in microradians per second, so that angular velocity
//!   times elapsed microseconds is a phase change in picoradians;
//! - lengths in whole units; tangential speed in millionths of a unit per
//!   second; centripetal acceleration in 10^-12 units per second squared;
//! - positions on the drawing surface in millionths of a length unit.
//!
//! Conventions: the phase is reduced with the true (Euclidean) remainder, so
//! under a negative angular velocity it wraps to just below one full turn
//! instead of turning negative, as a truncating remainder would leave it. The
//! tangential velocity keeps the sign of the angular velocity, and the arrow
//! drawn along it points backward when that sign is negative.

mod geometry;
mod motion;

pub use geometry::{
    arrow_direction, arrow_from, dot, frame_geometry, frame_of, lemma_arrow_symmetric,
    lemma_position_matches_arrow, length_sq, offset, perp,
    point_on_circle, scale, shift, tangent, Arrow, FrameGeometry, Heading, Point, Vector,
    ARROWHEAD_SIZE, ARROW_LENGTH, COORD_LIMIT, UNIT, WING_OFFSET,
};
pub use motion::{
    advanced_angle, frequency_of, lemma_advance_composes, lemma_still_angle_fixed, SimulationState,
    FULL_TURN, MICROS_PER_SECOND, PHASE_PER_RADIAN, QUARTER_TURN_PER_SECOND,
};
