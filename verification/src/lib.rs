//! Orbital calendars from two-body Kepler mechanics, in exact decimal
//! fixed-point arithmetic.
//!
//! Every quantity is a [`quantity::Nano`], a whole number of billionths, so
//! that each rule of the library is a statement about integers: the
//! classification of an orbit by its eccentricity, the Newton–Raphson
//! solution of Kepler's equation, the true anomaly and the solar longitude,
//! the years, months and days of a body's calendar, the clock of its time
//! zones.
//!
//! The library has no transcendental function of its own. Where a
//! computation needs a sine, a tangent or one of their kin, it names the
//! function and the point, takes the value from its caller, and goes on:
//! see [`anomaly`], and [`kepler::Reckoning`] for a whole date.

pub mod anomaly;
pub mod kepler;
pub mod orbit;
pub mod planets;
pub mod quantity;
