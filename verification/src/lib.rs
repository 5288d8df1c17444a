//! Keeps a computer above a minimum temperature.
//!
//! The library holds the rules of a small thermal control loop: how the
//! readings of the thermal zones become one temperature sample, when that
//! sample calls for heating, what one round of the loop has to do, and the
//! busy work that produces the heat.

pub mod config;
pub mod control;
pub mod sensor;
pub mod work;
