//! Motion-control core of a floating character controller: the solver for a
//! jump's launch energy, the ground and ghost-platform sensors, and the
//! decisions that let a character drop through one-way platforms.
pub mod jump;
pub mod sensor;
pub mod fall_through;
pub mod pipeline;
