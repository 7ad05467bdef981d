//! Verified decision logic of a Loop-Blinn cubic Bezier renderer: curve
//! classification and the choices that depend on it, the loop-chop plan,
//! triangle-fan indexing, the gallery grid, the control-point drag state
//! machine and the keyboard controls.
pub mod edge;
pub mod fan;
pub mod gallery;
pub mod interactive;
pub mod basis;
pub mod chop;
pub mod controls;
pub mod kind;
