//! A first-person free-look camera controller: input classification, a
//! cursor-capture state machine and a frame-rate independent motion integrator.
pub mod capture;
pub mod event;
pub mod motion;
pub mod rig;
