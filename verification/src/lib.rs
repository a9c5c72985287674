//! An interactive hierarchical image-map viewer core.
//!
//! A user navigates nested maps (images) through clickable markers, returns
//! to a parent map, pans and zooms with a camera, and edits free-text notes
//! attached to each map.  This crate holds the verified core: exact
//! coordinate arithmetic, the camera/viewport transform engine, hit-testing,
//! text-panel layout, and the navigation state machine.  Rendering, input
//! delivery and persistence are unverified collaborators around it.

pub mod camera;
pub mod nav;
pub mod position;
pub mod project_state;
pub mod rational;
pub mod text;

pub use camera::Camera;
pub use camera::CameraError;
pub use position::Position;
pub use rational::Rational;
