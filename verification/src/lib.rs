//! Rules of a small interactive 3D scene: a spinning cube on a platform, lit
//! from above, and a free-flying camera steered by mouse and keyboard.
//!
//! The library decides; its caller draws. It says what the scene holds at
//! startup, when the pointer is captured and released, and which moves the
//! held keys ask for. All of it is stated over integers and sequences.

pub mod cursor;
pub mod movement;
pub mod scene;
