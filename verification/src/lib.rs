//! Frame handling, preprocessing and streaming logic for an ESP32 camera
//! that detects faces and pedestrians and streams JPEG frames over WebSocket.

pub mod camera;
pub mod face;
pub mod image;
pub mod preprocess;
pub mod resolution;
pub mod stream;
pub mod tensor;
pub mod trace;
