//! Verified core of a small HTTP control surface for a gesture-recognition
//! device: request routing, response construction with exact JSON bodies,
//! permissive cross-origin headers, and the decision logic around an
//! external gesture-recognition process.

pub mod handlers;
pub mod reply;
pub mod response;
pub mod routing;
