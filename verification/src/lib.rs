//! A headless core for a canvas that draws with shaders, frame after frame.
//!
//! The crate holds every decision of such a canvas and none of its machinery. The host owns
//! the drawing surface, the graphics context, the image loader and the frame scheduler. It
//! tells the session what happened (a surface was found, a stage was compiled, a frame is due,
//! an image has arrived) and gets back the list of commands to carry out, in order.
//!
//! Times are whole milliseconds and the numbers handed to the graphics context travel as bit
//! patterns, so that everything in here is exact.

pub mod clock;
pub mod command;
pub mod geometry;
pub mod laws;
pub mod model;
pub mod scalar;
pub mod session;
pub mod shader;
pub mod texture;
