//! Decisions of a libretro core that draws a blinking grey frame with OpenGL:
//! what the frame looks like, how shader sources are assembled, and how
//! loading a game is negotiated with the frontend.
pub mod video;

pub mod shader;
pub mod load;
