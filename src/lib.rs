//! Verified core of an mpv-in-Slint video player: the libmpv error and
//! property model, event decoding, OpenGL render-target planning and the
//! per-frame orchestration that decides when the displayed image changes.

pub mod gl;
pub mod mpv;
pub mod pump;
pub mod renderer;
