//! A minimal hello-triangle renderer, split so that every decision the
//! program makes is verified: the shader build step (compile and link
//! status handling, diagnostic-log sizing and decoding), the fixed vertex
//! buffer layout, and the render-loop exit logic. The raw graphics and
//! windowing calls live outside the library and are driven by the
//! contracts stated here.

pub mod frame;
pub mod layout;
pub mod shader;
