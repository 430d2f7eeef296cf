//! A renderer that draws one shaded triangle, described as plain values: the
//! surface's configuration, the vertex data and its layout, the fixed render
//! pipeline, the commands of each frame, the stages of initialisation and the
//! host's answer to window events. The GPU and window calls that carry these
//! out stand outside the library.

pub mod host;
pub mod init;
pub mod pipeline;
pub mod renderer;
pub mod shader;
pub mod surface;
pub mod vertex;
