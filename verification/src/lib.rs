//! Model of a minimal two-pass rendering reproduction: a quad pass draws one
//! of four sprite cells into a square spritesheet texture, then a blit pass
//! copies the spritesheet onto the output target. The library holds the
//! resource configuration values and the per-frame decisions (which load
//! operation, which instance, how the frame counter advances); a thin binary
//! hands them to the graphics backend.

pub mod config;
pub mod frame;
