//! A verified core for an OpenGL-style resource lifecycle manager: non-zero
//! object names, move-only ownership guards, type-state shader and program
//! objects, and a hot-reload controller that never publishes a partially
//! relinked program.

pub mod assets;
pub mod console;
pub mod context;
pub mod get_programiv_param;
pub mod info_log;
pub mod name;
pub mod names;
pub mod program;
pub mod reload;
pub mod shader;
pub mod shader_kind;
pub mod texture;
pub mod uniform_location;
