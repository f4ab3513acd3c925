//! Verified core of the LaTeX preview features: pixel conversion, equation
//! documents, compiler supervision decisions, configuration inheritance and
//! the TeX preview pane's state machine.

pub mod compiler;
pub mod equations;
pub mod errors;
pub mod json;
pub mod math_preview;
pub mod pdf;
pub mod pixels;
pub mod preview;
pub mod settings_inherit;
pub mod settings_watch;
pub mod text;
