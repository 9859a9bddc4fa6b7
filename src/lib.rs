//! Turns clipboard text marked with `!tex ` into a rendered LaTeX image: marker
//! detection, template binding, pixel-buffer checks and the pipeline's state machine.

pub mod image;
pub mod marker;
pub mod pipeline;
pub mod template;
pub mod text;
