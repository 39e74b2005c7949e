//! A one-shot status line: local time, battery charge and audio volume,
//! each mapped to display icons and joined into a single text line.

pub mod clock;
pub mod errors;
pub mod line;
pub mod power;
pub mod text;
pub mod volume;
