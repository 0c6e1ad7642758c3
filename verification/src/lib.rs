//! Layout of a one-line tab bar: which tabs are drawn in full, which are
//! folded into a "more" indicator, which status widgets fit to their right,
//! and which tab owns a clicked column.

pub mod bar;
pub mod clock;
pub mod event;
pub mod fit;
pub mod line;
pub mod load;
pub mod mode;
pub mod part;
pub mod prefix;
pub mod status;
pub mod style;
pub mod tab;
pub mod text;
pub mod width;

pub use crate::part::LinePart;
