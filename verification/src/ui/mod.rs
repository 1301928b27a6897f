//! What the screens compute before drawing: placement of pop-ups, labels,
//! offsets and counts.

pub mod components;
pub mod layout;
