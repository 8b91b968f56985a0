//! Portraits: the faces in the unit frames and the body in the character window, each a still that is
//! rendered off screen and rendered again only when the look behind it changes.
pub mod bake;
pub mod booth;
pub mod light;
pub mod look;
pub mod slots;
pub mod stand_in;
pub mod sync;
pub mod test_bake;
