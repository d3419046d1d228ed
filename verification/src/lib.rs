//! Decision logic of a third-person character animation controller: the jump
//! phase state machine, the choice of animation for each layer, when a layer
//! must be restarted, and the assignment of skeleton bones to mask groups.

pub mod float_bits;
pub mod animation;
pub mod control;
pub mod bone_path;
pub mod bone_mask;
pub mod clips;
