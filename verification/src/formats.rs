pub mod deformable;
pub mod general;
pub mod simple;
pub mod skinned;
