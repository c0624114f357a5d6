pub mod commitment;
pub mod crh;
pub mod edwards;
pub mod error;
pub mod group;
pub mod pedersen;
pub mod toy;
