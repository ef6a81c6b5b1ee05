//! Programs written with the Anchor framework.
pub mod storage_collision_v1;
pub mod storage_collision_v2;
pub mod storage_collision_fixed;
