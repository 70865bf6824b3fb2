//! Closed-form inverse kinematics for a planar two-link arm.
//!
//! Lengths and distances are exact integers in a fixed unit that the caller
//! chooses (for instance thousandths of a pixel). The library decides the
//! reachable distance and the law-of-cosines ratio exactly; turning that ratio
//! into an angle and joint positions is trigonometry, left to the caller.
pub mod solver;

pub use solver::{cosine_ratio, reach_clamp, AnalyticTwoLink, CosineRatio, Solver};
