//! The three cleaners: movies, whole series, and single episodes.

pub mod deletion;
pub mod episodes;
pub mod movies;
pub mod plan;
pub mod series;
pub mod utils;
