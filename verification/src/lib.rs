//! Verified core of a terminal audio player with a live spectrum view.
pub mod clock;
pub mod controls;
pub mod spectrum;
pub mod screen;
pub mod playback;
