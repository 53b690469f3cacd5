//! Verified core of a video catalog browser: the arithmetic, frame packing and
//! state machines behind hover scrubbing and in-app playback, and the rules
//! of the catalog around them.
pub mod catalog;
pub mod fingerprint;
pub mod frame;
pub mod grid;
pub mod hover;
pub mod player;
pub mod scanner;
pub mod text;
pub mod timeline;
