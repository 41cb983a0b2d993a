//! The desktop player: what the user sees and edits, apart from drawing it.
pub mod app;
pub mod loops;
pub mod rows;
pub mod edits;
pub mod equalizer;
pub mod feedback;
pub mod icon;
pub mod metadata;
pub mod metadata_window;
pub mod presets;
pub mod content;
pub mod peq;
pub mod playlist;
pub mod playlist_window;
pub mod project;
pub mod notices;
pub mod opening;
pub mod windows;
