//! Finds music-sample archives behind hosting links, decides how each one is
//! fetched and stored, and tags the audio files inside them by instrument.
pub mod text;
pub mod members;
pub mod google_drive;
pub mod models;
pub mod dropbox;
pub mod mediafire;
pub mod archive;
pub mod routing;
pub mod reddit;
