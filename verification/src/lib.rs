//! The playback logic of a minimal music player: its queue, transport
//! controls, volume and mute, the alert shown when there is nothing to skip
//! to, the text of its labels and the pixels of its window icon.
//!
//! The library makes no sound and opens no file. Each control returns a
//! `Command` for the audio side to carry out; the controls that start or move
//! a song complete when that side reports back (`finish_play_index`,
//! `finish_seek`). Times are nanoseconds, volume levels thousandths.
pub mod icon;
pub mod labels;
pub mod laws;
pub mod model;
pub mod player;
pub mod song;
pub mod text;

pub use icon::{AppIcon, create_app_icon};
pub use labels::duration_label;
pub use model::{Command, PlaybackState, Tick};
pub use player::CadenceApp;
pub use song::{SongItem, load_song_metadata};
pub use text::format_time;
