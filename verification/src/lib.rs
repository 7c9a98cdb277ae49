//! The playback engine of a terminal music player: the play queue, the
//! transport clock, the device registry and the controller that ties them to
//! an output sink.

pub mod clock;
pub mod text;
pub mod track;
pub mod devices;
pub mod player;
pub mod library;
pub mod selection;
pub mod folders;
pub mod settings;
pub mod json;
pub mod tidal;
pub mod ui;
