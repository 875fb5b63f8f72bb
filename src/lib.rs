//! The playback core of a local audio player: a playlist with a cursor, the
//! decisions that keep an audio output and the OS media controls in step with
//! it, and the playlist file format.
pub mod control;
pub mod m3u8;
pub mod player;
pub mod track;
