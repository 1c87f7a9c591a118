//! Termadio: an internet-radio directory in the terminal.
//!
//! This library holds what the program decides: the interactive session
//! (`ui`), the playback controller and the pipeline that cuts a live stream
//! into segments to decode (`player`), the favorites (`favorites`), the
//! directory's shapes and addresses (`api`), and what the one-shot commands
//! print (`commands`). It opens no connection, no file and no audio device:
//! each operation takes what happened as plain values and returns the next
//! state together with what is to be done.

pub mod api;
pub mod commands;
pub mod config;
pub mod favorites;
pub mod player;
pub mod preferences;
pub mod text;
pub mod ui;
