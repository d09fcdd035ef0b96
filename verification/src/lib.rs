use vstd::prelude::*;

pub mod text;
pub mod editor;
pub mod widgets;
pub mod model;
pub mod json;
pub mod config;
pub mod config_file;
pub mod paths;
pub mod local;
pub mod yt;
pub mod formats;
pub mod download;
pub mod player;
pub mod state;
pub mod manager;
pub mod app;
pub mod keys;
pub mod menus;
pub mod editing;
pub mod actions;
pub mod choices;
pub mod input;
pub mod events;
pub mod reports;
pub mod playback;
pub mod dates;
pub mod deps;
pub mod cli;
pub mod laws;
pub mod menu_laws;
pub mod thumbs;

verus! {

} // verus!
