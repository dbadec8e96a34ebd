//! RAMOpt: the decisions of a Windows memory-maintenance program.
#![allow(unused_imports)]

pub mod apps;
pub mod areas;
pub mod changes;
pub mod cleanup;
pub mod command;
pub mod hotkey;
pub mod icon;
pub mod instance;
pub mod laws;
pub mod locations;
pub mod logfile;
pub mod memory;
pub mod native;
pub mod number;
pub mod picture;
pub mod rounding;
pub mod settings;
pub mod startup;
pub mod temp;
pub mod text;
pub mod timer;
pub mod tray;
pub mod update;
pub mod version;
pub mod volume;
pub mod window;
