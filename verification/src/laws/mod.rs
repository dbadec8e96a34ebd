//! Laws: what the calls of the library promise, stated on what goes into them and what comes out.
pub mod apps;
pub mod areas;
pub mod changes;
pub mod cleanup;
pub mod command;
pub mod hotkey;
pub mod icon;
pub mod inputs;
pub mod instance;
pub mod locations;
pub mod logfile;
pub mod memory;
pub mod native;
pub mod number;
pub mod picture;
pub mod rounding;
pub mod settings;
pub mod startup;
pub mod temp;
pub mod text;
pub mod timer;
pub mod tray;
pub mod update;
pub mod version;
pub mod volume;
pub mod window;
