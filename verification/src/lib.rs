//! Verified core of a remapper for the Razer Tartarus V2 and Tartarus Pro
//! keypads: profile model and validation, the remap engine, the key maps,
//! labels, IPC framing, device discovery parsing and the lighting rules.

pub mod types;
pub mod text;
pub mod constants;
pub mod error;
pub mod profile;
pub mod validate;
pub mod codec;
pub mod keymap;
pub mod remap;
pub mod pack;
pub mod labels;
pub mod record;
pub mod lighting;
pub mod ipc;
pub mod binpath;
pub mod paths;
pub mod scan;
pub mod device;
pub mod openrgb;
pub mod openrazer;
pub mod uinput;
pub mod daemon;
pub mod tray;
pub mod ui;
pub mod requests;
pub mod store;
pub mod app;
pub mod fix_permissions;
