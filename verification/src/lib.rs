//! The tray's update and profile logic.
//!
//! A tray that Scoop installed is updated through Scoop: [`scoop`] detects
//! such an install and finds its files, [`manifest`] says what is accepted
//! from them, [`script`] writes the PowerShell program that updates and
//! relaunches, and [`process`] says how programs are run and judged.
//! [`profile`] places the popover's profile. [`text`], [`json`] and [`paths`]
//! are what these stand on; [`quotes`] and [`laws`] hold what is true across
//! them.
pub mod json;
pub mod laws;
pub mod manifest;
pub mod paths;
pub mod process;
pub mod profile;
pub mod quotes;
pub mod scoop;
pub mod script;
pub mod text;
