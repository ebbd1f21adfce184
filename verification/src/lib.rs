//! A keyboard-driven, single-screen configuration wizard for bootstrapping
//! infrastructure projects: the record being edited, focus navigation over
//! the form, key dispatch, confirmation and validation, and the plain data
//! a renderer needs to draw the form. Beside the wizard stand the commands
//! of the tool and what is generated from a finished record.

pub mod catalogue;
pub mod cli;
pub mod fields;
pub mod input;
pub mod panes;
pub mod provision;
pub mod record;
pub mod scan;
pub mod session;
pub mod settings;
pub mod text;
pub mod validation;
