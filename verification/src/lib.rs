//! Native backend logic for the Vinsert text editor.
//!
//! The crate gathers the decision logic behind the editor's command surface:
//! classifying the embedded Python interpreter's provenance, shaping the
//! replies of the command handlers, building the native menu model, and
//! translating menu clicks into front-end script snippets.  Calls into the
//! Python interpreter go through a small set of trusted wrappers; everything
//! around them is verified.

pub mod commands;
pub mod menu;
pub mod provenance;
pub mod python;
pub mod report;
pub mod text;
