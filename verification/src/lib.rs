//! Presentation server core: media classification, Reveal.js page
//! rendering, PowerPoint (PPTX) structure analysis and the decisions the
//! server takes while it watches its presentations folder.

pub mod cmd;
pub mod dashboard;
pub mod folder;
pub mod html_generator;
pub mod pptx_parser;
pub mod server;
pub mod slide_files;
pub mod sorting;
pub mod text;
pub mod watcher;
