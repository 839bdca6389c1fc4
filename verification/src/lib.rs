//! A keyboard-driven viewer over a list of service records: annotated text,
//! highlighting, filtering, cyclic search and viewport control.

pub mod geometry;
pub mod sequence;
pub mod text;
pub mod strings;
pub mod annotation;
pub mod annotatedstring;
pub mod service;
pub mod highlighter;
pub mod buffer;
pub mod view;
pub mod command;
pub mod render;
pub mod tuistatus;
pub mod uicomponent;
pub mod filterbar;
pub mod searchbar;
pub mod statusbar;
pub mod messagebar;
pub mod operation;
pub mod attribute;
pub mod tui;

