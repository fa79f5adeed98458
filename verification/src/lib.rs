//! The verified core of a terminal workbench client: what a key, a click, a
//! paste or an answer from a machine does to the screen, and what has to be
//! asked of whom because of it.

pub mod text;
pub mod encode;
pub mod types;
pub mod bench;
pub mod overlay;
pub mod project;
pub mod git;
pub mod path;
pub mod pages;
pub mod settings;
pub mod roster;
pub mod named;
pub mod machines;
pub mod redial;
pub mod stage;
pub mod screen;
pub mod frame;
pub mod paint;
pub mod request;
pub mod menu;
pub mod click;
pub mod input;
pub mod chosen;
pub mod updates;
pub mod session;
pub mod flow;
pub mod answer;
