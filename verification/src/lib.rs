//! Built-in library of the EasyBite scripting language: values, arrays,
//! dictionaries, conversions and the state behind its form controls.

pub mod number;
pub mod single;
pub mod text;
pub mod value;
pub mod render;
pub mod array;
pub mod conversion;
pub mod dictionary;
pub mod registry;
pub mod ui;
pub mod color;
pub mod widgets;
pub mod layout;
pub mod gauges;
pub mod create;
pub mod trees;
pub mod lists;
pub mod frame;
pub mod containers;
pub mod arrange;
pub mod gadgets;
pub mod menus;
pub mod tables;
pub mod datetime;
pub mod pickers;
pub mod plotting;
pub mod messages;
pub mod dialogs;
pub mod turtle;
pub mod astnode;
pub mod laws;
