//! Converts Roblox place and model files into Rojo projects: the decisions of
//! the converter, of the project writer and of the converter window.
pub mod paths;
pub mod converter;
pub mod filesystem;
pub mod gui;
