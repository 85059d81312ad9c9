//! A small window that mirrors the desktop.
//!
//! This library holds what the program decides and computes. [`capture`] decides which step the
//! capture thread takes next, [`frame`] and [`shared`] hand its pictures over to the window,
//! [`window`] decides what a message does, and [`render`] what is drawn. The calls into the
//! operating system are made by the program around the library.

pub mod capture;
pub mod capture_duties;
pub mod capture_laws;
pub mod capture_model;
pub mod frame;
pub mod geometry;
pub mod num;
pub mod render;
pub mod shared;
pub mod startup;
pub mod text;
pub mod window;
