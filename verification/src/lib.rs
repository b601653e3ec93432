//! Select a region of the screen and search for it by image.
//!
//! The library holds the decisions of a session and proves what they promise: how the screen
//! is captured (`capture`), how a drag gesture becomes a region of pixels (`overlay`,
//! `geometry`), how the region is cropped, uploaded and searched for (`search_service`,
//! `imaging`), and how a browser is opened (`browser`). It touches no device, file or
//! network: each of its state machines names the next thing to do, and the program around
//! it does that and reports back.

pub mod browser;
pub mod capture;
pub mod command;
pub mod config;
pub mod geometry;
pub mod imaging;
pub mod json;
pub mod overlay;
pub mod search_service;
pub mod text;
