//! Verified core of the StoryLife automation companion: status records,
//! input plans, pixel and OCR-word matching, and the decision machines
//! that drive the AFK, mining and gym bots.

pub mod state;
pub mod text;
pub mod ocr_words;
pub mod pixels;
pub mod input;
pub mod keys;
pub mod game;
pub mod webhook;
pub mod stats;
pub mod afk;
pub mod mining;
pub mod muscu;
