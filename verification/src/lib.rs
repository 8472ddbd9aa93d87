//! Small verified components: a media catalog with bounds-checked lookup,
//! generic single-slot and stack containers, a card deck, a toy bank,
//! and string utilities for filtering and transforming text.

pub mod bank;
pub mod basket;
pub mod catalog;
pub mod container;
pub mod deck;
pub mod languages;
pub mod logs;
pub mod media;
pub mod stack;
pub mod task;
pub mod text;
