//! Core of an interactive Latin-to-Cyrillic transliteration editor: a
//! Unicode-correct line-editing buffer whose derived output is kept in sync
//! with an external rule-based transliterator, together with the commit/reset
//! state machine that hands the finished output to a clipboard backend.
pub mod editor;
pub mod laws;
pub mod transliteration;
