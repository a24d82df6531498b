//! Recognize the different Japanese scripts and convert between hiragana and katakana.

pub mod charset;
pub mod converter;
pub mod table;
pub mod vowel;

pub use vowel::Vowel;
