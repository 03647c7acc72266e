//! Conversion between three textual notations for Mandarin syllables:
//! Bopomofo, standard Pinyin with tone diacritics, and ASCII Pinyin with
//! a trailing tone digit.
pub mod bpmf;
