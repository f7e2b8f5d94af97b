//! Inspection of debug information files: a uniform view over Mach-O symbol
//! files and Proguard mapping files, and the rules that decide which of the
//! two a given file is.

pub mod kind;
pub mod macho;
pub mod mapping;
pub mod repr;
pub mod detect;
pub mod report;
