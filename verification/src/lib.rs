//! Two services for the start of a desktop application, with their rules
//! verified: the lookup of translated texts, and the care of log files.
//!
//! - [`languages`]: the default language and the supported languages.
//! - [`locale`]: from the locale of the system to the language that is used.
//! - [`store`]: translation files and the documents loaded from them.
//! - [`translate`]: the cache and the lookup with its order of fallbacks.
//! - [`retention`]: the sweep that removes old log files.
//! - [`startup`]: the order of start-up and the settings of the log sink.
//! - [`text`]: comparisons of strings that the rules above are made of.
//!
//! Nothing here reads a file or a directory. Where a rule needs one, the
//! caller reads it and hands over what it found; where the work goes back
//! and forth, the rule is a state machine that the caller drives.

pub mod languages;
pub mod locale;
pub mod retention;
pub mod startup;
pub mod store;
pub mod text;
pub mod translate;
