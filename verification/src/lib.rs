//! A codec between the native state of spreadsheet cells and features and a
//! neutral value model: cell typing, date serials, style default
//! suppression, rule vocabularies and structural feature arithmetic.
//!
//! Every function takes and returns plain records. A caller reads the
//! fields of its document into the `Raw…` records, and carries the `…Edit`
//! records that come back into its document. Numbers pass through as bit
//! patterns; date serials as whole milliseconds.
//!
//! [`operations`] holds one function for each operation on a sheet; the
//! other modules hold the codecs that the operations invoke.

pub mod attachment;
pub mod border;
pub mod cell;
pub mod cell_laws;
pub mod color;
pub mod conditional;
pub mod dates;
pub mod error;
pub mod number;
pub mod operations;
pub mod payload;
pub mod reference;
pub mod structural;
pub mod style;
pub mod text;
pub mod validation;
pub mod vocabulary;
