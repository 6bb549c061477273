//! A declarative field-validation engine.
//!
//! An input is a mapping from field names to dynamically typed values. Callers
//! declare, per field, an ordered list of rules; a run checks every rule of
//! every declared field that the input holds and gathers the messages of the
//! rules that failed, field by field. A run never stops at the first failure.
//!
//! ```text
//! let mut record = Record::new();
//! record.insert("age".to_string(), Value::Int(36));
//! let input = Document::Object(record);
//! let age = RuleDeclaration::new("age", ValidatorRule::MinSize(18), None);
//! assert!(FreeVal::new(&input, vec![age]).validate().is_ok());
//! ```

pub mod chars;
pub mod email;
pub mod field_map;
pub mod laws;
pub mod outcome;
pub mod rules;
pub mod text;
pub mod validator;
pub mod validators;
pub mod value;

pub use crate::field_map::FieldMap;
pub use crate::rules::{RuleDeclaration, RuleType, ValidatorErrorType, ValidatorRule};
pub use crate::validator::{FreeVal, ValidationErrors};
pub use crate::validators::{InnerValidationResult, LengthType, RangeType};
pub use crate::value::{Document, Record, Value};
