//! Private protocol helpers shared across public identifier types.

mod dotted_identifier;
mod dotted_identifier_error;
pub mod text;

pub use dotted_identifier::is_dotted_identifier;
pub use dotted_identifier::dotted_identifier_result;
pub use dotted_identifier::lemma_dotted_identifier_accepted;
pub use dotted_identifier::validate_dotted_identifier;
pub use dotted_identifier_error::DottedIdentifierError;
