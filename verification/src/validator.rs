use crate::text::count_char;
use crate::text::count_char_in;
use vstd::prelude::*;

verus! {

/// Whether or not the validation shows the input was complete.
#[derive(Clone, Copy, Debug, PartialEq, Eq, Structural)]
pub enum ValidationResult {
    /// An incomplete input which may need to span multiple lines to be complete.
    Incomplete,
    /// An input that is complete as-is.
    Complete,
}

/// What the built-in policy decides: a line with an odd number of
/// double-quote characters is unbalanced and therefore incomplete.
pub open spec fn default_validate(s: Seq<char>) -> ValidationResult {
    if count_char(s, '"') % 2 == 0 {
        ValidationResult::Complete
    } else {
        ValidationResult::Incomplete
    }
}

/// The syntax validation trait. Implementers of this trait will check to see
/// if the current input is incomplete and spans multiple lines.
pub trait Validator {
    /// The decision as a mathematical function of the text alone.
    spec fn spec_validate(&self, line: Seq<char>) -> ValidationResult;

    /// Classify the current buffer content as a candidate line.
    fn validate(&self, line: &str) -> (r: ValidationResult)
        ensures
            r == self.spec_validate(line@),
    ;
}

/// A default validator which checks for mismatched double quotes.
pub struct DefaultValidator;

impl Validator for DefaultValidator {
    open spec fn spec_validate(&self, line: Seq<char>) -> ValidationResult {
        default_validate(line)
    }

    fn validate(&self, line: &str) -> (r: ValidationResult) {
        let quotes = count_char_in(line, '"');
        if quotes % 2 == 0 {
            ValidationResult::Complete
        } else {
            ValidationResult::Incomplete
        }
    }
}

/// The built-in policy is a pure function of the text: validating the same
/// text twice yields the same result.
pub proof fn lemma_default_validate_idempotent(s: Seq<char>, t: Seq<char>)
    requires
        s == t,
    ensures
        default_validate(s) == default_validate(t),
{
}

} // verus!
