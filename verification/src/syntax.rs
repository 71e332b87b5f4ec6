use crate::descriptor::GenerationError;
use vstd::prelude::*;

verus! {

/// Calls `syn::parse_str` for a `syn::ItemMod` on a text and gives the message of the
/// error, or nothing where the text is one module. How `syn` turns the text into tokens
/// differs between a procedural macro and any other process, so nothing is claimed of the
/// result.
#[verifier::external_body]
pub(crate) fn module_syntax_error(text: &str) -> (r: Option<String>) {
    match syn::parse_str::<syn::ItemMod>(text) {
        Ok(_) => None,
        Err(error) => Some(error.to_string()),
    }
}

/// Decides on a text that was checked: it is given back where no error was found,
/// else the message of the error.
pub fn checked_text(text: String, syntax_error: Option<String>) -> (r: Result<
    String,
    GenerationError,
>)
    ensures
        match syntax_error {
            None => r matches Ok(given) && given == text,
            Some(message) => r matches Err(GenerationError::Syntax(found)) && found == message,
        },
{
    match syntax_error {
        None => Ok(text),
        Some(message) => Err(GenerationError::Syntax(message)),
    }
}

} // verus!
