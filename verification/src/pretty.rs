//! Re-rendering JSON text in indented form.
use vstd::prelude::*;
use crate::encoder::rendered;
use crate::error::ConversionError;
use crate::json::{parse, parsed, pretty_text, render_pretty};

verus! {

/// The indented form of a text, `None` where the text is not well-formed
/// JSON or its document cannot be rendered.
pub open spec fn pretty_printed(text: Seq<char>) -> Option<Seq<char>> {
    match parsed(text) {
        Some(v) => pretty_text(v),
        None => None,
    }
}

/// Renders the document of a JSON text again, on several lines and indented.
///
/// The document itself is not changed. Text that is not well-formed JSON
/// gives `Parse`. Text that is gives its indented form wherever the document
/// can be rendered, and `Serialize` only where it cannot.
pub fn pretty_print(text: &str) -> (r: Result<String, ConversionError>)
    ensures
        match r {
            Ok(out) => pretty_printed(text@) == Some(out@),
            Err(ConversionError::Parse) => parsed(text@) is None,
            Err(ConversionError::Serialize) => parsed(text@) is Some && pretty_printed(text@)
                is None,
        },
{
    match parse(text) {
        Ok(value) => rendered(render_pretty(&value)),
        Err(_) => Err(ConversionError::Parse),
    }
}

} // verus!
