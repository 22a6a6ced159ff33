//! The steps of a render before the external compiler is called.

use vstd::prelude::*;
use crate::base::error::DocumentError;
use crate::storage::{hex_char, hex_digit_of};
use crate::text::push_text;

verus! {

/// The hexadecimal notation of a natural number in lower case, without
/// leading zeros.
pub open spec fn hex_text(n: nat) -> Seq<char>
    decreases n,
{
    if n < 16 {
        seq![hex_char(n as int)]
    } else {
        hex_text(n / 16).push(hex_char((n % 16) as int))
    }
}

fn push_hex_text(out: &mut String, n: u128)
    ensures
        final(out)@ == old(out)@ + hex_text(n as nat),
    decreases n,
{
    if n >= 16 {
        push_hex_text(out, n / 16);
    }
    out.push(hex_digit_of(n % 16));
    assert(out@ =~= old(out)@ + hex_text(n as nat));
}

/// A short identifier for the files of one render: the time in milliseconds
/// since the Unix epoch, in hexadecimal.
pub fn uuid_simple(timestamp_ms: u128) -> (id: String)
    ensures
        id@ == hex_text(timestamp_ms as nat),
{
    let mut out = String::new();
    push_hex_text(&mut out, timestamp_ms);
    assert(out@ =~= hex_text(timestamp_ms as nat));
    out
}

/// The file to which the markup of a render is written.
pub fn temp_markup_path(temp_dir: &str, id: &str) -> (path: String)
    ensures
        path@ == temp_dir@ + "/temp_"@ + id@ + ".typ"@,
{
    let mut out = String::new();
    push_text(&mut out, temp_dir);
    push_text(&mut out, "/temp_");
    push_text(&mut out, id);
    push_text(&mut out, ".typ");
    assert(out@ =~= temp_dir@ + "/temp_"@ + id@ + ".typ"@);
    out
}

/// The document that the compiler is given: the page settings, an empty
/// line and the body.
pub fn generate_typst_document(header: &str, body_content: &str) -> (document: String)
    ensures
        document@ == header@ + "\n\n"@ + body_content@,
{
    let mut out = String::new();
    push_text(&mut out, header);
    push_text(&mut out, "\n\n");
    push_text(&mut out, body_content);
    assert(out@ =~= header@ + "\n\n"@ + body_content@);
    out
}

/// Checks that there is something to render: an empty document is a
/// validation error.
pub fn check_content(content: &str) -> (checked: Result<(), DocumentError>)
    ensures
        content@.len() > 0 ==> checked is Ok,
        content@.len() == 0 ==> (checked matches Err(DocumentError::ValidationError(message))
            && message@ == "El contenido del documento está vacío"@),
{
    if content.is_empty() {
        Err(DocumentError::ValidationError("El contenido del documento está vacío".to_owned()))
    } else {
        Ok(())
    }
}

} // verus!
