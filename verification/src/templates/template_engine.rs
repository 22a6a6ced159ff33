//! The steps around the external compiler: which template renders a
//! document, where the markup and the compiled document are written, and
//! what the compiler's exit means.

use vstd::prelude::*;
use crate::base::error::DocumentError;
use crate::templates::template_trait::{kind_of_id, TemplateKind, TemplateRegistry};
use crate::text::{decimal, push_decimal_i64, push_text};

verus! {

/// The template that renders an invoice: the fiscal one where the invoice
/// has fiscal data, else the simple one.
pub fn invoice_template(has_fiscal_info: bool) -> (kind: TemplateKind)
    ensures
        kind == if has_fiscal_info {
            TemplateKind::FiscalInvoice
        } else {
            TemplateKind::SimpleInvoice
        },
{
    if has_fiscal_info {
        TemplateKind::FiscalInvoice
    } else {
        TemplateKind::SimpleInvoice
    }
}

/// The name of the files of a render, without extension: the one asked for,
/// else the template's identifier, an underscore and the time.
pub open spec fn base_name_text(
    template_id: Seq<char>,
    output_filename: Option<Seq<char>>,
    timestamp: i64,
) -> Seq<char> {
    match output_filename {
        Some(name) => name,
        None => template_id + "_"@ + decimal(timestamp as int),
    }
}

/// The files of one render.
#[derive(Debug)]
pub struct RenderPaths {
    /// Where the markup is written for the compiler.
    pub markup: String,
    /// Where the compiler writes the document.
    pub document: String,
}

/// The files of a render of `template_id` into `output_dir`.
pub fn render_paths(
    output_dir: &str,
    template_id: &str,
    output_filename: &Option<String>,
    timestamp: i64,
) -> (paths: RenderPaths)
    ensures
        paths.markup@ == output_dir@ + "/"@ + base_name_text(
            template_id@,
            match *output_filename {
                Some(name) => Some(name@),
                None => None,
            },
            timestamp,
        ) + ".typ"@,
        paths.document@ == output_dir@ + "/"@ + base_name_text(
            template_id@,
            match *output_filename {
                Some(name) => Some(name@),
                None => None,
            },
            timestamp,
        ) + ".pdf"@,
{
    let mut base = String::new();
    match output_filename {
        Some(name) => {
            push_text(&mut base, name.as_str());
            assert(base@ =~= name@);
        },
        None => {
            push_text(&mut base, template_id);
            push_text(&mut base, "_");
            push_decimal_i64(&mut base, timestamp);
            assert(base@ =~= template_id@ + "_"@ + decimal(timestamp as int));
        },
    }
    let mut markup = String::new();
    push_text(&mut markup, output_dir);
    push_text(&mut markup, "/");
    push_text(&mut markup, base.as_str());
    push_text(&mut markup, ".typ");
    assert(markup@ =~= output_dir@ + "/"@ + base@ + ".typ"@);
    let mut document = String::new();
    push_text(&mut document, output_dir);
    push_text(&mut document, "/");
    push_text(&mut document, base.as_str());
    push_text(&mut document, ".pdf");
    assert(document@ =~= output_dir@ + "/"@ + base@ + ".pdf"@);
    RenderPaths { markup, document }
}

/// What the exit of the external compiler means: a clean exit is success,
/// any other is a generation error that carries what the compiler wrote to
/// its error stream.
pub fn compiler_result(exited_cleanly: bool, stderr: &str) -> (result: Result<(), DocumentError>)
    ensures
        exited_cleanly ==> result is Ok,
        !exited_cleanly ==> (result matches Err(DocumentError::GenerationError(message))
            && message@ == "Typst compilation failed: "@ + stderr@),
{
    if exited_cleanly {
        Ok(())
    } else {
        let mut message = String::new();
        push_text(&mut message, "Typst compilation failed: ");
        push_text(&mut message, stderr);
        assert(message@ =~= "Typst compilation failed: "@ + stderr@);
        Err(DocumentError::GenerationError(message))
    }
}

/// Finds the template that renders `template_id`. A template that the
/// registry does not know is a template error that names it.
pub fn resolve_template(registry: &TemplateRegistry, template_id: &str) -> (found: Result<
    TemplateKind,
    DocumentError,
>)
    ensures
        match kind_of_id(template_id@) {
            Some(kind) => found == Ok::<TemplateKind, DocumentError>(kind),
            None => found matches Err(DocumentError::TemplateError(message)) && message@
                == "Template not found: "@ + template_id@,
        },
{
    match registry.get(template_id) {
        Some(kind) => Ok(kind),
        None => {
            let mut message = String::new();
            push_text(&mut message, "Template not found: ");
            push_text(&mut message, template_id);
            assert(message@ =~= "Template not found: "@ + template_id@);
            Err(DocumentError::TemplateError(message))
        },
    }
}

} // verus!
