//! Text templates: a template written for one document is filled with the
//! data of the request by the `minijinja` engine.

use vstd::prelude::*;
use crate::base::error::DocumentError;

verus! {

/// A JSON value of `serde_json`, carried from the parser to the engine.
#[verifier::external_type_specification]
#[verifier::external_body]
pub struct ExJsonValue(serde_json::Value);

/// A value of `minijinja`, the context that a template is filled with.
#[verifier::external_type_specification]
#[verifier::external_body]
pub struct ExTemplateValue(minijinja::Value);

/// What the engine makes of a template and JSON data: the rendered text, or
/// the message of the error where the data is not JSON, the template does
/// not compile or it cannot be rendered.
pub uninterp spec fn rendered_text(template: Seq<char>, data: Seq<char>) -> Result<
    Seq<char>,
    Seq<char>,
>;

/// The `From` conversions of `minijinja::Value` and `Value::from_pairs`: a
/// JSON value as the engine takes it, member by member. A number stays an
/// integer where it is one.
#[verifier::external_body]
fn template_value(value: &serde_json::Value) -> (context: minijinja::Value) {
    match value {
        serde_json::Value::Null => ().into(),
        serde_json::Value::Bool(flag) => (*flag).into(),
        serde_json::Value::Number(number) => match (number.as_i64(), number.as_u64()) {
            (Some(integer), _) => integer.into(),
            (None, Some(integer)) => integer.into(),
            (None, None) => number.as_f64().into(),
        },
        serde_json::Value::String(text) => text.clone().into(),
        serde_json::Value::Array(items) => items.iter().map(template_value).collect(),
        serde_json::Value::Object(members) => minijinja::Value::from_pairs(
            members.iter().map(|(name, member)| (name.clone(), template_value(member))),
        ),
    }
}

/// `serde_json::from_str`, then `Environment::add_template` and
/// `Template::render` of `minijinja`: the template filled with the data. The
/// result depends on the two texts alone; every error is handed out as its
/// message.
#[verifier::external_body]
fn render_text(template: &str, data: &str) -> (rendered: Result<String, String>)
    ensures
        match rendered_text(template@, data@) {
            Ok(text) => rendered is Ok && rendered->Ok_0@ == text,
            Err(reason) => rendered is Err && rendered->Err_0@ == reason,
        },
{
    let value = serde_json::from_str::<serde_json::Value>(data).map_err(|error| error.to_string())?;
    let mut engine = minijinja::Environment::new();
    engine.add_template("custom", template).map_err(|error| error.to_string())?;
    let loaded = engine.get_template("custom").map_err(|error| error.to_string())?;
    loaded.render(template_value(&value)).map_err(|error| error.to_string())
}

/// What becomes of a rendered template: text is kept if there is any, an
/// empty text is a validation error, and an error of the engine is a
/// template error with the engine's message.
pub open spec fn custom_document(
    document: Result<String, DocumentError>,
    rendered: Result<Seq<char>, Seq<char>>,
) -> bool {
    match rendered {
        Ok(text) => if text.len() > 0 {
            document is Ok && document->Ok_0@ == text
        } else {
            document matches Err(DocumentError::ValidationError(message)) && message@
                == "El contenido del documento está vacío"@
        },
        Err(reason) => document matches Err(DocumentError::TemplateError(message)) && message@
            == reason,
    }
}

/// Accepts or refuses what the engine rendered.
pub fn accept_rendered(rendered: Result<String, String>) -> (document: Result<String, DocumentError>)
    ensures
        custom_document(
            document,
            match rendered {
                Ok(text) => Ok(text@),
                Err(reason) => Err(reason@),
            },
        ),
{
    match rendered {
        Ok(text) => match crate::pdf::generator::check_content(text.as_str()) {
            Ok(()) => Ok(text),
            Err(error) => Err(error),
        },
        Err(reason) => Err(DocumentError::TemplateError(reason)),
    }
}

/// Fills a template that came with the request with the request's JSON
/// data, and hands out the markup for the compiler.
pub fn render_custom_template(template: &str, data: &str) -> (document: Result<
    String,
    DocumentError,
>)
    ensures
        custom_document(document, rendered_text(template@, data@)),
{
    accept_rendered(render_text(template, data))
}

} // verus!
