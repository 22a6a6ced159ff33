//! Where a template is looked for outside the process: the key of the
//! shared cache, the key in object storage and the files of the template
//! directory, in the order in which they are tried.

use vstd::prelude::*;
use crate::text::push_text;

verus! {

/// The key of a template in the shared cache.
pub open spec fn shared_key_text(template_id: Seq<char>) -> Seq<char> {
    "template:"@ + template_id
}

/// The key of the template `template_id` in the shared cache.
pub fn shared_cache_key(template_id: &str) -> (key: String)
    ensures
        key@ == shared_key_text(template_id@),
{
    let mut out = String::new();
    push_text(&mut out, "template:");
    push_text(&mut out, template_id);
    assert(out@ =~= shared_key_text(template_id@));
    out
}

/// The key of a template in object storage.
pub open spec fn object_key_text(template_id: Seq<char>) -> Seq<char> {
    "templates/"@ + template_id + ".typ"@
}

/// The key of the template `template_id` in object storage.
pub fn template_object_key(template_id: &str) -> (key: String)
    ensures
        key@ == object_key_text(template_id@),
{
    let mut out = String::new();
    push_text(&mut out, "templates/");
    push_text(&mut out, template_id);
    push_text(&mut out, ".typ");
    assert(out@ =~= object_key_text(template_id@));
    out
}

/// The name of the file of a template with the given extension.
pub open spec fn file_name_text(template_id: Seq<char>, extension: Seq<char>) -> Seq<char> {
    template_id + "."@ + extension
}

fn file_name(template_id: &str, extension: &str) -> (name: String)
    ensures
        name@ == file_name_text(template_id@, extension@),
{
    let mut out = String::new();
    push_text(&mut out, template_id);
    push_text(&mut out, ".");
    push_text(&mut out, extension);
    assert(out@ =~= file_name_text(template_id@, extension@));
    out
}

/// The files under which the template `template_id` is looked for in the
/// template directory, in the order in which they are tried.
pub fn template_file_names(template_id: &str) -> (names: Vec<String>)
    ensures
        names@.len() == 3,
        names@[0]@ == file_name_text(template_id@, "typ"@),
        names@[1]@ == file_name_text(template_id@, "jinja"@),
        names@[2]@ == file_name_text(template_id@, "html"@),
{
    let mut names: Vec<String> = Vec::new();
    names.push(file_name(template_id, "typ"));
    names.push(file_name(template_id, "jinja"));
    names.push(file_name(template_id, "html"));
    names
}

/// Whether a file of the template directory is loaded at startup: those
/// with the extension `typ` or `jinja` are.
pub fn is_template_extension(extension: &str) -> (accepted: bool)
    ensures
        accepted == (extension@ == "typ"@ || extension@ == "jinja"@),
{
    crate::text::same_text(extension, "typ") || crate::text::same_text(extension, "jinja")
}


/// A place outside the caches where a template may be found.
#[derive(Debug, Clone, Copy, PartialEq, Eq, Structural)]
pub enum TemplateSource {
    /// The templates loaded from the template directory at startup.
    Loaded,
    /// Object storage.
    ObjectStorage,
    /// The template directory.
    FileSystem,
}

/// The source that is tried after `tried`, or first where nothing was tried
/// yet: the loaded templates, then object storage where it is configured,
/// then the template directory.
pub open spec fn source_after(tried: Option<TemplateSource>, has_object_storage: bool) -> Option<
    TemplateSource,
> {
    match tried {
        None => Some(TemplateSource::Loaded),
        Some(TemplateSource::Loaded) => if has_object_storage {
            Some(TemplateSource::ObjectStorage)
        } else {
            Some(TemplateSource::FileSystem)
        },
        Some(TemplateSource::ObjectStorage) => Some(TemplateSource::FileSystem),
        Some(TemplateSource::FileSystem) => None,
    }
}

/// The next place to look for a template that both caches missed, or `None`
/// when every place has been tried and the template does not exist.
pub fn next_source(tried: Option<TemplateSource>, has_object_storage: bool) -> (next: Option<
    TemplateSource,
>)
    ensures
        next == source_after(tried, has_object_storage),
{
    match tried {
        None => Some(TemplateSource::Loaded),
        Some(TemplateSource::Loaded) => if has_object_storage {
            Some(TemplateSource::ObjectStorage)
        } else {
            Some(TemplateSource::FileSystem)
        },
        Some(TemplateSource::ObjectStorage) => Some(TemplateSource::FileSystem),
        Some(TemplateSource::FileSystem) => None,
    }
}

/// One step of the write of a template.
#[derive(Debug, Clone, Copy, PartialEq, Eq, Structural)]
pub enum WriteStep {
    /// The process's own map.
    Memory,
    /// The shared cache.
    SharedCache,
    /// Object storage.
    ObjectStorage,
    /// The template directory.
    FileSystem,
}

/// The steps of the write of a template, in order: the caches first, the
/// durable stores last, so that a write that is cut short never leaves a
/// cache ahead of the durable stores.
pub fn update_steps(has_shared_cache: bool, has_object_storage: bool) -> (steps: Vec<WriteStep>)
    ensures
        steps@ == (seq![WriteStep::Memory] + if has_shared_cache {
            seq![WriteStep::SharedCache]
        } else {
            Seq::<WriteStep>::empty()
        } + if has_object_storage {
            seq![WriteStep::ObjectStorage]
        } else {
            Seq::<WriteStep>::empty()
        } + seq![WriteStep::FileSystem]),
        steps@.last() == WriteStep::FileSystem,
{
    let mut steps: Vec<WriteStep> = Vec::new();
    steps.push(WriteStep::Memory);
    if has_shared_cache {
        steps.push(WriteStep::SharedCache);
    }
    if has_object_storage {
        steps.push(WriteStep::ObjectStorage);
    }
    steps.push(WriteStep::FileSystem);
    assert(steps@ =~= (seq![WriteStep::Memory] + if has_shared_cache {
        seq![WriteStep::SharedCache]
    } else {
        Seq::<WriteStep>::empty()
    } + if has_object_storage {
        seq![WriteStep::ObjectStorage]
    } else {
        Seq::<WriteStep>::empty()
    } + seq![WriteStep::FileSystem]));
    steps
}

} // verus!
