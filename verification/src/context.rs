//! What a directory says of itself in a file beside its images: a
//! description and metadata for the manifest.

use crate::iiif::metadata::{metadata_views, Metadata, MetadataView};
use vstd::prelude::*;

verus! {

/// The description and the metadata that a directory gives for its
/// manifest.
#[derive(Debug)]
pub struct Context {
    pub description: Option<String>,
    pub metadata: Vec<Metadata>,
}

/// What a [`Context`] or a [`crate::meta::Meta`] denotes.
pub struct ContextView {
    pub description: Option<Seq<char>>,
    pub metadata: Seq<MetadataView>,
}

/// The text of an optional string.
pub open spec fn optional_text(text: Option<String>) -> Option<Seq<char>> {
    match text {
        Some(t) => Some(t@),
        None => None,
    }
}

/// What a directory without such a file gives: no description and no
/// metadata.
pub open spec fn empty_context() -> ContextView {
    ContextView { description: None, metadata: Seq::empty() }
}

impl View for Context {
    type V = ContextView;

    open spec fn view(&self) -> ContextView {
        ContextView {
            description: optional_text(self.description),
            metadata: metadata_views(self.metadata@),
        }
    }
}

impl Context {
    /// The name of the file that holds the context of a directory.
    pub fn file_name() -> (r: &'static str)
        ensures
            r@ == "context.json"@,
    {
        "context.json"
    }

    /// The context of a directory that gives none.
    pub fn empty() -> (r: Context)
        ensures
            r@ == empty_context(),
    {
        let metadata: Vec<Metadata> = Vec::new();
        assert(metadata_views(metadata@) =~= Seq::<MetadataView>::empty());
        Context { description: None, metadata }
    }

    /// What was loaded, or the empty context where loading failed.
    pub fn load_or_default<E>(loaded: Result<Context, E>) -> (r: Context)
        ensures
            match loaded {
                Ok(context) => r == context,
                Err(_) => r@ == empty_context(),
            },
    {
        match loaded {
            Ok(context) => context,
            Err(_) => Context::empty(),
        }
    }
}

} // verus!
