//! The description and metadata of a directory, from a file in one of two
//! formats.

use crate::context::{empty_context, optional_text, ContextView};
use crate::iiif::metadata::{metadata_views, Metadata, MetadataView};
use vstd::prelude::*;

verus! {

/// The format of a file of metadata.
#[derive(Debug, Clone, Copy, PartialEq, Eq, Structural)]
pub enum Format {
    JSON,
    YAML,
}

/// The description and the metadata that a directory gives for its
/// manifest.
#[derive(Debug)]
pub struct Meta {
    pub description: Option<String>,
    pub metadata: Vec<Metadata>,
}

impl View for Meta {
    type V = ContextView;

    open spec fn view(&self) -> ContextView {
        ContextView {
            description: optional_text(self.description),
            metadata: metadata_views(self.metadata@),
        }
    }
}

/// The number of file names under which metadata is looked for.
pub const SOURCES: usize = 3;

/// The file name that is tried at place `rank`, and its format: first
/// `meta.json`, then `meta.yml`, then `meta.yaml`.
pub open spec fn source_at(rank: nat) -> (Seq<char>, Format) {
    if rank == 0 {
        ("meta.json"@, Format::JSON)
    } else if rank == 1 {
        ("meta.yml"@, Format::YAML)
    } else {
        ("meta.yaml"@, Format::YAML)
    }
}

/// The place of the first `true` in `found`, if there is one.
pub open spec fn first_found(found: Seq<bool>) -> Option<nat>
    decreases found.len(),
{
    if found.len() == 0 {
        None
    } else if found[0] {
        Some(0)
    } else {
        match first_found(found.skip(1)) {
            Some(rank) => Some(rank + 1),
            None => None,
        }
    }
}

impl Meta {
    /// The file name that is tried at place `rank`, and its format.
    pub fn source(rank: usize) -> (r: (&'static str, Format))
        requires
            rank < SOURCES,
        ensures
            (r.0@, r.1) == source_at(rank as nat),
    {
        if rank == 0 {
            ("meta.json", Format::JSON)
        } else if rank == 1 {
            ("meta.yml", Format::YAML)
        } else {
            ("meta.yaml", Format::YAML)
        }
    }

    /// Which file to load, where `exists[rank]` says whether the file at
    /// place `rank` is there: the first that is. `None` where none is, and
    /// the metadata is then empty.
    pub fn choose_source(exists: &[bool; 3]) -> (r: Option<usize>)
        ensures
            match r {
                Some(rank) => first_found(exists@) == Some(rank as nat) && rank < SOURCES,
                None => first_found(exists@) is None,
            },
    {
        proof {
            reveal_with_fuel(first_found, 4);
            assert(exists@.len() == 3);
            assert(exists@.skip(1).skip(1) =~= exists@.skip(2));
            assert(exists@.skip(2).skip(1) =~= exists@.skip(3));
        }
        if exists[0] {
            Some(0)
        } else if exists[1] {
            Some(1)
        } else if exists[2] {
            Some(2)
        } else {
            None
        }
    }

    /// The metadata of a directory that gives none.
    pub fn empty() -> (r: Meta)
        ensures
            r@ == empty_context(),
    {
        let metadata: Vec<Metadata> = Vec::new();
        assert(metadata_views(metadata@) =~= Seq::<MetadataView>::empty());
        Meta { description: None, metadata }
    }

    /// What was loaded, or the empty metadata where loading failed.
    pub fn load_or_default<E>(loaded: Result<Meta, E>) -> (r: Meta)
        ensures
            match loaded {
                Ok(meta) => r == meta,
                Err(_) => r@ == empty_context(),
            },
    {
        match loaded {
            Ok(meta) => meta,
            Err(_) => Meta::empty(),
        }
    }
}

} // verus!
