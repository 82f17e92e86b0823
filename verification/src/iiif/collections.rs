//! Collections: lists of references to manifests.

use crate::iiif::types::Uri;
use vstd::prelude::*;

verus! {

/// One entry of a collection: the URI of a manifest. The manifest itself is
/// not built.
#[derive(Debug)]
pub struct Item {
    pub id: Uri,
    pub iiif_type: String,
}

/// What an [`Item`] denotes.
pub struct ItemView {
    pub id: Seq<char>,
    pub iiif_type: Seq<char>,
}

impl View for Item {
    type V = ItemView;

    open spec fn view(&self) -> ItemView {
        ItemView { id: self.id@, iiif_type: self.iiif_type@ }
    }
}

/// The entry that refers to the manifest at `id`.
pub open spec fn manifest_item(id: Seq<char>) -> ItemView {
    ItemView { id, iiif_type: "manifest"@ }
}

/// A list of references to manifests.
#[derive(Debug)]
pub struct Collection {
    pub items: Vec<Item>,
}

impl View for Collection {
    type V = Seq<ItemView>;

    open spec fn view(&self) -> Seq<ItemView> {
        self.items@.map_values(|i: Item| i@)
    }
}

impl Collection {
    /// The collection without entries.
    pub fn new() -> (r: Collection)
        ensures
            r@ == Seq::<ItemView>::empty(),
    {
        let items: Vec<Item> = Vec::new();
        let r = Collection { items };
        assert(r@ =~= Seq::<ItemView>::empty());
        r
    }

    /// Adds a reference to the manifest at `id` at the end.
    pub fn add_manifest(&mut self, id: Uri)
        ensures
            final(self)@ == old(self)@.push(manifest_item(id@)),
    {
        let item = Item { id, iiif_type: "manifest".to_owned() };
        self.items.push(item);
        assert(self@ =~= old(self)@.push(manifest_item(id@)));
    }
}

} // verus!
