//! The documents that are served: manifests and collections, built from
//! what a directory holds.

pub mod annotations;
pub mod collections;
pub mod manifests;
pub mod metadata;
pub mod presentation2;
pub mod resources;
pub mod types;

use crate::config::{Config, Urls};
use crate::context::{Context, ContextView};
use crate::iiif::collections::{manifest_item, Collection, ItemView};
use crate::iiif::manifests::{
    empty_manifest, painted_canvas, CanvasView, Manifest, ManifestView,
};
use crate::iiif::types::{canvas_uri, encoded, manifest_uri, Id};
use crate::image::source::{image_views, Image, ImageView};
use crate::request::{Directory, RequestError};
use crate::text::{replace, replaced};
use vstd::prelude::*;

verus! {

/// The path of the item that the request `id` names: every slash gives way
/// to the separator of identifiers.
pub open spec fn item_path(urls: Urls, id: Seq<char>) -> Seq<char> {
    replaced(id, "/"@, urls.path_sep@)
}

/// The path of what is named `name` inside the item at `item`.
pub open spec fn member_path(urls: Urls, item: Seq<char>, name: Seq<char>) -> Seq<char> {
    item + urls.path_sep@ + name
}

/// The canvas at `index` of the manifest of the request `id`, showing
/// `image`. The image is labelled by, and identified under, its file name.
pub open spec fn canvas_of(urls: Urls, id: Seq<char>, index: nat, image: ImageView) -> CanvasView {
    painted_canvas(
        urls.image_api@,
        urls.presentation_api@,
        encoded(item_path(urls, id)),
        encoded(member_path(urls, item_path(urls, id), image.name)),
        index,
        image.name,
        image,
    )
}

/// The manifest of the request `id` for a directory that holds `images`
/// and gives `context`: labelled by the request, with one canvas for each
/// image, in the order of the images.
pub open spec fn manifest_of(
    urls: Urls,
    id: Seq<char>,
    context: ContextView,
    images: Seq<ImageView>,
) -> ManifestView {
    ManifestView {
        items: Seq::new(images.len(), |i: int| canvas_of(urls, id, i as nat, images[i])),
        ..empty_manifest(
            urls.presentation_api@,
            encoded(item_path(urls, id)),
            id,
            context.metadata,
            context.description,
        )
    }
}

/// The collection of the request `id` for a directory with the
/// subdirectories `names`: one reference to a manifest for each, in their
/// order.
pub open spec fn collection_of(urls: Urls, id: Seq<char>, names: Seq<Seq<char>>) -> Seq<ItemView> {
    Seq::new(
        names.len(),
        |i: int| manifest_item(
            manifest_uri(urls.presentation_api@, encoded(member_path(urls, id, names[i]))),
        ),
    )
}

/// Builds the documents of the directory that the configuration names.
#[derive(Debug)]
pub struct IiifGenerator {
    pub config: Config,
}

/// The generator under the name that the server knows it by.
pub type ManifestGenerator = IiifGenerator;

impl IiifGenerator {
    /// The generator for `config`.
    pub fn new(config: Config) -> (r: IiifGenerator)
        ensures
            r.config == config,
    {
        IiifGenerator { config }
    }

    /// The path of the directory of the request `id` under the directory
    /// that is served, where `os_sep` separates the parts of a path.
    pub fn source_path(&self, id: &str, os_sep: &str) -> (r: String)
        ensures
            r@ == replaced(id@, self.config.urls.path_sep@, os_sep@),
    {
        replace(id, self.config.urls.path_sep.as_str(), os_sep)
    }

    /// The identifier of the item that the request `id` names.
    pub fn item_id(&self, id: &str) -> (r: Id)
        ensures
            r@.value == item_path(self.config.urls, id@),
            r.wf(),
    {
        let path = replace(id, "/", self.config.urls.path_sep.as_str());
        Id::new(path.as_str())
    }

    /// The identifier of what is named `name` inside the item at `item`.
    pub fn member_id(&self, item: &str, name: &str) -> (r: Id)
        ensures
            r@.value == member_path(self.config.urls, item@, name@),
            r.wf(),
    {
        let mut path = item.to_owned();
        path.append(self.config.urls.path_sep.as_str());
        path.append(name);
        Id::new(path.as_str())
    }

    /// The manifest of the request `id` for a directory that holds `images`
    /// and gives `context`. There is one canvas for each image, in the
    /// order of the images, and the URI of each canvas ends with its place
    /// in that order, counted from zero. Without images the manifest has no
    /// canvases. The result is never an error.
    pub fn manifest_for(&self, id: &str, context: Context, images: Vec<Image>) -> (r: Result<
        Manifest,
        String,
    >)
        ensures
            r matches Ok(manifest) && manifest@ == manifest_of(
                self.config.urls,
                id@,
                context@,
                image_views(images@),
            ),
            r matches Ok(manifest) && manifest@.items.len() == images@.len() && forall|i: int|
                0 <= i < images@.len() ==> (#[trigger] manifest@.items[i]).id == canvas_uri(
                    self.config.urls.presentation_api@,
                    encoded(item_path(self.config.urls, id@)),
                    i as nat,
                ),
    {
        let urls = &self.config.urls;
        let item_id = self.item_id(id);
        let mut manifest = Manifest::new(
            urls.presentation_api.as_str(),
            &item_id,
            id,
            context.metadata,
            context.description,
        );
        let ghost views = image_views(images@);
        let ghost blank = manifest@;
        let mut i: usize = 0;
        assert(blank.items =~= Seq::new(
            0,
            |k: int| canvas_of(*urls, id@, k as nat, views[k]),
        ));
        while i < images.len()
            invariant
                i <= images@.len(),
                *urls == self.config.urls,
                views == image_views(images@),
                item_id@.value == item_path(*urls, id@),
                item_id.wf(),
                manifest@ == (ManifestView {
                    items: Seq::new(i as nat, |k: int| canvas_of(*urls, id@, k as nat, views[k])),
                    ..blank
                }),
            decreases images@.len() - i,
        {
            let ghost before = manifest@.items;
            let image = &images[i];
            assert(views[i as int] == image@);
            let image_id = self.member_id(item_id.value.as_str(), image.name.as_str());
            manifest.add_image(
                urls.image_api.as_str(),
                urls.presentation_api.as_str(),
                &item_id,
                &image_id,
                image.name.as_str(),
                image,
            );
            assert(manifest@.items =~= Seq::new(
                (i + 1) as nat,
                |k: int| canvas_of(*urls, id@, k as nat, views[k]),
            ));
            i += 1;
        }
        Ok(manifest)
    }

    /// The manifest of the request `id`, given what was found at the path
    /// of its directory. A missing directory gives `NotFound` and no
    /// manifest, and a path that is no directory gives `NotADirectory`; a
    /// directory without images gives a manifest without canvases.
    pub fn manifest_for_directory(
        &self,
        id: &str,
        context: Context,
        directory: Directory<Image>,
    ) -> (r: Result<Manifest, RequestError>)
        ensures
            match r {
                Ok(manifest) => directory matches Directory::Entries(images) && manifest@
                    == manifest_of(self.config.urls, id@, context@, image_views(images@)),
                Err(e) => directory.failure() == Some(e),
            },
            directory is Missing <==> r == Err::<Manifest, RequestError>(RequestError::NotFound),
    {
        let images = directory.entries()?;
        match self.manifest_for(id, context, images) {
            Ok(manifest) => Ok(manifest),
            Err(_) => Err(RequestError::NotFound),
        }
    }

    /// The collection of the request `id`, given the names of the
    /// subdirectories of its directory in the order of their paths: one
    /// reference to a manifest for each. No subdirectory is entered.
    pub fn collection_for(&self, id: &str, directory: Directory<String>) -> (r: Result<
        Collection,
        RequestError,
    >)
        ensures
            match r {
                Ok(collection) => directory matches Directory::Entries(names) && collection@
                    == collection_of(
                    self.config.urls,
                    id@,
                    crate::iiif::metadata::string_views(names@),
                ),
                Err(e) => directory.failure() == Some(e),
            },
    {
        let names = directory.entries()?;
        let urls = &self.config.urls;
        let ghost texts = crate::iiif::metadata::string_views(names@);
        let mut collection = Collection::new();
        let mut i: usize = 0;
        assert(collection@ =~= Seq::new(
            0,
            |k: int| manifest_item(
                manifest_uri(urls.presentation_api@, encoded(member_path(*urls, id@, texts[k]))),
            ),
        ));
        while i < names.len()
            invariant
                i <= names@.len(),
                *urls == self.config.urls,
                texts == crate::iiif::metadata::string_views(names@),
                collection@ == Seq::new(
                    i as nat,
                    |k: int| manifest_item(
                        manifest_uri(
                            urls.presentation_api@,
                            encoded(member_path(*urls, id@, texts[k])),
                        ),
                    ),
                ),
            decreases names@.len() - i,
        {
            assert(texts[i as int] == names@[i as int]@);
            let item_id = self.member_id(id, names[i].as_str());
            let manifest_id = Manifest::id(urls.presentation_api.as_str(), &item_id);
            collection.add_manifest(manifest_id);
            assert(collection@ =~= Seq::new(
                (i + 1) as nat,
                |k: int| manifest_item(
                    manifest_uri(
                        urls.presentation_api@,
                        encoded(member_path(*urls, id@, texts[k])),
                    ),
                ),
            ));
            i += 1;
        }
        Ok(collection)
    }
}

} // verus!
