//! Manifests and their canvases. A manifest lists its canvases in the
//! order in which the images were added; a canvas shows one image.

use crate::context::optional_text;
use crate::iiif::annotations::{
    page_views, Annotation, AnnotationPage, AnnotationPageView, AnnotationView, Motivation,
};
use crate::iiif::metadata::{metadata_views, Metadata, MetadataView};
use crate::iiif::resources::{image_resource, IiifImage, Resource, ResourceView};
use crate::iiif::types::{annotation_page_uri, annotation_uri, canvas_uri, manifest_uri, Id, Uri};
use crate::image::source::{Image, ImageView};
use vstd::prelude::*;

verus! {

/// The context that every manifest names.
pub const PRESENTATION: &'static str = "http://iiif.io/api/presentation/2/context.json";

/// One view of an item: a surface of a given size with what is shown on it.
#[derive(Debug)]
pub struct Canvas {
    pub id: Uri,
    pub label: String,
    pub height: u32,
    pub width: u32,
    pub items: Vec<AnnotationPage>,
}

/// What a [`Canvas`] denotes.
pub struct CanvasView {
    pub id: Seq<char>,
    pub label: Seq<char>,
    pub height: u32,
    pub width: u32,
    pub items: Seq<AnnotationPageView>,
}

impl View for Canvas {
    type V = CanvasView;

    open spec fn view(&self) -> CanvasView {
        CanvasView {
            id: self.id@,
            label: self.label@,
            height: self.height,
            width: self.width,
            items: page_views(self.items@),
        }
    }
}

/// The views of the canvases of a vector, in order.
pub open spec fn canvas_views(canvases: Seq<Canvas>) -> Seq<CanvasView> {
    canvases.map_values(|c: Canvas| c@)
}

/// The canvas at `index` of the item `flat_id`, of the given label and
/// size, with nothing on it yet.
pub open spec fn blank_canvas(
    presentation_api: Seq<char>,
    flat_id: Seq<char>,
    index: nat,
    label: Seq<char>,
    width: u32,
    height: u32,
) -> CanvasView {
    CanvasView {
        id: canvas_uri(presentation_api, flat_id, index),
        label,
        height,
        width,
        items: Seq::empty(),
    }
}

/// The annotation that shows `image` on the canvas at `index`: its body is
/// the image resource, its target the canvas.
pub open spec fn painting(
    image_api: Seq<char>,
    presentation_api: Seq<char>,
    flat_id: Seq<char>,
    flat_image_id: Seq<char>,
    index: nat,
    image: ImageView,
) -> AnnotationView {
    AnnotationView {
        id: annotation_uri(presentation_api, flat_id, index, "image"@),
        motivation: Motivation::Painting,
        body: ResourceView::Image(image_resource(image_api, flat_image_id, image)),
        target: canvas_uri(presentation_api, flat_id, index),
    }
}

/// The canvas at `index` that shows `image`: it has the size of the image
/// and one annotation page, which holds one annotation, the painting of
/// the image on this canvas.
pub open spec fn painted_canvas(
    image_api: Seq<char>,
    presentation_api: Seq<char>,
    flat_id: Seq<char>,
    flat_image_id: Seq<char>,
    index: nat,
    label: Seq<char>,
    image: ImageView,
) -> CanvasView {
    CanvasView {
        id: canvas_uri(presentation_api, flat_id, index),
        label,
        height: image.height,
        width: image.width,
        items: seq![
            AnnotationPageView {
                id: annotation_page_uri(presentation_api, flat_id, index),
                items: seq![
                    painting(image_api, presentation_api, flat_id, flat_image_id, index, image),
                ],
            },
        ],
    }
}

impl Canvas {
    /// The URI of a canvas: `{presentation}/{flat id}/canvas/{index}`.
    pub fn id(presentation_api: &str, item_id: &Id, index: usize) -> (uri: Uri)
        ensures
            uri@ == canvas_uri(presentation_api@, item_id@.encoded, index as nat),
    {
        Uri::under_indexed(presentation_api, item_id.encoded.as_str(), "/canvas/", index)
    }

    /// The canvas at `index` of the item `item_id`, with nothing on it yet.
    pub fn new(
        presentation_api: &str,
        item_id: &Id,
        index: usize,
        label: &str,
        width: u32,
        height: u32,
    ) -> (r: Canvas)
        ensures
            r@ == blank_canvas(
                presentation_api@,
                item_id@.encoded,
                index as nat,
                label@,
                width,
                height,
            ),
    {
        let items: Vec<AnnotationPage> = Vec::new();
        assert(page_views(items@) =~= Seq::<AnnotationPageView>::empty());
        Canvas {
            id: Canvas::id(presentation_api, item_id, index),
            label: label.to_owned(),
            height,
            width,
            items,
        }
    }

    /// Adds a page at the end of the canvas.
    pub fn add_item(&mut self, item: AnnotationPage)
        ensures
            final(self)@ == (CanvasView { items: old(self)@.items.push(item@), ..old(self)@ }),
    {
        let ghost before = page_views(self.items@);
        self.items.push(item);
        assert(page_views(self.items@) =~= before.push(item@));
    }
}

/// The description of an item: what it is called, what is known of it, and
/// its canvases in their order.
#[derive(Debug)]
pub struct Manifest {
    pub context: Uri,
    pub id: Uri,
    pub label: String,
    pub metadata: Vec<Metadata>,
    pub description: Option<String>,
    pub items: Vec<Canvas>,
}

/// What a [`Manifest`] denotes.
pub struct ManifestView {
    pub context: Seq<char>,
    pub id: Seq<char>,
    pub label: Seq<char>,
    pub metadata: Seq<MetadataView>,
    pub description: Option<Seq<char>>,
    pub items: Seq<CanvasView>,
}

impl View for Manifest {
    type V = ManifestView;

    open spec fn view(&self) -> ManifestView {
        ManifestView {
            context: self.context@,
            id: self.id@,
            label: self.label@,
            metadata: metadata_views(self.metadata@),
            description: optional_text(self.description),
            items: canvas_views(self.items@),
        }
    }
}

/// The manifest of the item `flat_id` before any image was added.
pub open spec fn empty_manifest(
    presentation_api: Seq<char>,
    flat_id: Seq<char>,
    label: Seq<char>,
    metadata: Seq<MetadataView>,
    description: Option<Seq<char>>,
) -> ManifestView {
    ManifestView {
        context: PRESENTATION@,
        id: manifest_uri(presentation_api, flat_id),
        label,
        metadata,
        description,
        items: Seq::empty(),
    }
}

impl Manifest {
    /// The URI of a manifest: `{presentation}/{flat id}/manifest`.
    pub fn id(presentation_api: &str, item_id: &Id) -> (uri: Uri)
        ensures
            uri@ == manifest_uri(presentation_api@, item_id@.encoded),
    {
        Uri::under(presentation_api, item_id.encoded.as_str(), "/manifest")
    }

    /// The manifest of the item `item_id`, without canvases.
    pub fn new(
        presentation_api: &str,
        item_id: &Id,
        label: &str,
        metadata: Vec<Metadata>,
        description: Option<String>,
    ) -> (r: Manifest)
        ensures
            r@ == empty_manifest(
                presentation_api@,
                item_id@.encoded,
                label@,
                metadata_views(metadata@),
                optional_text(description),
            ),
    {
        let items: Vec<Canvas> = Vec::new();
        assert(canvas_views(items@) =~= Seq::<CanvasView>::empty());
        Manifest {
            context: Uri::new(PRESENTATION),
            id: Manifest::id(presentation_api, item_id),
            label: label.to_owned(),
            metadata,
            description,
            items,
        }
    }

    /// Adds a canvas that shows `image` at the end of the manifest. The
    /// index of the canvas is the number of canvases before it.
    pub fn add_image(
        &mut self,
        image_api: &str,
        presentation_api: &str,
        item_id: &Id,
        image_id: &Id,
        label: &str,
        image: &Image,
    )
        ensures
            final(self)@ == (ManifestView {
                items: old(self)@.items.push(
                    painted_canvas(
                        image_api@,
                        presentation_api@,
                        item_id@.encoded,
                        image_id@.encoded,
                        old(self)@.items.len(),
                        label@,
                        image@,
                    ),
                ),
                ..old(self)@
            }),
    {
        let ghost before = canvas_views(self.items@);
        let index = self.items.len();
        let mut canvas = Canvas::new(
            presentation_api,
            item_id,
            index,
            label,
            image.width,
            image.height,
        );
        let image_resource = IiifImage::new(image_api, image_id, image);
        let annotation = Annotation::new_painting(
            presentation_api,
            item_id,
            index,
            Resource::Image(image_resource),
            canvas.id.clone(),
        );
        let mut annotations: Vec<Annotation> = Vec::new();
        annotations.push(annotation);
        assert(crate::iiif::annotations::annotation_views(annotations@) =~= seq![annotation@]);
        let annotation_page = AnnotationPage::new(presentation_api, item_id, index, annotations);
        canvas.add_item(annotation_page);
        assert(canvas@.items =~= seq![annotation_page@]);
        self.items.push(canvas);
        assert(canvas_views(self.items@) =~= before.push(canvas@));
    }
}

} // verus!
