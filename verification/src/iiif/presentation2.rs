//! The older shape of a manifest: sequences of canvases, each with the
//! images that are painted on it. A document is built in this shape or in
//! the newer one, never in both.

use crate::context::optional_text;
use crate::iiif::annotations::Motivation;
use crate::iiif::metadata::{metadata_views, Metadata, MetadataView};
use crate::iiif::types::{
    canvas_uri, encoded, image_content_uri, image_service_uri, manifest_uri, Id, Uri,
};
use crate::metadata::{unknown_metadata, ImageMetadata, ImageMetadataView};
use crate::text::{decimal, push_decimal};
use vstd::prelude::*;

verus! {

/// The context that every part of such a manifest names.
pub const PRESENTATION: &'static str = "http://iiif.io/api/presentation/2/context.json";

/// The context of an image service.
pub const IMAGE_CONTEXT: &'static str = "http://iiif.io/api/image/2/context.json";

/// The profile of an image service.
pub const IMAGE_PROFILE: &'static str = "http://iiif.io/api/image/2/level2.json";

/// The protocol of an image service.
pub const IMAGE_PROTOCOL: &'static str = "http://iiiif.io/api/image";

/// `{presentation}/{flat id}/sequence/normal`
pub open spec fn sequence_uri(presentation_api: Seq<char>, flat_id: Seq<char>) -> Seq<char> {
    presentation_api + "/"@ + flat_id + "/sequence/normal"@
}

/// The identifier that stands for the image of a placeholder at `index`:
/// `??? ({index})`.
pub open spec fn placeholder_path(index: nat) -> Seq<char> {
    "??? ("@ + decimal(index) + ")"@
}

/// What a part of a document is.
#[derive(Debug, Clone, Copy, PartialEq, Eq, Structural)]
pub enum IiifType {
    Annotation,
    Canvas,
    Image,
    Manifest,
    Sequence,
}

/// The base URLs of the two APIs.
#[derive(Debug)]
pub struct IiifUrls {
    pub presentation: String,
    pub image: String,
}

impl IiifUrls {
    /// The base URLs `presentation` and `image`.
    pub fn new(presentation: String, image: String) -> (r: IiifUrls)
        ensures
            r.presentation == presentation,
            r.image == image,
    {
        IiifUrls { presentation, image }
    }

    /// `{presentation}/{flat id}/canvas/{index}`
    pub fn canvas_id(&self, item_id: &Id, index: usize) -> (uri: Uri)
        ensures
            uri@ == canvas_uri(self.presentation@, item_id@.encoded, index as nat),
    {
        Uri::under_indexed(
            self.presentation.as_str(),
            item_id.encoded.as_str(),
            "/canvas/",
            index,
        )
    }

    /// `{presentation}/{flat id}/manifest`
    pub fn manifest_id(&self, item_id: &Id) -> (uri: Uri)
        ensures
            uri@ == manifest_uri(self.presentation@, item_id@.encoded),
    {
        Uri::under(self.presentation.as_str(), item_id.encoded.as_str(), "/manifest")
    }

    /// `{image}/{flat image id}/full/full/0/default.{extension}`
    pub fn image_id(&self, image_id: &Id, image_metadata: &ImageMetadata) -> (uri: Uri)
        ensures
            uri@ == image_content_uri(self.image@, image_id@.encoded, image_metadata@.extension),
    {
        let mut uri = Uri::under(
            self.image.as_str(),
            image_id.encoded.as_str(),
            "/full/full/0/default.",
        );
        uri.value.append(image_metadata.extension.as_str());
        uri
    }

    /// `{presentation}/{flat id}/sequence/normal`
    pub fn sequence_id(&self, item_id: &Id) -> (uri: Uri)
        ensures
            uri@ == sequence_uri(self.presentation@, item_id@.encoded),
    {
        Uri::under(self.presentation.as_str(), item_id.encoded.as_str(), "/sequence/normal")
    }

    /// `{image}/{flat image id}`
    pub fn image_service_id(&self, image_id: &Id) -> (uri: Uri)
        ensures
            uri@ == image_service_uri(self.image@, image_id@.encoded),
    {
        let uri = Uri::under(self.image.as_str(), image_id.encoded.as_str(), "");
        proof {
            reveal_strlit("");
            assert(uri@ =~= image_service_uri(self.image@, image_id@.encoded));
        }
        uri
    }
}

/// An image service.
#[derive(Debug)]
pub struct Service {
    pub context: Uri,
    pub id: Uri,
    pub profile: Uri,
    pub protocol: Uri,
}

/// What a [`Service`] denotes.
pub struct ServiceView {
    pub context: Seq<char>,
    pub id: Seq<char>,
    pub profile: Seq<char>,
    pub protocol: Seq<char>,
}

impl View for Service {
    type V = ServiceView;

    open spec fn view(&self) -> ServiceView {
        ServiceView {
            context: self.context@,
            id: self.id@,
            profile: self.profile@,
            protocol: self.protocol@,
        }
    }
}

/// The image service of the image `flat_image_id`.
pub open spec fn image_service(image_api: Seq<char>, flat_image_id: Seq<char>) -> ServiceView {
    ServiceView {
        context: IMAGE_CONTEXT@,
        id: image_service_uri(image_api, flat_image_id),
        profile: IMAGE_PROFILE@,
        protocol: IMAGE_PROTOCOL@,
    }
}

impl Service {
    /// The image service of the image `image_id`.
    pub fn new_image_service(iiif_urls: &IiifUrls, image_id: &Id) -> (r: Service)
        ensures
            r@ == image_service(iiif_urls.image@, image_id@.encoded),
    {
        Service {
            context: Uri::new(IMAGE_CONTEXT),
            id: iiif_urls.image_service_id(image_id),
            profile: Uri::new(IMAGE_PROFILE),
            protocol: Uri::new(IMAGE_PROTOCOL),
        }
    }
}

/// An image by its URI and its service.
#[derive(Debug)]
pub struct Image {
    pub id: Uri,
    pub service: Service,
}

/// A small picture that stands for a larger one.
#[derive(Debug)]
pub struct Thumbnail {
    pub id: Uri,
    pub iiif_type: IiifType,
    pub height: u32,
    pub width: u32,
}

/// An image as the resource of an annotation.
#[derive(Debug)]
pub struct ImageResource {
    pub id: Uri,
    pub iiif_type: IiifType,
    pub format: String,
    pub service: Service,
    pub width: u32,
    pub height: u32,
}

/// What an [`ImageResource`] denotes.
pub struct ImageResourceView {
    pub id: Seq<char>,
    pub iiif_type: IiifType,
    pub format: Seq<char>,
    pub service: ServiceView,
    pub width: u32,
    pub height: u32,
}

impl View for ImageResource {
    type V = ImageResourceView;

    open spec fn view(&self) -> ImageResourceView {
        ImageResourceView {
            id: self.id@,
            iiif_type: self.iiif_type,
            format: self.format@,
            service: self.service@,
            width: self.width,
            height: self.height,
        }
    }
}

/// The image resource of the image `flat_image_id` with the given
/// metadata.
pub open spec fn image_resource(
    image_api: Seq<char>,
    flat_image_id: Seq<char>,
    metadata: ImageMetadataView,
) -> ImageResourceView {
    ImageResourceView {
        id: image_content_uri(image_api, flat_image_id, metadata.extension),
        iiif_type: IiifType::Image,
        format: metadata.format,
        service: image_service(image_api, flat_image_id),
        width: metadata.width,
        height: metadata.height,
    }
}

impl ImageResource {
    /// The image resource of the image `image_id` with the given metadata.
    pub fn new(iiif_urls: &IiifUrls, image_id: &Id, image_metadata: &ImageMetadata) -> (r:
        ImageResource)
        ensures
            r@ == image_resource(iiif_urls.image@, image_id@.encoded, image_metadata@),
    {
        ImageResource {
            id: iiif_urls.image_id(image_id, image_metadata),
            iiif_type: IiifType::Image,
            format: image_metadata.format.clone(),
            service: Service::new_image_service(iiif_urls, image_id),
            width: image_metadata.width,
            height: image_metadata.height,
        }
    }
}

/// The resource of an annotation.
#[derive(Debug)]
pub enum Resource {
    Image(ImageResource),
}

/// What a [`Resource`] denotes.
pub enum ResourceView {
    Image(ImageResourceView),
}

impl View for Resource {
    type V = ResourceView;

    open spec fn view(&self) -> ResourceView {
        match self {
            Resource::Image(image) => ResourceView::Image(image@),
        }
    }
}

/// One annotation: a resource painted on a canvas.
#[derive(Debug)]
pub struct Annotation {
    pub context: Uri,
    pub iiif_type: IiifType,
    pub motivation: Motivation,
    pub resource: Resource,
    pub on: Uri,
}

/// What an [`Annotation`] denotes.
pub struct AnnotationView {
    pub context: Seq<char>,
    pub iiif_type: IiifType,
    pub motivation: Motivation,
    pub resource: ResourceView,
    pub on: Seq<char>,
}

impl View for Annotation {
    type V = AnnotationView;

    open spec fn view(&self) -> AnnotationView {
        AnnotationView {
            context: self.context@,
            iiif_type: self.iiif_type,
            motivation: self.motivation,
            resource: self.resource@,
            on: self.on@,
        }
    }
}

/// The views of the annotations of a vector, in order.
pub open spec fn annotation_views(annotations: Seq<Annotation>) -> Seq<AnnotationView> {
    annotations.map_values(|a: Annotation| a@)
}

/// The annotation that paints `resource` on the canvas `on`.
pub open spec fn painting(resource: ResourceView, on: Seq<char>) -> AnnotationView {
    AnnotationView {
        context: PRESENTATION@,
        iiif_type: IiifType::Annotation,
        motivation: Motivation::Painting,
        resource,
        on,
    }
}

impl Annotation {
    /// The annotation that paints `resource` on the canvas `on`.
    pub fn new(resource: Resource, on: Uri) -> (r: Annotation)
        ensures
            r@ == painting(resource@, on@),
    {
        Annotation {
            context: Uri::new(PRESENTATION),
            iiif_type: IiifType::Annotation,
            motivation: Motivation::Painting,
            resource,
            on,
        }
    }
}

/// One view of an item, with the images painted on it.
#[derive(Debug)]
pub struct Canvas {
    pub id: Uri,
    pub context: Uri,
    pub iiif_type: IiifType,
    pub label: String,
    pub height: u32,
    pub width: u32,
    pub images: Vec<Annotation>,
}

/// What a [`Canvas`] denotes.
pub struct CanvasView {
    pub id: Seq<char>,
    pub context: Seq<char>,
    pub iiif_type: IiifType,
    pub label: Seq<char>,
    pub height: u32,
    pub width: u32,
    pub images: Seq<AnnotationView>,
}

impl View for Canvas {
    type V = CanvasView;

    open spec fn view(&self) -> CanvasView {
        CanvasView {
            id: self.id@,
            context: self.context@,
            iiif_type: self.iiif_type,
            label: self.label@,
            height: self.height,
            width: self.width,
            images: annotation_views(self.images@),
        }
    }
}

/// The views of the canvases of a vector, in order.
pub open spec fn canvas_views(canvases: Seq<Canvas>) -> Seq<CanvasView> {
    canvases.map_values(|c: Canvas| c@)
}

/// The canvas at `index` of the item `flat_id`, with nothing on it yet.
pub open spec fn blank_canvas(
    presentation_api: Seq<char>,
    flat_id: Seq<char>,
    index: nat,
    label: Seq<char>,
    width: u32,
    height: u32,
) -> CanvasView {
    CanvasView {
        id: canvas_uri(presentation_api, flat_id, index),
        context: PRESENTATION@,
        iiif_type: IiifType::Canvas,
        label,
        height,
        width,
        images: Seq::empty(),
    }
}

/// The canvas at `index` that shows the image `flat_image_id`: it has the
/// size that the metadata give, and one annotation, which paints the image
/// on this canvas.
pub open spec fn painted_canvas(
    urls: IiifUrls,
    flat_id: Seq<char>,
    flat_image_id: Seq<char>,
    index: nat,
    label: Seq<char>,
    metadata: ImageMetadataView,
) -> CanvasView {
    CanvasView {
        images: seq![
            painting(
                ResourceView::Image(image_resource(urls.image@, flat_image_id, metadata)),
                canvas_uri(urls.presentation@, flat_id, index),
            ),
        ],
        ..blank_canvas(urls.presentation@, flat_id, index, label, metadata.width, metadata.height)
    }
}

impl Canvas {
    /// The canvas at `index` of the item `item_id`, with nothing on it
    /// yet.
    pub fn new(
        iiif_urls: &IiifUrls,
        item_id: &Id,
        index: usize,
        label: &str,
        width: u32,
        height: u32,
    ) -> (r: Canvas)
        ensures
            r@ == blank_canvas(
                iiif_urls.presentation@,
                item_id@.encoded,
                index as nat,
                label@,
                width,
                height,
            ),
    {
        let images: Vec<Annotation> = Vec::new();
        assert(annotation_views(images@) =~= Seq::<AnnotationView>::empty());
        Canvas {
            id: iiif_urls.canvas_id(item_id, index),
            context: Uri::new(PRESENTATION),
            iiif_type: IiifType::Canvas,
            label: label.to_owned(),
            height,
            width,
            images,
        }
    }

    /// Adds an annotation at the end of the canvas.
    pub fn add_image(&mut self, image: Annotation)
        ensures
            final(self)@ == (CanvasView { images: old(self)@.images.push(image@), ..old(self)@ }),
    {
        let ghost before = annotation_views(self.images@);
        self.images.push(image);
        assert(annotation_views(self.images@) =~= before.push(image@));
    }
}

/// An order of the canvases of an item.
#[derive(Debug)]
pub struct Sequence {
    pub context: Uri,
    pub id: Uri,
    pub iiif_type: IiifType,
    pub canvases: Vec<Canvas>,
}

/// What a [`Sequence`] denotes.
pub struct SequenceView {
    pub context: Seq<char>,
    pub id: Seq<char>,
    pub iiif_type: IiifType,
    pub canvases: Seq<CanvasView>,
}

impl View for Sequence {
    type V = SequenceView;

    open spec fn view(&self) -> SequenceView {
        SequenceView {
            context: self.context@,
            id: self.id@,
            iiif_type: self.iiif_type,
            canvases: canvas_views(self.canvases@),
        }
    }
}

/// The views of the sequences of a vector, in order.
pub open spec fn sequence_views(sequences: Seq<Sequence>) -> Seq<SequenceView> {
    sequences.map_values(|s: Sequence| s@)
}

/// The sequence of the item `flat_id` before any canvas was added.
pub open spec fn empty_sequence(presentation_api: Seq<char>, flat_id: Seq<char>) -> SequenceView {
    SequenceView {
        context: PRESENTATION@,
        id: sequence_uri(presentation_api, flat_id),
        iiif_type: IiifType::Sequence,
        canvases: Seq::empty(),
    }
}

impl Sequence {
    /// The sequence of the item `item_id`, without canvases.
    pub fn new(iiif_urls: &IiifUrls, item_id: &Id) -> (r: Sequence)
        ensures
            r@ == empty_sequence(iiif_urls.presentation@, item_id@.encoded),
    {
        let canvases: Vec<Canvas> = Vec::new();
        assert(canvas_views(canvases@) =~= Seq::<CanvasView>::empty());
        Sequence {
            context: Uri::new(PRESENTATION),
            id: iiif_urls.sequence_id(item_id),
            iiif_type: IiifType::Sequence,
            canvases,
        }
    }

    /// Adds a canvas that shows the image `image_id` at the end of the
    /// sequence. The index of the canvas is the number of canvases before
    /// it.
    pub fn add_image(
        &mut self,
        base_urls: &IiifUrls,
        item_id: &Id,
        image_id: &Id,
        label: &str,
        image_metadata: &ImageMetadata,
    )
        ensures
            final(self)@ == (SequenceView {
                canvases: old(self)@.canvases.push(
                    painted_canvas(
                        *base_urls,
                        item_id@.encoded,
                        image_id@.encoded,
                        old(self)@.canvases.len(),
                        label@,
                        image_metadata@,
                    ),
                ),
                ..old(self)@
            }),
    {
        let ghost before = canvas_views(self.canvases@);
        let index = self.canvases.len();
        let mut canvas = Canvas::new(
            base_urls,
            item_id,
            index,
            label,
            image_metadata.width,
            image_metadata.height,
        );
        let image_resource = ImageResource::new(base_urls, image_id, image_metadata);
        let annotation = Annotation::new(Resource::Image(image_resource), canvas.id.clone());
        canvas.add_image(annotation);
        assert(canvas@.images =~= seq![annotation@]);
        self.canvases.push(canvas);
        assert(canvas_views(self.canvases@) =~= before.push(canvas@));
    }

    /// Adds a canvas for an image of which nothing is known. The image
    /// goes by a made-up identifier that holds the index of the canvas.
    pub fn add_placeholder(&mut self, base_urls: &IiifUrls, item_id: &Id, label: &str)
        ensures
            final(self)@ == (SequenceView {
                canvases: old(self)@.canvases.push(
                    painted_canvas(
                        *base_urls,
                        item_id@.encoded,
                        encoded(placeholder_path(old(self)@.canvases.len())),
                        old(self)@.canvases.len(),
                        label@,
                        unknown_metadata(),
                    ),
                ),
                ..old(self)@
            }),
    {
        let index = self.canvases.len();
        let mut fake_id = "??? (".to_owned();
        push_decimal(&mut fake_id, index);
        fake_id.append(")");
        self.add_image(
            base_urls,
            item_id,
            &Id::new(fake_id.as_str()),
            label,
            &ImageMetadata::unknown(),
        )
    }
}

/// The description of an item, with its sequences.
#[derive(Debug)]
pub struct Manifest {
    pub context: Uri,
    pub id: Uri,
    pub iiif_type: IiifType,
    pub label: String,
    pub metadata: Vec<Metadata>,
    pub description: Option<String>,
    pub sequences: Vec<Sequence>,
}

/// What a [`Manifest`] denotes.
pub struct ManifestView {
    pub context: Seq<char>,
    pub id: Seq<char>,
    pub iiif_type: IiifType,
    pub label: Seq<char>,
    pub metadata: Seq<MetadataView>,
    pub description: Option<Seq<char>>,
    pub sequences: Seq<SequenceView>,
}

impl View for Manifest {
    type V = ManifestView;

    open spec fn view(&self) -> ManifestView {
        ManifestView {
            context: self.context@,
            id: self.id@,
            iiif_type: self.iiif_type,
            label: self.label@,
            metadata: metadata_views(self.metadata@),
            description: optional_text(self.description),
            sequences: sequence_views(self.sequences@),
        }
    }
}

/// The manifest of the item `flat_id` before any sequence was added.
pub open spec fn empty_manifest(
    presentation_api: Seq<char>,
    flat_id: Seq<char>,
    label: Seq<char>,
    metadata: Seq<MetadataView>,
    description: Option<Seq<char>>,
) -> ManifestView {
    ManifestView {
        context: PRESENTATION@,
        id: manifest_uri(presentation_api, flat_id),
        iiif_type: IiifType::Manifest,
        label,
        metadata,
        description,
        sequences: Seq::empty(),
    }
}

impl Manifest {
    /// The manifest of the item `item_id`, without sequences.
    pub fn new(
        iiif_urls: &IiifUrls,
        item_id: &Id,
        label: &str,
        metadata: Vec<Metadata>,
        description: Option<String>,
    ) -> (r: Manifest)
        ensures
            r@ == empty_manifest(
                iiif_urls.presentation@,
                item_id@.encoded,
                label@,
                metadata_views(metadata@),
                optional_text(description),
            ),
    {
        let sequences: Vec<Sequence> = Vec::new();
        assert(sequence_views(sequences@) =~= Seq::<SequenceView>::empty());
        Manifest {
            context: Uri::new(PRESENTATION),
            id: iiif_urls.manifest_id(item_id),
            iiif_type: IiifType::Manifest,
            label: label.to_owned(),
            metadata,
            description,
            sequences,
        }
    }

    /// Adds a sequence at the end of the manifest.
    pub fn add_sequence(&mut self, sequence: Sequence)
        ensures
            final(self)@ == (ManifestView {
                sequences: old(self)@.sequences.push(sequence@),
                ..old(self)@
            }),
    {
        let ghost before = sequence_views(self.sequences@);
        self.sequences.push(sequence);
        assert(sequence_views(self.sequences@) =~= before.push(sequence@));
    }
}

} // verus!
