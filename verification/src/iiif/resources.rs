//! What an annotation can have as its body. Today that is an image with
//! the image service that delivers it.

use crate::iiif::types::{image_content_uri, image_service_uri, Id, Uri};
use crate::image::source::{Image, ImageView};
use crate::image::Format;
use vstd::prelude::*;

verus! {

/// A service by its identifier, profile and protocol.
#[derive(Debug)]
pub struct Service {
    pub id: Uri,
    pub profile: Uri,
    pub protocol: Uri,
}

/// What a [`Service`] denotes.
pub struct ServiceView {
    pub id: Seq<char>,
    pub profile: Seq<char>,
    pub protocol: Seq<char>,
}

impl View for Service {
    type V = ServiceView;

    open spec fn view(&self) -> ServiceView {
        ServiceView { id: self.id@, profile: self.profile@, protocol: self.protocol@ }
    }
}

/// An image service of the second version of the image API.
#[derive(Debug)]
pub struct ImageService2 {
    pub id: Uri,
    pub profile: String,
}

/// What an [`ImageService2`] denotes.
pub struct ImageService2View {
    pub id: Seq<char>,
    pub profile: Seq<char>,
}

impl View for ImageService2 {
    type V = ImageService2View;

    open spec fn view(&self) -> ImageService2View {
        ImageService2View { id: self.id@, profile: self.profile@ }
    }
}

impl ImageService2 {
    /// The URI of the image service of an image: `{image}/{flat image id}`.
    pub fn id(image_api: &str, image_id: &Id) -> (uri: Uri)
        ensures
            uri@ == image_service_uri(image_api@, image_id@.encoded),
    {
        let uri = Uri::under(image_api, image_id.encoded.as_str(), "");
        proof {
            reveal_strlit("");
            assert(uri@ =~= image_service_uri(image_api@, image_id@.encoded));
        }
        uri
    }

    /// The service at `id`, with the profile `level2`.
    pub fn new(id: Uri) -> (service: ImageService2)
        ensures
            service@ == (ImageService2View { id: id@, profile: "level2"@ }),
    {
        ImageService2 { id, profile: "level2".to_owned() }
    }
}

/// An image as the body of an annotation.
#[derive(Debug)]
pub struct IiifImage {
    pub id: Uri,
    pub format: String,
    pub service: ImageService2,
    pub width: u32,
    pub height: u32,
}

/// What an [`IiifImage`] denotes.
pub struct IiifImageView {
    pub id: Seq<char>,
    pub format: Seq<char>,
    pub service: ImageService2View,
    pub width: u32,
    pub height: u32,
}

impl View for IiifImage {
    type V = IiifImageView;

    open spec fn view(&self) -> IiifImageView {
        IiifImageView {
            id: self.id@,
            format: self.format@,
            service: self.service@,
            width: self.width,
            height: self.height,
        }
    }
}

/// The image resource of `image` under the flat identifier `flat_image_id`:
/// the URI of its content, its media type, its service and its size.
pub open spec fn image_resource(
    image_api: Seq<char>,
    flat_image_id: Seq<char>,
    image: ImageView,
) -> IiifImageView {
    IiifImageView {
        id: image_content_uri(image_api, flat_image_id, image.format.extension_text()),
        format: image.format.media_type_text(),
        service: ImageService2View {
            id: image_service_uri(image_api, flat_image_id),
            profile: "level2"@,
        },
        width: image.width,
        height: image.height,
    }
}

impl IiifImage {
    /// The URI of the content of an image:
    /// `{image}/{flat image id}/full/full/0/default.{extension}`.
    pub fn id(image_api: &str, image_id: &Id, format: &Format) -> (uri: Uri)
        ensures
            uri@ == image_content_uri(image_api@, image_id@.encoded, format.extension_text()),
    {
        let mut uri = Uri::under(image_api, image_id.encoded.as_str(), "/full/full/0/default.");
        uri.value.append(format.extension());
        uri
    }

    /// The image resource of `image` under the identifier `image_id`.
    pub fn new(image_api: &str, image_id: &Id, image: &Image) -> (r: IiifImage)
        ensures
            r@ == image_resource(image_api@, image_id@.encoded, image@),
    {
        IiifImage {
            id: IiifImage::id(image_api, image_id, &image.format),
            format: image.format.media_type().to_owned(),
            service: ImageService2::new(ImageService2::id(image_api, image_id)),
            width: image.width,
            height: image.height,
        }
    }
}

/// The body of an annotation.
#[derive(Debug)]
pub enum Resource {
    Image(IiifImage),
}

/// What a [`Resource`] denotes.
pub enum ResourceView {
    Image(IiifImageView),
}

impl View for Resource {
    type V = ResourceView;

    open spec fn view(&self) -> ResourceView {
        match self {
            Resource::Image(image) => ResourceView::Image(image@),
        }
    }
}

} // verus!
