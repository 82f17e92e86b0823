//! Annotations, which bind content to a canvas, and the pages that hold
//! them.

use crate::iiif::resources::{Resource, ResourceView};
use crate::iiif::types::{annotation_page_uri, annotation_uri, Id, Uri};
use crate::text::push_decimal;
use vstd::prelude::*;

verus! {

/// Why an annotation is there.
#[derive(Debug, Clone, Copy, PartialEq, Eq, Structural)]
pub enum Motivation {
    /// The body is shown on the canvas.
    Painting,
}

/// One annotation: a body, and the canvas that it is bound to.
#[derive(Debug)]
pub struct Annotation {
    pub id: Uri,
    pub motivation: Motivation,
    pub body: Resource,
    pub target: Uri,
}

/// What an [`Annotation`] denotes.
pub struct AnnotationView {
    pub id: Seq<char>,
    pub motivation: Motivation,
    pub body: ResourceView,
    pub target: Seq<char>,
}

impl View for Annotation {
    type V = AnnotationView;

    open spec fn view(&self) -> AnnotationView {
        AnnotationView {
            id: self.id@,
            motivation: self.motivation,
            body: self.body@,
            target: self.target@,
        }
    }
}

/// The views of the annotations of a vector, in order.
pub open spec fn annotation_views(annotations: Seq<Annotation>) -> Seq<AnnotationView> {
    annotations.map_values(|a: Annotation| a@)
}

/// The role of a body, as it stands at the end of the annotation's URI.
pub open spec fn role_suffix(body: ResourceView) -> Seq<char> {
    match body {
        ResourceView::Image(_) => "image"@,
    }
}

impl Annotation {
    /// The URI of an annotation:
    /// `{presentation}/{flat id}/annotation/{page}-{suffix}`.
    pub fn id(presentation_api: &str, item_id: &Id, page: usize, suffix: &str) -> (uri: Uri)
        ensures
            uri@ == annotation_uri(presentation_api@, item_id@.encoded, page as nat, suffix@),
    {
        let mut uri = Uri::under_indexed(
            presentation_api,
            item_id.encoded.as_str(),
            "/annotation/",
            page,
        );
        uri.value.append("-");
        uri.value.append(suffix);
        uri
    }

    /// The annotation of the canvas at `index` that binds `resource` to
    /// `target`. Its URI ends with the role of the resource.
    pub fn new(
        presentation_api: &str,
        item_id: &Id,
        index: usize,
        resource: Resource,
        target: Uri,
        motivation: Motivation,
    ) -> (r: Annotation)
        ensures
            r@ == (AnnotationView {
                id: annotation_uri(
                    presentation_api@,
                    item_id@.encoded,
                    index as nat,
                    role_suffix(resource@),
                ),
                motivation,
                body: resource@,
                target: target@,
            }),
    {
        let id = match resource {
            Resource::Image(_) => Annotation::id(presentation_api, item_id, index, "image"),
        };
        Annotation { id, motivation, body: resource, target }
    }

    /// The annotation that shows `resource` on `target`.
    pub fn new_painting(
        presentation_api: &str,
        item_id: &Id,
        index: usize,
        resource: Resource,
        target: Uri,
    ) -> (r: Annotation)
        ensures
            r@ == (AnnotationView {
                id: annotation_uri(
                    presentation_api@,
                    item_id@.encoded,
                    index as nat,
                    role_suffix(resource@),
                ),
                motivation: Motivation::Painting,
                body: resource@,
                target: target@,
            }),
    {
        Annotation::new(presentation_api, item_id, index, resource, target, Motivation::Painting)
    }
}

/// A page of annotations.
#[derive(Debug)]
pub struct AnnotationPage {
    pub id: Uri,
    pub items: Vec<Annotation>,
}

/// What an [`AnnotationPage`] denotes.
pub struct AnnotationPageView {
    pub id: Seq<char>,
    pub items: Seq<AnnotationView>,
}

impl View for AnnotationPage {
    type V = AnnotationPageView;

    open spec fn view(&self) -> AnnotationPageView {
        AnnotationPageView { id: self.id@, items: annotation_views(self.items@) }
    }
}

/// The views of the pages of a vector, in order.
pub open spec fn page_views(pages: Seq<AnnotationPage>) -> Seq<AnnotationPageView> {
    pages.map_values(|p: AnnotationPage| p@)
}

impl AnnotationPage {
    /// The URI of an annotation page: `{presentation}/{flat id}/page/{index}`.
    pub fn id(presentation_api: &str, item_id: &Id, index: usize) -> (uri: Uri)
        ensures
            uri@ == annotation_page_uri(presentation_api@, item_id@.encoded, index as nat),
    {
        Uri::under_indexed(presentation_api, item_id.encoded.as_str(), "/page/", index)
    }

    /// The page of the canvas at `index`, holding `items`.
    pub fn new(presentation_api: &str, item_id: &Id, index: usize, items: Vec<Annotation>) -> (r:
        AnnotationPage)
        ensures
            r@ == (AnnotationPageView {
                id: annotation_page_uri(presentation_api@, item_id@.encoded, index as nat),
                items: annotation_views(items@),
            }),
    {
        AnnotationPage { id: AnnotationPage::id(presentation_api, item_id, index), items }
    }
}

} // verus!
