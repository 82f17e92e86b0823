//! Image files: their formats, the labels found in them, and the decoder
//! and inspector that read them.

pub mod png;
pub mod source;

use vstd::prelude::*;

verus! {

/// The image formats that are served.
#[derive(Debug, Clone, Copy, PartialEq, Eq, Structural)]
pub enum Format {
    PNG,
    JPEG,
    TIFF,
}

impl Format {
    /// The extension that stands for the format in the URI of image content.
    pub open spec fn extension_text(self) -> Seq<char> {
        match self {
            Format::PNG => "png"@,
            Format::JPEG => "jpg"@,
            Format::TIFF => "tif"@,
        }
    }

    /// The media type of the format.
    pub open spec fn media_type_text(self) -> Seq<char> {
        match self {
            Format::PNG => "image/png"@,
            Format::JPEG => "image/jpeg"@,
            Format::TIFF => "image/tiff"@,
        }
    }

    /// The extension that stands for the format in the URI of image content.
    pub fn extension(&self) -> (r: &str)
        ensures
            r@ == self.extension_text(),
    {
        match self {
            Format::PNG => "png",
            Format::JPEG => "jpg",
            Format::TIFF => "tif",
        }
    }

    /// The media type of the format.
    pub fn media_type(&self) -> (r: &str)
        ensures
            r@ == self.media_type_text(),
    {
        match self {
            Format::PNG => "image/png",
            Format::JPEG => "image/jpeg",
            Format::TIFF => "image/tiff",
        }
    }

    /// The format as shown to a reader: its media type.
    pub fn to_string(&self) -> (r: String)
        ensures
            r@ == self.media_type_text(),
    {
        self.media_type().to_owned()
    }
}

/// A piece of text found in an image file, under a key.
#[derive(Debug, PartialEq)]
pub enum Label {
    KV(String, String),
}

/// What a [`Label`] denotes: its key and its value.
pub struct LabelView {
    pub key: Seq<char>,
    pub value: Seq<char>,
}

impl View for Label {
    type V = LabelView;

    open spec fn view(&self) -> LabelView {
        match self {
            Label::KV(key, value) => LabelView { key: key@, value: value@ },
        }
    }
}

impl Label {
    /// The label as shown to a reader: `{key}: {value}`.
    pub fn to_string(&self) -> (r: String)
        ensures
            r@ == self@.key + ": "@ + self@.value,
    {
        match self {
            Label::KV(key, value) => {
                let mut out = key.clone();
                out.append(": ");
                out.append(value.as_str());
                out
            },
        }
    }
}

/// The views of the labels of a vector, in order.
pub open spec fn label_views(labels: Seq<Label>) -> Seq<LabelView> {
    labels.map_values(|l: Label| l@)
}

} // verus!
