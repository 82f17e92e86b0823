//! What is known of an image before it is shown: its media type, the
//! extension it is asked for under, and its size.

use crate::image::source::extension_of;
use crate::image::source::Image;
use vstd::prelude::*;

verus! {

/// Why no metadata could be had for a file.
#[derive(Debug, PartialEq)]
pub enum MetadataError {
    /// The file is of no kind that can be read; the text says which file.
    UnsupportedFiletype(String),
    /// The file could not be read; the text says which file and why.
    IoError(String),
}

/// What a [`MetadataError`] denotes.
pub enum MetadataErrorView {
    UnsupportedFiletype(Seq<char>),
    IoError(Seq<char>),
}

impl View for MetadataError {
    type V = MetadataErrorView;

    open spec fn view(&self) -> MetadataErrorView {
        match self {
            MetadataError::UnsupportedFiletype(text) => MetadataErrorView::UnsupportedFiletype(
                text@,
            ),
            MetadataError::IoError(text) => MetadataErrorView::IoError(text@),
        }
    }
}

/// Media type, extension and size of an image.
#[derive(Debug, PartialEq)]
pub struct ImageMetadata {
    pub format: String,
    pub extension: String,
    pub width: u32,
    pub height: u32,
}

/// What an [`ImageMetadata`] denotes.
pub struct ImageMetadataView {
    pub format: Seq<char>,
    pub extension: Seq<char>,
    pub width: u32,
    pub height: u32,
}

impl View for ImageMetadata {
    type V = ImageMetadataView;

    open spec fn view(&self) -> ImageMetadataView {
        ImageMetadataView {
            format: self.format@,
            extension: self.extension@,
            width: self.width,
            height: self.height,
        }
    }
}

/// The metadata of an image of which nothing is known.
pub open spec fn unknown_metadata() -> ImageMetadataView {
    ImageMetadataView { format: "unknown"@, extension: "unknown"@, width: 0, height: 0 }
}

/// The metadata of a PNG image of the given size.
pub open spec fn png_metadata(width: u32, height: u32) -> ImageMetadataView {
    ImageMetadataView { format: "image/png"@, extension: "png"@, width, height }
}

/// Whether a file of this name can be read for metadata: its extension is
/// `png`.
pub open spec fn is_readable_name(name: Seq<char>) -> bool {
    extension_of(name) == Some("png"@)
}

/// What reading the file named `name` gives, where `size` is what was
/// found in the file, or the reason why nothing was found.
pub open spec fn metadata_read(name: Seq<char>, size: Result<(u32, u32), Seq<char>>) -> Result<
    ImageMetadataView,
    MetadataErrorView,
> {
    if extension_of(name) is None {
        Err(MetadataErrorView::UnsupportedFiletype(name + " has no file extension"@))
    } else if !is_readable_name(name) {
        Err(MetadataErrorView::UnsupportedFiletype("Cannot get file extension for "@ + name))
    } else {
        match size {
            Ok((width, height)) => Ok(png_metadata(width, height)),
            Err(reason) => Err(MetadataErrorView::IoError("Cannot read "@ + name + ": "@ + reason)),
        }
    }
}

impl ImageMetadata {
    /// The metadata of the file named `name`, where `size` is the width
    /// and height found in it, or the reason why none was found. Only a
    /// file with the extension `png` is read; for any other, `size` is not
    /// looked at.
    pub fn read(name: &str, size: Result<(u32, u32), String>) -> (r: Result<
        ImageMetadata,
        MetadataError,
    >)
        ensures
            match r {
                Ok(metadata) => metadata_read(
                    name@,
                    match size {
                        Ok(s) => Ok(s),
                        Err(e) => Err(e@),
                    },
                ) == Ok::<ImageMetadataView, MetadataErrorView>(metadata@),
                Err(e) => metadata_read(
                    name@,
                    match size {
                        Ok(s) => Ok(s),
                        Err(e) => Err(e@),
                    },
                ) == Err::<ImageMetadataView, MetadataErrorView>(e@),
            },
    {
        match Image::extension_for(name) {
            None => {
                let mut text = name.to_owned();
                text.append(" has no file extension");
                Err(MetadataError::UnsupportedFiletype(text))
            },
            Some(extension) => {
                if !crate::text::str_eq(extension.as_str(), "png") {
                    let mut text = "Cannot get file extension for ".to_owned();
                    text.append(name);
                    Err(MetadataError::UnsupportedFiletype(text))
                } else {
                    match size {
                        Ok((width, height)) => Ok(ImageMetadata::png(width, height)),
                        Err(reason) => {
                            let mut text = "Cannot read ".to_owned();
                            text.append(name);
                            text.append(": ");
                            text.append(reason.as_str());
                            Err(MetadataError::IoError(text))
                        },
                    }
                }
            },
        }
    }

    /// Whether metadata can be read for what is at a path: it is a file,
    /// and its name has the extension `png`.
    pub fn is_supported(is_file: bool, name: &str) -> (r: bool)
        ensures
            r == (is_file && is_readable_name(name@)),
    {
        if !is_file {
            return false;
        }
        match Image::extension_for(name) {
            Some(extension) => crate::text::str_eq(extension.as_str(), "png"),
            None => false,
        }
    }

    /// The metadata of an image of which nothing is known.
    pub fn unknown() -> (r: ImageMetadata)
        ensures
            r@ == unknown_metadata(),
    {
        ImageMetadata {
            format: "unknown".to_owned(),
            extension: "unknown".to_owned(),
            width: 0,
            height: 0,
        }
    }

    /// The metadata of a PNG image of the given size.
    pub fn png(width: u32, height: u32) -> (r: ImageMetadata)
        ensures
            r@ == png_metadata(width, height),
    {
        ImageMetadata {
            format: "image/png".to_owned(),
            extension: "png".to_owned(),
            width,
            height,
        }
    }
}

} // verus!
