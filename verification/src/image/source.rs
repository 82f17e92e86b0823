//! The inspector: what an image file is, by its name and its bytes.

use crate::config::Config;
use crate::image::png::{
    decode_png, parse_png, Chunk, ChunkView, DecodeError, PngView, PNG,
};
use crate::image::{label_views, Format, Label, LabelView};
use crate::request::{Directory, RequestError};
use crate::text::{chars_of, replace, replaced, str_eq, string_of};
use vstd::prelude::*;

verus! {

/// What is known of an image file: its format, its file name, its size in
/// pixels and the labels found in it.
#[derive(Debug, PartialEq)]
pub struct Image {
    pub format: Format,
    pub name: String,
    pub width: u32,
    pub height: u32,
    pub labels: Vec<Label>,
}

/// What an [`Image`] denotes.
pub struct ImageView {
    pub format: Format,
    pub name: Seq<char>,
    pub width: u32,
    pub height: u32,
    pub labels: Seq<LabelView>,
}

impl View for Image {
    type V = ImageView;

    open spec fn view(&self) -> ImageView {
        ImageView {
            format: self.format,
            name: self.name@,
            width: self.width,
            height: self.height,
            labels: label_views(self.labels@),
        }
    }
}

/// The views of the images of a vector, in order.
pub open spec fn image_views(images: Seq<Image>) -> Seq<ImageView> {
    images.map_values(|i: Image| i@)
}

/// Why a file gave no image.
#[derive(Debug, Clone, Copy, PartialEq, Eq, Structural)]
pub enum InspectError {
    /// The file name has no extension, or one that stands for no image
    /// format. Such a file is passed over; nothing is wrong with it.
    UnsupportedExtension,
    /// The file is named as a PNG file and could not be decoded.
    Decode(DecodeError),
    /// The size of the image could not be found in the file.
    ProbeFailed,
}

/// The place of the last dot in `name`, or -1 where it has none.
pub open spec fn last_dot(name: Seq<char>) -> int
    decreases name.len(),
{
    if name.len() == 0 {
        -1
    } else if name.last() == '.' {
        name.len() - 1
    } else {
        last_dot(name.drop_last())
    }
}

/// The extension of a file name: what follows its last dot. A name without
/// a dot has none, and neither has a name whose only dot is its first
/// character.
pub open spec fn extension_of(name: Seq<char>) -> Option<Seq<char>> {
    if last_dot(name) <= 0 {
        None
    } else {
        Some(name.subrange(last_dot(name) + 1, name.len() as int))
    }
}

/// The format that an extension stands for. Only extensions in lower case
/// stand for one.
pub open spec fn format_of_extension(extension: Seq<char>) -> Option<Format> {
    if extension == "png"@ {
        Some(Format::PNG)
    } else if extension == "jpg"@ || extension == "jpeg"@ {
        Some(Format::JPEG)
    } else if extension == "tif"@ || extension == "tiff"@ {
        Some(Format::TIFF)
    } else {
        None
    }
}

/// The format that a file name stands for.
pub open spec fn format_of_name(name: Seq<char>) -> Option<Format> {
    match extension_of(name) {
        Some(extension) => format_of_extension(extension),
        None => None,
    }
}

/// The labels that a sequence of chunks gives: one for each text chunk and
/// each international text chunk, in the order of the chunks.
pub open spec fn labels_of(chunks: Seq<ChunkView>) -> Seq<LabelView>
    decreases chunks.len(),
{
    if chunks.len() == 0 {
        Seq::empty()
    } else {
        let before = labels_of(chunks.drop_last());
        match chunks.last() {
            ChunkView::Text(keyword, text, _) => before.push(
                LabelView { key: keyword, value: text },
            ),
            ChunkView::InternationalText(entry, _) => before.push(
                LabelView { key: entry.keyword, value: entry.text },
            ),
            _ => before,
        }
    }
}

/// The image that a decoded PNG file named `name` gives.
pub open spec fn png_image(name: Seq<char>, png: PngView) -> ImageView {
    ImageView {
        format: Format::PNG,
        name,
        width: png.width,
        height: png.height,
        labels: labels_of(png.chunks),
    }
}

/// The image of the given format and size, without labels. A width or
/// height beyond 32 bits is cut to its low 32 bits.
pub open spec fn sized_image(name: Seq<char>, format: Format, size: (usize, usize)) -> ImageView {
    ImageView {
        format,
        name,
        width: size.0 as u32,
        height: size.1 as u32,
        labels: Seq::empty(),
    }
}

/// The longest input that is handed to the size probe.
pub const MAX_PROBE_LEN: usize = 0xffff_ffff;

/// The width and height that the size probe of the `imagesize` crate finds
/// in a file with these bytes, or `None` where it finds none.
pub uninterp spec fn probed_size(data: Seq<u8>) -> Option<(usize, usize)>;

/// What the size probe is asked and answers: nothing for an input longer
/// than [`MAX_PROBE_LEN`], else what it finds.
pub open spec fn probe_outcome(data: Seq<u8>) -> Option<(usize, usize)> {
    if data.len() > MAX_PROBE_LEN {
        None
    } else {
        probed_size(data)
    }
}

/// What the inspector makes of a file, given what the size probe found.
pub open spec fn inspected_with(
    name: Seq<char>,
    data: Seq<u8>,
    probe: Option<(usize, usize)>,
) -> Result<ImageView, InspectError> {
    match format_of_name(name) {
        None => Err(InspectError::UnsupportedExtension),
        Some(Format::PNG) => match decode_png(data) {
            Ok(png) => Ok(png_image(name, png)),
            Err(e) => Err(InspectError::Decode(e)),
        },
        Some(format) => match probe {
            Some(size) => Ok(sized_image(name, format, size)),
            None => Err(InspectError::ProbeFailed),
        },
    }
}

/// What the inspector makes of the file named `name` that holds `data`.
pub open spec fn inspected(name: Seq<char>, data: Seq<u8>) -> Result<ImageView, InspectError> {
    inspected_with(name, data, probe_outcome(data))
}

/// Asks the size probe. Stands for `imagesize::blob_size`, which finds out
/// from the first bytes whether the data is a JPEG or a TIFF file and reads
/// the size from the frame header or the directory of that format. Its
/// answer depends on the bytes alone. `None` stands for each of its errors.
/// The probe counts nested JPEG images in a 32-bit counter, and each takes
/// four bytes or more: an input within [`MAX_PROBE_LEN`] cannot overflow it.
#[verifier::external_body]
fn probe_size(data: &[u8]) -> (r: Option<(usize, usize)>)
    requires
        data@.len() <= MAX_PROBE_LEN,
    ensures
        r == probed_size(data@),
{
    match imagesize::blob_size(data) {
        Ok(size) => Some((size.width, size.height)),
        Err(_) => None,
    }
}

/// Finds the last dot of a name.
fn find_last_dot(name: &Vec<char>) -> (r: Option<usize>)
    ensures
        match r {
            Some(at) => at == last_dot(name@) && at < name@.len(),
            None => last_dot(name@) == -1,
        },
{
    let mut end: usize = name.len();
    assert(name@.subrange(0, end as int) =~= name@);
    while end > 0
        invariant
            end <= name@.len(),
            last_dot(name@.subrange(0, end as int)) == last_dot(name@),
        decreases end,
    {
        let ghost head = name@.subrange(0, end as int);
        if name[end - 1] == '.' {
            return Some(end - 1);
        }
        assert(head.drop_last() =~= name@.subrange(0, end - 1));
        end -= 1;
    }
    None
}

impl Image {
    /// The extension of the file name `name`.
    pub fn extension_for(name: &str) -> (r: Option<String>)
        ensures
            match r {
                Some(extension) => extension_of(name@) == Some(extension@),
                None => extension_of(name@) is None,
            },
    {
        let chars = chars_of(name);
        match find_last_dot(&chars) {
            None => None,
            Some(dot) => {
                if dot == 0 {
                    return None;
                }
                let end = chars.len();
                Some(string_of(&chars, dot + 1, end))
            },
        }
    }

    /// The format that the file name `name` stands for, by its extension.
    pub fn format_for(name: &str) -> (r: Option<Format>)
        ensures
            r == format_of_name(name@),
    {
        match Image::extension_for(name) {
            None => None,
            Some(extension) => {
                if str_eq(extension.as_str(), "png") {
                    Some(Format::PNG)
                } else if str_eq(extension.as_str(), "jpg") || str_eq(extension.as_str(), "jpeg") {
                    Some(Format::JPEG)
                } else if str_eq(extension.as_str(), "tif") || str_eq(extension.as_str(), "tiff") {
                    Some(Format::TIFF)
                } else {
                    None
                }
            },
        }
    }

    /// The image that the decoded PNG file `png`, named `name`, gives: its
    /// size is that of the file, its labels are the texts of the file.
    pub fn from_png(name: &str, png: &PNG) -> (r: Image)
        ensures
            r@ == png_image(name@, png@),
    {
        let mut labels: Vec<Label> = Vec::new();
        let mut i: usize = 0;
        let ghost views = png@.chunks;
        assert(views.subrange(0, 0) =~= Seq::<ChunkView>::empty());
        while i < png.chunks.len()
            invariant
                i <= png.chunks@.len(),
                views == png@.chunks,
                label_views(labels@) == labels_of(views.subrange(0, i as int)),
            decreases png.chunks@.len() - i,
        {
            let ghost before = label_views(labels@);
            let ghost head = views.subrange(0, i + 1);
            assert(head.drop_last() =~= views.subrange(0, i as int));
            assert(head.last() == png.chunks@[i as int]@);
            match &png.chunks[i] {
                Chunk::Text(keyword, text, _) => {
                    labels.push(Label::KV(keyword.clone(), text.clone()));
                    assert(label_views(labels@) =~= before.push(
                        LabelView { key: keyword@, value: text@ },
                    ));
                },
                Chunk::InternationalText(entry, _) => {
                    labels.push(Label::KV(entry.keyword.clone(), entry.text.clone()));
                    assert(label_views(labels@) =~= before.push(
                        LabelView { key: entry.keyword@, value: entry.text@ },
                    ));
                },
                _ => {},
            }
            i += 1;
        }
        assert(views.subrange(0, i as int) =~= views);
        Image {
            format: Format::PNG,
            name: name.to_owned(),
            width: png.width,
            height: png.height,
            labels,
        }
    }

    /// The image of the given format and size, without labels.
    pub fn from_size(name: &str, format: Format, size: (usize, usize)) -> (r: Image)
        ensures
            r@ == sized_image(name@, format, size),
    {
        let labels: Vec<Label> = Vec::new();
        assert(label_views(labels@) =~= Seq::<LabelView>::empty());
        Image {
            format,
            name: name.to_owned(),
            width: size.0 as u32,
            height: size.1 as u32,
            labels,
        }
    }

    /// What the inspector makes of the file named `name` that holds `data`,
    /// where `probe` is what the size probe found in it. A PNG file is
    /// decoded and the probe is not looked at.
    pub fn inspect_with(name: &str, data: &[u8], probe: Option<(usize, usize)>) -> (r: Result<
        Image,
        InspectError,
    >)
        ensures
            match r {
                Ok(image) => inspected_with(name@, data@, probe) == Ok::<ImageView, InspectError>(
                    image@,
                ),
                Err(e) => inspected_with(name@, data@, probe) == Err::<ImageView, InspectError>(e),
            },
    {
        match Image::format_for(name) {
            None => Err(InspectError::UnsupportedExtension),
            Some(Format::PNG) => match parse_png(data) {
                Ok(png) => Ok(Image::from_png(name, &png)),
                Err(e) => Err(InspectError::Decode(e)),
            },
            Some(format) => match probe {
                Some(size) => Ok(Image::from_size(name, format, size)),
                None => Err(InspectError::ProbeFailed),
            },
        }
    }

    /// Asks the size probe about `data`, unless `data` is longer than
    /// [`MAX_PROBE_LEN`].
    pub fn probe(data: &[u8]) -> (r: Option<(usize, usize)>)
        ensures
            r == probe_outcome(data@),
    {
        if data.len() > MAX_PROBE_LEN {
            None
        } else {
            probe_size(data)
        }
    }

    /// Inspects the file named `name` that holds `data`. A PNG file is
    /// decoded; a JPEG or TIFF file is handed to the size probe; any other
    /// file is reported as unsupported.
    pub fn inspect(name: &str, data: &[u8]) -> (r: Result<Image, InspectError>)
        ensures
            match r {
                Ok(image) => inspected(name@, data@) == Ok::<ImageView, InspectError>(image@),
                Err(e) => inspected(name@, data@) == Err::<ImageView, InspectError>(e),
            },
            format_of_name(name@) is None ==> r == Err::<Image, InspectError>(
                InspectError::UnsupportedExtension,
            ),
    {
        let probe = match Image::format_for(name) {
            Some(Format::JPEG) | Some(Format::TIFF) => Image::probe(data),
            _ => None,
        };
        Image::inspect_with(name, data, probe)
    }

    /// The image in the file named `name` that holds `data`, or `None` where
    /// the file is no image or cannot be read as one.
    pub fn for_file(name: &str, data: &[u8]) -> (r: Option<Image>)
        ensures
            match r {
                Some(image) => inspected(name@, data@) == Ok::<ImageView, InspectError>(image@),
                None => inspected(name@, data@) is Err,
            },
    {
        match Image::inspect(name, data) {
            Ok(image) => Some(image),
            Err(_) => None,
        }
    }
}

/// A file of a directory: its name and what it holds.
#[derive(Debug)]
pub struct FileEntry {
    pub name: String,
    pub data: Vec<u8>,
}

/// The images among `files`, in the order of the files. A file that is no
/// image, or that cannot be read as one, is left out.
pub open spec fn images_among(files: Seq<FileEntry>) -> Seq<ImageView>
    decreases files.len(),
{
    if files.len() == 0 {
        Seq::empty()
    } else {
        let before = images_among(files.drop_last());
        match inspected(files.last().name@, files.last().data@) {
            Ok(image) => before.push(image),
            Err(_) => before,
        }
    }
}

/// The path of the directory of the item `id` under the directory that is
/// served: the separator of identifiers gives way to that of paths.
pub open spec fn relative_path(id: Seq<char>, path_sep: Seq<char>, os_sep: Seq<char>) -> Seq<char> {
    replaced(id, path_sep, os_sep)
}

/// Where the images come from: the directory that the configuration names.
#[derive(Debug)]
pub struct ImageSource {
    pub config: Config,
}

impl ImageSource {
    /// The source of the images that `config` serves.
    pub fn new(config: Config) -> (r: ImageSource)
        ensures
            r.config == config,
    {
        ImageSource { config }
    }

    /// The path of the directory of the item `sub_path` under the directory
    /// that is served, where `os_sep` separates the parts of a path.
    pub fn relative_path(&self, sub_path: &str, os_sep: &str) -> (r: String)
        ensures
            r@ == relative_path(sub_path@, self.config.urls.path_sep@, os_sep@),
    {
        replace(sub_path, self.config.urls.path_sep.as_str(), os_sep)
    }

    /// The images of a directory, given what was found at its path. A
    /// missing directory is an error, and so is a path that is no
    /// directory; a directory without images gives an empty list.
    pub fn load(&self, directory: Directory<FileEntry>) -> (r: Result<Vec<Image>, RequestError>)
        ensures
            match r {
                Ok(images) => directory matches Directory::Entries(files) && image_views(images@)
                    == images_among(files@),
                Err(e) => directory.failure() == Some(e),
            },
            directory is Missing ==> r == Err::<Vec<Image>, RequestError>(RequestError::NotFound),
    {
        let files = directory.entries()?;
        let mut images: Vec<Image> = Vec::new();
        let mut i: usize = 0;
        assert(files@.subrange(0, 0) =~= Seq::<FileEntry>::empty());
        assert(image_views(images@) =~= Seq::<ImageView>::empty());
        while i < files.len()
            invariant
                i <= files@.len(),
                image_views(images@) == images_among(files@.subrange(0, i as int)),
            decreases files@.len() - i,
        {
            let ghost before = image_views(images@);
            let ghost head = files@.subrange(0, i + 1);
            assert(head.drop_last() =~= files@.subrange(0, i as int));
            assert(head.last() == files@[i as int]);
            let file = &files[i];
            match Image::for_file(file.name.as_str(), file.data.as_slice()) {
                Some(image) => {
                    images.push(image);
                    assert(image_views(images@) =~= before.push(image@));
                },
                None => {},
            }
            i += 1;
        }
        assert(files@.subrange(0, i as int) =~= files@);
        Ok(images)
    }
}

} // verus!
