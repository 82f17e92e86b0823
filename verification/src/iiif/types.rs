//! Identifiers and URIs. An identifier keeps the path it was made from and a
//! flat form of it that is safe as one segment of a URL path.

use crate::text::{decimal, push_decimal, replace, replaced};
use vstd::prelude::*;

verus! {

/// `value` with every `/` replaced by `%2F`, and nothing else changed.
pub open spec fn encoded(value: Seq<char>) -> Seq<char> {
    replaced(value, "/"@, "%2F"@)
}

/// `{presentation}/{flat id}/manifest`
pub open spec fn manifest_uri(presentation_api: Seq<char>, flat_id: Seq<char>) -> Seq<char> {
    presentation_api + "/"@ + flat_id + "/manifest"@
}

/// `{presentation}/{flat id}/canvas/{index}`
pub open spec fn canvas_uri(presentation_api: Seq<char>, flat_id: Seq<char>, index: nat) -> Seq<
    char,
> {
    presentation_api + "/"@ + flat_id + "/canvas/"@ + decimal(index)
}

/// `{presentation}/{flat id}/page/{index}`
pub open spec fn annotation_page_uri(
    presentation_api: Seq<char>,
    flat_id: Seq<char>,
    index: nat,
) -> Seq<char> {
    presentation_api + "/"@ + flat_id + "/page/"@ + decimal(index)
}

/// `{presentation}/{flat id}/annotation/{page}-{suffix}`
pub open spec fn annotation_uri(
    presentation_api: Seq<char>,
    flat_id: Seq<char>,
    page: nat,
    suffix: Seq<char>,
) -> Seq<char> {
    presentation_api + "/"@ + flat_id + "/annotation/"@ + decimal(page) + "-"@ + suffix
}

/// `{image}/{flat image id}`
pub open spec fn image_service_uri(image_api: Seq<char>, flat_image_id: Seq<char>) -> Seq<char> {
    image_api + "/"@ + flat_image_id
}

/// `{image}/{flat image id}/full/full/0/default.{extension}`: the whole
/// image, at full size, not rotated, in default quality.
pub open spec fn image_content_uri(
    image_api: Seq<char>,
    flat_image_id: Seq<char>,
    extension: Seq<char>,
) -> Seq<char> {
    image_api + "/"@ + flat_image_id + "/full/full/0/default."@ + extension
}

/// An identifier: the path as given, and its flat form.
pub struct Id {
    pub value: String,
    pub encoded: String,
}

/// What an [`Id`] denotes.
pub struct IdView {
    pub value: Seq<char>,
    pub encoded: Seq<char>,
}

impl View for Id {
    type V = IdView;

    open spec fn view(&self) -> IdView {
        IdView { value: self.value@, encoded: self.encoded@ }
    }
}

impl Id {
    /// The flat form is the encoding of the path.
    pub open spec fn wf(&self) -> bool {
        self.encoded@ == encoded(self.value@)
    }

    /// The identifier of the path `value`. Its flat form holds no slash.
    pub fn new(value: &str) -> (id: Id)
        ensures
            id@ == (IdView { value: value@, encoded: encoded(value@) }),
            id.wf(),
            !id@.encoded.contains('/'),
    {
        proof {
            lemma_encoded_has_no_slash(value@);
        }
        let encoded = replace(value, "/", "%2F");
        Id { value: value.to_owned(), encoded }
    }
}

/// A URI, kept as text.
#[derive(Debug)]
pub struct Uri {
    pub value: String,
}

impl View for Uri {
    type V = Seq<char>;

    open spec fn view(&self) -> Seq<char> {
        self.value@
    }
}

impl Clone for Uri {
    fn clone(&self) -> (r: Uri)
        ensures
            r@ == self@,
    {
        Uri { value: self.value.clone() }
    }
}

impl Uri {
    /// The URI with the text `value`.
    pub fn new(value: &str) -> (uri: Uri)
        ensures
            uri@ == value@,
    {
        Uri { value: value.to_owned() }
    }

    /// `{base}/{flat id}{tail}`, the shape that all the templates start with.
    pub fn under(base: &str, flat_id: &str, tail: &str) -> (uri: Uri)
        ensures
            uri@ == base@ + "/"@ + flat_id@ + tail@,
    {
        let mut value = base.to_owned();
        value.append("/");
        value.append(flat_id);
        value.append(tail);
        Uri { value }
    }

    /// `{base}/{flat id}{tail}{index}`
    pub fn under_indexed(base: &str, flat_id: &str, tail: &str, index: usize) -> (uri: Uri)
        ensures
            uri@ == base@ + "/"@ + flat_id@ + tail@ + decimal(index as nat),
    {
        let mut uri = Uri::under(base, flat_id, tail);
        push_decimal(&mut uri.value, index);
        uri
    }
}

/// The flat form of an identifier holds no slash.
pub proof fn lemma_encoded_has_no_slash(value: Seq<char>)
    ensures
        !encoded(value).contains('/'),
    decreases value.len(),
{
    reveal_strlit("/");
    reveal_strlit("%2F");
    let to = "%2F"@;
    if value.len() > 0 {
        lemma_encoded_has_no_slash(value.skip(1));
        let rest = encoded(value.skip(1));
        if crate::text::starts_with(value, "/"@) {
            assert forall|i: int| 0 <= i < (to + rest).len() implies (to + rest)[i] != '/' by {
                if i >= 3 {
                    assert(rest.contains(rest[i - 3]));
                }
            }
        } else {
            let first = seq![value[0]];
            assert(value.subrange(0, 1) =~= first);
            assert(value[0] != '/') by {
                if value[0] == '/' {
                    assert(first =~= "/"@);
                }
            }
            assert forall|i: int| 0 <= i < (first + rest).len() implies (first + rest)[i]
                != '/' by {
                if i >= 1 {
                    assert(rest.contains(rest[i - 1]));
                }
            }
        }
    }
}

/// Encoding leaves a path without slashes as it is.
pub proof fn lemma_encoded_without_slash(value: Seq<char>)
    requires
        !value.contains('/'),
    ensures
        encoded(value) == value,
    decreases value.len(),
{
    reveal_strlit("/");
    if value.len() > 0 {
        assert(value.contains(value[0]));
        assert(value.subrange(0, 1)[0] == value[0]);
        assert forall|c: char| #[trigger] value.skip(1).contains(c) implies value.contains(c) by {
            let i = choose|i: int| 0 <= i < value.skip(1).len() && value.skip(1)[i] == c;
            assert(value[i + 1] == c);
        }
        lemma_encoded_without_slash(value.skip(1));
        assert(seq![value[0]] + value.skip(1) =~= value);
    }
}

/// Encoding twice gives what encoding once gives.
pub proof fn lemma_encoded_is_idempotent(value: Seq<char>)
    ensures
        encoded(encoded(value)) == encoded(value),
{
    lemma_encoded_has_no_slash(value);
    lemma_encoded_without_slash(encoded(value));
}

/// Each URI is a function of what it is built from: equal bases,
/// identifiers, indexes, suffixes and extensions give equal URIs, whenever
/// and however often they are built.
pub proof fn lemma_uris_are_determined(
    base: Seq<char>,
    flat_id: Seq<char>,
    index: nat,
    tail: Seq<char>,
    other_base: Seq<char>,
    other_flat_id: Seq<char>,
    other_index: nat,
    other_tail: Seq<char>,
)
    requires
        base == other_base,
        flat_id == other_flat_id,
        index == other_index,
        tail == other_tail,
    ensures
        manifest_uri(base, flat_id) == manifest_uri(other_base, other_flat_id),
        canvas_uri(base, flat_id, index) == canvas_uri(other_base, other_flat_id, other_index),
        annotation_page_uri(base, flat_id, index) == annotation_page_uri(
            other_base,
            other_flat_id,
            other_index,
        ),
        annotation_uri(base, flat_id, index, tail) == annotation_uri(
            other_base,
            other_flat_id,
            other_index,
            other_tail,
        ),
        image_content_uri(base, flat_id, tail) == image_content_uri(
            other_base,
            other_flat_id,
            other_tail,
        ),
        image_service_uri(base, flat_id) == image_service_uri(other_base, other_flat_id),
        encoded(flat_id) == encoded(other_flat_id),
{
}

} // verus!
