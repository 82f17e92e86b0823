//! Descriptive metadata of a manifest: labelled values in one of three
//! shapes.

use vstd::prelude::*;

verus! {

/// A text with the language it is written in.
#[derive(Debug, PartialEq)]
pub struct LocalizedValue {
    pub value: String,
    pub language: String,
}

/// What a [`LocalizedValue`] denotes.
pub struct LocalizedValueView {
    pub value: Seq<char>,
    pub language: Seq<char>,
}

impl View for LocalizedValue {
    type V = LocalizedValueView;

    open spec fn view(&self) -> LocalizedValueView {
        LocalizedValueView { value: self.value@, language: self.language@ }
    }
}

impl LocalizedValue {
    /// `value`, in `language`.
    pub fn new(value: &str, language: &str) -> (r: LocalizedValue)
        ensures
            r@ == (LocalizedValueView { value: value@, language: language@ }),
    {
        LocalizedValue { value: value.to_owned(), language: language.to_owned() }
    }
}

/// The value of a metadata entry: one text, several, or several with their
/// languages.
#[derive(Debug, PartialEq)]
pub enum Value {
    Single(String),
    Many(Vec<String>),
    Multilang(Vec<LocalizedValue>),
}

/// What a [`Value`] denotes.
pub enum ValueView {
    Single(Seq<char>),
    Many(Seq<Seq<char>>),
    Multilang(Seq<LocalizedValueView>),
}

/// The texts of a vector of strings, in order.
pub open spec fn string_views(strings: Seq<String>) -> Seq<Seq<char>> {
    strings.map_values(|s: String| s@)
}

/// The views of the localized values of a vector, in order.
pub open spec fn localized_views(values: Seq<LocalizedValue>) -> Seq<LocalizedValueView> {
    values.map_values(|v: LocalizedValue| v@)
}

impl View for Value {
    type V = ValueView;

    open spec fn view(&self) -> ValueView {
        match self {
            Value::Single(text) => ValueView::Single(text@),
            Value::Many(texts) => ValueView::Many(string_views(texts@)),
            Value::Multilang(values) => ValueView::Multilang(localized_views(values@)),
        }
    }
}

/// One entry of the metadata of a manifest.
#[derive(Debug, PartialEq)]
pub struct Metadata {
    pub label: String,
    pub value: Value,
}

/// What a [`Metadata`] denotes.
pub struct MetadataView {
    pub label: Seq<char>,
    pub value: ValueView,
}

impl View for Metadata {
    type V = MetadataView;

    open spec fn view(&self) -> MetadataView {
        MetadataView { label: self.label@, value: self.value@ }
    }
}

/// The views of the entries of a vector, in order.
pub open spec fn metadata_views(entries: Seq<Metadata>) -> Seq<MetadataView> {
    entries.map_values(|m: Metadata| m@)
}

impl Metadata {
    /// An entry with one text as its value.
    pub fn key_value(label: &str, value: &str) -> (r: Metadata)
        ensures
            r@ == (MetadataView { label: label@, value: ValueView::Single(value@) }),
    {
        Metadata { label: label.to_owned(), value: Value::Single(value.to_owned()) }
    }

    /// An entry with several texts as its value.
    pub fn list(label: &str, values: Vec<String>) -> (r: Metadata)
        ensures
            r@ == (MetadataView { label: label@, value: ValueView::Many(string_views(values@)) }),
    {
        Metadata { label: label.to_owned(), value: Value::Many(values) }
    }

    /// An entry with texts in several languages as its value.
    pub fn localized(label: &str, values: Vec<LocalizedValue>) -> (r: Metadata)
        ensures
            r@ == (MetadataView {
                label: label@,
                value: ValueView::Multilang(localized_views(values@)),
            }),
    {
        Metadata { label: label.to_owned(), value: Value::Multilang(values) }
    }
}

} // verus!
