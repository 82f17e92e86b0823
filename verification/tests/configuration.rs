use iiif_forager::config::{Config, Serving, Urls};
use iiif_forager::context::Context;
use iiif_forager::iiif::metadata::{LocalizedValue, Metadata};
use iiif_forager::image::{Format, Label};
use iiif_forager::meta::{Format as MetaFormat, Meta, SOURCES};
use iiif_forager::request::{Directory, RequestError};

const FULL_CONFIG: &str = "
    # Which directory shall be served where (host and port)?
    serving:
        path: samples
        host: localhost
        port: 7890

    # The urls part is important for the public facing user interaction
    # and will end up in the generated JSON.
    urls:
        path sep: '-'
        image api: http://localhost:1234/iiif/image/v2
        presentation api: http://localhost:1234/iiif/presentation/v2
    ";

const DOCUMENT: &str = r#"
        {
            "description": "Expected description",
            "metadata": [
                {
                    "label": "size",
                    "value": "53 MB"
                },
                {
                    "label": "colors",
                    "value": ["red", "green", "blue"]
                },
                {
                    "label": "quality",
                    "value": [{"@value": "high", "@language": "en"}]
                }
            ]
        }"#;

fn text(value: &serde_yaml::Value, key: &str) -> String {
    value[key].as_str().unwrap().to_owned()
}

fn config_from_yaml(source: &str) -> Config {
    let document: serde_yaml::Value = serde_yaml::from_str(source).unwrap();
    let serving = &document["serving"];
    let urls = &document["urls"];
    Config {
        serving: Serving {
            path: text(serving, "path"),
            host: text(serving, "host"),
            port: serving["port"].as_u64().unwrap() as u32,
        },
        urls: Urls {
            path_sep: text(urls, "path sep"),
            image_api: text(urls, "image api"),
            presentation_api: text(urls, "presentation api"),
        },
    }
}

fn metadata_from_json(entry: &serde_json::Value) -> Metadata {
    let label = entry["label"].as_str().unwrap();
    match &entry["value"] {
        serde_json::Value::String(value) => Metadata::key_value(label, value),
        serde_json::Value::Array(values) if values.iter().all(|v| v.is_string()) => {
            Metadata::list(
                label,
                values
                    .iter()
                    .map(|v| v.as_str().unwrap().to_owned())
                    .collect(),
            )
        }
        serde_json::Value::Array(values) => Metadata::localized(
            label,
            values
                .iter()
                .map(|v| {
                    LocalizedValue::new(
                        v["@value"].as_str().unwrap(),
                        v["@language"].as_str().unwrap(),
                    )
                })
                .collect(),
        ),
        other => panic!("unexpected value {:?}", other),
    }
}

fn parts_from_json(source: &str) -> (Option<String>, Vec<Metadata>) {
    let document: serde_json::Value = serde_json::from_str(source).unwrap();
    let description = document["description"].as_str().map(|d| d.to_owned());
    let metadata = match document["metadata"].as_array() {
        Some(entries) => entries.iter().map(metadata_from_json).collect(),
        None => Vec::new(),
    };
    (description, metadata)
}

#[test]
fn load_yaml() {
    let config: Config = config_from_yaml(FULL_CONFIG);
    assert_eq!(config.serving.host, "localhost");
    assert_eq!(config.serving.port, 7890);
    assert_eq!(config.urls.path_sep, "-");
    assert_eq!(config.urls.image_api, "http://localhost:1234/iiif/image/v2");
    assert_eq!(
        config.urls.presentation_api,
        "http://localhost:1234/iiif/presentation/v2"
    );
}

#[test]
fn load_minimal() {
    let config: Config = config_from_yaml(FULL_CONFIG);
    assert_eq!(config.serving.host, "localhost");
    assert_eq!(config.serving.port, 7890);
    assert_eq!(config.urls.path_sep, "-");
    assert_eq!(config.urls.image_api, "http://localhost:1234/iiif/image/v2");
    assert_eq!(
        config.urls.presentation_api,
        "http://localhost:1234/iiif/presentation/v2"
    );
}

#[test]
fn context_load_json() {
    let (description, metadata) = parts_from_json(DOCUMENT);
    let actual = Context {
        description,
        metadata,
    };
    assert_eq!(actual.description, Some("Expected description".to_owned()));
    assert_eq!(actual.metadata[0], Metadata::key_value("size", "53 MB"));
    assert_eq!(
        actual.metadata[1],
        Metadata::list(
            "colors",
            vec!["red".to_owned(), "green".to_owned(), "blue".to_owned()]
        )
    );
    assert_eq!(
        actual.metadata[2],
        Metadata::localized("quality", vec![LocalizedValue::new("high", "en")])
    );
}

#[test]
fn meta_load_json() {
    let (description, metadata) = parts_from_json(DOCUMENT);
    let actual = Meta {
        description,
        metadata,
    };
    assert_eq!(actual.description, Some("Expected description".to_owned()));
    assert_eq!(actual.metadata[0], Metadata::key_value("size", "53 MB"));
    assert_eq!(
        actual.metadata[1],
        Metadata::list(
            "colors",
            vec!["red".to_owned(), "green".to_owned(), "blue".to_owned()]
        )
    );
    assert_eq!(
        actual.metadata[2],
        Metadata::localized("quality", vec![LocalizedValue::new("high", "en")])
    );
}

#[test]
fn bind_joins_host_and_port() {
    let config = config_from_yaml(FULL_CONFIG);
    assert_eq!(config.serving.bind(), "localhost:7890");
    let other = Serving {
        path: "/srv".to_owned(),
        host: "0.0.0.0".to_owned(),
        port: 0,
    };
    assert_eq!(other.bind(), "0.0.0.0:0");
    let high = Serving {
        path: "/srv".to_owned(),
        host: "::1".to_owned(),
        port: u32::MAX,
    };
    assert_eq!(high.bind(), "::1:4294967295");
}

#[test]
fn a_directory_without_a_file_gives_nothing() {
    let context = Context::empty();
    assert_eq!(context.description, None);
    assert!(context.metadata.is_empty());
    let meta = Meta::empty();
    assert_eq!(meta.description, None);
    assert!(meta.metadata.is_empty());
    assert_eq!(Context::file_name(), "context.json");
}

#[test]
fn a_failed_load_gives_the_empty_value() {
    let failed: Result<Meta, String> = Err("broken".to_owned());
    let meta = Meta::load_or_default(failed);
    assert_eq!(meta.description, None);
    assert!(meta.metadata.is_empty());

    let loaded: Result<Meta, String> = Ok(Meta {
        description: Some("d".to_owned()),
        metadata: vec![Metadata::key_value("a", "b")],
    });
    let meta = Meta::load_or_default(loaded);
    assert_eq!(meta.description, Some("d".to_owned()));
    assert_eq!(meta.metadata, vec![Metadata::key_value("a", "b")]);

    let failed: Result<Context, ()> = Err(());
    assert!(Context::load_or_default(failed).metadata.is_empty());
    let loaded: Result<Context, ()> = Ok(Context {
        description: Some("c".to_owned()),
        metadata: Vec::new(),
    });
    assert_eq!(
        Context::load_or_default(loaded).description,
        Some("c".to_owned())
    );
}

#[test]
fn metadata_files_are_tried_in_order() {
    assert_eq!(SOURCES, 3);
    assert_eq!(Meta::source(0), ("meta.json", MetaFormat::JSON));
    assert_eq!(Meta::source(1), ("meta.yml", MetaFormat::YAML));
    assert_eq!(Meta::source(2), ("meta.yaml", MetaFormat::YAML));
    assert_eq!(Meta::choose_source(&[false, false, false]), None);
    assert_eq!(Meta::choose_source(&[true, false, false]), Some(0));
    assert_eq!(Meta::choose_source(&[true, true, true]), Some(0));
    assert_eq!(Meta::choose_source(&[false, true, true]), Some(1));
    assert_eq!(Meta::choose_source(&[false, false, true]), Some(2));
}

#[test]
fn formats_know_their_extension_and_media_type() {
    assert_eq!(Format::PNG.extension(), "png");
    assert_eq!(Format::JPEG.extension(), "jpg");
    assert_eq!(Format::TIFF.extension(), "tif");
    assert_eq!(Format::PNG.media_type(), "image/png");
    assert_eq!(Format::JPEG.media_type(), "image/jpeg");
    assert_eq!(Format::TIFF.media_type(), "image/tiff");
    assert_eq!(Format::PNG.to_string(), "image/png");
    assert_eq!(Format::JPEG.to_string(), "image/jpeg");
    assert_eq!(Format::TIFF.to_string(), "image/tiff");
}

#[test]
fn label_shows_key_and_value() {
    let label = Label::KV("Title".to_owned(), "Sample".to_owned());
    assert_eq!(label.to_string(), "Title: Sample");
    assert_eq!(Label::KV("".to_owned(), "".to_owned()).to_string(), ": ");
}

#[test]
fn a_listing_gives_its_entries_or_its_error() {
    assert_eq!(
        Directory::Entries(vec![1, 2, 3]).entries(),
        Ok(vec![1, 2, 3])
    );
    assert_eq!(
        Directory::<u8>::Entries(Vec::new()).entries(),
        Ok(Vec::new())
    );
    assert_eq!(
        Directory::<u8>::Missing.entries(),
        Err(RequestError::NotFound)
    );
    assert_eq!(
        Directory::<u8>::NotADirectory.entries(),
        Err(RequestError::NotADirectory)
    );
}
