use iiif_forager::config::{Config, Serving, Urls};
use iiif_forager::context::Context;
use iiif_forager::iiif::annotations::{Annotation, AnnotationPage, Motivation};
use iiif_forager::iiif::collections::Collection;
use iiif_forager::iiif::manifests::{Canvas, Manifest, PRESENTATION};
use iiif_forager::iiif::metadata::{LocalizedValue, Metadata, Value};
use iiif_forager::iiif::resources::{IiifImage, ImageService2, Resource};
use iiif_forager::iiif::types::{Id, Uri};
use iiif_forager::iiif::IiifGenerator;
use iiif_forager::image::source::Image;
use iiif_forager::image::{Format, Label};
use iiif_forager::request::{Directory, RequestError};

fn config(path_sep: &str) -> Config {
    Config {
        serving: Serving {
            path: "samples".to_owned(),
            host: "localhost".to_owned(),
            port: 7890,
        },
        urls: Urls {
            path_sep: path_sep.to_owned(),
            image_api: "http://h/i".to_owned(),
            presentation_api: "http://h/p".to_owned(),
        },
    }
}

fn image(name: &str, format: Format, width: u32, height: u32) -> Image {
    Image {
        format,
        name: name.to_owned(),
        width,
        height,
        labels: vec![Label::KV("k".to_owned(), "v".to_owned())],
    }
}

fn context() -> Context {
    Context {
        description: Some("Expected description".to_owned()),
        metadata: vec![Metadata::key_value("size", "53 MB")],
    }
}

#[test]
fn zero_images_give_a_manifest_without_canvases() {
    let generator = IiifGenerator::new(config("-"));
    let manifest = generator
        .manifest_for("watergate-simple", Context::empty(), Vec::new())
        .unwrap();
    assert!(manifest.items.is_empty());
    assert_eq!(manifest.context.value, PRESENTATION);
    assert_eq!(
        manifest.context.value,
        "http://iiif.io/api/presentation/2/context.json"
    );
    assert_eq!(manifest.id.value, "http://h/p/watergate-simple/manifest");
    assert_eq!(manifest.label, "watergate-simple");
    assert!(manifest.metadata.is_empty());
    assert_eq!(manifest.description, None);
}

#[test]
fn each_image_gets_a_canvas_in_order() {
    let generator = IiifGenerator::new(config("-"));
    let images = vec![
        image("a.png", Format::PNG, 10, 20),
        image("b.jpg", Format::JPEG, 30, 40),
        image("c.tif", Format::TIFF, 50, 60),
    ];
    let manifest = generator
        .manifest_for("watergate-simple", context(), images)
        .unwrap();
    assert_eq!(
        manifest.description,
        Some("Expected description".to_owned())
    );
    assert_eq!(manifest.metadata, vec![Metadata::key_value("size", "53 MB")]);
    assert_eq!(manifest.items.len(), 3);
    let expected = [
        ("a.png", 10, 20, "png", "image/png"),
        ("b.jpg", 30, 40, "jpg", "image/jpeg"),
        ("c.tif", 50, 60, "tif", "image/tiff"),
    ];
    for (index, (name, width, height, extension, media_type)) in expected.iter().enumerate() {
        let canvas = &manifest.items[index];
        let canvas_id = format!("http://h/p/watergate-simple/canvas/{}", index);
        assert_eq!(canvas.id.value, canvas_id);
        assert_eq!(canvas.label, *name);
        assert_eq!(canvas.width, *width);
        assert_eq!(canvas.height, *height);
        assert_eq!(canvas.items.len(), 1);
        let page = &canvas.items[0];
        assert_eq!(
            page.id.value,
            format!("http://h/p/watergate-simple/page/{}", index)
        );
        assert_eq!(page.items.len(), 1);
        let annotation = &page.items[0];
        assert_eq!(
            annotation.id.value,
            format!("http://h/p/watergate-simple/annotation/{}-image", index)
        );
        assert_eq!(annotation.motivation, Motivation::Painting);
        assert_eq!(annotation.target.value, canvas_id);
        let Resource::Image(body) = &annotation.body;
        assert_eq!(
            body.id.value,
            format!(
                "http://h/i/watergate-simple-{}/full/full/0/default.{}",
                name, extension
            )
        );
        assert_eq!(body.format, *media_type);
        assert_eq!(body.width, *width);
        assert_eq!(body.height, *height);
        assert_eq!(
            body.service.id.value,
            format!("http://h/i/watergate-simple-{}", name)
        );
        assert_eq!(body.service.profile, "level2");
    }
}

#[test]
fn slashes_in_the_request_become_the_separator() {
    let generator = IiifGenerator::new(config("-"));
    let manifest = generator
        .manifest_for(
            "a/b",
            Context::empty(),
            vec![image("p.png", Format::PNG, 1, 1)],
        )
        .unwrap();
    assert_eq!(manifest.label, "a/b");
    assert_eq!(manifest.id.value, "http://h/p/a-b/manifest");
    assert_eq!(manifest.items[0].id.value, "http://h/p/a-b/canvas/0");
    assert_eq!(generator.item_id("a/b").value, "a-b");
    assert_eq!(generator.item_id("a/b").encoded, "a-b");
}

#[test]
fn a_separator_with_a_slash_is_escaped_in_uris() {
    let generator = IiifGenerator::new(config("/"));
    let manifest = generator
        .manifest_for(
            "a/b",
            Context::empty(),
            vec![image("p.png", Format::PNG, 1, 1)],
        )
        .unwrap();
    assert_eq!(manifest.id.value, "http://h/p/a%2Fb/manifest");
    let Resource::Image(body) = &manifest.items[0].items[0].items[0].body;
    assert_eq!(
        body.id.value,
        "http://h/i/a%2Fb%2Fp.png/full/full/0/default.png"
    );
    let member = generator.member_id("a/b", "p.png");
    assert_eq!(member.value, "a/b/p.png");
    assert_eq!(member.encoded, "a%2Fb%2Fp.png");
}

#[test]
fn manifest_id_is_stable() {
    let generator = IiifGenerator::new(config("-"));
    let first = generator
        .manifest_for("x-y", Context::empty(), Vec::new())
        .unwrap();
    let second = generator
        .manifest_for("x-y", context(), vec![image("p.png", Format::PNG, 1, 1)])
        .unwrap();
    assert_eq!(first.id.value, second.id.value);
}

#[test]
fn a_missing_directory_gives_not_found_and_no_manifest() {
    let generator = IiifGenerator::new(config("-"));
    let missing = generator.manifest_for_directory("nowhere", Context::empty(), Directory::Missing);
    assert!(matches!(missing, Err(RequestError::NotFound)));
    let file = generator.manifest_for_directory(
        "a-file",
        Context::empty(),
        Directory::NotADirectory,
    );
    assert!(matches!(file, Err(RequestError::NotADirectory)));
    let empty = generator
        .manifest_for_directory("empty", Context::empty(), Directory::Entries(Vec::new()))
        .unwrap();
    assert!(empty.items.is_empty());
    let full = generator
        .manifest_for_directory(
            "full",
            Context::empty(),
            Directory::Entries(vec![image("p.png", Format::PNG, 2, 3)]),
        )
        .unwrap();
    assert_eq!(full.items.len(), 1);
    assert_eq!(full.items[0].id.value, "http://h/p/full/canvas/0");
}

#[test]
fn request_path_becomes_the_source_path() {
    let generator = IiifGenerator::new(config("-"));
    assert_eq!(generator.source_path("watergate-simple", "/"), "watergate/simple");
    assert_eq!(generator.source_path("a", "/"), "a");
}

#[test]
fn a_collection_refers_to_one_manifest_for_each_subdirectory() {
    let generator = IiifGenerator::new(config("-"));
    let names = vec!["simple".to_owned(), "with space".to_owned(), "x/y".to_owned()];
    let collection = generator
        .collection_for("watergate", Directory::Entries(names))
        .unwrap();
    let ids: Vec<&str> = collection.items.iter().map(|i| i.id.value.as_str()).collect();
    assert_eq!(
        ids,
        vec![
            "http://h/p/watergate-simple/manifest",
            "http://h/p/watergate-with space/manifest",
            "http://h/p/watergate-x%2Fy/manifest",
        ]
    );
    for item in &collection.items {
        assert_eq!(item.iiif_type, "manifest");
    }
    let empty = generator
        .collection_for("watergate", Directory::Entries(Vec::new()))
        .unwrap();
    assert!(empty.items.is_empty());
    assert!(matches!(
        generator.collection_for("nowhere", Directory::Missing),
        Err(RequestError::NotFound)
    ));
    assert!(matches!(
        generator.collection_for("file", Directory::NotADirectory),
        Err(RequestError::NotADirectory)
    ));
}

#[test]
fn collection_grows_at_its_end() {
    let mut collection = Collection::new();
    assert!(collection.items.is_empty());
    collection.add_manifest(Uri::new("http://h/p/a/manifest"));
    collection.add_manifest(Uri::new("http://h/p/b/manifest"));
    assert_eq!(collection.items.len(), 2);
    assert_eq!(collection.items[0].id.value, "http://h/p/a/manifest");
    assert_eq!(collection.items[1].id.value, "http://h/p/b/manifest");
    assert_eq!(collection.items[1].iiif_type, "manifest");
}

#[test]
fn manifest_is_built_step_by_step() {
    let item = Id::new("books/one");
    let mut manifest = Manifest::new(
        "http://h/p",
        &item,
        "One",
        vec![Metadata::list(
            "colors",
            vec!["red".to_owned(), "green".to_owned()],
        )],
        None,
    );
    assert_eq!(manifest.id.value, "http://h/p/books%2Fone/manifest");
    assert_eq!(manifest.label, "One");
    assert!(manifest.items.is_empty());
    let first = image("p1.png", Format::PNG, 100, 200);
    let second = image("p2.jpg", Format::JPEG, 300, 400);
    manifest.add_image(
        "http://h/i",
        "http://h/p",
        &item,
        &Id::new("books/one/p1.png"),
        "first page",
        &first,
    );
    manifest.add_image(
        "http://h/i",
        "http://h/p",
        &item,
        &Id::new("books/one/p2.jpg"),
        "second page",
        &second,
    );
    assert_eq!(manifest.items.len(), 2);
    assert_eq!(manifest.items[0].label, "first page");
    assert_eq!(manifest.items[1].label, "second page");
    assert_eq!(manifest.items[0].id.value, "http://h/p/books%2Fone/canvas/0");
    assert_eq!(manifest.items[1].id.value, "http://h/p/books%2Fone/canvas/1");
    assert_eq!((manifest.items[1].width, manifest.items[1].height), (300, 400));
    assert_eq!(
        manifest.items[1].items[0].items[0].target.value,
        manifest.items[1].id.value
    );
    assert_eq!(manifest.metadata.len(), 1);
}

#[test]
fn canvas_and_pages_are_built_from_their_parts() {
    let item = Id::new("i");
    let mut canvas = Canvas::new("http://h/p", &item, 4, "label", 7, 9);
    assert_eq!(canvas.id.value, "http://h/p/i/canvas/4");
    assert_eq!(canvas.label, "label");
    assert_eq!((canvas.width, canvas.height), (7, 9));
    assert!(canvas.items.is_empty());

    let picture = image("p.tif", Format::TIFF, 7, 9);
    let body = IiifImage::new("http://h/i", &Id::new("i/p.tif"), &picture);
    assert_eq!(body.id.value, "http://h/i/i%2Fp.tif/full/full/0/default.tif");
    assert_eq!(body.format, "image/tiff");
    assert_eq!((body.width, body.height), (7, 9));
    assert_eq!(body.service.id.value, "http://h/i/i%2Fp.tif");

    let annotation = Annotation::new(
        "http://h/p",
        &item,
        4,
        Resource::Image(body),
        canvas.id.clone(),
        Motivation::Painting,
    );
    assert_eq!(annotation.id.value, "http://h/p/i/annotation/4-image");
    assert_eq!(annotation.target.value, "http://h/p/i/canvas/4");

    let painted = Annotation::new_painting(
        "http://h/p",
        &item,
        5,
        Resource::Image(IiifImage::new("http://h/i", &Id::new("q"), &picture)),
        Uri::new("target"),
    );
    assert_eq!(painted.id.value, "http://h/p/i/annotation/5-image");
    assert_eq!(painted.motivation, Motivation::Painting);
    assert_eq!(painted.target.value, "target");

    let page = AnnotationPage::new("http://h/p", &item, 4, vec![annotation, painted]);
    assert_eq!(page.id.value, "http://h/p/i/page/4");
    assert_eq!(page.items.len(), 2);
    canvas.add_item(page);
    assert_eq!(canvas.items.len(), 1);
    assert_eq!(canvas.items[0].items[1].target.value, "target");

    let service = ImageService2::new(Uri::new("http://h/i/x"));
    assert_eq!(service.id.value, "http://h/i/x");
    assert_eq!(service.profile, "level2");
}

#[test]
fn metadata_comes_in_three_shapes() {
    let single = Metadata::key_value("size", "53 MB");
    assert_eq!(single.label, "size");
    assert_eq!(single.value, Value::Single("53 MB".to_owned()));
    let many = Metadata::list("colors", vec!["red".to_owned(), "blue".to_owned()]);
    assert_eq!(
        many.value,
        Value::Many(vec!["red".to_owned(), "blue".to_owned()])
    );
    let localized = Metadata::localized("quality", vec![LocalizedValue::new("high", "en")]);
    assert_eq!(
        localized.value,
        Value::Multilang(vec![LocalizedValue {
            value: "high".to_owned(),
            language: "en".to_owned()
        }])
    );
    assert_ne!(single, Metadata::key_value("size", "54 MB"));
}
