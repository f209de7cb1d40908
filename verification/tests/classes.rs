use image_tagger::config::Config;
use image_tagger::text::parse_classes;
use image_tagger::text::trim_str;

#[test]
fn parse_classes_basic() {
    let r = parse_classes("cat,dog");
    assert_eq!(r, vec!["cat".to_string(), "dog".to_string()]);
}

#[test]
fn parse_classes_trims() {
    let r = parse_classes("  cat , dog\t");
    assert_eq!(r, vec!["cat".to_string(), "dog".to_string()]);
}

#[test]
fn parse_classes_keeps_empty_fields() {
    let r = parse_classes("a,,b");
    assert_eq!(r, vec!["a".to_string(), String::new(), "b".to_string()]);
}

#[test]
fn parse_classes_empty_input_is_one_empty_field() {
    let r = parse_classes("");
    assert_eq!(r, vec![String::new()]);
}

#[test]
fn trim_str_both_ends() {
    assert_eq!(trim_str(" \t cat \n"), "cat");
    assert_eq!(trim_str("cat"), "cat");
    assert_eq!(trim_str("   "), "");
    assert_eq!(trim_str(""), "");
}

#[test]
fn explicit_classes_verbatim() {
    let subdirs = vec![String::from("whatever")];
    let c = Config::new(
        String::from("imgs"),
        String::from("data"),
        Some("cat,dog"),
        &subdirs,
    );
    assert_eq!(c.classes, vec![String::from("cat"), String::from("dog")]);
    assert_eq!(c.images_dir, "imgs");
    assert_eq!(c.dataset_dir, "data");
}

#[test]
fn auto_classes_from_subdirs() {
    let subdirs = vec![String::from("cat"), String::from("dog")];
    let c = Config::new(String::from("imgs"), String::from("data"), None, &subdirs);
    assert_eq!(c.classes, subdirs);
}
