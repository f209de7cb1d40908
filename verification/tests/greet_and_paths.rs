use image_tagger::greet::hello;
use image_tagger::paths::dataset_path;
use image_tagger::paths::image_path;

#[test]
fn hello_greeting() {
    let r = hello(String::from("Bob"), 30);
    assert_eq!(r, "Hello, 30 year old named Bob!");
}

#[test]
fn hello_age_zero() {
    let r = hello(String::from("x"), 0);
    assert_eq!(r, "Hello, 0 year old named x!");
}

#[test]
fn hello_age_max() {
    let r = hello(String::from("Methuselah"), 255);
    assert_eq!(r, "Hello, 255 year old named Methuselah!");
}

#[test]
fn image_path_joins() {
    assert_eq!(image_path("imgs", "a.jpg"), "imgs/a.jpg");
}

#[test]
fn dataset_path_joins() {
    assert_eq!(dataset_path("data", "cat", "a.jpg"), "data/cat/a.jpg");
}
