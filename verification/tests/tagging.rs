use image_tagger::config::Config;
use image_tagger::workspace::TagError;
use image_tagger::workspace::Workspace;

fn sample_workspace() -> Workspace {
    Workspace::new(
        vec![String::from("a.jpg"), String::from("b.jpg")],
        vec![String::from("cat"), String::from("dog")],
    )
}

#[test]
fn tagging_moves_the_file_and_nothing_else() {
    // Classes left unspecified: they come from the dataset's subdirectories.
    let subdirs = vec![String::from("cat"), String::from("dog")];
    let cfg = Config::new(String::from("imgs"), String::from("data"), None, &subdirs);
    assert_eq!(cfg.classes, subdirs);
    let mut w = sample_workspace();
    let res = w.apply_tag(&String::from("a.jpg"), &String::from("cat"));
    assert_eq!(res, Ok(()));
    assert_eq!(w.images, vec![String::from("b.jpg")]);
    assert_eq!(w.dirs[0].name, "cat");
    assert_eq!(w.dirs[0].files, vec![String::from("a.jpg")]);
    assert_eq!(w.dirs[1].name, "dog");
    assert!(w.dirs[1].files.is_empty());
}

#[test]
fn tagging_a_missing_file_is_an_error_and_changes_nothing() {
    let mut w = sample_workspace();
    let res = w.apply_tag(&String::from("c.jpg"), &String::from("cat"));
    assert_eq!(res, Err(TagError::MissingSource));
    assert_eq!(w.images, vec![String::from("a.jpg"), String::from("b.jpg")]);
    assert!(w.dirs[0].files.is_empty());
    assert!(w.dirs[1].files.is_empty());
    // The workspace is still usable: a valid submission goes through.
    let res = w.apply_tag(&String::from("b.jpg"), &String::from("dog"));
    assert_eq!(res, Ok(()));
    assert_eq!(w.images, vec![String::from("a.jpg")]);
    assert_eq!(w.dirs[1].files, vec![String::from("b.jpg")]);
}

#[test]
fn tagging_with_an_unknown_class_is_an_error() {
    let mut w = sample_workspace();
    let res = w.apply_tag(&String::from("a.jpg"), &String::from("bird"));
    assert_eq!(res, Err(TagError::MissingClassDir));
    assert_eq!(w.images, vec![String::from("a.jpg"), String::from("b.jpg")]);
}

#[test]
fn tagging_twice_moves_both_files() {
    let mut w = sample_workspace();
    assert_eq!(w.apply_tag(&String::from("a.jpg"), &String::from("cat")), Ok(()));
    assert_eq!(w.apply_tag(&String::from("b.jpg"), &String::from("cat")), Ok(()));
    assert!(w.images.is_empty());
    assert_eq!(
        w.dirs[0].files,
        vec![String::from("a.jpg"), String::from("b.jpg")]
    );
}
