use image_tagger::page::render_page;
use image_tagger::page::render_page_with;
use image_tagger::page::PageError;

#[test]
fn picked_image_is_a_member_of_the_listing() {
    let files = vec![String::from("a.jpg"), String::from("b.jpg")];
    let classes = vec![String::from("cat")];
    for _ in 0..20 {
        let vm = render_page(&files, &classes).unwrap();
        assert!(files.contains(&vm.image_name));
        assert_eq!(vm.classes, classes);
        assert_eq!(vm.files_remaining, 2);
    }
}

#[test]
fn fixed_draw_picks_modulo_index() {
    let files = vec![String::from("a.jpg"), String::from("b.jpg")];
    let classes = vec![String::from("cat"), String::from("dog")];
    let vm = render_page_with(&files, &classes, 3).unwrap();
    assert_eq!(vm.image_name, "b.jpg");
    assert_eq!(vm.classes, classes);
    assert_eq!(vm.files_remaining, 2);
    let vm = render_page_with(&files, &classes, 4).unwrap();
    assert_eq!(vm.image_name, "a.jpg");
}

#[test]
fn empty_listing_fails() {
    let files: Vec<String> = Vec::new();
    let classes = vec![String::from("cat")];
    let res = render_page(&files, &classes);
    assert_eq!(res.err(), Some(PageError::NoImages));
    let res = render_page_with(&files, &classes, 7);
    assert_eq!(res.err(), Some(PageError::NoImages));
}
