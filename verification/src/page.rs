//! Picking the image to show and building the page's view model.

use crate::text::clone_strings;
use rand::Rng;
use vstd::prelude::*;

verus! {

/// What the tagging page shows: the picked image, the classes offered for
/// tagging, and how many files are still waiting.
pub struct ViewModel {
    pub image_name: String,
    pub classes: Vec<String>,
    pub files_remaining: usize,
}

/// Why the page could not be rendered.
#[derive(PartialEq, Eq, Structural, Clone, Copy, Debug)]
pub enum PageError {
    /// The image directory listing is empty: nothing is left to tag.
    NoImages,
}

/// Relies on rand::thread_rng and rand::Rng::gen: a draw from the
/// process-wide random number generator. Nothing is promised of the value.
#[verifier::external_body]
fn random_usize() -> usize {
    rand::thread_rng().gen::<usize>()
}

/// The entry of `files` at `r % files.len()`: the uniform choice that the
/// page makes once a random draw `r` is fixed.
pub fn pick_file(files: &Vec<String>, r: usize) -> (f: String)
    requires
        files.len() > 0,
    ensures
        f@ == files.deep_view()[r as int % files.deep_view().len() as int],
        files.deep_view().contains(f@),
{
    let idx = r % files.len();
    let f = files[idx].clone();
    proof {
        assert(files.deep_view()[idx as int] == f@);
    }
    f
}

/// The page for the listing `files` and class list `classes`, once the
/// random draw `r` is fixed: the image at `r % files.len()`, the classes
/// verbatim, and the count of files left. Fails exactly when the listing
/// is empty.
pub fn render_page_with(files: &Vec<String>, classes: &Vec<String>, r: usize) -> (res: Result<
    ViewModel,
    PageError,
>)
    ensures
        res is Ok <==> files.len() > 0,
        res is Err ==> res->Err_0 == PageError::NoImages,
        res is Ok ==> res->Ok_0.image_name@ == files.deep_view()[r as int % files.deep_view().len() as int],
        res is Ok ==> res->Ok_0.classes.deep_view() == classes.deep_view(),
        res is Ok ==> res->Ok_0.files_remaining == files.len(),
{
    if files.len() == 0 {
        return Err(PageError::NoImages);
    }
    let f = pick_file(files, r);
    Ok(
        ViewModel {
            image_name: f,
            classes: clone_strings(classes),
            files_remaining: files.len(),
        },
    )
}

/// The page as `GET /` renders it: a fresh random draw decides which of the
/// listed files is shown. The image shown is always a member of the listing,
/// and rendering fails exactly when the listing is empty.
pub fn render_page(files: &Vec<String>, classes: &Vec<String>) -> (res: Result<
    ViewModel,
    PageError,
>)
    ensures
        res is Ok <==> files.len() > 0,
        res is Err ==> res->Err_0 == PageError::NoImages,
        res is Ok ==> files.deep_view().contains(res->Ok_0.image_name@),
        res is Ok ==> res->Ok_0.classes.deep_view() == classes.deep_view(),
        res is Ok ==> res->Ok_0.files_remaining == files.len(),
{
    let r = random_usize();
    let res = render_page_with(files, classes, r);
    proof {
        if files.len() > 0 {
            let idx = r as int % files.deep_view().len() as int;
            assert(files.deep_view()[idx] == res->Ok_0.image_name@);
        }
    }
    res
}

} // verus!
