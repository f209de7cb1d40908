//! Building the filesystem paths that the tagging tool touches.

use vstd::prelude::*;
use vstd::string::StringExecFns;

verus! {

/// Path of an image inside the image directory: `images_dir/filename`.
pub fn image_path(images_dir: &str, filename: &str) -> (r: String)
    ensures
        r@ == images_dir@ + "/"@ + filename@,
{
    let mut r = images_dir.to_owned();
    r.append("/");
    r.append(filename);
    r
}

/// Destination of a tagged image: `dataset_dir/tag/filename`.
pub fn dataset_path(dataset_dir: &str, tag: &str, filename: &str) -> (r: String)
    ensures
        r@ == dataset_dir@ + "/"@ + tag@ + "/"@ + filename@,
{
    let mut r = dataset_dir.to_owned();
    r.append("/");
    r.append(tag);
    r.append("/");
    r.append(filename);
    r
}

} // verus!
