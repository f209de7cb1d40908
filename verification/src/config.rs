//! The tool's configuration: the two directories and the class list.

use crate::text::clone_strings;
use crate::text::parse_classes;
use crate::text::parsed_classes;
use vstd::prelude::*;

verus! {

/// The immutable configuration the server holds: where the unlabeled images
/// are, where the dataset lives, and which classes can be tagged.
pub struct Config {
    pub images_dir: String,
    pub dataset_dir: String,
    pub classes: Vec<String>,
}

impl Config {
    /// Builds the configuration. With an explicit class string the classes
    /// are its comma-separated fields, trimmed, in the given order — whatever
    /// `subdirs` holds. Without one they are `subdirs`, the dataset
    /// directory's subdirectory names, as given.
    pub fn new(
        images_dir: String,
        dataset_dir: String,
        explicit: Option<&str>,
        subdirs: &Vec<String>,
    ) -> (c: Config)
        ensures
            c.images_dir@ == images_dir@,
            c.dataset_dir@ == dataset_dir@,
            match explicit {
                Some(s) => c.classes.deep_view() == parsed_classes(s@),
                None => c.classes.deep_view() == subdirs.deep_view(),
            },
    {
        let classes = match explicit {
            Some(s) => parse_classes(s),
            None => clone_strings(subdirs),
        };
        Config { images_dir, dataset_dir, classes }
    }
}

} // verus!
