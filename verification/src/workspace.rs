//! A model of the directories the tool works on: the image directory's
//! entries and the dataset's class subdirectories. Applying a tag moves a
//! file from the former into one of the latter, exactly as the filesystem
//! rename does; nothing is ever duplicated or deleted.

use vstd::multiset::Multiset;
use vstd::prelude::*;

verus! {

/// One class subdirectory of the dataset: its name and the files in it.
pub struct ClassDir {
    pub name: String,
    pub files: Vec<String>,
}

/// Why a tag submission was rejected.
#[derive(PartialEq, Eq, Structural, Clone, Copy, Debug)]
pub enum TagError {
    /// The named file is not in the image directory: it was already moved,
    /// or never existed.
    MissingSource,
    /// The dataset has no subdirectory for the submitted tag.
    MissingClassDir,
}

/// The image directory's listing and the dataset's class subdirectories.
pub struct Workspace {
    pub images: Vec<String>,
    pub dirs: Vec<ClassDir>,
}

/// One tag application, seen on the model: `filename` leaves position `fi`
/// of the image listing and is appended to class directory `di`, which bears
/// `tag`; every other directory and every other file stays as it was.
pub open spec fn tag_move(
    pre: Workspace,
    post: Workspace,
    filename: Seq<char>,
    tag: Seq<char>,
    fi: int,
    di: int,
) -> bool {
    &&& 0 <= fi < pre.image_names().len()
    &&& pre.image_names()[fi] == filename
    &&& post.image_names() == pre.image_names().remove(fi)
    &&& 0 <= di < pre.dirs@.len()
    &&& post.dirs@.len() == pre.dirs@.len()
    &&& pre.dirs@[di].name@ == tag
    &&& post.dirs@[di].name@ == tag
    &&& post.dirs@[di].files.deep_view() == pre.dirs@[di].files.deep_view().push(filename)
    &&& (forall|j: int| 0 <= j < pre.dirs@.len() && j != di ==> post.dirs@[j] == pre.dirs@[j])
}

impl Workspace {
    /// The filenames in the image directory, in listing order.
    pub open spec fn image_names(self) -> Seq<Seq<char>> {
        self.images.deep_view()
    }

    /// The class subdirectory names, in listing order.
    pub open spec fn class_names(self) -> Seq<Seq<char>> {
        Seq::new(self.dirs@.len(), |i: int| self.dirs@[i].name@)
    }

    /// A directory listing holds each name once: the filenames are distinct,
    /// and so are the class names.
    pub open spec fn wf(self) -> bool {
        &&& (forall|i: int, j: int|
            0 <= i < j < self.image_names().len() ==> self.image_names()[i]
                != self.image_names()[j])
        &&& (forall|i: int, j: int|
            0 <= i < j < self.class_names().len() ==> self.class_names()[i]
                != self.class_names()[j])
    }

    /// Builds the model from the two listings: the image directory's entries
    /// and one empty class directory per name. The listings come from a real
    /// directory, so each holds a name at most once.
    pub fn new(images: Vec<String>, class_names: Vec<String>) -> (w: Workspace)
        requires
            forall|i: int, j: int|
                0 <= i < j < images.deep_view().len() ==> images.deep_view()[i]
                    != images.deep_view()[j],
            forall|i: int, j: int|
                0 <= i < j < class_names.deep_view().len() ==> class_names.deep_view()[i]
                    != class_names.deep_view()[j],
        ensures
            w.wf(),
            w.image_names() == images.deep_view(),
            w.class_names() == class_names.deep_view(),
            forall|k: int| 0 <= k < w.dirs@.len() ==> w.dirs@[k].files.deep_view().len() == 0,
    {
        let mut dirs: Vec<ClassDir> = Vec::new();
        let mut i: usize = 0;
        while i < class_names.len()
            invariant
                i <= class_names.len(),
                dirs@.len() == i,
                forall|k: int| 0 <= k < i ==> dirs@[k].name@ == class_names.deep_view()[k],
                forall|k: int| 0 <= k < i ==> dirs@[k].files.deep_view().len() == 0,
            decreases class_names.len() - i,
        {
            let name = class_names[i].clone();
            dirs.push(ClassDir { name, files: Vec::new() });
            i = i + 1;
        }
        let w = Workspace { images, dirs };
        proof {
            assert(w.class_names() =~= class_names.deep_view());
        }
        w
    }

    /// Applies a tag submission: removes `filename` from the image listing
    /// and appends it to the files of the class directory named `tag`, as
    /// the filesystem move does. A submission for a file that is gone, or
    /// for a tag without a class directory, is rejected and changes nothing.
    pub fn apply_tag(&mut self, filename: &String, tag: &String) -> (res: Result<(), TagError>)
        requires
            old(self).wf(),
        ensures
            final(self).wf(),
            final(self).class_names() == old(self).class_names(),
            res is Ok <==> (old(self).image_names().contains(filename@) && old(
                self,
            ).class_names().contains(tag@)),
            res matches Err(e) ==> ((e == TagError::MissingSource) <==> !old(
                self,
            ).image_names().contains(filename@)),
            res is Err ==> *final(self) == *old(self),
            res is Ok ==> !final(self).image_names().contains(filename@),
            res is Ok ==> (exists|fi: int, di: int|
                tag_move(*old(self), *final(self), filename@, tag@, fi, di)),
    {
        let ghost pre = *old(self);
        let fi = match find_string(&self.images, filename) {
            Some(i) => i,
            None => {
                return Err(TagError::MissingSource);
            },
        };
        proof {
            assert(pre.image_names().contains(filename@));
        }
        let di = match find_class(&self.dirs, tag) {
            Some(i) => i,
            None => {
                proof {
                    assert(!pre.class_names().contains(tag@));
                }
                return Err(TagError::MissingClassDir);
            },
        };
        proof {
            assert(pre.class_names()[di as int] == tag@);
            assert(pre.class_names().contains(tag@));
        }
        let moved = self.images.remove(fi);
        let mut dir = self.dirs.remove(di);
        let ghost dir_pre = pre.dirs@[di as int];
        dir.files.push(moved);
        self.dirs.insert(di, dir);
        proof {
            let f = filename@;
            let names = pre.image_names();
            assert(self.image_names() =~= names.remove(fi as int));
            // `filename` occurs only at `fi`, so removal clears it out.
            assert forall|k: int| 0 <= k < self.image_names().len() implies self.image_names()[k]
                != f by {
                if k < fi {
                    assert(names[k] != names[fi as int]);
                } else {
                    assert(names[fi as int] != names[k + 1]);
                }
            }
            // The remaining filenames are still distinct.
            assert forall|i: int, j: int|
                0 <= i < j < self.image_names().len() implies self.image_names()[i]
                != self.image_names()[j] by {
                let i2: int = if i < fi { i } else { i + 1 };
                let j2: int = if j < fi { j } else { j + 1 };
                assert(names[i2] != names[j2]);
            }
            assert(self.dirs@ =~= pre.dirs@.update(di as int, dir));
            assert(self.class_names() =~= pre.class_names());
            assert(dir.files.deep_view() =~= dir_pre.files.deep_view().push(f));
            assert(tag_move(pre, *self, f, tag@, fi as int, di as int));
        }
        Ok(())
    }
}

/// The files already filed under the class directories of `dirs`, all
/// together, as a multiset.
pub open spec fn files_of_dirs(dirs: Seq<ClassDir>) -> Multiset<Seq<char>>
    decreases dirs.len(),
{
    if dirs.len() == 0 {
        Multiset::empty()
    } else {
        dirs[0].files.deep_view().to_multiset().add(files_of_dirs(dirs.drop_first()))
    }
}

/// Every file the workspace holds, still unlabeled or already filed under a
/// class, as a multiset.
pub open spec fn all_files(w: Workspace) -> Multiset<Seq<char>> {
    w.image_names().to_multiset().add(files_of_dirs(w.dirs@))
}

proof fn lemma_files_of_dirs_push(pre: Seq<ClassDir>, post: Seq<ClassDir>, di: int, f: Seq<char>)
    requires
        pre.len() == post.len(),
        0 <= di < pre.len(),
        forall|j: int| 0 <= j < pre.len() && j != di ==> post[j] == pre[j],
        post[di].files.deep_view() == pre[di].files.deep_view().push(f),
    ensures
        files_of_dirs(post) == files_of_dirs(pre).insert(f),
    decreases pre.len(),
{
    if di == 0 {
        assert(post.drop_first() =~= pre.drop_first());
        pre[0].files.deep_view().to_multiset_ensures();
        assert(post[0].files.deep_view().to_multiset() =~= pre[
            0
        ].files.deep_view().to_multiset().insert(f));
        assert(files_of_dirs(post) =~= files_of_dirs(pre).insert(f));
    } else {
        assert(post[0] == pre[0]);
        lemma_files_of_dirs_push(pre.drop_first(), post.drop_first(), di - 1, f);
        assert(files_of_dirs(post) =~= files_of_dirs(pre).insert(f));
    }
}

/// A tag application never duplicates or deletes a file: it moves exactly
/// one. Taken together, the files in the image directory and in the class
/// directories are the same before and after.
pub proof fn lemma_tag_move_preserves_files(
    pre: Workspace,
    post: Workspace,
    filename: Seq<char>,
    tag: Seq<char>,
    fi: int,
    di: int,
)
    requires
        tag_move(pre, post, filename, tag, fi, di),
    ensures
        all_files(post) == all_files(pre),
{
    let names = pre.image_names();
    names.to_multiset_ensures();
    assert(post.image_names().to_multiset() =~= names.to_multiset().remove(filename));
    assert(names.to_multiset().count(filename) > 0);
    lemma_files_of_dirs_push(pre.dirs@, post.dirs@, di, filename);
    assert(all_files(post) =~= all_files(pre));
}

/// The index of the first entry of `v` that equals `x`, if any.
fn find_string(v: &Vec<String>, x: &String) -> (r: Option<usize>)
    ensures
        match r {
            Some(i) => i < v.len() && v.deep_view()[i as int] == x@,
            None => !v.deep_view().contains(x@),
        },
{
    let mut i: usize = 0;
    while i < v.len()
        invariant
            i <= v.len(),
            forall|j: int| 0 <= j < i ==> v.deep_view()[j] != x@,
        decreases v.len() - i,
    {
        if v[i].eq(x) {
            return Some(i);
        }
        i = i + 1;
    }
    None
}

/// The index of the first class directory of `dirs` named `tag`, if any.
fn find_class(dirs: &Vec<ClassDir>, tag: &String) -> (r: Option<usize>)
    ensures
        match r {
            Some(i) => i < dirs.len() && dirs@[i as int].name@ == tag@,
            None => forall|j: int| 0 <= j < dirs@.len() ==> dirs@[j].name@ != tag@,
        },
{
    let mut i: usize = 0;
    while i < dirs.len()
        invariant
            i <= dirs.len(),
            forall|j: int| 0 <= j < i ==> dirs@[j].name@ != tag@,
        decreases dirs.len() - i,
    {
        if dirs[i].name.eq(tag) {
            return Some(i);
        }
        i = i + 1;
    }
    None
}

} // verus!
