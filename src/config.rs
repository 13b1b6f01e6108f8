use vstd::prelude::*;

use crate::interpolation::{contains_placeholder, has_placeholder};
use crate::op::AdditionalOperation;

verus! {

/// An argument that the template asks the user for.
#[derive(Debug, Clone)]
pub struct Arg {
    pub key: String,
    pub label: String,
}

/// The declarative configuration attached to a template.
#[derive(Debug, Clone)]
pub struct Config {
    pub args: Vec<Arg>,
    /// Paths, relative to the template root, that are never copied to the destination.
    pub exclude: Vec<String>,
    /// Paths, relative to the template root, of the files whose placeholders are filled in.
    pub dynamic_files: Vec<String>,
    pub additional_operations: Vec<AdditionalOperation>,
    /// Whether the dynamic files are found by scanning the template tree.
    pub require_dyn_file_analysis: bool,
}

/// A file of the template tree: its path relative to the root, and its content.
#[derive(Debug, Clone)]
pub struct ScannedFile {
    pub path: String,
    pub content: String,
}

/// Whether `path` is one of the excluded paths.
pub open spec fn is_excluded(exclude: Seq<String>, path: Seq<char>) -> bool {
    exists|i: int| 0 <= i < exclude.len() && #[trigger] exclude[i]@ == path
}

/// The paths, in scan order, of the scanned files that hold a placeholder and
/// are not excluded.
pub open spec fn dyn_files_of(exclude: Seq<String>, files: Seq<ScannedFile>) -> Seq<Seq<char>>
    decreases files.len(),
{
    if files.len() == 0 {
        Seq::empty()
    } else {
        let f = files.last();
        dyn_files_of(exclude, files.drop_last()) + if !is_excluded(exclude, f.path@)
            && has_placeholder(f.content@) {
            seq![f.path@]
        } else {
            Seq::empty()
        }
    }
}

/// The views of a list of strings.
pub open spec fn views(v: Seq<String>) -> Seq<Seq<char>> {
    v.map_values(|s: String| s@)
}

/// Whether `path` is one of the excluded paths.
pub fn excluded(exclude: &Vec<String>, path: &String) -> (r: bool)
    ensures
        r == is_excluded(exclude@, path@),
{
    let mut i: usize = 0;
    while i < exclude.len()
        invariant
            i <= exclude.len(),
            forall|j: int| 0 <= j < i ==> exclude@[j]@ != path@,
        decreases exclude.len() - i,
    {
        if exclude[i] == *path {
            return true;
        }
        i = i + 1;
    }
    false
}

/// Where the configuration asks for it, replaces the dynamic files by the
/// scanned files that hold a placeholder and are not excluded; otherwise
/// leaves the configuration as it is.
pub fn analyze_dyn_files(conf: &mut Config, files: &Vec<ScannedFile>)
    ensures
        final(conf).args == old(conf).args,
        final(conf).exclude == old(conf).exclude,
        final(conf).additional_operations == old(conf).additional_operations,
        final(conf).require_dyn_file_analysis == old(conf).require_dyn_file_analysis,
        old(conf).require_dyn_file_analysis ==> views(final(conf).dynamic_files@) == dyn_files_of(
            old(conf).exclude@,
            files@,
        ),
        !old(conf).require_dyn_file_analysis ==> final(conf).dynamic_files
            == old(conf).dynamic_files,
{
    if !conf.require_dyn_file_analysis {
        return;
    }
    let mut found: Vec<String> = Vec::new();
    let mut i: usize = 0;
    while i < files.len()
        invariant
            i <= files.len(),
            views(found@) == dyn_files_of(conf.exclude@, files@.subrange(0, i as int)),
        decreases files.len() - i,
    {
        let f = &files[i];
        proof {
            let next = files@.subrange(0, i + 1);
            assert(next.drop_last() =~= files@.subrange(0, i as int));
            assert(next.last() == files@[i as int]);
        }
        if !excluded(&conf.exclude, &f.path) && contains_placeholder(f.content.as_str()) {
            found.push(f.path.clone());
            assert(views(found@) =~= dyn_files_of(conf.exclude@, files@.subrange(0, i + 1)));
        } else {
            assert(views(found@) =~= dyn_files_of(conf.exclude@, files@.subrange(0, i + 1)));
        }
        i = i + 1;
    }
    assert(files@.subrange(0, files.len() as int) =~= files@);
    conf.dynamic_files = found;
}

} // verus!
