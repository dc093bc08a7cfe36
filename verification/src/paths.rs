//! Where the templates and the static assets live below a root directory.
//!
//! Paths are put together by `std::path`. What pushing a component onto a
//! path gives, with its rules for roots, prefixes and separators, and what
//! text a path has, are named here and left to the standard library.

use std::path::PathBuf;
use vstd::prelude::*;

verus! {

/// An owned path of the standard library.
#[verifier::external_type_specification]
#[verifier::external_body]
pub struct ExPathBuf(PathBuf);

/// The path that `PathBuf::push` leaves behind when `component` is pushed
/// onto `base`.
pub uninterp spec fn pushed(base: PathBuf, component: Seq<char>) -> PathBuf;

/// The text of a path as `Path::to_str` gives it: `None` where the path
/// is not valid Unicode.
pub uninterp spec fn path_text(path: PathBuf) -> Option<Seq<char>>;

/// The text of a path, and the empty text for a path without one.
pub open spec fn text_or_empty(text: Option<Seq<char>>) -> Seq<char> {
    match text {
        Some(text) => text,
        None => Seq::empty(),
    }
}

/// `PathBuf::clone`: the copy is the same path.
pub assume_specification[ <PathBuf as Clone>::clone ](path: &PathBuf) -> (copy: PathBuf)
    ensures
        copy == *path,
;

/// `PathBuf::push` with a string component: the path becomes what pushing
/// that component onto the old path gives.
#[verifier::external_body]
fn push_component(path: &mut PathBuf, component: &str)
    ensures
        *final(path) == pushed(*old(path), component@),
{
    path.push(component);
}

/// `Path::to_str`: the text of the path, where it has one.
#[verifier::external_body]
fn text_of(path: &PathBuf) -> (text: Option<String>)
    ensures
        text matches Some(t) ==> path_text(*path) == Some(t@),
        text is None ==> path_text(*path) is None,
{
    match path.to_str() {
        Some(text) => Some(text.to_string()),
        None => None,
    }
}

/// The glob below `dir` that matches every template file.
pub fn template_dir(dir: &PathBuf) -> (out: PathBuf)
    ensures
        out == pushed(*dir, "templates/**/*"@),
{
    let mut template_dir = dir.clone();
    push_component(&mut template_dir, "templates/**/*");
    template_dir
}

/// The directory below `dir` that holds the static assets.
pub fn static_dir(dir: &PathBuf) -> (out: PathBuf)
    ensures
        out == pushed(*dir, "static"@),
{
    let mut static_dir = dir.clone();
    push_component(&mut static_dir, "static");
    static_dir
}

/// The template glob below `dir` as text, for the template engine. A
/// path that is not valid Unicode gives the empty text.
pub fn template_glob(dir: &PathBuf) -> (glob: String)
    ensures
        glob@ == text_or_empty(path_text(pushed(*dir, "templates/**/*"@))),
{
    match text_of(&template_dir(dir)) {
        Some(text) => text,
        None => String::new(),
    }
}

/// The directory of the static assets below `dir` as text, for the static
/// service. A path that is not valid Unicode gives the empty text.
pub fn static_root(dir: &PathBuf) -> (root: String)
    ensures
        root@ == text_or_empty(path_text(pushed(*dir, "static"@))),
{
    match text_of(&static_dir(dir)) {
        Some(text) => text,
        None => String::new(),
    }
}

} // verus!
