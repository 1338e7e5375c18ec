//! Path manipulation on path text. The library holds paths as their text;
//! these trusted items ask `std::path` to take them apart or put them together.
//! Each result is named: on the platform the program is built for, what
//! `std::path` gives depends on the text handed to it alone.

use vstd::prelude::*;

verus! {

/// What `Path::extension` gives for a path: the text after the last dot of
/// the final component, if there is one.
pub uninterp spec fn path_extension(p: Seq<char>) -> Option<Seq<char>>;

/// What `Path::file_name` gives for a path: its final component, if it is a
/// normal component.
pub uninterp spec fn path_file_name(p: Seq<char>) -> Option<Seq<char>>;

/// What `Path::file_stem` gives for a path: the final component without its extension.
pub uninterp spec fn path_file_stem(p: Seq<char>) -> Option<Seq<char>>;

/// What `Path::parent` gives for a path: the path without its final component,
/// if it has one.
pub uninterp spec fn path_parent(p: Seq<char>) -> Option<Seq<char>>;

/// What `Path::join` gives for a directory and a name.
pub uninterp spec fn path_join(dir: Seq<char>, name: Seq<char>) -> Seq<char>;

/// What `PathBuf::set_extension` leaves in a path given an extension.
pub uninterp spec fn path_with_extension(p: Seq<char>, ext: Seq<char>) -> Seq<char>;

/// What `PathBuf::set_file_name` leaves in a path given a file name.
pub uninterp spec fn path_with_file_name(p: Seq<char>, name: Seq<char>) -> Seq<char>;

/// `Path::extension`, as text. Only that its result is `path_extension` of the
/// argument is stated.
#[verifier::external_body]
pub fn extension_of(p: &str) -> (res: Option<String>)
    ensures
        res.is_some() == path_extension(p@).is_some(),
        res matches Some(e) ==> e@ == path_extension(p@).unwrap(),
{
    std::path::Path::new(p).extension().map(|e| e.to_string_lossy().into_owned())
}

/// `Path::file_name`, as text. Only that its result is `path_file_name` of the
/// argument is stated.
#[verifier::external_body]
pub fn file_name_of(p: &str) -> (res: Option<String>)
    ensures
        res.is_some() == path_file_name(p@).is_some(),
        res matches Some(e) ==> e@ == path_file_name(p@).unwrap(),
{
    std::path::Path::new(p).file_name().map(|e| e.to_string_lossy().into_owned())
}

/// `Path::file_stem`, as text. Only that its result is `path_file_stem` of the
/// argument is stated.
#[verifier::external_body]
pub fn file_stem_of(p: &str) -> (res: Option<String>)
    ensures
        res.is_some() == path_file_stem(p@).is_some(),
        res matches Some(e) ==> e@ == path_file_stem(p@).unwrap(),
{
    std::path::Path::new(p).file_stem().map(|e| e.to_string_lossy().into_owned())
}

/// `Path::parent`, as text. Only that its result is `path_parent` of the
/// argument is stated.
#[verifier::external_body]
pub fn parent_of(p: &str) -> (res: Option<String>)
    ensures
        res.is_some() == path_parent(p@).is_some(),
        res matches Some(e) ==> e@ == path_parent(p@).unwrap(),
{
    std::path::Path::new(p).parent().map(|e| e.to_string_lossy().into_owned())
}

/// `Path::join`, as text. Only that its result is `path_join` of the arguments
/// is stated.
#[verifier::external_body]
pub fn join_path(dir: &str, name: &str) -> (res: String)
    ensures
        res@ == path_join(dir@, name@),
{
    std::path::Path::new(dir).join(name).to_string_lossy().into_owned()
}

/// `PathBuf::set_extension`, as text. Only that its result is
/// `path_with_extension` of the arguments is stated. `set_extension` panics
/// when the extension holds a path separator, so such an extension is not
/// admitted.
#[verifier::external_body]
pub fn with_extension(p: &str, ext: &str) -> (res: String)
    requires
        !ext@.contains('/'),
        !ext@.contains('\\'),
    ensures
        res@ == path_with_extension(p@, ext@),
{
    let mut buf = std::path::PathBuf::from(p);
    buf.set_extension(ext);
    buf.to_string_lossy().into_owned()
}

/// `PathBuf::set_file_name`, as text. Only that its result is
/// `path_with_file_name` of the arguments is stated.
#[verifier::external_body]
pub fn with_file_name(p: &str, name: &str) -> (res: String)
    ensures
        res@ == path_with_file_name(p@, name@),
{
    let mut buf = std::path::PathBuf::from(p);
    buf.set_file_name(name);
    buf.to_string_lossy().into_owned()
}

} // verus!
