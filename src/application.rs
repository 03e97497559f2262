use std::path::Path;
use vstd::prelude::*;

verus! {

/// `std::path::Path`, carried through opaquely: only `get_name_on_path`
/// looks inside it.
#[verifier::external_type_specification]
#[verifier::external_body]
pub struct ExPath(Path);

/// A named software unit, often named after the directory that holds it.
pub struct Application {
    name: String,
}

/// Why no application name could be taken from a path.
#[derive(Debug, PartialEq, Eq, Structural)]
pub enum PathNameError {
    /// The path has no final component: it is empty, a root, or ends in `..`.
    EmptyOrRootPath,
    /// The final component is not valid UTF-8 text.
    NonTextSegment,
}

impl View for Application {
    /// An application is modelled by its name.
    type V = Seq<char>;

    closed spec fn view(&self) -> Seq<char> {
        self.name@
    }
}

/// What an application name derived from a path's final component is:
/// `None` when there is no final component, `Some(None)` when it is not
/// text, and `Some(Some(s))` when it reads as the text `s`.
pub open spec fn name_from_segment(seg: Option<Option<Seq<char>>>) -> Result<
    Seq<char>,
    PathNameError,
> {
    match seg {
        None => Err(PathNameError::EmptyOrRootPath),
        Some(None) => Err(PathNameError::NonTextSegment),
        Some(Some(s)) => Ok(s),
    }
}

/// The view of an optional, possibly non-text path component.
pub open spec fn segment_view(seg: Option<Option<String>>) -> Option<Option<Seq<char>>> {
    match seg {
        None => None,
        Some(None) => Some(None),
        Some(Some(s)) => Some(Some(s@)),
    }
}

/// The view of a fallible application result.
pub open spec fn result_view(r: Result<Application, PathNameError>) -> Result<
    Seq<char>,
    PathNameError,
> {
    match r {
        Ok(a) => Ok(a@),
        Err(e) => Err(e),
    }
}

/// The final component of a path as `Path::file_name` finds it, read as
/// text: `None` when there is none, `Some(None)` when it is not UTF-8 text.
pub uninterp spec fn final_segment_of(p: &Path) -> Option<Option<Seq<char>>>;

/// Relies on `Path::file_name`, which gives the final component of a path, or
/// nothing when the path is empty, a root, or ends in `..`; the component is
/// then read as UTF-8 with `OsStr::to_str`, which fails on other encodings.
/// Both depend on the path alone.
#[verifier::external_body]
fn get_name_on_path(p: &Path) -> (r: Option<Option<String>>)
    ensures
        segment_view(r) == final_segment_of(p),
        r matches Some(Some(s)) ==> s@ != ".."@,
{
    p.file_name().map(|s| s.to_str().map(|t| t.to_string()))
}

impl Application {
    /// Creates an application that holds `name` verbatim.
    pub fn new(name: &str) -> (r: Self)
        ensures
            r@ == name@,
    {
        Application { name: name.to_owned() }
    }

    /// The name the application was created with.
    pub fn name(&self) -> (r: &str)
        ensures
            r@ == self@,
    {
        self.name.as_str()
    }

    /// Names an application after a path component already taken apart:
    /// `None` when the path had no final component, `Some(None)` when that
    /// component is not text.
    pub fn from_segment(seg: Option<Option<String>>) -> (r: Result<Self, PathNameError>)
        ensures
            result_view(r) == name_from_segment(segment_view(seg)),
    {
        match seg {
            None => Err(PathNameError::EmptyOrRootPath),
            Some(None) => Err(PathNameError::NonTextSegment),
            Some(Some(s)) => Ok(Application::new(s.as_str())),
        }
    }

    /// Names an application after the final component of `p`; fails with
    /// `EmptyOrRootPath` when `p` has none and with `NonTextSegment` when it
    /// is not UTF-8 text.
    pub fn from_path(p: &Path) -> (r: Result<Self, PathNameError>)
        ensures
            result_view(r) == name_from_segment(final_segment_of(p)),
            r matches Ok(a) ==> a@ != ".."@,
    {
        let seg = get_name_on_path(p);
        Application::from_segment(seg)
    }
}

} // verus!
