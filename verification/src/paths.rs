//! Absolute paths of the system.

use vstd::prelude::*;

verus! {

/// An absolute path, with the separator of the system that it belongs to.
#[derive(Debug, PartialEq, Eq)]
pub struct AbsoluteSystemPathBuf {
    pub path: String,
    pub separator: char,
}

impl View for AbsoluteSystemPathBuf {
    type V = Seq<char>;

    open spec fn view(&self) -> Seq<char> {
        self.path@
    }
}

/// The path of `component` inside the directory `directory`. A separator stands between the two
/// unless the directory ends in one already.
pub open spec fn path_in(
    directory: Seq<char>,
    separator: char,
    component: Seq<char>,
) -> Seq<char> {
    if directory.len() == 0 || directory.last() == separator {
        directory + component
    } else {
        directory.push(separator) + component
    }
}

impl AbsoluteSystemPathBuf {
    /// A path that is absolute on a system with the given separator.
    pub fn new(path: String, separator: char) -> (built: Self)
        ensures
            built@ == path@,
            built.separator == separator,
    {
        AbsoluteSystemPathBuf { path, separator }
    }

    /// Appends one component to the path.
    pub fn join_component(&self, component: &str) -> (joined: AbsoluteSystemPathBuf)
        ensures
            joined@ == path_in(self@, self.separator, component@),
            joined.separator == self.separator,
    {
        let mut path = self.path.clone();
        let len: usize = path.as_str().unicode_len();
        if len > 0 && path.as_str().get_char(len - 1) != self.separator {
            path.push(self.separator);
        }
        path.append(component);
        AbsoluteSystemPathBuf { path, separator: self.separator }
    }
}

/// The path of a component begins with the directory and ends in the component, and one separator
/// stands in front of the component, whether the directory brings it along or not. Where there is
/// no directory, the component is the path.
pub proof fn lemma_component_stands_behind_one_separator(
    directory: Seq<char>,
    separator: char,
    component: Seq<char>,
)
    ensures
        path_in(Seq::empty(), separator, component) == component,
        directory.len() > 0 ==> {
            let path = path_in(directory, separator, component);
            &&& directory.is_prefix_of(path)
            &&& component.is_suffix_of(path)
            &&& path[path.len() - component.len() - 1] == separator
            &&& directory.last() == separator ==> path.len() == directory.len() + component.len()
            &&& directory.last() != separator ==> path.len() == directory.len() + component.len()
                + 1
        },
{
    assert(Seq::empty() + component =~= component);
    let path = path_in(directory, separator, component);
    assert(directory =~= path.subrange(0, directory.len() as int));
    assert(component =~= path.subrange(path.len() - component.len(), path.len() as int));
}

/// Different components of a directory have different paths.
pub proof fn lemma_components_have_paths_of_their_own(
    directory: Seq<char>,
    separator: char,
    one: Seq<char>,
    other: Seq<char>,
)
    requires
        path_in(directory, separator, one) == path_in(directory, separator, other),
    ensures
        one == other,
{
    let path = path_in(directory, separator, one);
    assert(one =~= path.skip(path.len() - one.len()));
    assert(other =~= path.skip(path.len() - other.len()));
}

} // verus!
