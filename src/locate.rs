//! Where the backend executable is looked for, and which place wins.
//!
//! The places are tried in a fixed order: the development tree first, then
//! the names under which a bundle may carry the executable in the installed
//! application's resource directory. The first that exists is used; when
//! none does, the result says so and nothing is started.
use vstd::prelude::*;

verus! {

/// A directory that the host locates for the shell.
#[derive(Clone, Copy, Debug, PartialEq, Eq, Structural)]
pub enum BaseDir {
    /// The `binaries` directory of the development tree.
    DevBinaries,
    /// The installed application's resource directory.
    Resources,
}

/// A place where the backend executable may lie.
#[derive(Clone, Copy, Debug, PartialEq, Eq, Structural)]
pub enum Candidate {
    /// The target-qualified executable in the development tree.
    DevBinary,
    /// The name that a bundle gives the executable.
    BundledExe,
    /// The target-qualified executable in the resource directory.
    TargetExe,
    /// The target-qualified name without its extension.
    TargetBare,
    /// The target-qualified executable under `binaries` in the resources.
    NestedTargetExe,
    /// The plain resource name of the backend.
    ResourceEntry,
}

/// The outcome of a search for the backend executable.
#[derive(Clone, Copy, Debug, PartialEq, Eq, Structural)]
pub enum Resolution {
    /// The first place, in search order, that exists.
    Found(Candidate),
    /// No place exists.
    NotFound,
}

/// The order in which the places are tried.
pub open spec fn search_order() -> Seq<Candidate> {
    seq![
        Candidate::DevBinary,
        Candidate::BundledExe,
        Candidate::TargetExe,
        Candidate::TargetBare,
        Candidate::NestedTargetExe,
        Candidate::ResourceEntry,
    ]
}

/// Whether the probe results say that place `i` exists. A place without a
/// result counts as absent.
pub open spec fn probed(exists: Seq<bool>, i: int) -> bool {
    0 <= i < exists.len() && exists[i]
}

/// Whether place `i` is the first one, in search order, that exists.
pub open spec fn is_first_existing(exists: Seq<bool>, i: int) -> bool {
    &&& 0 <= i < search_order().len()
    &&& probed(exists, i)
    &&& forall|j: int| 0 <= j < i ==> !probed(exists, j)
}

/// The base directory of a place.
pub open spec fn spec_base(c: Candidate) -> BaseDir {
    match c {
        Candidate::DevBinary => BaseDir::DevBinaries,
        _ => BaseDir::Resources,
    }
}

/// The subdirectory of the base directory that holds a place, if any.
pub open spec fn spec_subdir(c: Candidate) -> Option<Seq<char>> {
    match c {
        Candidate::NestedTargetExe => Some("binaries"@),
        _ => None,
    }
}

/// The file name of a place.
pub open spec fn spec_file_name(c: Candidate) -> Seq<char> {
    match c {
        Candidate::BundledExe => "sdp-api.exe"@,
        Candidate::TargetBare => "sdp-api-x86_64-pc-windows-msvc"@,
        Candidate::ResourceEntry => "sdp-api"@,
        _ => "sdp-api-x86_64-pc-windows-msvc.exe"@,
    }
}

/// The places in the order in which they are tried.
pub fn candidates() -> (r: Vec<Candidate>)
    ensures
        r@ == search_order(),
{
    let r = vec![
        Candidate::DevBinary,
        Candidate::BundledExe,
        Candidate::TargetExe,
        Candidate::TargetBare,
        Candidate::NestedTargetExe,
        Candidate::ResourceEntry,
    ];
    assert(r@ =~= search_order());
    r
}

impl Candidate {
    /// The base directory of this place.
    pub fn base(self) -> (r: BaseDir)
        ensures
            r == spec_base(self),
    {
        match self {
            Candidate::DevBinary => BaseDir::DevBinaries,
            _ => BaseDir::Resources,
        }
    }

    /// The subdirectory of the base directory that holds this place, if any.
    /// The backend is started in the base directory joined with it.
    pub fn subdir(self) -> (r: Option<&'static str>)
        ensures
            r is Some <==> spec_subdir(self) is Some,
            r is Some ==> r->0@ == spec_subdir(self)->0,
    {
        match self {
            Candidate::NestedTargetExe => Some("binaries"),
            _ => None,
        }
    }

    /// The file name of this place.
    pub fn file_name(self) -> (r: &'static str)
        ensures
            r@ == spec_file_name(self),
    {
        match self {
            Candidate::BundledExe => "sdp-api.exe",
            Candidate::TargetBare => "sdp-api-x86_64-pc-windows-msvc",
            Candidate::ResourceEntry => "sdp-api",
            _ => "sdp-api-x86_64-pc-windows-msvc.exe",
        }
    }
}

/// Picks the backend executable from the probe results: `exists[i]` tells
/// whether the `i`-th place of the search order exists. Returns the first
/// place that exists, or `NotFound` when none does.
pub fn resolve(exists: &Vec<bool>) -> (r: Resolution)
    ensures
        r is NotFound <==> forall|j: int| 0 <= j < search_order().len() ==> !probed(exists@, j),
        forall|i: int| is_first_existing(exists@, i) ==> r == Resolution::Found(search_order()[i]),
{
    let order = candidates();
    let mut i: usize = 0;
    while i < order.len()
        invariant
            order@ == search_order(),
            0 <= i <= order@.len(),
            forall|j: int| 0 <= j < i ==> !probed(exists@, j),
        decreases order@.len() - i,
    {
        if i < exists.len() && exists[i] {
            let found = order[i];
            assert(is_first_existing(exists@, i as int));
            assert forall|k: int| is_first_existing(exists@, k) implies k == i by {
                if k < i {
                    assert(!probed(exists@, k));
                } else if k > i {
                    assert(probed(exists@, i as int));
                }
            }
            return Resolution::Found(found);
        }
        i = i + 1;
    }
    Resolution::NotFound
}

} // verus!
