//! Reference to a Software Bill of Materials by location: either a local
//! filesystem path that existed when the value was made, or a remote URI
//! that parses as an absolute URL.

use vstd::prelude::*;

verus! {

use vstd::string::StrSliceExecFns;

/// Mathematical shape of an SBOM location: the location text, marked local
/// or remote.
pub enum SbomLocationView {
    Local(Seq<char>),
    Remote(Seq<char>),
}

/// Whether `url::Url::parse` accepts the string as an absolute URL; the
/// answer depends on the characters of the string alone.
pub uninterp spec fn url_accepted(s: Seq<char>) -> bool;

/// Relies on `url::Url::parse`: `Ok` exactly when the string parses as an
/// absolute URL, `Err` carrying the parse error's display text.
#[verifier::external_body]
fn check_url(s: &str) -> (r: Result<(), String>)
    ensures
        r is Ok <==> url_accepted(s@),
{
    match url::Url::parse(s) {
        Ok(_) => Ok(()),
        Err(e) => Err(e.to_string()),
    }
}

/// Relies on `std::path::Path::exists`; the answer depends on the state of
/// the filesystem, so nothing is promised of it.
#[verifier::external_body]
fn path_exists(s: &str) -> bool {
    std::path::Path::new(s).exists()
}

/// Where an SBOM lives: a local path or a remote URI, kept as text.
#[derive(Debug)]
pub enum SbomLocation {
    Local(String),
    Remote(String),
}

impl View for SbomLocation {
    type V = SbomLocationView;

    closed spec fn view(&self) -> SbomLocationView {
        match self {
            SbomLocation::Local(p) => SbomLocationView::Local(p@),
            SbomLocation::Remote(u) => SbomLocationView::Remote(u@),
        }
    }
}

impl Clone for SbomLocation {
    fn clone(&self) -> (r: Self)
        ensures
            r == *self,
    {
        match self {
            SbomLocation::Local(p) => SbomLocation::Local(p.clone()),
            SbomLocation::Remote(u) => SbomLocation::Remote(u.clone()),
        }
    }
}

impl PartialEq for SbomLocation {
    fn eq(&self, other: &Self) -> (r: bool) {
        let r = match (self, other) {
            (SbomLocation::Local(a), SbomLocation::Local(b)) => a.eq(b),
            (SbomLocation::Remote(a), SbomLocation::Remote(b)) => a.eq(b),
            _ => false,
        };
        proof {
            if r {
                assert(self@ == other@);
            } else {
                assert(self@ != other@);
            }
        }
        r
    }
}

impl vstd::std_specs::cmp::PartialEqSpecImpl for SbomLocation {
    open spec fn obeys_eq_spec() -> bool {
        true
    }

    open spec fn eq_spec(&self, other: &Self) -> bool {
        self@ == other@
    }
}

impl SbomLocation {
    /// A remote location holding the given URI text.
    pub fn remote(url: String) -> (r: Self)
        ensures
            r@ == SbomLocationView::Remote(url@),
    {
        SbomLocation::Remote(url)
    }

    /// A local location holding the given path text.
    pub fn local(path: String) -> (r: Self)
        ensures
            r@ == SbomLocationView::Local(path@),
    {
        SbomLocation::Local(path)
    }
}

/// Failure to build an SBOM reference from a string.
#[derive(Debug)]
pub enum SbomLocationError {
    /// The string is not a URL; carries the input and the parser's text.
    InvalidUrl(String, String),
    /// The string cannot name a path (it is empty).
    InvalidPathFormat(String),
    /// The path does not exist on the filesystem.
    NonExistentPath(String),
    /// The string is neither a URL nor an existing path.
    NotUrlNorPath(String),
}

/// Immutable reference to a Software Bill of Materials.
#[derive(Debug)]
pub struct Sbom {
    location: SbomLocation,
}

impl View for Sbom {
    type V = SbomLocationView;

    closed spec fn view(&self) -> SbomLocationView {
        self.location@
    }
}

impl Clone for Sbom {
    fn clone(&self) -> (r: Self)
        ensures
            r == *self,
    {
        Sbom { location: self.location.clone() }
    }
}

impl PartialEq for Sbom {
    fn eq(&self, other: &Self) -> (r: bool) {
        self.location.eq(&other.location)
    }
}

impl vstd::std_specs::cmp::PartialEqSpecImpl for Sbom {
    open spec fn obeys_eq_spec() -> bool {
        true
    }

    open spec fn eq_spec(&self, other: &Self) -> bool {
        self@ == other@
    }
}

impl Sbom {
    /// Wraps a location.
    pub fn new(location: SbomLocation) -> (r: Self)
        ensures
            r@ == location@,
    {
        Sbom { location }
    }

    /// The location of this SBOM.
    pub fn location(&self) -> (r: &SbomLocation)
        ensures
            r@ == self@,
    {
        &self.location
    }

    /// Builds a remote reference; fails exactly when the string does not
    /// parse as a URL, carrying the input in the error.
    pub fn from_url_str(s: &str) -> (r: Result<Sbom, SbomLocationError>)
        ensures
            r is Ok <==> url_accepted(s@),
            match r {
                Ok(b) => b@ == SbomLocationView::Remote(s@),
                Err(e) => e matches SbomLocationError::InvalidUrl(t, _) && t@ == s@,
            },
    {
        match check_url(s) {
            Ok(()) => Ok(Sbom::new(SbomLocation::remote(s.to_owned()))),
            Err(msg) => Err(SbomLocationError::InvalidUrl(s.to_owned(), msg)),
        }
    }

    /// Builds a local reference; the empty string cannot name a path, and a
    /// path that is not on the filesystem is rejected.
    pub fn from_path_str(s: &str) -> (r: Result<Sbom, SbomLocationError>)
        ensures
            s@.len() == 0 <==> (r matches Err(e) && e matches SbomLocationError::InvalidPathFormat(
                t,
            ) && t@ == s@),
            match r {
                Ok(b) => s@.len() > 0 && b@ == SbomLocationView::Local(s@),
                Err(e) => e matches SbomLocationError::InvalidPathFormat(t) && t@ == s@ || (
                e matches SbomLocationError::NonExistentPath(t) && t@ == s@ && s@.len() > 0),
            },
    {
        if s.is_empty() {
            return Err(SbomLocationError::InvalidPathFormat(s.to_owned()));
        }
        if path_exists(s) {
            Ok(Sbom::new(SbomLocation::local(s.to_owned())))
        } else {
            Err(SbomLocationError::NonExistentPath(s.to_owned()))
        }
    }

    /// Builds a reference from a bare string: URL parsing is tried first,
    /// then path existence; when both fail the error says the string is
    /// neither.
    pub fn try_from(s: &str) -> (r: Result<Sbom, SbomLocationError>)
        ensures
            url_accepted(s@) ==> (r matches Ok(b) && b@ == SbomLocationView::Remote(s@)),
            match r {
                Ok(b) => b@ == SbomLocationView::Remote(s@) || (!url_accepted(s@) && b@
                    == SbomLocationView::Local(s@) && s@.len() > 0),
                Err(e) => !url_accepted(s@) && (e matches SbomLocationError::NotUrlNorPath(t) && t@
                    == s@),
            },
    {
        match Sbom::from_url_str(s) {
            Ok(b) => Ok(b),
            Err(_) => match Sbom::from_path_str(s) {
                Ok(b) => Ok(b),
                Err(_) => Err(SbomLocationError::NotUrlNorPath(s.to_owned())),
            },
        }
    }
}

} // verus!
