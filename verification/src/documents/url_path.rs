//! Request paths, validated once when a request comes in.

use vstd::prelude::*;
use vstd::string::StringExecFns;

verus! {

/// The rule for request paths: the text starts with `/` and holds neither
/// `?` nor `#`. The empty text has no first character and is not a path.
pub open spec fn is_valid_url_path(raw: Seq<char>) -> bool {
    &&& raw.len() > 0
    &&& raw[0] == '/'
    &&& forall|i: int| 0 <= i < raw.len() ==> raw[i] != '?' && raw[i] != '#'
}

/// The texts that are refused are those that are empty, that start with
/// another character than `/`, or that hold `?` or `#` anywhere; every other
/// text is a request path.
pub proof fn lemma_refused_paths(raw: Seq<char>)
    ensures
        !is_valid_url_path(raw) <==> (raw.len() == 0 || raw[0] != '/' || raw.contains('?')
            || raw.contains('#')),
{
    if raw.contains('?') {
        let at = choose|at: int| 0 <= at < raw.len() && raw[at] == '?';
        assert(raw[at] == '?');
    }
    if raw.contains('#') {
        let at = choose|at: int| 0 <= at < raw.len() && raw[at] == '#';
        assert(raw[at] == '#');
    }
    if raw.len() > 0 && raw[0] == '/' && !is_valid_url_path(raw) {
        let at = choose|at: int| 0 <= at < raw.len() && !(raw[at] != '?' && raw[at] != '#');
        assert(raw.contains(raw[at]));
    }
}

/// Decides `is_valid_url_path` in one pass over the characters.
pub fn check_url_path(path_str: &str) -> (valid: bool)
    ensures
        valid == is_valid_url_path(path_str@),
{
    let mut starts_with_slash = false;
    let mut clean = true;
    let mut at_start = true;
    for c in it: path_str.chars()
        invariant
            it.seq() == path_str@,
            at_start == (it.index() == 0),
            starts_with_slash == (it.index() > 0 && path_str@[0] == '/'),
            clean == (forall|i: int|
                0 <= i < it.index() ==> path_str@[i] != '?' && path_str@[i] != '#'),
    {
        if at_start {
            starts_with_slash = c == '/';
            at_start = false;
        }
        if c == '?' || c == '#' {
            clean = false;
        }
    }
    starts_with_slash && clean
}

/// A request path that is known to be valid. The text is kept as it was
/// given: nothing is normalised or decoded.
#[derive(Debug)]
pub struct UrlPath {
    path: String,
}

/// Why a text was refused as a request path.
#[derive(Debug)]
pub enum UrlPathError {
    /// The text breaks the rule for request paths; it is carried unchanged.
    InvalidFormat(String),
}

impl View for UrlPath {
    type V = Seq<char>;

    closed spec fn view(&self) -> Seq<char> {
        self.path@
    }
}

impl UrlPath {
    #[verifier::type_invariant]
    spec fn well_formed(self) -> bool {
        is_valid_url_path(self.path@)
    }

    /// Accepts `path_str` exactly when it is a valid request path.
    pub fn new(path_str: &str) -> (result: Result<Self, UrlPathError>)
        ensures
            result is Ok <==> is_valid_url_path(path_str@),
            result matches Ok(url_path) ==> url_path@ == path_str@,
            result matches Err(UrlPathError::InvalidFormat(refused)) ==> refused@ == path_str@,
    {
        if check_url_path(path_str) {
            Ok(UrlPath { path: path_str.to_owned() })
        } else {
            Err(UrlPathError::InvalidFormat(path_str.to_owned()))
        }
    }

    /// The path's text, as it was given at construction.
    pub fn get_path(&self) -> (path: &str)
        ensures
            path@ == self@,
            is_valid_url_path(path@),
    {
        proof {
            use_type_invariant(self);
        }
        self.path.as_str()
    }
}

impl Clone for UrlPath {
    fn clone(&self) -> (copy: Self)
        ensures
            copy@ == self@,
    {
        proof {
            use_type_invariant(self);
        }
        UrlPath { path: self.path.clone() }
    }
}

impl PartialEq for UrlPath {
    fn eq(&self, other: &Self) -> (same: bool) {
        self.path == other.path
    }
}

impl Eq for UrlPath {

}

impl vstd::std_specs::cmp::PartialEqSpecImpl for UrlPath {
    open spec fn obeys_eq_spec() -> bool {
        true
    }

    open spec fn eq_spec(&self, other: &Self) -> bool {
        self@ == other@
    }
}

impl UrlPathError {
    /// The sentence that reports the error.
    pub fn to_string(&self) -> (text: String)
        ensures
            self matches UrlPathError::InvalidFormat(refused) && text@
                == "Invalid URL path format: "@ + refused@,
    {
        match self {
            UrlPathError::InvalidFormat(refused) => {
                let mut text = String::from_str("Invalid URL path format: ");
                text.append(refused.as_str());
                text
            },
        }
    }
}

} // verus!
