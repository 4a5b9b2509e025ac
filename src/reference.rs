//! Image references of the form `registry/repository[:tag][@digest]`.

use vstd::prelude::*;
use crate::text::{find_char, first_index};

verus! {

/// Why a text is not an image reference.
#[derive(Debug, Clone, Copy, PartialEq, Eq)]
pub enum ReferenceError {
    /// No `/` separates the registry from the repository.
    MissingSlash,
    /// Nothing stands before the first `/`.
    EmptyRegistry,
    /// The repository between the registry and the tag or digest is empty.
    EmptyRepository,
}

/// A parsed image reference.
#[derive(Debug, Clone)]
pub struct Reference {
    registry: String,
    repository: String,
    tag: Option<String>,
    digest: Option<String>,
}

/// What a `Reference` holds, as text.
pub ghost struct ReferenceView {
    pub registry: Seq<char>,
    pub repository: Seq<char>,
    pub tag: Option<Seq<char>>,
    pub digest: Option<Seq<char>>,
}

/// The view of an optional string.
pub open spec fn opt_view(o: Option<String>) -> Option<Seq<char>> {
    match o {
        Some(s) => Some(s@),
        None => None,
    }
}

/// The part of `s` before the first `c`, or all of `s`.
pub open spec fn before_first(s: Seq<char>, c: char) -> Seq<char> {
    match first_index(s, c) {
        Some(i) => s.subrange(0, i),
        None => s,
    }
}

/// The part of `s` after the first `c`, if `c` occurs.
pub open spec fn after_first(s: Seq<char>, c: char) -> Option<Seq<char>> {
    match first_index(s, c) {
        Some(i) => Some(s.subrange(i + 1, s.len() as int)),
        None => None,
    }
}

/// The reference that `s` denotes: the registry runs up to the first `/`;
/// after it the digest follows the first `@`, and the tag the first `:`
/// before that.
pub open spec fn parse_reference(s: Seq<char>) -> Result<ReferenceView, ReferenceError> {
    match first_index(s, '/') {
        None => Err(ReferenceError::MissingSlash),
        Some(slash) => {
            let registry = s.subrange(0, slash);
            let rest = s.subrange(slash + 1, s.len() as int);
            let name = before_first(rest, '@');
            let repository = before_first(name, ':');
            if registry.len() == 0 {
                Err(ReferenceError::EmptyRegistry)
            } else if repository.len() == 0 {
                Err(ReferenceError::EmptyRepository)
            } else {
                Ok(
                    ReferenceView {
                        registry,
                        repository,
                        tag: after_first(name, ':'),
                        digest: after_first(rest, '@'),
                    },
                )
            }
        },
    }
}

/// Splits `s` at the first `c`: the part before it and, if `c` occurs, the
/// part after it.
fn split_first<'a>(s: &'a str, c: char) -> (r: (&'a str, Option<&'a str>))
    ensures
        r.0@ == before_first(s@, c),
        r.1 matches Some(t) ==> after_first(s@, c) == Some(t@),
        r.1 is None ==> after_first(s@, c) is None,
{
    match find_char(s, c) {
        Some(i) => {
            let n = s.unicode_len();
            (s.substring_char(0, i), Some(s.substring_char(i + 1, n)))
        },
        None => (s, None),
    }
}

impl View for Reference {
    type V = ReferenceView;

    closed spec fn view(&self) -> ReferenceView {
        ReferenceView {
            registry: self.registry@,
            repository: self.repository@,
            tag: opt_view(self.tag),
            digest: opt_view(self.digest),
        }
    }
}

impl Reference {
    /// Registry and repository are not empty.
    pub open spec fn wf(&self) -> bool {
        self@.registry.len() > 0 && self@.repository.len() > 0
    }

    /// Parses `registry/repository[:tag][@digest]`.
    pub fn parse(s: &str) -> (r: Result<Reference, ReferenceError>)
        ensures
            r matches Ok(x) ==> parse_reference(s@) == Ok::<_, ReferenceError>(x@) && x.wf(),
            r matches Err(e) ==> parse_reference(s@) == Err::<ReferenceView, _>(e),
    {
        let slash = match find_char(s, '/') {
            Some(i) => i,
            None => return Err(ReferenceError::MissingSlash),
        };
        let n = s.unicode_len();
        let registry = s.substring_char(0, slash);
        let rest = s.substring_char(slash + 1, n);
        let (name, digest) = split_first(rest, '@');
        let (repository, tag) = split_first(name, ':');
        if registry.unicode_len() == 0 {
            return Err(ReferenceError::EmptyRegistry);
        }
        if repository.unicode_len() == 0 {
            return Err(ReferenceError::EmptyRepository);
        }
        let r = Reference {
            registry: String::from_str(registry),
            repository: String::from_str(repository),
            tag: match tag {
                Some(t) => Some(String::from_str(t)),
                None => None,
            },
            digest: match digest {
                Some(d) => Some(String::from_str(d)),
                None => None,
            },
        };
        assert(r@ == parse_reference(s@)->Ok_0);
        Ok(r)
    }

    /// The registry host, with its port if one was given.
    pub fn registry(&self) -> (r: &str)
        ensures
            r@ == self@.registry,
    {
        self.registry.as_str()
    }

    /// The repository path within the registry.
    pub fn repository(&self) -> (r: &str)
        ensures
            r@ == self@.repository,
    {
        self.repository.as_str()
    }

    /// The tag, if the reference names one.
    pub fn tag(&self) -> (r: Option<&str>)
        ensures
            r matches Some(t) ==> self@.tag == Some(t@),
            r is None ==> self@.tag is None,
    {
        match &self.tag {
            Some(t) => Some(t.as_str()),
            None => None,
        }
    }

    /// The digest, if the reference names one.
    pub fn digest(&self) -> (r: Option<&str>)
        ensures
            r matches Some(d) ==> self@.digest == Some(d@),
            r is None ==> self@.digest is None,
    {
        match &self.digest {
            Some(d) => Some(d.as_str()),
            None => None,
        }
    }
}

impl std::str::FromStr for Reference {
    type Err = ReferenceError;

    fn from_str(s: &str) -> Result<Reference, ReferenceError> {
        Reference::parse(s)
    }
}

} // verus!
