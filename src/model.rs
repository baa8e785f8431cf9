//! The range-tracked model of dependency and tool declarations.
use vstd::prelude::*;
use crate::position::{Position, Range, spec_range_contains, range_contains};
use crate::text::{strip_prefix_char, strip_suffix_char};
use crate::version::{is_semver, parse_version_text, VersionParseError};

verus! {

/// A value together with the span of the document it was read from.
#[derive(Debug, Clone, PartialEq, Eq)]
pub struct Node<T> {
    pub contents: T,
    pub range: Range,
}

/// Text that starts and ends with a double quote (two distinct characters).
pub open spec fn is_quoted(s: Seq<char>) -> bool {
    s.len() >= 2 && s[0] == '"' && s.last() == '"'
}

/// The text with one enclosing pair of double quotes removed, if it has one.
pub open spec fn spec_unquoted(s: Seq<char>) -> Seq<char> {
    if is_quoted(s) {
        s.subrange(1, s.len() - 1)
    } else {
        s
    }
}

impl<T> Node<T> {
    pub fn new_raw(range: Range, contents: T) -> (r: Self)
        ensures
            r.contents == contents,
            r.range == range,
    {
        Node { contents, range }
    }

    pub fn contains(&self, pos: Position) -> (r: bool)
        ensures
            r == spec_range_contains(self.range, pos),
    {
        range_contains(self.range, pos)
    }
}

impl Node<String> {
    /// The text as written, quotes included.
    pub fn quoted(&self) -> (r: &str)
        ensures
            r@ == self.contents@,
    {
        self.contents.as_str()
    }

    /// The text without its enclosing quotes; text that is not enclosed in a
    /// pair of quotes comes back unchanged.
    pub fn unquoted(&self) -> (r: &str)
        ensures
            r@ == spec_unquoted(self.contents@),
    {
        let s = self.quoted();
        match strip_prefix_char(s, '"') {
            Some(inner) => match strip_suffix_char(inner, '"') {
                Some(t) => {
                    assert(t@ =~= s@.subrange(1, s@.len() - 1));
                    t
                },
                None => s,
            },
            None => s,
        }
    }

    /// Parses the unquoted text as a semantic version.
    pub fn parse(&self) -> (r: Result<semver::Version, VersionParseError>)
        ensures
            r is Ok <==> is_semver(spec_unquoted(self.contents@)),
            spec_unquoted(self.contents@).len() == 0 ==> r is Err,
    {
        parse_version_text(self.unquoted())
    }
}

/// The manifest table a dependency is declared in.
#[derive(Debug, Default, Clone, Copy, PartialEq, Eq, Structural)]
pub enum DependencyKind {
    #[default]
    Default,
    Dev,
    Build,
    Peer,
    Optional,
    Server,
}

/// Where a dependency comes from.
#[derive(Debug, Default, Clone, PartialEq, Eq)]
pub enum DependencySource {
    #[default]
    Registry,
    Path { path: Node<String> },
    Git { url: Node<String> },
}

impl DependencySource {
    /// The path or URL of a non-registry source.
    pub fn contents(&self) -> (r: Option<&str>)
        ensures
            match self {
                DependencySource::Registry => r is None,
                DependencySource::Path { path } => r is Some && r->0@ == path.contents@,
                DependencySource::Git { url } => r is Some && r->0@ == url.contents@,
            },
    {
        match self {
            DependencySource::Registry => None,
            DependencySource::Path { path } => Some(path.contents.as_str()),
            DependencySource::Git { url } => Some(url.contents.as_str()),
        }
    }
}

/// A dependency's source, version requirement and features; a missing
/// version means the dependency is unconstrained.
#[derive(Debug, Default, Clone, PartialEq, Eq)]
pub struct DependencySpec {
    pub source: DependencySource,
    pub version: Option<Node<String>>,
    pub features: Option<Node<Vec<Node<String>>>>,
}

/// The version text of a spec, empty when it has none.
pub open spec fn spec_version_text(spec: DependencySpec) -> Seq<char> {
    match spec.version {
        Some(v) => v.contents@,
        None => Seq::empty(),
    }
}

impl DependencySpec {
    /// Parses the version text; a spec without a version fails to parse.
    pub fn parse_version(&self) -> (r: Result<semver::Version, VersionParseError>)
        ensures
            r is Ok <==> is_semver(spec_version_text(*self)),
            spec_version_text(*self).len() == 0 ==> r is Err,
    {
        match &self.version {
            Some(v) => parse_version_text(v.contents.as_str()),
            None => {
                proof {
                    reveal_strlit("");
                    assert(""@ =~= Seq::<char>::empty());
                }
                parse_version_text("")
            },
        }
    }
}

/// A dependency declaration: `Partial` while only its name can be read,
/// `Full` once its spec is well-formed.
#[derive(Debug, Clone, PartialEq, Eq)]
pub enum Dependency {
    Partial { kind: DependencyKind, name: Node<String> },
    Full { kind: DependencyKind, name: Node<String>, spec: Node<DependencySpec> },
}

impl Dependency {
    pub open spec fn spec_kind(self) -> DependencyKind {
        match self {
            Dependency::Partial { kind, .. } => kind,
            Dependency::Full { kind, .. } => kind,
        }
    }

    pub open spec fn spec_name(self) -> Node<String> {
        match self {
            Dependency::Partial { name, .. } => name,
            Dependency::Full { name, .. } => name,
        }
    }

    pub open spec fn spec_spec(self) -> Option<Node<DependencySpec>> {
        match self {
            Dependency::Partial { .. } => None,
            Dependency::Full { spec, .. } => Some(spec),
        }
    }

    /// The version text of a dependency, empty for a partial one.
    pub open spec fn spec_version_text(self) -> Seq<char> {
        match self {
            Dependency::Partial { .. } => Seq::empty(),
            Dependency::Full { spec, .. } => spec_version_text(spec.contents),
        }
    }

    pub fn new_partial(kind: DependencyKind, name: Node<String>) -> (r: Self)
        ensures
            r == (Dependency::Partial { kind, name }),
    {
        Dependency::Partial { kind, name }
    }

    pub fn new_full(kind: DependencyKind, name: Node<String>, spec: Node<DependencySpec>) -> (r:
        Self)
        ensures
            r == (Dependency::Full { kind, name, spec }),
    {
        Dependency::Full { kind, name, spec }
    }

    /// `Full` when a spec is given, `Partial` otherwise.
    pub fn new_opt(kind: DependencyKind, name: Node<String>, spec: Option<Node<DependencySpec>>) -> (r:
        Self)
        ensures
            r.spec_kind() == kind,
            r.spec_name() == name,
            r.spec_spec() == spec,
    {
        match spec {
            Some(spec) => Self::new_full(kind, name, spec),
            None => Self::new_partial(kind, name),
        }
    }

    pub fn kind(&self) -> (r: DependencyKind)
        ensures
            r == self.spec_kind(),
    {
        match self {
            Dependency::Partial { kind, .. } => *kind,
            Dependency::Full { kind, .. } => *kind,
        }
    }

    pub fn name(&self) -> (r: &Node<String>)
        ensures
            *r == self.spec_name(),
    {
        match self {
            Dependency::Partial { name, .. } => name,
            Dependency::Full { name, .. } => name,
        }
    }

    pub fn spec(&self) -> (r: Option<&Node<DependencySpec>>)
        ensures
            match self.spec_spec() {
                Some(s) => r is Some && *r->0 == s,
                None => r is None,
            },
    {
        match self {
            Dependency::Partial { .. } => None,
            Dependency::Full { spec, .. } => Some(spec),
        }
    }

    /// Parses the version of a full dependency; a partial one fails to parse.
    pub fn parse_version(&self) -> (r: Result<semver::Version, VersionParseError>)
        ensures
            r is Ok <==> is_semver(self.spec_version_text()),
            self.spec_version_text().len() == 0 ==> r is Err,
    {
        match self {
            Dependency::Full { spec, .. } => spec.contents.parse_version(),
            Dependency::Partial { .. } => {
                let none = DependencySpec {
                    source: DependencySource::Registry,
                    version: None,
                    features: None,
                };
                none.parse_version()
            },
        }
    }
}

} // verus!
