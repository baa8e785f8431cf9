//! Tool references of the form `owner[/repository[@version]]`.
use vstd::prelude::*;
use crate::model::{Node, is_quoted, spec_unquoted};
use crate::position::{Position, Range, pos_le, pos_min, pos_max, range_extend};
use crate::text::{char_count, split_once_char};
use crate::version::{is_semver, parse_version_text, VersionParseError};

verus! {

/// A tool declaration: its name and its quoted spec.
#[derive(Debug, Clone, PartialEq, Eq)]
pub struct Tool {
    pub name: Node<String>,
    pub spec: Node<String>,
}

/// A tool spec read as far as it goes; only the owner is sure to be there.
#[derive(Debug, Clone, PartialEq, Eq)]
pub struct ToolSpecParsed {
    pub owner: Node<String>,
    pub repository: Option<Node<String>>,
    pub version: Option<Node<String>>,
}

/// A tool spec with all three parts present.
#[derive(Debug, Clone, PartialEq, Eq)]
pub struct ToolSpecParsedFull {
    pub owner: Node<String>,
    pub repository: Node<String>,
    pub version: Node<String>,
}

/// Column `c` moved right by `k`, held at the largest column.
pub open spec fn shift(c: u32, k: int) -> u32 {
    if c + k > u32::MAX {
        u32::MAX
    } else {
        (c + k) as u32
    }
}

/// The span of `len` characters that starts `offset` characters after the
/// start of `r`, on its first line.
pub open spec fn span_at(r: Range, offset: int, len: int) -> Range {
    Range {
        start: Position { line: r.start.line, character: shift(r.start.character, offset) },
        end: Position { line: r.start.line, character: shift(r.start.character, offset + len) },
    }
}

/// Where the spec text starts within what is written: after the opening
/// quote, if there is a pair.
pub open spec fn text_offset(written: Seq<char>) -> int {
    if is_quoted(written) {
        1
    } else {
        0
    }
}

/// The owner: everything before the first `/`, or the whole text.
pub open spec fn spec_owner(raw: Seq<char>) -> Seq<char> {
    match raw.index_of_first('/') {
        Some(i) => raw.take(i),
        None => raw,
    }
}

/// What follows the first `/`, if there is one.
pub open spec fn spec_after_owner(raw: Seq<char>) -> Option<Seq<char>> {
    match raw.index_of_first('/') {
        Some(i) => Some(raw.skip(i + 1)),
        None => None,
    }
}

/// The repository: what follows the `/`, up to the first `@` after it.
pub open spec fn spec_repository(raw: Seq<char>) -> Option<Seq<char>> {
    match spec_after_owner(raw) {
        Some(rest) => match rest.index_of_first('@') {
            Some(j) => Some(rest.take(j)),
            None => Some(rest),
        },
        None => None,
    }
}

/// The version: what follows that `@`.
pub open spec fn spec_version(raw: Seq<char>) -> Option<Seq<char>> {
    match spec_after_owner(raw) {
        Some(rest) => match rest.index_of_first('@') {
            Some(j) => Some(rest.skip(j + 1)),
            None => None,
        },
        None => None,
    }
}

/// The parts of a tool spec, each with the span where it is written.
pub open spec fn parsed_spec_of(spec: Node<String>, r: ToolSpecParsed) -> bool {
    let written = spec.contents@;
    let raw = spec_unquoted(written);
    let q = text_offset(written);
    let owner = spec_owner(raw);
    &&& r.owner.contents@ == owner
    &&& r.owner.range == span_at(spec.range, q, owner.len() as int)
    &&& match spec_repository(raw) {
        Some(repo) => r.repository is Some && r.repository->0.contents@ == repo
            && r.repository->0.range == span_at(spec.range, q + owner.len() + 1, repo.len() as int),
        None => r.repository is None,
    }
    &&& match spec_version(raw) {
        Some(v) => r.version is Some && r.version->0.contents@ == v && r.version->0.range
            == span_at(
            spec.range,
            q + owner.len() + 1 + spec_repository(raw)->0.len() + 1,
            v.len() as int,
        ),
        None => r.version is None,
    }
}

/// The version text of a parsed spec, empty when it has none.
pub open spec fn parsed_version_text(p: ToolSpecParsed) -> Seq<char> {
    match p.version {
        Some(v) => spec_unquoted(v.contents@),
        None => Seq::empty(),
    }
}

/// The version text of a tool's spec, empty when it has none.
pub open spec fn tool_version_text(tool: Tool) -> Seq<char> {
    match spec_version(spec_unquoted(tool.spec.contents@)) {
        Some(v) => spec_unquoted(v),
        None => Seq::empty(),
    }
}

fn shifted(c: u32, k: usize) -> (r: u32)
    ensures
        r == shift(c, k as int),
{
    if k >= (u32::MAX - c) as usize {
        u32::MAX
    } else {
        c + k as u32
    }
}

fn span(r: Range, offset: usize, len: usize) -> (s: Range)
    requires
        offset + len <= usize::MAX,
    ensures
        s == span_at(r, offset as int, len as int),
{
    Range {
        start: Position { line: r.start.line, character: shifted(r.start.character, offset) },
        end: Position { line: r.start.line, character: shifted(r.start.character, offset + len) },
    }
}

fn sub_node(r: Range, offset: usize, text: &str) -> (n: Node<String>)
    requires
        offset + text@.len() <= usize::MAX,
    ensures
        n.contents@ == text@,
        n.range == span_at(r, offset as int, text@.len() as int),
{
    let len = char_count(text);
    Node::new_raw(span(r, offset, len), text.to_owned())
}

impl Tool {
    /// Splits the spec into owner, repository and version, each with the
    /// span it occupies. Spans are found by walking the text left to right,
    /// so a part that repeats an earlier one still gets its own place.
    pub fn parsed_spec(&self) -> (r: ToolSpecParsed)
        ensures
            parsed_spec_of(self.spec, r),
            r.repository is Some ==> pos_le(r.owner.range.end, r.repository->0.range.start),
            r.version is Some ==> r.repository is Some && pos_le(
                r.repository->0.range.end,
                r.version->0.range.start,
            ),
    {
        let written = self.spec.quoted();
        let raw = self.spec.unquoted();
        let total = char_count(written);
        let q: usize = if char_count(raw) < total {
            1
        } else {
            0
        };
        assert(q == text_offset(written@));
        let range = self.spec.range;
        proof {
            raw@.index_of_first_ensures('/');
        }
        match split_once_char(raw, '/') {
            None => {
                let owner = sub_node(range, q, raw);
                ToolSpecParsed { owner, repository: None, version: None }
            },
            Some((owner_text, rest)) => {
                let owner = sub_node(range, q, owner_text);
                let owner_len = char_count(owner_text);
                let at = q + owner_len + 1;
                proof {
                    rest@.index_of_first_ensures('@');
                }
                match split_once_char(rest, '@') {
                    None => {
                        let repository = sub_node(range, at, rest);
                        ToolSpecParsed { owner, repository: Some(repository), version: None }
                    },
                    Some((repo_text, version_text)) => {
                        let repository = sub_node(range, at, repo_text);
                        let repo_len = char_count(repo_text);
                        let version = sub_node(range, at + repo_len + 1, version_text);
                        ToolSpecParsed {
                            owner,
                            repository: Some(repository),
                            version: Some(version),
                        }
                    },
                }
            },
        }
    }

    /// Parses the version part of the spec; a spec without one fails to parse.
    pub fn parse_version(&self) -> (r: Result<semver::Version, VersionParseError>)
        ensures
            r is Ok <==> is_semver(tool_version_text(*self)),
            tool_version_text(*self).len() == 0 ==> r is Err,
    {
        self.parsed_spec().parse_version()
    }
}

impl ToolSpecParsed {
    /// The full spec, when both repository and version are present.
    pub fn into_full(self) -> (r: Option<ToolSpecParsedFull>)
        ensures
            r is Some <==> (self.repository is Some && self.version is Some),
            r is Some ==> r->0 == (ToolSpecParsedFull {
                owner: self.owner,
                repository: self.repository->0,
                version: self.version->0,
            }),
    {
        let repository = match self.repository {
            Some(r) => r,
            None => return None,
        };
        let version = match self.version {
            Some(v) => v,
            None => return None,
        };
        Some(ToolSpecParsedFull { owner: self.owner, repository, version })
    }

    /// Parses the unquoted version; a spec without one fails to parse.
    pub fn parse_version(&self) -> (r: Result<semver::Version, VersionParseError>)
        ensures
            r is Ok <==> is_semver(parsed_version_text(*self)),
            parsed_version_text(*self).len() == 0 ==> r is Err,
    {
        match &self.version {
            Some(v) => v.parse(),
            None => {
                proof {
                    reveal_strlit("");
                    assert(""@ =~= Seq::<char>::empty());
                }
                parse_version_text("")
            },
        }
    }
}

impl ToolSpecParsedFull {
    /// The span from the owner's start to the version's end.
    pub fn range(&self) -> (r: Range)
        ensures
            r.start == pos_min(self.owner.range.start, self.version.range.start),
            r.end == pos_max(self.owner.range.end, self.version.range.end),
    {
        range_extend(self.owner.range, self.version.range)
    }

    /// Parses the unquoted version.
    pub fn parse_version(&self) -> (r: Result<semver::Version, VersionParseError>)
        ensures
            r is Ok <==> is_semver(spec_unquoted(self.version.contents@)),
            spec_unquoted(self.version.contents@).len() == 0 ==> r is Err,
    {
        self.version.parse()
    }
}

} // verus!
