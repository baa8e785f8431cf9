//! The manifest formats the server knows, and how file names map to them.
use vstd::prelude::*;
use crate::text::{eq_ignore_ascii_case, seq_eq_ignore_ascii_case, str_eq, trim, trim_of};

verus! {

/// A supported manifest format.
#[derive(Debug, Clone, Copy, PartialEq, Eq, Structural)]
pub enum ToolName {
    Cargo,
    Rokit,
    Wally,
}

/// Which other files belong with a manifest.
#[derive(Debug, Clone, Copy)]
pub enum RelatedFiles {
    /// The file of the given name in the same directory.
    Sibling(&'static str),
    /// Every lockfile of the given name in the enclosing directories.
    AncestorLockfiles(&'static str),
    /// No other file.
    Nothing,
}

/// The format a name stands for, ignoring ASCII case: the tool's own name
/// or one of its file names.
pub open spec fn tool_name_for(s: Seq<char>) -> Option<ToolName> {
    if seq_eq_ignore_ascii_case(s, "cargo"@) || seq_eq_ignore_ascii_case(s, "cargo.toml"@)
        || seq_eq_ignore_ascii_case(s, "cargo.lock"@) {
        Some(ToolName::Cargo)
    } else if seq_eq_ignore_ascii_case(s, "rokit"@) || seq_eq_ignore_ascii_case(s, "rokit.toml"@) {
        Some(ToolName::Rokit)
    } else if seq_eq_ignore_ascii_case(s, "wally"@) || seq_eq_ignore_ascii_case(s, "wally.toml"@)
        || seq_eq_ignore_ascii_case(s, "wally.lock"@) {
        Some(ToolName::Wally)
    } else {
        None
    }
}

pub open spec fn spec_file_glob(t: ToolName) -> Seq<char> {
    match t {
        ToolName::Cargo => "**/Cargo.{toml,lock}"@,
        ToolName::Rokit => "**/rokit.toml"@,
        ToolName::Wally => "**/wally.{toml,lock}"@,
    }
}

/// The files that belong with a manifest of the given file name.
pub open spec fn spec_related_files(t: ToolName, name: Seq<char>) -> RelatedFiles {
    match t {
        ToolName::Cargo => if name == "Cargo.lock"@ {
            RelatedFiles::Sibling("Cargo.toml")
        } else if name == "Cargo.toml"@ {
            RelatedFiles::AncestorLockfiles("Cargo.lock")
        } else {
            RelatedFiles::Nothing
        },
        ToolName::Rokit => RelatedFiles::Nothing,
        ToolName::Wally => if name == "wally.toml"@ {
            RelatedFiles::Sibling("wally.lock")
        } else if name == "wally.lock"@ {
            RelatedFiles::Sibling("wally.toml")
        } else {
            RelatedFiles::Nothing
        },
    }
}

impl ToolName {
    /// The format for a name that is already trimmed.
    pub fn from_name(name: &str) -> (r: Result<Self, &'static str>)
        ensures
            match tool_name_for(name@) {
                Some(t) => r == Ok::<ToolName, &'static str>(t),
                None => r is Err && r->Err_0@ == "Unknown tool"@,
            },
    {
        if eq_ignore_ascii_case(name, "cargo") || eq_ignore_ascii_case(name, "cargo.toml")
            || eq_ignore_ascii_case(name, "cargo.lock") {
            Ok(ToolName::Cargo)
        } else if eq_ignore_ascii_case(name, "rokit") || eq_ignore_ascii_case(name, "rokit.toml") {
            Ok(ToolName::Rokit)
        } else if eq_ignore_ascii_case(name, "wally") || eq_ignore_ascii_case(name, "wally.toml")
            || eq_ignore_ascii_case(name, "wally.lock") {
            Ok(ToolName::Wally)
        } else {
            Err("Unknown tool")
        }
    }

    /// The format for a name, ignoring surrounding whitespace and ASCII case.
    pub fn parse_name(s: &str) -> (r: Result<Self, &'static str>)
        ensures
            match tool_name_for(trim_of(s@)) {
                Some(t) => r == Ok::<ToolName, &'static str>(t),
                None => r is Err && r->Err_0@ == "Unknown tool"@,
            },
    {
        Self::from_name(trim(s))
    }

    /// The format for a document's file name, if it has one.
    pub fn from_file_name(file_name: Option<&str>) -> (r: Result<Self, &'static str>)
        ensures
            match file_name {
                None => r is Err && r->Err_0@ == "No file name"@,
                Some(n) => match tool_name_for(trim_of(n@)) {
                    Some(t) => r == Ok::<ToolName, &'static str>(t),
                    None => r is Err && r->Err_0@ == "Unknown tool"@,
                },
            },
    {
        match file_name {
            Some(n) => Self::parse_name(n),
            None => Err("No file name"),
        }
    }

    pub fn all() -> (r: Vec<Self>)
        ensures
            r@ == seq![ToolName::Cargo, ToolName::Rokit, ToolName::Wally],
    {
        vec![ToolName::Cargo, ToolName::Rokit, ToolName::Wally]
    }

    /// The glob that matches this format's files.
    pub fn file_glob(&self) -> (r: &'static str)
        ensures
            r@ == spec_file_glob(*self),
    {
        match self {
            ToolName::Cargo => "**/Cargo.{toml,lock}",
            ToolName::Rokit => "**/rokit.toml",
            ToolName::Wally => "**/wally.{toml,lock}",
        }
    }

    /// The files that belong with a manifest of this format, by its file
    /// name (compared exactly).
    pub fn related_files(&self, file_name: Option<&str>) -> (r: RelatedFiles)
        ensures
            match file_name {
                None => r == RelatedFiles::Nothing,
                Some(n) => r == spec_related_files(*self, n@),
            },
    {
        let name = match file_name {
            Some(n) => n,
            None => return RelatedFiles::Nothing,
        };
        match self {
            ToolName::Cargo => if str_eq(name, "Cargo.lock") {
                RelatedFiles::Sibling("Cargo.toml")
            } else if str_eq(name, "Cargo.toml") {
                RelatedFiles::AncestorLockfiles("Cargo.lock")
            } else {
                RelatedFiles::Nothing
            },
            ToolName::Rokit => RelatedFiles::Nothing,
            ToolName::Wally => if str_eq(name, "wally.toml") {
                RelatedFiles::Sibling("wally.lock")
            } else if str_eq(name, "wally.lock") {
                RelatedFiles::Sibling("wally.toml")
            } else {
                RelatedFiles::Nothing
            },
        }
    }
}

impl core::str::FromStr for ToolName {
    type Err = &'static str;

    fn from_str(s: &str) -> Result<Self, Self::Err> {
        Self::parse_name(s)
    }
}

} // verus!
