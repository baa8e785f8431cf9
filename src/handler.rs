//! The decisions of the tool-manifest request handlers: which documents they
//! serve, what a completion request at a position asks for, and how per-entity
//! results are combined.
use vstd::prelude::*;
use crate::model::spec_unquoted;
use crate::position::{Position, spec_range_contains};
use crate::text::{eq_ignore_ascii_case, seq_eq_ignore_ascii_case};
use crate::tool::{Tool, ToolSpecParsed, parsed_spec_of};

verus! {

/// Whether a file name names a tool manifest, in any ASCII case.
pub open spec fn is_tool_manifest_name(name: Seq<char>) -> bool {
    seq_eq_ignore_ascii_case(name, "rokit.toml"@) || seq_eq_ignore_ascii_case(name, "aftman.toml"@)
}

/// Whether the handler serves a document with this file name.
pub fn is_tool_manifest(file_name: &str) -> (r: bool)
    ensures
        r == is_tool_manifest_name(file_name@),
{
    eq_ignore_ascii_case(file_name, "rokit.toml") || eq_ignore_ascii_case(file_name, "aftman.toml")
}

/// The part of a tool spec that a completion request is for.
#[derive(Debug, Clone, Copy, PartialEq, Eq, Structural)]
pub enum CompletionTarget {
    Version,
    Repository,
    Owner,
}

/// The part under the cursor, tried in the order version, repository, owner;
/// an empty owner is completed anywhere on the spec.
pub open spec fn completion_target_of(p: ToolSpecParsed, spec: crate::model::Node<String>, pos: Position) -> Option<
    CompletionTarget,
> {
    if p.version is Some && spec_range_contains(p.version->0.range, pos) {
        Some(CompletionTarget::Version)
    } else if p.repository is Some && spec_range_contains(p.repository->0.range, pos) {
        Some(CompletionTarget::Repository)
    } else if spec_range_contains(p.owner.range, pos) || (spec_unquoted(p.owner.contents@).len()
        == 0 && spec_range_contains(spec.range, pos)) {
        Some(CompletionTarget::Owner)
    } else {
        None
    }
}

/// What a completion request at `pos` on this tool asks for, if anything.
pub fn completion_target(tool: &Tool, pos: Position) -> (r: Option<CompletionTarget>)
    ensures
        forall|p: ToolSpecParsed|
            parsed_spec_of(tool.spec, p) ==> r == completion_target_of(p, tool.spec, pos),
{
    let parsed = tool.parsed_spec();
    let on_version = match &parsed.version {
        Some(v) => v.contains(pos),
        None => false,
    };
    let on_repository = match &parsed.repository {
        Some(n) => n.contains(pos),
        None => false,
    };
    if on_version {
        Some(CompletionTarget::Version)
    } else if on_repository {
        Some(CompletionTarget::Repository)
    } else if parsed.owner.contains(pos) || (parsed.owner.unquoted().is_empty()
        && tool.spec.contains(pos)) {
        Some(CompletionTarget::Owner)
    } else {
        None
    }
}

/// All per-entity results joined in entity order, or the first failure.
pub open spec fn merged<D, E>(s: Seq<Result<Vec<D>, E>>) -> Result<Seq<D>, E>
    decreases s.len(),
{
    if s.len() == 0 {
        Ok(Seq::empty())
    } else {
        match s[0] {
            Err(e) => Err(e),
            Ok(v) => match merged(s.drop_first()) {
                Ok(t) => Ok(v@ + t),
                Err(e) => Err(e),
            },
        }
    }
}

/// Joins the results of the per-entity checks: the concatenation, in entity
/// order, when every check succeeded; otherwise the first failure.
pub fn merge_check_results<D, E>(results: Vec<Result<Vec<D>, E>>) -> (r: Result<Vec<D>, E>)
    ensures
        match merged(results@) {
            Ok(t) => r is Ok && r->Ok_0@ == t,
            Err(e) => r is Err && r->Err_0 == e,
        },
{
    let ghost all = results@;
    let mut rest = results;
    let mut out: Vec<D> = Vec::new();
    while rest.len() > 0
        invariant
            all == results@,
            merged(all) == match merged(rest@) {
                Ok(t) => Ok(out@ + t),
                Err(e) => Err(e),
            },
        decreases rest.len(),
    {
        let ghost before = rest@;
        let ghost done = out@;
        let item = rest.remove(0);
        proof {
            assert(before.drop_first() =~= rest@);
        }
        match item {
            Ok(v) => {
                let mut v = v;
                out.append(&mut v);
                proof {
                    match merged(rest@) {
                        Ok(t) => {
                            assert(done + (before[0]->Ok_0@ + t) =~= out@ + t);
                        },
                        Err(e) => {},
                    }
                }
            },
            Err(e) => {
                assert(merged(before) == Err::<Seq<D>, E>(e));
                return Err(e);
            },
        }
    }
    proof {
        assert(out@ + Seq::<D>::empty() =~= out@);
    }
    Ok(out)
}

/// The successfully decoded values, in order.
pub open spec fn decoded_values<T, E>(s: Seq<Option<Result<T, E>>>) -> Seq<T>
    decreases s.len(),
{
    if s.len() == 0 {
        Seq::empty()
    } else {
        let rest = decoded_values(s.drop_first());
        match s[0] {
            Some(Ok(t)) => seq![t] + rest,
            _ => rest,
        }
    }
}

/// Keeps what decoded; entries without data, or whose data did not decode,
/// are skipped.
pub fn collect_decoded<T, E>(decoded: Vec<Option<Result<T, E>>>) -> (r: Vec<T>)
    ensures
        r@ == decoded_values(decoded@),
{
    let ghost all = decoded@;
    let mut rest = decoded;
    let mut out: Vec<T> = Vec::new();
    while rest.len() > 0
        invariant
            decoded_values(all) == out@ + decoded_values(rest@),
        decreases rest.len(),
    {
        let ghost before = rest@;
        let ghost done = out@;
        let item = rest.remove(0);
        proof {
            assert(before.drop_first() =~= rest@);
        }
        match item {
            Some(Ok(t)) => {
                out.push(t);
                proof {
                    assert(done + (seq![t] + decoded_values(rest@)) =~= out@ + decoded_values(rest@));
                }
            },
            _ => {},
        }
    }
    proof {
        assert(out@ + Seq::<T>::empty() =~= out@);
    }
    out
}

} // verus!
