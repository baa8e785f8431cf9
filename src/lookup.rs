//! Cursor lookup and document-order sorting of declarations.
use vstd::prelude::*;
use vstd::seq_lib::{lemma_multiset_commutative, to_multiset_insert};
use crate::model::Dependency;
use crate::position::{Position, range_key, range_key_le, spec_range_contains};
use crate::tool::Tool;

verus! {

/// Whether the cursor is on a dependency's name or on its spec.
pub open spec fn dependency_contains(d: Dependency, pos: Position) -> bool {
    spec_range_contains(d.spec_name().range, pos) || (d.spec_spec() is Some && spec_range_contains(
        d.spec_spec()->0.range,
        pos,
    ))
}

/// Whether the cursor is on a tool's name or on its spec.
pub open spec fn tool_contains(t: Tool, pos: Position) -> bool {
    spec_range_contains(t.name.range, pos) || spec_range_contains(t.spec.range, pos)
}

/// The first dependency from index `i` on that the cursor is on.
pub open spec fn dependency_at(s: Seq<Dependency>, pos: Position, i: int) -> Option<Dependency>
    decreases s.len() - i,
{
    if i < 0 || i >= s.len() {
        None
    } else if dependency_contains(s[i], pos) {
        Some(s[i])
    } else {
        dependency_at(s, pos, i + 1)
    }
}

/// The first tool from index `i` on that the cursor is on.
pub open spec fn tool_at(s: Seq<Tool>, pos: Position, i: int) -> Option<Tool>
    decreases s.len() - i,
{
    if i < 0 || i >= s.len() {
        None
    } else if tool_contains(s[i], pos) {
        Some(s[i])
    } else {
        tool_at(s, pos, i + 1)
    }
}

/// The sort key of a full dependency: the range of its spec.
pub open spec fn dependency_key(d: Dependency) -> int {
    range_key(d.spec_spec()->0.range)
}

pub open spec fn tool_key(t: Tool) -> int {
    range_key(t.name.range)
}

pub open spec fn dependencies_sorted(s: Seq<Dependency>) -> bool {
    forall|i: int, j: int| 0 <= i < j < s.len() ==> dependency_key(s[i]) <= dependency_key(s[j])
}

pub open spec fn tools_sorted(s: Seq<Tool>) -> bool {
    forall|i: int, j: int| 0 <= i < j < s.len() ==> tool_key(s[i]) <= tool_key(s[j])
}

/// The partial dependencies of `s`, in their order in `s`.
pub open spec fn partials(s: Seq<Dependency>) -> Seq<Dependency> {
    s.filter(|d: Dependency| d is Partial)
}

proof fn lemma_partials_push(s: Seq<Dependency>, x: Dependency)
    ensures
        partials(s.push(x)) == if x is Partial {
            partials(s).push(x)
        } else {
            partials(s)
        },
{
    reveal(Seq::filter);
    assert(s.push(x).drop_last() =~= s);
}

impl Dependency {
    /// The first dependency, in the order given, whose name or spec range
    /// holds the position.
    pub fn find_at_pos(vec: &[Self], pos: Position) -> (r: Option<&Self>)
        ensures
            match dependency_at(vec@, pos, 0) {
                Some(d) => r is Some && *r->0 == d,
                None => r is None,
            },
    {
        let mut i: usize = 0;
        while i < vec.len()
            invariant
                i <= vec@.len(),
                dependency_at(vec@, pos, 0) == dependency_at(vec@, pos, i as int),
            decreases vec.len() - i,
        {
            let d = &vec[i];
            let on_spec = match d.spec() {
                Some(s) => s.contains(pos),
                None => false,
            };
            if d.name().contains(pos) || on_spec {
                return Some(d);
            }
            i = i + 1;
        }
        None
    }

    /// Sorts full dependencies first, by the range of their spec; partial
    /// ones follow in the order they had.
    pub fn sort_vec(vec: &mut Vec<Self>)
        ensures
            final(vec)@.to_multiset() == old(vec)@.to_multiset(),
            final(vec)@.skip(final(vec)@.len() - partials(old(vec)@).len()) == partials(old(vec)@),
            forall|i: int|
                0 <= i < final(vec)@.len() - partials(old(vec)@).len() ==> #[trigger] final(vec)@[i] is Full,
            dependencies_sorted(final(vec)@.take(final(vec)@.len() - partials(old(vec)@).len())),
    {
        broadcast use vstd::seq_lib::group_to_multiset_ensures, vstd::multiset::group_multiset_axioms;

        let ghost orig = vec@;
        let mut fulls: Vec<Dependency> = Vec::new();
        let mut rest: Vec<Dependency> = Vec::new();
        while vec.len() > 0
            invariant
                vec@.len() <= orig.len(),
                vec@ == orig.skip(orig.len() - vec@.len()),
                rest@ == partials(orig.take(orig.len() - vec@.len())),
                fulls@.to_multiset().add(rest@.to_multiset()) == orig.take(
                    orig.len() - vec@.len(),
                ).to_multiset(),
                forall|k: int| 0 <= k < fulls@.len() ==> #[trigger] fulls@[k] is Full,
                dependencies_sorted(fulls@),
            decreases vec.len(),
        {
            let ghost done = orig.len() - vec@.len();
            let ghost before = vec@;
            let x = vec.remove(0);
            proof {
                assert(before[0] == orig[done]);
                assert(vec@ =~= orig.skip(orig.len() - vec@.len()));
                assert(orig.take(done + 1) =~= orig.take(done).push(x));
                lemma_partials_push(orig.take(done), x);
                orig.take(done).to_multiset_ensures();
            }
            let ghost f0 = fulls@;
            let ghost r0 = rest@;
            match x {
                Dependency::Full { .. } => {
                    insert_sorted_dependency(&mut fulls, x);
                    assert(fulls@.to_multiset().add(rest@.to_multiset()) =~= f0.to_multiset().add(
                        r0.to_multiset(),
                    ).insert(x));
                },
                Dependency::Partial { .. } => {
                    rest.push(x);
                    assert(rest@ == r0.push(x));
                    proof {
                        r0.to_multiset_ensures();
                    }
                    assert(rest@.to_multiset() =~= r0.to_multiset().insert(x));
                    assert(fulls@.to_multiset().add(rest@.to_multiset()) =~= f0.to_multiset().add(
                        r0.to_multiset(),
                    ).insert(x));
                },
            }
        }
        proof {
            assert(orig.take(orig.len() as int) =~= orig);
        }
        let ghost sorted = fulls@;
        let ghost tail = rest@;
        fulls.append(&mut rest);
        proof {
            lemma_multiset_commutative(sorted, tail);
            assert(fulls@.skip(fulls@.len() - tail.len()) =~= tail);
            assert(fulls@.take(fulls@.len() - tail.len()) =~= sorted);
        }
        *vec = fulls;
    }
}

/// Inserts a full dependency after every entry whose key is not larger.
fn insert_sorted_dependency(out: &mut Vec<Dependency>, x: Dependency)
    requires
        x is Full,
        dependencies_sorted(old(out)@),
        forall|k: int| 0 <= k < old(out)@.len() ==> #[trigger] old(out)@[k] is Full,
    ensures
        final(out)@.to_multiset() == old(out)@.to_multiset().insert(x),
        dependencies_sorted(final(out)@),
        forall|k: int| 0 <= k < final(out)@.len() ==> #[trigger] final(out)@[k] is Full,
{
    let key = match &x {
        Dependency::Full { spec, .. } => spec.range,
        Dependency::Partial { name, .. } => name.range,
    };
    let mut p: usize = 0;
    while p < out.len()
        invariant
            p <= out@.len(),
            out@ == old(out)@,
            x is Full,
            key == x.spec_spec()->0.range,
            forall|k: int| 0 <= k < out@.len() ==> #[trigger] out@[k] is Full,
            forall|k: int| 0 <= k < p ==> dependency_key(#[trigger] out@[k]) <= dependency_key(x),
        ensures
            p <= out@.len(),
            out@ == old(out)@,
            forall|k: int| 0 <= k < p ==> dependency_key(#[trigger] out@[k]) <= dependency_key(x),
            p < out@.len() ==> dependency_key(x) < dependency_key(out@[p as int]),
        decreases out.len() - p,
    {
        let here = match &out[p] {
            Dependency::Full { spec, .. } => spec.range,
            Dependency::Partial { name, .. } => name.range,
        };
        if !range_key_le(here, key) {
            break ;
        }
        p = p + 1;
    }
    proof {
        to_multiset_insert(out@, p as int, x);
        let t = out@.insert(p as int, x);
        assert forall|i: int, j: int| 0 <= i < j < t.len() implies dependency_key(t[i])
            <= dependency_key(t[j]) by {
            if j > p {
                assert(dependency_key(x) <= dependency_key(out@[p as int]));
            }
        }
    }
    out.insert(p, x);
}

impl Tool {
    /// The first tool, in the order given, whose name or spec range holds
    /// the position.
    pub fn find_at_pos(vec: &[Self], pos: Position) -> (r: Option<&Self>)
        ensures
            match tool_at(vec@, pos, 0) {
                Some(t) => r is Some && *r->0 == t,
                None => r is None,
            },
    {
        let mut i: usize = 0;
        while i < vec.len()
            invariant
                i <= vec@.len(),
                tool_at(vec@, pos, 0) == tool_at(vec@, pos, i as int),
            decreases vec.len() - i,
        {
            let t = &vec[i];
            if t.name.contains(pos) || t.spec.contains(pos) {
                return Some(t);
            }
            i = i + 1;
        }
        None
    }

    /// Sorts tools by the range of their name.
    pub fn sort_vec(vec: &mut Vec<Self>)
        ensures
            final(vec)@.to_multiset() == old(vec)@.to_multiset(),
            tools_sorted(final(vec)@),
    {
        broadcast use vstd::seq_lib::group_to_multiset_ensures, vstd::multiset::group_multiset_axioms;

        let ghost orig = vec@;
        let mut out: Vec<Tool> = Vec::new();
        while vec.len() > 0
            invariant
                out@.to_multiset().add(vec@.to_multiset()) == orig.to_multiset(),
                tools_sorted(out@),
            decreases vec.len(),
        {
            let ghost before = vec@;
            let x = vec.remove(0);
            proof {
                assert(before =~= vec@.insert(0, x));
                to_multiset_insert(vec@, 0, x);
            }
            let ghost o0 = out@;
            insert_sorted_tool(&mut out, x);
            assert(out@.to_multiset().add(vec@.to_multiset()) =~= o0.to_multiset().add(
                vec@.to_multiset().insert(x),
            ));
        }
        *vec = out;
    }
}

/// Inserts a tool after every entry whose key is not larger.
fn insert_sorted_tool(out: &mut Vec<Tool>, x: Tool)
    requires
        tools_sorted(old(out)@),
    ensures
        final(out)@.to_multiset() == old(out)@.to_multiset().insert(x),
        tools_sorted(final(out)@),
{
    let mut p: usize = 0;
    while p < out.len()
        invariant
            p <= out@.len(),
            out@ == old(out)@,
            forall|k: int| 0 <= k < p ==> tool_key(#[trigger] out@[k]) <= tool_key(x),
        ensures
            p <= out@.len(),
            out@ == old(out)@,
            forall|k: int| 0 <= k < p ==> tool_key(#[trigger] out@[k]) <= tool_key(x),
            p < out@.len() ==> tool_key(x) < tool_key(out@[p as int]),
        decreases out.len() - p,
    {
        if !range_key_le(out[p].name.range, x.name.range) {
            break ;
        }
        p = p + 1;
    }
    proof {
        to_multiset_insert(out@, p as int, x);
        let t = out@.insert(p as int, x);
        assert forall|i: int, j: int| 0 <= i < j < t.len() implies tool_key(t[i]) <= tool_key(
            t[j],
        ) by {
            if j > p {
                assert(tool_key(x) <= tool_key(out@[p as int]));
            }
        }
    }
    out.insert(p, x);
}

/// Looking up a dependency by any position on its own name or spec gives
/// that dependency back, provided no other declaration covers the position.
pub proof fn lemma_dependency_found_at_own_range(deps: Seq<Dependency>, i: int, pos: Position)
    requires
        0 <= i < deps.len(),
        dependency_contains(deps[i], pos),
        forall|j: int| 0 <= j < deps.len() && j != i ==> !dependency_contains(#[trigger] deps[j], pos),
    ensures
        dependency_at(deps, pos, 0) == Some(deps[i]),
{
    lemma_dependency_found_from(deps, i, pos, 0);
}

proof fn lemma_dependency_found_from(deps: Seq<Dependency>, i: int, pos: Position, k: int)
    requires
        0 <= k <= i < deps.len(),
        dependency_contains(deps[i], pos),
        forall|j: int| 0 <= j < deps.len() && j != i ==> !dependency_contains(#[trigger] deps[j], pos),
    ensures
        dependency_at(deps, pos, k) == Some(deps[i]),
    decreases i - k,
{
    if k < i {
        lemma_dependency_found_from(deps, i, pos, k + 1);
    }
}

/// Looking up a tool by any position on its own name or spec gives that
/// tool back, provided no other declaration covers the position.
pub proof fn lemma_tool_found_at_own_range(tools: Seq<Tool>, i: int, pos: Position)
    requires
        0 <= i < tools.len(),
        tool_contains(tools[i], pos),
        forall|j: int| 0 <= j < tools.len() && j != i ==> !tool_contains(#[trigger] tools[j], pos),
    ensures
        tool_at(tools, pos, 0) == Some(tools[i]),
{
    lemma_tool_found_from(tools, i, pos, 0);
}

proof fn lemma_tool_found_from(tools: Seq<Tool>, i: int, pos: Position, k: int)
    requires
        0 <= k <= i < tools.len(),
        tool_contains(tools[i], pos),
        forall|j: int| 0 <= j < tools.len() && j != i ==> !tool_contains(#[trigger] tools[j], pos),
    ensures
        tool_at(tools, pos, k) == Some(tools[i]),
    decreases i - k,
{
    if k < i {
        lemma_tool_found_from(tools, i, pos, k + 1);
    }
}

} // verus!
