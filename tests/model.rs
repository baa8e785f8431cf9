use manifest_lsp::model::{Dependency, DependencyKind, DependencySource, DependencySpec, Node};
use manifest_lsp::position::{
    point_to_position, range_contains, range_extend, Point, Position, Range,
};

fn pos(line: u32, character: u32) -> Position {
    Position { line, character }
}

fn range(l0: u32, c0: u32, l1: u32, c1: u32) -> Range {
    Range { start: pos(l0, c0), end: pos(l1, c1) }
}

fn text(r: Range, s: &str) -> Node<String> {
    Node::new_raw(r, s.to_string())
}

fn full(name: &str, line: u32, start: u32, end: u32) -> Dependency {
    let spec = DependencySpec {
        source: DependencySource::Registry,
        version: Some(text(range(line, start + 1, line, end - 1), "1.0.0")),
        features: None,
    };
    Dependency::new_full(
        DependencyKind::Default,
        text(range(line, 0, line, name.len() as u32), name),
        Node::new_raw(range(line, start, line, end), spec),
    )
}

fn partial(name: &str, line: u32) -> Dependency {
    Dependency::new_partial(DependencyKind::Dev, text(range(line, 0, line, name.len() as u32), name))
}

#[test]
fn unquoted_strips_one_pair_of_quotes() {
    let n = text(range(0, 0, 0, 7), "\"1.2.3\"");
    assert_eq!(n.unquoted(), "1.2.3");
    assert_eq!(n.quoted(), "\"1.2.3\"");
}

#[test]
fn unquoted_leaves_unquoted_text() {
    assert_eq!(text(range(0, 0, 0, 5), "1.2.3").unquoted(), "1.2.3");
    assert_eq!(text(range(0, 0, 0, 6), "\"1.2.3").unquoted(), "\"1.2.3");
    assert_eq!(text(range(0, 0, 0, 1), "\"").unquoted(), "\"");
    assert_eq!(text(range(0, 0, 0, 2), "\"\"").unquoted(), "");
}

#[test]
fn node_parse_reads_unquoted_version() {
    let v = text(range(0, 0, 0, 7), "\"1.2.3\"").parse().unwrap();
    assert_eq!((v.major, v.minor, v.patch), (1, 2, 3));
    let e = text(range(0, 0, 0, 5), "\"1.x\"").parse().unwrap_err();
    assert_eq!(e.text, "1.x");
}

#[test]
fn range_contains_is_inclusive() {
    let r = range(1, 4, 1, 9);
    assert!(range_contains(r, pos(1, 4)));
    assert!(range_contains(r, pos(1, 9)));
    assert!(range_contains(r, pos(1, 6)));
    assert!(!range_contains(r, pos(1, 3)));
    assert!(!range_contains(r, pos(1, 10)));
    assert!(!range_contains(r, pos(0, 5)));
    assert!(range_contains(range(1, 8, 3, 2), pos(2, 0)));
}

#[test]
fn range_extend_takes_outer_bounds() {
    let r = range_extend(range(2, 5, 2, 9), range(1, 7, 2, 3));
    assert_eq!(r, range(1, 7, 2, 9));
    let r = range_extend(range(0, 1, 0, 2), range(0, 1, 0, 2));
    assert_eq!(r, range(0, 1, 0, 2));
}

#[test]
fn point_to_position_keeps_coordinates() {
    assert_eq!(point_to_position(Point { row: 3, column: 17 }), pos(3, 17));
    let big = Point { row: (1usize << 32) + 5, column: 2 };
    assert_eq!(point_to_position(big), pos(5, 2));
}

#[test]
fn dependency_accessors() {
    let d = full("serde", 2, 8, 15);
    assert_eq!(d.kind(), DependencyKind::Default);
    assert_eq!(d.name().contents, "serde");
    assert_eq!(d.spec().unwrap().range, range(2, 8, 2, 15));
    let p = partial("tokio", 3);
    assert_eq!(p.kind(), DependencyKind::Dev);
    assert!(p.spec().is_none());
    let o = Dependency::new_opt(DependencyKind::Build, text(range(0, 0, 0, 1), "a"), None);
    assert!(matches!(o, Dependency::Partial { kind: DependencyKind::Build, .. }));
}

#[test]
fn dependency_source_contents() {
    assert_eq!(DependencySource::Registry.contents(), None);
    let p = DependencySource::Path { path: text(range(0, 0, 0, 4), "../a") };
    assert_eq!(p.contents(), Some("../a"));
    let g = DependencySource::Git { url: text(range(0, 0, 0, 5), "https") };
    assert_eq!(g.contents(), Some("https"));
}

#[test]
fn dependency_parse_version() {
    let v = full("serde", 0, 8, 15).parse_version().unwrap();
    assert_eq!((v.major, v.minor, v.patch), (1, 0, 0));
}

#[test]
fn empty_version_fails_for_dependencies() {
    let spec = DependencySpec::default();
    assert_eq!(spec.parse_version().unwrap_err().text, "");
    assert!(partial("x", 0).parse_version().is_err());
    let empty = DependencySpec {
        source: DependencySource::Registry,
        version: Some(text(range(0, 0, 0, 0), "")),
        features: None,
    };
    assert!(empty.parse_version().is_err());
}

#[test]
fn sort_places_full_first_in_spec_order() {
    let mut deps = vec![
        partial("log", 0),
        full("b", 5, 4, 9),
        partial("rand", 1),
        full("a", 2, 4, 9),
        full("c", 2, 2, 9),
        partial("regex", 7),
    ];
    Dependency::sort_vec(&mut deps);
    let names: Vec<&str> = deps.iter().map(|d| d.name().contents.as_str()).collect();
    assert_eq!(names, vec!["c", "a", "b", "log", "rand", "regex"]);
}

#[test]
fn sort_breaks_ties_on_spec_end() {
    let mut deps = vec![full("long", 1, 4, 12), full("short", 1, 4, 8)];
    Dependency::sort_vec(&mut deps);
    assert_eq!(deps[0].name().contents, "short");
    let mut empty: Vec<Dependency> = Vec::new();
    Dependency::sort_vec(&mut empty);
    assert!(empty.is_empty());
}

#[test]
fn find_dependency_by_name_or_spec() {
    let deps = vec![full("a", 0, 4, 9), partial("b", 1), full("c", 2, 4, 9)];
    for (i, d) in deps.iter().enumerate() {
        let on_name = d.name().range.start;
        assert_eq!(Dependency::find_at_pos(&deps, on_name), Some(&deps[i]));
        if let Some(s) = d.spec() {
            assert_eq!(Dependency::find_at_pos(&deps, s.range.end), Some(&deps[i]));
        }
    }
    assert_eq!(Dependency::find_at_pos(&deps, pos(1, 5)), None);
    assert_eq!(Dependency::find_at_pos(&deps, pos(9, 0)), None);
}

#[test]
fn find_dependency_takes_first_of_overlapping() {
    let deps = vec![full("x", 0, 0, 9), full("y", 0, 2, 9)];
    let found = Dependency::find_at_pos(&deps, pos(0, 3)).unwrap();
    assert_eq!(found.name().contents, "x");
}
