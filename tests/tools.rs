use manifest_lsp::handler::{completion_target, is_tool_manifest, CompletionTarget};
use manifest_lsp::model::Node;
use manifest_lsp::position::{Position, Range};
use manifest_lsp::tool::{Tool, ToolSpecParsed};

fn pos(line: u32, character: u32) -> Position {
    Position { line, character }
}

fn span(line: u32, c0: u32, c1: u32) -> Range {
    Range { start: pos(line, c0), end: pos(line, c1) }
}

/// A tool `name = <spec>` on `line`, its spec starting at column 10.
fn tool(line: u32, name: &str, spec: &str) -> Tool {
    Tool {
        name: Node::new_raw(span(line, 0, name.len() as u32), name.to_string()),
        spec: Node::new_raw(span(line, 10, 10 + spec.len() as u32), spec.to_string()),
    }
}

#[test]
fn full_tool_spec_parses_with_ranges() {
    let p = tool(0, "rojo", "\"owner/repo@1.0.0\"").parsed_spec();
    assert_eq!(p.owner.contents, "owner");
    assert_eq!(p.owner.range, span(0, 11, 16));
    let repo = p.repository.clone().unwrap();
    assert_eq!(repo.contents, "repo");
    assert_eq!(repo.range, span(0, 17, 21));
    let version = p.version.clone().unwrap();
    assert_eq!(version.contents, "1.0.0");
    assert_eq!(version.range, span(0, 22, 27));
    let full = p.into_full().unwrap();
    assert_eq!(full.repository.contents, "repo");
    assert_eq!(full.range(), span(0, 11, 27));
    let v = full.parse_version().unwrap();
    assert_eq!((v.major, v.minor, v.patch), (1, 0, 0));
}

#[test]
fn repeated_tokens_get_distinct_ranges() {
    let p = tool(3, "t", "\"owner/owner@owner\"").parsed_spec();
    let starts = [
        p.owner.range.start.character,
        p.repository.unwrap().range.start.character,
        p.version.unwrap().range.start.character,
    ];
    assert_eq!(starts, [11, 17, 23]);
}

#[test]
fn owner_only_spec_is_partial() {
    let p = tool(0, "t", "\"owner\"").parsed_spec();
    assert_eq!(p.owner.contents, "owner");
    assert_eq!(p.owner.range, span(0, 11, 16));
    assert!(p.repository.is_none());
    assert!(p.version.is_none());
    assert!(p.into_full().is_none());
}

#[test]
fn spec_without_version_is_not_full() {
    let p = tool(0, "t", "\"owner/repo\"").parsed_spec();
    assert_eq!(p.repository.clone().unwrap().contents, "repo");
    assert!(p.version.is_none());
    assert!(p.into_full().is_none());
}

#[test]
fn unquoted_spec_starts_at_its_first_column() {
    let p = tool(0, "t", "a/b@1").parsed_spec();
    assert_eq!(p.owner.range, span(0, 10, 11));
    assert_eq!(p.version.unwrap().range, span(0, 14, 15));
}

#[test]
fn empty_version_fails_for_tools() {
    assert!(tool(0, "t", "\"owner/repo\"").parse_version().is_err());
    assert!(tool(0, "t", "\"owner/repo@\"").parse_version().is_err());
    let parsed = ToolSpecParsed {
        owner: Node::new_raw(span(0, 0, 1), "o".to_string()),
        repository: None,
        version: None,
    };
    assert_eq!(parsed.parse_version().unwrap_err().text, "");
    let full = tool(0, "t", "\"o/r@\"").parsed_spec().into_full().unwrap();
    assert!(full.parse_version().is_err());
    let v = tool(0, "t", "\"o/r@2.3.4\"").parse_version().unwrap();
    assert_eq!((v.major, v.minor, v.patch), (2, 3, 4));
}

#[test]
fn sort_tools_by_name_range() {
    let mut tools = vec![tool(4, "c", "\"a\""), tool(1, "a", "\"b\""), tool(2, "b", "\"c\"")];
    Tool::sort_vec(&mut tools);
    let names: Vec<&str> = tools.iter().map(|t| t.name.contents.as_str()).collect();
    assert_eq!(names, vec!["a", "b", "c"]);
}

#[test]
fn find_tool_by_name_or_spec() {
    let tools = vec![tool(0, "a", "\"x/y@1\""), tool(1, "b", "\"z\"")];
    assert_eq!(Tool::find_at_pos(&tools, pos(1, 0)), Some(&tools[1]));
    assert_eq!(Tool::find_at_pos(&tools, pos(0, 12)), Some(&tools[0]));
    assert_eq!(Tool::find_at_pos(&tools, pos(1, 5)), None);
}

#[test]
fn completion_at_version_boundary_is_version() {
    let t = tool(0, "rojo", "\"owner/repo@1.0.0\"");
    assert_eq!(completion_target(&t, pos(0, 22)), Some(CompletionTarget::Version));
    assert_eq!(completion_target(&t, pos(0, 27)), Some(CompletionTarget::Version));
    assert_eq!(completion_target(&t, pos(0, 21)), Some(CompletionTarget::Repository));
    assert_eq!(completion_target(&t, pos(0, 17)), Some(CompletionTarget::Repository));
    assert_eq!(completion_target(&t, pos(0, 11)), Some(CompletionTarget::Owner));
    assert_eq!(completion_target(&t, pos(0, 10)), None);
    assert_eq!(completion_target(&t, pos(1, 0)), None);
}

#[test]
fn empty_owner_is_completed_anywhere_on_spec() {
    let t = tool(0, "rojo", "\"\"");
    assert_eq!(completion_target(&t, pos(0, 10)), Some(CompletionTarget::Owner));
    assert_eq!(completion_target(&t, pos(0, 12)), Some(CompletionTarget::Owner));
    assert_eq!(completion_target(&t, pos(0, 13)), None);
}

#[test]
fn tool_manifest_names() {
    assert!(is_tool_manifest("rokit.toml"));
    assert!(is_tool_manifest("ROKIT.toml"));
    assert!(is_tool_manifest("Aftman.TOML"));
    assert!(!is_tool_manifest("Cargo.toml"));
    assert!(!is_tool_manifest("rokit.toml.bak"));
}
