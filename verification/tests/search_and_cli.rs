//! The search-pool grouping and the CLI-description helpers.

use lsp_dispatch::cli_info::{arg_display_name, long_aliases, long_flag};
use lsp_dispatch::protocol::{HandlerError, LspError, RequestId};
use lsp_dispatch::search_index::{group_by_project, DocEntry, JsonSearchItem};

fn entry(project: &str, name: &str) -> DocEntry {
    DocEntry {
        project_name: project.to_string(),
        item: JsonSearchItem::new(
            name.to_string(),
            format!("{name}.html"),
            vec![project.to_string(), name.to_string()],
        ),
    }
}

#[test]
fn grouping_three_docs_two_projects() {
    let docs = vec![entry("core", "add"), entry("lib", "run"), entry("core", "sub")];
    let groups = group_by_project(docs);
    assert_eq!(groups.len(), 2);
    let core = groups.iter().find(|g| g.project_name == "core").unwrap();
    let lib = groups.iter().find(|g| g.project_name == "lib").unwrap();
    assert_eq!(core.items.len(), 2);
    assert_eq!(core.items[0].name, "add");
    assert_eq!(core.items[1].name, "sub");
    assert_eq!(lib.items.len(), 1);
    assert_eq!(lib.items[0].name, "run");
    assert_eq!(lib.items[0].html_filename, "run.html");
}

#[test]
fn grouping_empty_input() {
    let groups = group_by_project(Vec::new());
    assert_eq!(groups.len(), 0);
}

#[test]
fn grouping_single_project_keeps_order() {
    let docs = vec![entry("p", "c"), entry("p", "a"), entry("p", "b")];
    let groups = group_by_project(docs);
    assert_eq!(groups.len(), 1);
    let names: Vec<&str> = groups[0].items.iter().map(|i| i.name.as_str()).collect();
    assert_eq!(names, ["c", "a", "b"]);
}

#[test]
fn search_item_fields() {
    let item = JsonSearchItem::new(
        "foo".to_string(),
        "foo.html".to_string(),
        vec!["m1".to_string(), "m2".to_string()],
    );
    assert_eq!(item.name, "foo");
    assert_eq!(item.html_filename, "foo.html");
    assert_eq!(item.module_info, ["m1", "m2"]);
}

#[test]
fn long_flag_prefixes() {
    assert_eq!(long_flag(&"verbose".to_string()), "--verbose");
}

#[test]
fn arg_display_name_by_form() {
    assert_eq!(arg_display_name(&"output".to_string(), true), "--output");
    assert_eq!(arg_display_name(&"FILE".to_string(), false), "FILE");
}

#[test]
fn long_aliases_in_order() {
    let names = vec!["quiet".to_string(), "silent".to_string()];
    assert_eq!(long_aliases(&names), ["--quiet", "--silent"]);
}

#[test]
fn request_id_duplicate_equal() {
    let a = RequestId::Str("abc".to_string());
    assert_eq!(a.duplicate(), a);
    let b = RequestId::Num(12);
    assert_eq!(b.duplicate(), b);
}

#[test]
fn handler_error_descriptions() {
    assert_eq!(
        HandlerError::Lsp(LspError { code: 1, message: "m".to_string() }).describe(),
        "m"
    );
    assert_eq!(HandlerError::Cancelled.describe(), "cancelled");
    assert_eq!(HandlerError::Other("why".to_string()).describe(), "why");
}
