use mcproc::mcp::error::Error;
use mcproc::project::{resolve_mcp_project_name, resolve_project_name};

fn s(x: &str) -> Option<String> {
    Some(x.to_string())
}

#[test]
fn project_name_prefers_the_given_one() {
    assert_eq!(resolve_project_name(s("given"), s("cwd")), Ok("given".to_string()));
    assert_eq!(resolve_project_name(None, s("cwd")), Ok("cwd".to_string()));
    assert_eq!(
        resolve_project_name(None, None),
        Err("Unable to determine project name from current directory".to_string())
    );
}

fn invalid(r: Result<String, Error>) -> String {
    match r {
        Err(Error::InvalidParams(m)) => m,
        other => panic!("expected invalid params, got {other:?}"),
    }
}

#[test]
fn mcp_project_name_sources_in_order() {
    assert_eq!(resolve_mcp_project_name(s("p"), s("e"), s("c")).unwrap(), "p");
    assert_eq!(resolve_mcp_project_name(None, s("e"), s("c")).unwrap(), "e");
    assert_eq!(resolve_mcp_project_name(None, None, s("c")).unwrap(), "c");
    assert_eq!(
        invalid(resolve_mcp_project_name(s("a/b"), s("e"), s("c"))),
        "Invalid project name: Project name cannot contain path separators (/ or \\)"
    );
    assert_eq!(
        invalid(resolve_mcp_project_name(None, s(""), s("c"))),
        "Invalid project name from MCPROC_DEFAULT_PROJECT: Project name cannot be empty"
    );
    assert_eq!(
        invalid(resolve_mcp_project_name(None, None, s("CON"))),
        "Invalid project name from current directory 'CON': 'CON' is a reserved name on Windows"
    );
    assert_eq!(
        invalid(resolve_mcp_project_name(None, None, None)),
        "Unable to determine project name. Please specify --project, set MCPROC_DEFAULT_PROJECT, or run from a valid project directory"
    );
}
