use mcproc::mcp::json::Json;
use mcproc::mcp::types::ToolInfo;
use mcproc::tools::catalog::{
    grep_tool_info, logs_tool_info, ps_tool_info, restart_tool_info, start_tool_info,
    status_tool_info, stop_tool_info,
};

fn get<'a>(j: &'a Json, key: &str) -> Option<&'a Json> {
    match j {
        Json::Object(ms) => ms.iter().find(|(k, _)| k == key).map(|(_, v)| v),
        _ => None,
    }
}

#[test]
fn all_tools_publish_nonempty_object_schemas_with_declared_required_fields() {
    let tools: Vec<(ToolInfo, &[&str])> = vec![
        (start_tool_info("mise, asdf"), &["name"]),
        (stop_tool_info(), &["name"]),
        (restart_tool_info(), &["name"]),
        (ps_tool_info(), &[]),
        (status_tool_info(), &["name"]),
        (logs_tool_info(), &["name"]),
        (grep_tool_info(), &["pattern", "name"]),
    ];
    for (info, expected_required) in tools {
        assert!(!info.name.trim().is_empty());
        assert!(!info.description.trim().is_empty(), "{}", info.name);
        assert!(matches!(get(&info.input_schema, "type"), Some(Json::Str(t)) if t == "object"));
        let properties = match get(&info.input_schema, "properties") {
            Some(Json::Object(p)) => p,
            _ => panic!("{} schema must declare properties", info.name),
        };
        if !expected_required.is_empty() {
            let required = match get(&info.input_schema, "required") {
                Some(Json::Array(r)) => r,
                _ => panic!("{} schema must declare required", info.name),
            };
            for field in expected_required {
                assert!(
                    required.iter().any(|v| matches!(v, Json::Str(s) if s == field)),
                    "{} must require {field}",
                    info.name
                );
                assert!(
                    properties.iter().any(|(k, _)| k == field),
                    "{} required field {field} must exist in properties",
                    info.name
                );
            }
        }
    }
}

#[test]
fn tool_names_and_toolchain_list() {
    let start = start_tool_info("mise, asdf");
    assert_eq!(start.name, "start_process");
    let props = get(&start.input_schema, "properties").unwrap();
    let toolchain = get(props, "toolchain").unwrap();
    match get(toolchain, "description") {
        Some(Json::Str(d)) => assert!(d.contains("Supported tools: mise, asdf. When specified")),
        other => panic!("expected description, got {other:?}"),
    }
    let args = get(props, "args").unwrap();
    assert!(matches!(get(get(args, "items").unwrap(), "type"), Some(Json::Str(t)) if t == "string"));
    assert_eq!(ps_tool_info().name, "list_processes");
    assert!(get(&ps_tool_info().input_schema, "required").is_none());
    assert_eq!(grep_tool_info().name, "search_process_logs");
}
