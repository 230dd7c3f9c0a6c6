//! What each tool publishes about itself: its name, what it does, and the
//! schema of its parameters.

use vstd::prelude::*;
use vstd::string::*;
use crate::mcp::json::{ArrayBuilder, Json, JsonV, ObjectBuilder};
use crate::mcp::types::ToolInfo;

verus! {

/// A property of a tool's parameters: its JSON type and description.
pub open spec fn prop_json(kind: Seq<char>, description: Seq<char>) -> JsonV {
    JsonV::Object(seq![("type"@, JsonV::Str(kind)), ("description"@, JsonV::Str(description))])
}

/// A property whose items (or map values, under `key`) have a JSON type.
pub open spec fn prop_json_with(kind: Seq<char>, key: Seq<char>, item: Seq<char>, description: Seq<char>) -> JsonV {
    JsonV::Object(
        seq![
            ("type"@, JsonV::Str(kind)),
            (key, JsonV::Object(seq![("type"@, JsonV::Str(item))])),
            ("description"@, JsonV::Str(description)),
        ],
    )
}

/// An object schema with the given properties and, when there are any,
/// required fields.
pub open spec fn schema_json(props: Seq<(Seq<char>, JsonV)>, required: Seq<Seq<char>>) -> JsonV {
    JsonV::Object(
        seq![("type"@, JsonV::Str("object"@)), ("properties"@, JsonV::Object(props))] + (if required.len() > 0 {
            seq![("required"@, JsonV::Array(required.map_values(|r: Seq<char>| JsonV::Str(r))))]
        } else {
            Seq::empty()
        }),
    )
}

/// Every required field is one of the properties.
pub open spec fn required_declared(props: Seq<(Seq<char>, JsonV)>, required: Seq<Seq<char>>) -> bool {
    forall|i: int|
        0 <= i < required.len() ==> exists|k: int|
            0 <= k < props.len() && #[trigger] props[k].0 == #[trigger] required[i]
}

/// Adds a property to a schema's properties.
fn put_prop(b: &mut ObjectBuilder, name: &str, kind: &str, description: &str)
    ensures
        final(b).value() == old(b).value().push((name@, prop_json(kind@, description@))),
{
    let mut p = ObjectBuilder::new();
    p.put("type", Json::text(kind));
    p.put("description", Json::text(description));
    assert(p.value() =~= prop_json(kind@, description@)->Object_0);
    b.put(name, p.build());
}

/// Adds a property with typed items to a schema's properties.
fn put_prop_with(b: &mut ObjectBuilder, name: &str, kind: &str, key: &str, item: &str, description: &str)
    ensures
        final(b).value() == old(b).value().push((name@, prop_json_with(kind@, key@, item@, description@))),
{
    let mut t = ObjectBuilder::new();
    t.put("type", Json::text(item));
    let tj = t.build();
    assert(tj@ == JsonV::Object(seq![("type"@, JsonV::Str(item@))])) by {
        assert(t.value() =~= seq![("type"@, JsonV::Str(item@))]);
    }
    let mut p = ObjectBuilder::new();
    p.put("type", Json::text(kind));
    p.put(key, tj);
    p.put("description", Json::text(description));
    assert(p.value() =~= prop_json_with(kind@, key@, item@, description@)->Object_0);
    b.put(name, p.build());
}

/// The object schema built from properties and required fields.
fn schema(props: ObjectBuilder, required: Vec<&str>) -> (r: Json)
    ensures
        r@ == schema_json(props.value(), required@.map_values(|s: &str| s@)),
{
    let ghost pv = props.value();
    let ghost rv = required@.map_values(|s: &str| s@);
    let mut b = ObjectBuilder::new();
    b.put("type", Json::text("object"));
    b.put("properties", props.build());
    if required.len() > 0 {
        let mut a = ArrayBuilder::new();
        let mut i: usize = 0;
        while i < required.len()
            invariant
                i <= required.len(),
                a.value() =~= required@.take(i as int).map_values(|s: &str| JsonV::Str(s@)),
            decreases required.len() - i,
        {
            a.push(Json::text(required[i]));
            assert(required@.take(i + 1) =~= required@.take(i as int).push(required@[i as int]));
            i = i + 1;
        }
        assert(required@.take(required.len() as int) =~= required@);
        assert(a.value() =~= rv.map_values(|r: Seq<char>| JsonV::Str(r)));
        b.put("required", a.build());
    }
    assert(b.value() =~= schema_json(pv, rv)->Object_0);
    b.build()
}
/// The properties of the `start_process` tool's parameters.
pub open spec fn start_props(toolchains: Seq<char>) -> Seq<(Seq<char>, JsonV)> {
    seq![
        ("name"@, prop_json("string"@, "Unique identifier for this process. Use descriptive names like 'frontend-dev', 'backend-api', 'docs-server'. Do NOT include the project name in the process name as processes are already organized by project. This name is used to reference the process in other commands."@)),
        ("cmd"@, prop_json("string"@, "Shell command to execute. Use this for commands that need shell features like pipes (|), redirects (>), or environment variable expansion. Examples: 'npm run dev', 'yarn start', 'python -m http.server 8000', 'NODE_ENV=development npm start'. Choose either 'cmd' or 'args', not both."@)),
        ("args"@, prop_json_with("array"@, "items"@, "string"@, "Command and arguments as an array for direct execution without shell interpretation. Safer than 'cmd' for user input. Examples: ['npm', 'run', 'dev'], ['python', '-m', 'http.server', '8000']. Choose either 'cmd' or 'args', not both."@)),
        ("cwd"@, prop_json("string"@, "Working directory path. Absolute paths are recommended for clarity and consistency. Defaults to current directory if not specified."@)),
        ("project"@, prop_json("string"@, "Project name (defaults to directory name)"@)),
        ("env"@, prop_json("object"@, "Environment variables to set for the process"@)),
        ("wait_for_log"@, prop_json("string"@, "Optional regex pattern to wait for in the process output before considering it ready. Useful for servers that take time to start. For best results, use patterns that indicate the bound address (e.g., 'Local:\\s+http://', 'Listening on', 'Server running at'). Common examples: Next.js: 'Local:', Vite: 'Local:', Express: 'listening on', Python http.server: 'Serving HTTP on', .NET: 'Now listening on'. The tool will wait up to wait_timeout seconds."@)),
        ("wait_timeout"@, prop_json("integer"@, "Timeout for log wait in seconds (default: 30)"@)),
        ("force_restart"@, prop_json("boolean"@, "If true, automatically stop any existing process with the same name before starting. This prevents 'already running' errors and ensures a fresh start. Useful when the LLM agent isn't sure if a process is running or when you want to guarantee a clean restart. (default: false)"@)),
        ("toolchain"@, prop_json("string"@, "Version management tool to use for executing the command. Supported tools: "@ + toolchains + ". When specified, the command will be executed through the tool (e.g., 'mise exec -- <command>'). This ensures proper PATH resolution for tool-managed environments."@)),
    ]
}

/// The required parameters of the `start_process` tool.
pub open spec fn start_required() -> Seq<Seq<char>> {
    seq!["name"@]
}

/// What the `start_process` tool publishes about itself.
pub fn start_tool_info(supported_toolchains: &str) -> (r: ToolInfo)
    ensures
        r.name@ == "start_process"@,
        r.description@ == "Start and manage a long-running development process (web servers, build watchers, etc). The process will continue running in the background and can be monitored/controlled later. Use this for commands like 'npm run dev', 'python app.py', 'cargo watch', etc. Each process needs a unique name for identification. Use force_restart=true to automatically stop and restart an existing process with the same name, which is useful when you're unsure if the process is already running.\n\nNOTE: Processes are NOT connected to a TTY, so many tools disable colored output by default. To enable colors:\n- For npm/yarn/pnpm: Add --color or --color=always flag (e.g., 'npm run dev --color')\n- For cargo: Set CARGO_TERM_COLOR=always in env parameter\n- For other tools: Check their documentation for color flags or use env parameter to set FORCE_COLOR=1\n\nTOOLCHAIN SUPPORT: If you're using version management tools like mise, asdf, nvm, etc., specify the toolchain parameter to ensure proper path resolution. The command will be executed through the specified tool (e.g., 'mise exec -- <command>' for mise)."@,
        r.input_schema@ == schema_json(start_props(supported_toolchains@), start_required()),
{
    let mut props = ObjectBuilder::new();
    put_prop(&mut props, "name", "string", "Unique identifier for this process. Use descriptive names like 'frontend-dev', 'backend-api', 'docs-server'. Do NOT include the project name in the process name as processes are already organized by project. This name is used to reference the process in other commands.");
    put_prop(&mut props, "cmd", "string", "Shell command to execute. Use this for commands that need shell features like pipes (|), redirects (>), or environment variable expansion. Examples: 'npm run dev', 'yarn start', 'python -m http.server 8000', 'NODE_ENV=development npm start'. Choose either 'cmd' or 'args', not both.");
    put_prop_with(&mut props, "args", "array", "items", "string", "Command and arguments as an array for direct execution without shell interpretation. Safer than 'cmd' for user input. Examples: ['npm', 'run', 'dev'], ['python', '-m', 'http.server', '8000']. Choose either 'cmd' or 'args', not both.");
    put_prop(&mut props, "cwd", "string", "Working directory path. Absolute paths are recommended for clarity and consistency. Defaults to current directory if not specified.");
    put_prop(&mut props, "project", "string", "Project name (defaults to directory name)");
    put_prop(&mut props, "env", "object", "Environment variables to set for the process");
    put_prop(&mut props, "wait_for_log", "string", "Optional regex pattern to wait for in the process output before considering it ready. Useful for servers that take time to start. For best results, use patterns that indicate the bound address (e.g., 'Local:\\s+http://', 'Listening on', 'Server running at'). Common examples: Next.js: 'Local:', Vite: 'Local:', Express: 'listening on', Python http.server: 'Serving HTTP on', .NET: 'Now listening on'. The tool will wait up to wait_timeout seconds.");
    put_prop(&mut props, "wait_timeout", "integer", "Timeout for log wait in seconds (default: 30)");
    put_prop(&mut props, "force_restart", "boolean", "If true, automatically stop any existing process with the same name before starting. This prevents 'already running' errors and ensures a fresh start. Useful when the LLM agent isn't sure if a process is running or when you want to guarantee a clean restart. (default: false)");
    let mut d = String::from_str("Version management tool to use for executing the command. Supported tools: ");
    d.append(supported_toolchains);
    d.append(". When specified, the command will be executed through the tool (e.g., 'mise exec -- <command>'). This ensures proper PATH resolution for tool-managed environments.");
    put_prop(&mut props, "toolchain", "string", d.as_str());
    assert(props.value() =~= start_props(supported_toolchains@));
    let required: Vec<&str> = vec!["name"];
    assert(required@.map_values(|s: &str| s@) =~= start_required()) by {
        reveal_strlit("name");
    }
    ToolInfo {
        name: String::from_str("start_process"),
        description: String::from_str("Start and manage a long-running development process (web servers, build watchers, etc). The process will continue running in the background and can be monitored/controlled later. Use this for commands like 'npm run dev', 'python app.py', 'cargo watch', etc. Each process needs a unique name for identification. Use force_restart=true to automatically stop and restart an existing process with the same name, which is useful when you're unsure if the process is already running.\n\nNOTE: Processes are NOT connected to a TTY, so many tools disable colored output by default. To enable colors:\n- For npm/yarn/pnpm: Add --color or --color=always flag (e.g., 'npm run dev --color')\n- For cargo: Set CARGO_TERM_COLOR=always in env parameter\n- For other tools: Check their documentation for color flags or use env parameter to set FORCE_COLOR=1\n\nTOOLCHAIN SUPPORT: If you're using version management tools like mise, asdf, nvm, etc., specify the toolchain parameter to ensure proper path resolution. The command will be executed through the specified tool (e.g., 'mise exec -- <command>' for mise)."),
        input_schema: schema(props, required),
    }
}
/// The properties of the `stop_process` tool's parameters.
pub open spec fn stop_props() -> Seq<(Seq<char>, JsonV)> {
    seq![
        ("name"@, prop_json("string"@, "Name of the process to stop (the same name used when starting it with start_process)"@)),
        ("project"@, prop_json("string"@, "Optional project name to scope the process lookup. Useful when multiple projects have processes with the same name."@)),
    ]
}

/// The required parameters of the `stop_process` tool.
pub open spec fn stop_required() -> Seq<Seq<char>> {
    seq!["name"@]
}

/// What the `stop_process` tool publishes about itself.
pub fn stop_tool_info() -> (r: ToolInfo)
    ensures
        r.name@ == "stop_process"@,
        r.description@ == "Gracefully stop a running process by name. This sends a SIGTERM signal to allow the process to clean up before exiting. Use this to stop servers, watchers, or any background process started with start_process."@,
        r.input_schema@ == schema_json(stop_props(), stop_required()),
{
    let mut props = ObjectBuilder::new();
    put_prop(&mut props, "name", "string", "Name of the process to stop (the same name used when starting it with start_process)");
    put_prop(&mut props, "project", "string", "Optional project name to scope the process lookup. Useful when multiple projects have processes with the same name.");
    assert(props.value() =~= stop_props());
    let required: Vec<&str> = vec!["name"];
    assert(required@.map_values(|s: &str| s@) =~= stop_required()) by {
        reveal_strlit("name");
    }
    ToolInfo {
        name: String::from_str("stop_process"),
        description: String::from_str("Gracefully stop a running process by name. This sends a SIGTERM signal to allow the process to clean up before exiting. Use this to stop servers, watchers, or any background process started with start_process."),
        input_schema: schema(props, required),
    }
}
/// The properties of the `restart_process` tool's parameters.
pub open spec fn restart_props() -> Seq<(Seq<char>, JsonV)> {
    seq![
        ("name"@, prop_json("string"@, "Name of the process to restart (must be currently running or recently stopped)"@)),
        ("project"@, prop_json("string"@, "Optional project name to scope the process lookup. Useful when multiple projects have processes with the same name."@)),
        ("wait_for_log"@, prop_json("string"@, "Override the regex pattern to wait for in logs before considering the process ready. If not specified, uses the pattern from the original start command. Use this when the server's startup message has changed or to detect a different ready state."@)),
        ("wait_timeout"@, prop_json("integer"@, "Override the timeout in seconds for waiting for the log pattern. If not specified, uses the timeout from the original start command. Increase this if the server takes longer to start after updates."@)),
    ]
}

/// The required parameters of the `restart_process` tool.
pub open spec fn restart_required() -> Seq<Seq<char>> {
    seq!["name"@]
}

/// What the `restart_process` tool publishes about itself.
pub fn restart_tool_info() -> (r: ToolInfo)
    ensures
        r.name@ == "restart_process"@,
        r.description@ == "Restart a running process by stopping it and starting it again. By default, uses the same wait_for_log pattern and timeout from the original start. You can override these values to change the startup detection behavior. This is especially useful when the server's startup log pattern changes or when you need to adjust the timeout. The process will be restarted with the same command, working directory, and environment variables."@,
        r.input_schema@ == schema_json(restart_props(), restart_required()),
{
    let mut props = ObjectBuilder::new();
    put_prop(&mut props, "name", "string", "Name of the process to restart (must be currently running or recently stopped)");
    put_prop(&mut props, "project", "string", "Optional project name to scope the process lookup. Useful when multiple projects have processes with the same name.");
    put_prop(&mut props, "wait_for_log", "string", "Override the regex pattern to wait for in logs before considering the process ready. If not specified, uses the pattern from the original start command. Use this when the server's startup message has changed or to detect a different ready state.");
    put_prop(&mut props, "wait_timeout", "integer", "Override the timeout in seconds for waiting for the log pattern. If not specified, uses the timeout from the original start command. Increase this if the server takes longer to start after updates.");
    assert(props.value() =~= restart_props());
    let required: Vec<&str> = vec!["name"];
    assert(required@.map_values(|s: &str| s@) =~= restart_required()) by {
        reveal_strlit("name");
    }
    ToolInfo {
        name: String::from_str("restart_process"),
        description: String::from_str("Restart a running process by stopping it and starting it again. By default, uses the same wait_for_log pattern and timeout from the original start. You can override these values to change the startup detection behavior. This is especially useful when the server's startup log pattern changes or when you need to adjust the timeout. The process will be restarted with the same command, working directory, and environment variables."),
        input_schema: schema(props, required),
    }
}
/// The properties of the `list_processes` tool's parameters.
pub open spec fn ps_props() -> Seq<(Seq<char>, JsonV)> {
    Seq::empty()
}

/// The required parameters of the `list_processes` tool.
pub open spec fn ps_required() -> Seq<Seq<char>> {
    Seq::empty()
}

/// What the `list_processes` tool publishes about itself.
pub fn ps_tool_info() -> (r: ToolInfo)
    ensures
        r.name@ == "list_processes"@,
        r.description@ == "List all processes managed by mcproc across all projects. Shows process names, status (running/stopped/failed), PIDs, start times, and detected ports. Use this to see what's currently running before starting new processes or to find process names for other commands."@,
        r.input_schema@ == schema_json(ps_props(), ps_required()),
{
    let mut props = ObjectBuilder::new();

    assert(props.value() =~= ps_props());
    let required: Vec<&str> = Vec::new();
    assert(required@.map_values(|s: &str| s@) =~= ps_required()) by {
        
    }
    ToolInfo {
        name: String::from_str("list_processes"),
        description: String::from_str("List all processes managed by mcproc across all projects. Shows process names, status (running/stopped/failed), PIDs, start times, and detected ports. Use this to see what's currently running before starting new processes or to find process names for other commands."),
        input_schema: schema(props, required),
    }
}
/// The properties of the `get_process_logs` tool's parameters.
pub open spec fn logs_props() -> Seq<(Seq<char>, JsonV)> {
    seq![
        ("name"@, prop_json("string"@, "Name of the process to get logs from"@)),
        ("tail"@, prop_json("integer"@, "Number of most recent lines to retrieve. Default is 100. Use larger values to see more history."@)),
        ("project"@, prop_json("string"@, "Optional project name to scope the process lookup. Useful when multiple projects have processes with the same name."@)),
    ]
}

/// The required parameters of the `get_process_logs` tool.
pub open spec fn logs_required() -> Seq<Seq<char>> {
    seq!["name"@]
}

/// What the `get_process_logs` tool publishes about itself.
pub fn logs_tool_info() -> (r: ToolInfo)
    ensures
        r.name@ == "get_process_logs"@,
        r.description@ == "Retrieve console output and logs from a process. Returns the most recent log entries including stdout, stderr, and any output from the process. Useful for debugging issues, checking server status, or monitoring process behavior. Logs are persisted even after process stops."@,
        r.input_schema@ == schema_json(logs_props(), logs_required()),
{
    let mut props = ObjectBuilder::new();
    put_prop(&mut props, "name", "string", "Name of the process to get logs from");
    put_prop(&mut props, "tail", "integer", "Number of most recent lines to retrieve. Default is 100. Use larger values to see more history.");
    put_prop(&mut props, "project", "string", "Optional project name to scope the process lookup. Useful when multiple projects have processes with the same name.");
    assert(props.value() =~= logs_props());
    let required: Vec<&str> = vec!["name"];
    assert(required@.map_values(|s: &str| s@) =~= logs_required()) by {
        reveal_strlit("name");
    }
    ToolInfo {
        name: String::from_str("get_process_logs"),
        description: String::from_str("Retrieve console output and logs from a process. Returns the most recent log entries including stdout, stderr, and any output from the process. Useful for debugging issues, checking server status, or monitoring process behavior. Logs are persisted even after process stops."),
        input_schema: schema(props, required),
    }
}
/// The properties of the `get_process_status` tool's parameters.
pub open spec fn status_props() -> Seq<(Seq<char>, JsonV)> {
    seq![
        ("name"@, prop_json("string"@, "Name of the process to check status for"@)),
        ("project"@, prop_json("string"@, "Optional project name to scope the process lookup. Useful when multiple projects have processes with the same name."@)),
    ]
}

/// The required parameters of the `get_process_status` tool.
pub open spec fn status_required() -> Seq<Seq<char>> {
    seq!["name"@]
}

/// What the `get_process_status` tool publishes about itself.
pub fn status_tool_info() -> (r: ToolInfo)
    ensures
        r.name@ == "get_process_status"@,
        r.description@ == "Get comprehensive status information for a specific process including: current state (running/stopped/failed), PID, uptime, command line, working directory, detected ports, and recent log preview. Use this to check if a process is healthy or to debug why it might have stopped."@,
        r.input_schema@ == schema_json(status_props(), status_required()),
{
    let mut props = ObjectBuilder::new();
    put_prop(&mut props, "name", "string", "Name of the process to check status for");
    put_prop(&mut props, "project", "string", "Optional project name to scope the process lookup. Useful when multiple projects have processes with the same name.");
    assert(props.value() =~= status_props());
    let required: Vec<&str> = vec!["name"];
    assert(required@.map_values(|s: &str| s@) =~= status_required()) by {
        reveal_strlit("name");
    }
    ToolInfo {
        name: String::from_str("get_process_status"),
        description: String::from_str("Get comprehensive status information for a specific process including: current state (running/stopped/failed), PID, uptime, command line, working directory, detected ports, and recent log preview. Use this to check if a process is healthy or to debug why it might have stopped."),
        input_schema: schema(props, required),
    }
}
/// The properties of the `search_process_logs` tool's parameters.
pub open spec fn grep_props() -> Seq<(Seq<char>, JsonV)> {
    seq![
        ("pattern"@, prop_json("string"@, "Regex pattern to search for. Examples: 'error', 'failed.*connection', 'started on port \\d+', '\\[ERROR\\]|\\[WARN\\]'"@)),
        ("name"@, prop_json("string"@, "Name of the process whose logs to search"@)),
        ("project"@, prop_json("string"@, "Optional project name to scope the process lookup. Useful when multiple projects have processes with the same name."@)),
        ("context"@, prop_json("integer"@, "Number of lines to show before and after each match for context. Default is 3. Set to 0 for matches only."@)),
        ("before"@, prop_json("integer"@, "Override context - number of lines to show before each match"@)),
        ("after"@, prop_json("integer"@, "Override context - number of lines to show after each match"@)),
        ("since"@, prop_json("string"@, "Only search logs after this time. Format: 'YYYY-MM-DD HH:MM' or just 'HH:MM' for today"@)),
        ("until"@, prop_json("string"@, "Only search logs before this time. Format: 'YYYY-MM-DD HH:MM' or just 'HH:MM' for today"@)),
        ("last"@, prop_json("string"@, "Only search recent logs. Examples: '1h' (last hour), '30m' (last 30 minutes), '2d' (last 2 days)"@)),
    ]
}

/// The required parameters of the `search_process_logs` tool.
pub open spec fn grep_required() -> Seq<Seq<char>> {
    seq!["pattern"@, "name"@]
}

/// What the `search_process_logs` tool publishes about itself.
pub fn grep_tool_info() -> (r: ToolInfo)
    ensures
        r.name@ == "search_process_logs"@,
        r.description@ == "Search through process logs using regex patterns to find specific errors, events, or messages. Returns matching lines with surrounding context to help understand what happened. Perfect for debugging issues like 'find all error messages' or 'show when the server started'. Searches through the entire log history, not just recent entries."@,
        r.input_schema@ == schema_json(grep_props(), grep_required()),
{
    let mut props = ObjectBuilder::new();
    put_prop(&mut props, "pattern", "string", "Regex pattern to search for. Examples: 'error', 'failed.*connection', 'started on port \\d+', '\\[ERROR\\]|\\[WARN\\]'");
    put_prop(&mut props, "name", "string", "Name of the process whose logs to search");
    put_prop(&mut props, "project", "string", "Optional project name to scope the process lookup. Useful when multiple projects have processes with the same name.");
    put_prop(&mut props, "context", "integer", "Number of lines to show before and after each match for context. Default is 3. Set to 0 for matches only.");
    put_prop(&mut props, "before", "integer", "Override context - number of lines to show before each match");
    put_prop(&mut props, "after", "integer", "Override context - number of lines to show after each match");
    put_prop(&mut props, "since", "string", "Only search logs after this time. Format: 'YYYY-MM-DD HH:MM' or just 'HH:MM' for today");
    put_prop(&mut props, "until", "string", "Only search logs before this time. Format: 'YYYY-MM-DD HH:MM' or just 'HH:MM' for today");
    put_prop(&mut props, "last", "string", "Only search recent logs. Examples: '1h' (last hour), '30m' (last 30 minutes), '2d' (last 2 days)");
    assert(props.value() =~= grep_props());
    let required: Vec<&str> = vec!["pattern", "name"];
    assert(required@.map_values(|s: &str| s@) =~= grep_required()) by {
        reveal_strlit("pattern"); reveal_strlit("name");
    }
    ToolInfo {
        name: String::from_str("search_process_logs"),
        description: String::from_str("Search through process logs using regex patterns to find specific errors, events, or messages. Returns matching lines with surrounding context to help understand what happened. Perfect for debugging issues like 'find all error messages' or 'show when the server started'. Searches through the entire log history, not just recent entries."),
        input_schema: schema(props, required),
    }
}
/// Every tool publishes an object schema whose required fields are all
/// among its declared properties.
pub proof fn published_schemas_declare_required_fields(toolchains: Seq<char>)
    ensures
        required_declared(start_props(toolchains), start_required()),
        required_declared(stop_props(), stop_required()),
        required_declared(restart_props(), restart_required()),
        required_declared(ps_props(), ps_required()),
        required_declared(logs_props(), logs_required()),
        required_declared(status_props(), status_required()),
        required_declared(grep_props(), grep_required()),
{
    assert(start_props(toolchains)[0].0 == start_required()[0]);
    assert(stop_props()[0].0 == stop_required()[0]);
    assert(restart_props()[0].0 == restart_required()[0]);
    assert(logs_props()[0].0 == logs_required()[0]);
    assert(status_props()[0].0 == status_required()[0]);
    assert(grep_props()[0].0 == grep_required()[0]);
    assert(grep_props()[1].0 == grep_required()[1]);
}

} // verus!
