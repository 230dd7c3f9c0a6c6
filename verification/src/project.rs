//! Choosing the project a command or a tool call works on.

use vstd::prelude::*;
use vstd::string::*;
use crate::mcp::error::Error as McpError;
use crate::validation::{project_name_error, validate_project_name};

verus! {

/// The project given, else the one named by the current directory, else an
/// error.
pub fn resolve_project_name(project: Option<String>, cwd_project: Option<String>) -> (r: Result<String, String>)
    ensures
        match project {
            Some(p) => r matches Ok(v) && v@ == p@,
            None => match cwd_project {
                Some(c) => r matches Ok(v) && v@ == c@,
                None => r matches Err(e) && e@
                    == "Unable to determine project name from current directory"@,
            },
        },
{
    match project {
        Some(p) => Ok(p),
        None => match cwd_project {
            Some(c) => Ok(c),
            None => Err(String::from_str("Unable to determine project name from current directory")),
        },
    }
}

/// The outcome of choosing a tool call's project: the first source that
/// names one, among the call's parameter, `MCPROC_DEFAULT_PROJECT` and the
/// current directory, decides; its name must be valid, else the call's
/// parameters are refused with the reason, and with no source at all they
/// are refused too.
pub open spec fn mcp_project_outcome(
    params_project: Option<String>,
    env_project: Option<String>,
    cwd_project: Option<String>,
) -> Result<Seq<char>, Seq<char>> {
    match params_project {
        Some(p) => match project_name_error(p@) {
            None => Ok(p@),
            Some(e) => Err("Invalid project name: "@ + e),
        },
        None => match env_project {
            Some(p) => match project_name_error(p@) {
                None => Ok(p@),
                Some(e) => Err("Invalid project name from MCPROC_DEFAULT_PROJECT: "@ + e),
            },
            None => match cwd_project {
                Some(p) => match project_name_error(p@) {
                    None => Ok(p@),
                    Some(e) => Err(
                        "Invalid project name from current directory '"@ + p@ + "': "@ + e,
                    ),
                },
                None => Err(
                    "Unable to determine project name. Please specify --project, set MCPROC_DEFAULT_PROJECT, or run from a valid project directory"@,
                ),
            },
        },
    }
}

/// Chooses a tool call's project (see [`mcp_project_outcome`]); a refusal is
/// an invalid-parameters error.
pub fn resolve_mcp_project_name(
    params_project: Option<String>,
    env_project: Option<String>,
    cwd_project: Option<String>,
) -> (r: Result<String, McpError>)
    ensures
        match mcp_project_outcome(params_project, env_project, cwd_project) {
            Ok(p) => r matches Ok(v) && v@ == p,
            Err(e) => r matches Err(McpError::InvalidParams(m)) && m@ == e,
        },
{
    match params_project {
        Some(p) => match validate_project_name(p.as_str()) {
            Ok(()) => Ok(p),
            Err(e) => {
                let mut m = String::from_str("Invalid project name: ");
                m.append(e.as_str());
                Err(McpError::InvalidParams(m))
            },
        },
        None => match env_project {
            Some(p) => match validate_project_name(p.as_str()) {
                Ok(()) => Ok(p),
                Err(e) => {
                    let mut m = String::from_str(
                        "Invalid project name from MCPROC_DEFAULT_PROJECT: ",
                    );
                    m.append(e.as_str());
                    Err(McpError::InvalidParams(m))
                },
            },
            None => match cwd_project {
                Some(p) => match validate_project_name(p.as_str()) {
                    Ok(()) => Ok(p),
                    Err(e) => {
                        let mut m = String::from_str("Invalid project name from current directory '");
                        m.append(p.as_str());
                        m.append("': ");
                        m.append(e.as_str());
                        Err(McpError::InvalidParams(m))
                    },
                },
                None => Err(
                    McpError::InvalidParams(
                        String::from_str(
                            "Unable to determine project name. Please specify --project, set MCPROC_DEFAULT_PROJECT, or run from a valid project directory",
                        ),
                    ),
                ),
            },
        },
    }
}


/// A valid project given with a tool call is always the one used; an
/// invalid one is refused, even when the environment or the current
/// directory names a valid project.
pub proof fn given_project_decides(p: String, env_project: Option<String>, cwd_project: Option<String>)
    ensures
        project_name_error(p@) is None ==> mcp_project_outcome(Some(p), env_project, cwd_project)
            == Ok::<Seq<char>, Seq<char>>(p@),
        project_name_error(p@) is Some ==> mcp_project_outcome(Some(p), env_project, cwd_project) is Err,
{
}

} // verus!
