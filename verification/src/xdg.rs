//! XDG base directories for mcproc.
//!
//! Each directory comes from its XDG variable when that is set, else from
//! the home directory, else from a relative fallback. Reading the
//! environment is left to the caller, which passes what it found.

use vstd::prelude::*;
use vstd::string::*;
use crate::paths::{join, path_join};
use crate::text::push_decimal;
use crate::text::decimal;

verus! {

/// The text of an optional string slice.
pub open spec fn opt_str(o: Option<&str>) -> Option<Seq<char>> {
    match o {
        Some(s) => Some(s@),
        None => None,
    }
}

/// The configuration directory: `$XDG_CONFIG_HOME/mcproc`, else
/// `~/.config/mcproc`, else `.config/mcproc`.
pub open spec fn config_dir(xdg: Option<Seq<char>>, home: Option<Seq<char>>) -> Seq<char> {
    match xdg {
        Some(x) => path_join(x, "mcproc"@),
        None => match home {
            Some(h) => path_join(path_join(h, ".config"@), "mcproc"@),
            None => ".config/mcproc"@,
        },
    }
}

/// The data directory: `$XDG_DATA_HOME/mcproc`, else
/// `~/.local/share/mcproc`, else `.local/share/mcproc`.
pub open spec fn data_dir(xdg: Option<Seq<char>>, home: Option<Seq<char>>) -> Seq<char> {
    match xdg {
        Some(x) => path_join(x, "mcproc"@),
        None => match home {
            Some(h) => path_join(path_join(path_join(h, ".local"@), "share"@), "mcproc"@),
            None => ".local/share/mcproc"@,
        },
    }
}

/// The state directory: `$XDG_STATE_HOME/mcproc`, else
/// `~/.local/state/mcproc`, else `.local/state/mcproc`.
pub open spec fn state_dir(xdg: Option<Seq<char>>, home: Option<Seq<char>>) -> Seq<char> {
    match xdg {
        Some(x) => path_join(x, "mcproc"@),
        None => match home {
            Some(h) => path_join(path_join(path_join(h, ".local"@), "state"@), "mcproc"@),
            None => ".local/state/mcproc"@,
        },
    }
}

/// The runtime directory: `$XDG_RUNTIME_DIR/mcproc`, else
/// `/tmp/mcproc-<uid>`.
pub open spec fn runtime_dir(xdg: Option<Seq<char>>, uid: u32) -> Seq<char> {
    match xdg {
        Some(x) => path_join(x, "mcproc"@),
        None => "/tmp/mcproc-"@ + decimal(uid as nat),
    }
}

/// The configuration directory, from `XDG_CONFIG_HOME` and the home
/// directory.
pub fn get_config_dir(xdg_config_home: Option<&str>, home: Option<&str>) -> (r: String)
    ensures
        r@ == config_dir(opt_str(xdg_config_home), opt_str(home)),
{
    match xdg_config_home {
        Some(x) => join(x, "mcproc"),
        None => match home {
            Some(h) => {
                let c = join(h, ".config");
                join(c.as_str(), "mcproc")
            },
            None => String::from_str(".config/mcproc"),
        },
    }
}

/// The data directory, from `XDG_DATA_HOME` and the home directory.
pub fn get_data_dir(xdg_data_home: Option<&str>, home: Option<&str>) -> (r: String)
    ensures
        r@ == data_dir(opt_str(xdg_data_home), opt_str(home)),
{
    match xdg_data_home {
        Some(x) => join(x, "mcproc"),
        None => match home {
            Some(h) => {
                let a = join(h, ".local");
                let b = join(a.as_str(), "share");
                join(b.as_str(), "mcproc")
            },
            None => String::from_str(".local/share/mcproc"),
        },
    }
}

/// The state directory, from `XDG_STATE_HOME` and the home directory.
pub fn get_state_dir(xdg_state_home: Option<&str>, home: Option<&str>) -> (r: String)
    ensures
        r@ == state_dir(opt_str(xdg_state_home), opt_str(home)),
{
    match xdg_state_home {
        Some(x) => join(x, "mcproc"),
        None => match home {
            Some(h) => {
                let a = join(h, ".local");
                let b = join(a.as_str(), "state");
                join(b.as_str(), "mcproc")
            },
            None => String::from_str(".local/state/mcproc"),
        },
    }
}

/// The runtime directory, from `XDG_RUNTIME_DIR` and the user id.
pub fn get_runtime_dir(xdg_runtime_dir: Option<&str>, uid: u32) -> (r: String)
    ensures
        r@ == runtime_dir(opt_str(xdg_runtime_dir), uid),
{
    match xdg_runtime_dir {
        Some(x) => join(x, "mcproc"),
        None => {
            let mut s = String::from_str("/tmp/mcproc-");
            push_decimal(&mut s, uid as u64);
            s
        },
    }
}

/// What the environment says about the base directories.
#[derive(Debug, Clone)]
pub struct XdgEnv {
    pub config_home: Option<String>,
    pub data_home: Option<String>,
    pub state_home: Option<String>,
    pub runtime_dir: Option<String>,
    pub home: Option<String>,
    pub uid: u32,
}

} // verus!
