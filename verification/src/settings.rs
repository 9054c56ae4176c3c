//! Settings that come from environment variables.
use crate::text::{parse_u16, same_text};
use vstd::prelude::*;

verus! {

/// The version of the shell, which is that of its package.
pub const SHELL_VERSION: &'static str = "0.1.0";

/// The variable that names the port of the service.
pub const PORT_VAR: &'static str = "DSH_PORT";

/// The variable that names the runtime directory.
pub const RUNTIME_DIR_VAR: &'static str = "DSH_RUNTIME_DIR";

/// The variable that names the directory of the bundled tools.
pub const TOOLS_DIR_VAR: &'static str = "DSH_TOOLS_DIR";

/// The variable that names a local source in place of the public repository.
pub const LOCAL_SOURCE_VAR: &'static str = "DSH_LOCAL_SOURCE";

/// The variable that switches updates off.
pub const SKIP_UPDATE_VAR: &'static str = "DSH_SKIP_UPDATE";

/// The port of the service where none is set.
pub const DEFAULT_PORT: u16 = 3080;

/// The directory of the shell below the user's application data.
pub const APP_DIR_NAME: &'static str = "DeepSeekHarness";

/// The directory of the runtime below that of the shell.
pub const RUNTIME_DIR_NAME: &'static str = "runtime";

/// The directory of the bundled tools beside the program.
pub const TOOLS_DIR_NAME: &'static str = "tools";

/// The value of a variable; an empty one counts as unset.
pub open spec fn set_value(value: Option<String>) -> Option<String> {
    match value {
        Some(text) if text@.len() > 0 => value,
        _ => None,
    }
}

/// The value of a variable; an empty one counts as unset.
pub fn nonempty(value: Option<String>) -> (r: Option<String>)
    ensures
        r == set_value(value),
{
    match value {
        Some(text) => if text.as_str().is_empty() {
            None
        } else {
            Some(text)
        },
        None => None,
    }
}

/// The value of a variable, or `default` where it is unset or empty.
pub fn env_or(value: Option<String>, default: &str) -> (r: String)
    ensures
        r@ == match set_value(value) {
            Some(text) => text@,
            None => default@,
        },
{
    match nonempty(value) {
        Some(text) => text,
        None => default.to_owned(),
    }
}

/// Whether a variable is set to `1`.
pub open spec fn is_one(value: Option<String>) -> bool {
    value is Some && value->0@ == "1"@
}

/// Whether a variable is set to `1`.
pub fn env_flag(value: Option<String>) -> (r: bool)
    ensures
        r == is_one(value),
{
    match value {
        Some(text) => same_text(text.as_str(), "1"),
        None => false,
    }
}

/// Whether updates are switched off, by the value of [`SKIP_UPDATE_VAR`].
pub fn skip_update(value: Option<String>) -> (r: bool)
    ensures
        r == is_one(value),
{
    env_flag(value)
}

/// The port that a setting stands for: [`DEFAULT_PORT`] where the setting is
/// unset, or is no number below 65536.
pub open spec fn port_of(value: Option<String>) -> u16 {
    match set_value(value) {
        Some(text) => match crate::text::number(text@) {
            Some(n) if n <= u16::MAX => n as u16,
            _ => DEFAULT_PORT,
        },
        None => DEFAULT_PORT,
    }
}

/// The port of the service, by the value of [`PORT_VAR`].
pub fn port(value: Option<String>) -> (r: u16)
    ensures
        r == port_of(value),
{
    let text = env_or(value, "3080");
    proof {
        reveal_strlit("3080");
        reveal_with_fuel(crate::text::digits_value, 5);
        assert(crate::text::number("3080"@) == Some(3080nat));
    }
    match parse_u16(text.as_str()) {
        Some(n) => n,
        None => DEFAULT_PORT,
    }
}

/// Every port can be set: its decimal digits stand for it.
pub proof fn every_port_can_be_set(text: String, port: u16)
    requires
        text@ == crate::text::decimal(port as nat),
    ensures
        port_of(Some(text)) == port,
{
    crate::text::number_reads_decimal(port as nat);
}

/// The local source, by the value of [`LOCAL_SOURCE_VAR`].
pub fn local_source(value: Option<String>) -> (r: Option<String>)
    ensures
        r == set_value(value),
{
    nonempty(value)
}

/// A directory that only the running program knows.
#[derive(Clone, Copy, PartialEq, Eq, Structural, Debug)]
pub enum BaseDir {
    /// The user's application data.
    LocalAppData,
    /// The directory of the program.
    Program,
    /// The directory for temporary files.
    Temporary,
}

/// Where a directory of the shell lies.
#[derive(Debug)]
pub enum Location {
    /// At a path that the user set.
    Chosen(String),
    /// Below a base directory.
    Below { base: BaseDir, parts: Vec<String> },
}

/// Where the runtime lies: at the path in [`RUNTIME_DIR_VAR`] where one is set,
/// else below the user's application data, or below the temporary files where
/// those are unknown.
pub fn runtime_dir(value: Option<String>, has_local_app_data: bool) -> (r: Location)
    ensures
        match set_value(value) {
            Some(path) => r == Location::Chosen(path),
            None => r matches Location::Below { base, parts } && base == (if has_local_app_data {
                BaseDir::LocalAppData
            } else {
                BaseDir::Temporary
            }) && parts.deep_view() == seq![APP_DIR_NAME@, RUNTIME_DIR_NAME@],
        },
{
    match nonempty(value) {
        Some(path) => Location::Chosen(path),
        None => {
            let base = if has_local_app_data {
                BaseDir::LocalAppData
            } else {
                BaseDir::Temporary
            };
            let mut parts: Vec<String> = Vec::new();
            parts.push(APP_DIR_NAME.to_owned());
            parts.push(RUNTIME_DIR_NAME.to_owned());
            assert(parts.deep_view() =~= seq![APP_DIR_NAME@, RUNTIME_DIR_NAME@]);
            Location::Below { base, parts }
        },
    }
}

/// Where the bundled tools lie: at the path in [`TOOLS_DIR_VAR`] where one is
/// set, else beside the program, or below the temporary files where the place
/// of the program is unknown.
pub fn tools_dir(value: Option<String>, knows_program: bool) -> (r: Location)
    ensures
        match set_value(value) {
            Some(path) => r == Location::Chosen(path),
            None => r matches Location::Below { base, parts } && base == (if knows_program {
                BaseDir::Program
            } else {
                BaseDir::Temporary
            }) && parts.deep_view() == seq![TOOLS_DIR_NAME@],
        },
{
    match nonempty(value) {
        Some(path) => Location::Chosen(path),
        None => {
            let base = if knows_program {
                BaseDir::Program
            } else {
                BaseDir::Temporary
            };
            let mut parts: Vec<String> = Vec::new();
            parts.push(TOOLS_DIR_NAME.to_owned());
            assert(parts.deep_view() =~= seq![TOOLS_DIR_NAME@]);
            Location::Below { base, parts }
        },
    }
}

} // verus!
