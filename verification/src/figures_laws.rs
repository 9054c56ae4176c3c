//! The figures that the shell is set to, and how they go together.
use vstd::prelude::*;

verus! {

/// How long each piece of outside work may take, in seconds: none is given longer
/// than four minutes. A running git is looked at twice a second.
pub proof fn deadlines_are_kept(secs: u64)
    requires
        secs == crate::git::CLONE_SECS || secs == crate::force::FETCH_SECS || secs
            == crate::force::RESET_SECS || secs == crate::download::ARCHIVE_SECS || secs
            == crate::updates::LATEST_SECS || secs == crate::updates::CHECK_SECS || secs
            == crate::server::STARTUP_SECS || secs == crate::server::PLUGINS_SECS || secs
            == crate::server::READ_SECS,
    ensures
        0 < secs <= 240,
        crate::git::CLONE_SECS == 240,
        crate::force::FETCH_SECS == 240,
        crate::force::RESET_SECS == 120,
        crate::download::ARCHIVE_SECS == 120,
        crate::updates::LATEST_SECS == 20,
        crate::updates::CHECK_SECS == 15,
        crate::server::STARTUP_SECS == 120,
        crate::server::PLUGINS_SECS == 60,
        crate::server::READ_SECS == 2,
        crate::git::POLL_MILLIS * 2 == 1_000,
{
}

/// How long the shell rests: between two looks at the service, after a failed
/// clone, before a page is expected, before its last lines are shown, before it is
/// reloaded, watched or given its panel again.
pub proof fn rests_are_short()
    ensures
        crate::server::REST_MILLIS * 4 == 3_000,
        crate::server::CONSOLE_MILLIS == 800,
        crate::server::PANEL_SECS == 4,
        crate::server::WATCH_SECS == 4,
        crate::server::RELOAD_SECS == 20,
        crate::runtime::CLONE_PAUSE_SECS == 3,
        crate::boot::PAGE_MILLIS == 1_200,
        crate::steps::FLUSH_MILLIS == 300,
        crate::upgrade::RELOAD_PAUSE_SECS == 1,
{
}

/// How much is read at most: two gibibytes of an archive, two kibibytes of a root
/// page, and of a plugin bundle no more than its status line needs.
pub proof fn reads_are_bounded()
    ensures
        crate::download::ARCHIVE_BYTES == 2 * 1024 * 1024 * 1024,
        crate::server::ROOT_BYTES == 2 * 1024,
        crate::server::PLUGIN_BYTES == 64,
{
}

/// The port of the service, where none is set, and that of the bridge differ.
pub proof fn the_bridge_keeps_its_port()
    ensures
        crate::bridge::BRIDGE_PORT == 3091,
        crate::settings::DEFAULT_PORT == 3080,
        crate::bridge::BRIDGE_PORT != crate::settings::DEFAULT_PORT,
{
}

/// What the variables that the user sets are called.
pub proof fn variables_are_called()
    ensures
        crate::settings::PORT_VAR@ == "DSH_PORT"@,
        crate::settings::RUNTIME_DIR_VAR@ == "DSH_RUNTIME_DIR"@,
        crate::settings::TOOLS_DIR_VAR@ == "DSH_TOOLS_DIR"@,
        crate::settings::LOCAL_SOURCE_VAR@ == "DSH_LOCAL_SOURCE"@,
        crate::settings::SKIP_UPDATE_VAR@ == "DSH_SKIP_UPDATE"@,
{
}

/// What the files and directories of the shell are called.
pub proof fn files_are_called()
    ensures
        crate::archive::SCRATCH_DIR@ == "_dsh_snapshot_extract"@,
        crate::archive::VERSION_FILE@ == ".dsh-version"@,
        crate::archive::SNAPSHOT_VERSION@ == "snapshot"@,
        crate::steps::BUILD_MARKER@ == ".dsh-build"@,
        crate::steps::MODULES_DIR@ == "node_modules"@,
        crate::server::LOG_FILE@ == "server.log"@,
        crate::tools::SNAPSHOT_FILE@ == "dsh-runtime-snapshot.zip"@,
{
}

/// Where the newest versions are looked up, and under what name.
pub proof fn lookups_go_to()
    ensures
        crate::updates::LATEST_COMMIT_URL@
            == "https://api.github.com/repos/deepseek-ai/deepseek-harness/commits/master"@,
        crate::updates::LATEST_RELEASE_URL@
            == "https://api.github.com/repos/Myoontyee/deepseek-harness-desktop/releases/latest"@,
        crate::updates::USER_AGENT@ == "deepseek-harness-desktop/0.1"@,
{
}

} // verus!
