//! What the user reads holds the reason in full, whatever it is.
use crate::archive::ExtractError;
use crate::boot::{unpacking_text, BootError, BootStatus};
use crate::download::DownloadError;
use crate::force::ForceError;
use crate::runtime::{EnsureStatus, RuntimeError};
use crate::steps::{start_failed, wait_failed, BuildError};
use crate::upgrade::UpgradeStatus;
use vstd::prelude::*;

verus! {

/// Whether a line is this reason between these words.
pub open spec fn frames(
    line: Seq<char>,
    reason: Seq<char>,
    before: Seq<char>,
    after: Seq<char>,
) -> bool {
    line == before + reason + after
}

/// Whether two lines tell their reasons in full, each between the same words as
/// the other.
pub open spec fn told_alike(
    line: Seq<char>,
    reason: Seq<char>,
    other: Seq<char>,
    another: Seq<char>,
) -> bool {
    exists|before: Seq<char>, after: Seq<char>| #[trigger]
        frames(line, reason, before, after) && frames(other, another, before, after)
}

/// Two lines of the same words tell their reasons alike.
pub proof fn alike(
    line: Seq<char>,
    reason: Seq<char>,
    other: Seq<char>,
    another: Seq<char>,
    before: Seq<char>,
    after: Seq<char>,
)
    requires
        line == before + reason + after || line == before + reason && after == ""@ || line == reason
            && before == ""@ && after == ""@,
        other == before + another + after || other == before + another && after == ""@ || other
            == another && before == ""@ && after == ""@,
    ensures
        told_alike(line, reason, other, another),
{
    reveal_strlit("");
    assert(line =~= before + reason + after);
    assert(other =~= before + another + after);
    assert(frames(line, reason, before, after));
}

/// Of every error of unpacking the reason is told in full, in words that depend on
/// its kind alone.
pub proof fn unpacking_errors_are_told(e: &ExtractError, r: String, f: &ExtractError, q: String)
    requires
        call_ensures(ExtractError::message, (e,), r),
        call_ensures(ExtractError::message, (f,), q),
    ensures
        match (*e, *f) {
            (ExtractError::Open(x), ExtractError::Open(y)) => told_alike(r@, x@, q@, y@),
            (ExtractError::Parse(x), ExtractError::Parse(y)) => told_alike(r@, x@, q@, y@),
            (ExtractError::Scratch(x), ExtractError::Scratch(y)) => told_alike(r@, x@, q@, y@),
            (ExtractError::Entry(x), ExtractError::Entry(y)) => told_alike(r@, x@, q@, y@),
            (ExtractError::Directory(x), ExtractError::Directory(y)) => told_alike(r@, x@, q@, y@),
            (ExtractError::Write(x), ExtractError::Write(y)) => told_alike(r@, x@, q@, y@),
            (ExtractError::List(x), ExtractError::List(y)) => told_alike(r@, x@, q@, y@),
            (ExtractError::Rename(x), ExtractError::Rename(y)) => told_alike(r@, x@, q@, y@),
            _ => true,
        },
{
    match (*e, *f) {
        (ExtractError::Open(x), ExtractError::Open(y)) => {
            alike(r@, x@, q@, y@, "打开内置代码失败："@, ""@);
        },
        (ExtractError::Parse(x), ExtractError::Parse(y)) => {
            alike(r@, x@, q@, y@, "解析内置代码失败："@, ""@);
        },
        (ExtractError::Scratch(x), ExtractError::Scratch(y)) => {
            alike(r@, x@, q@, y@, "创建临时目录失败："@, ""@);
        },
        (ExtractError::Entry(x), ExtractError::Entry(y)) => {
            alike(r@, x@, q@, y@, "读取内置代码条目失败："@, ""@);
        },
        (ExtractError::Directory(x), ExtractError::Directory(y)) => {
            alike(r@, x@, q@, y@, "创建目录失败："@, ""@);
        },
        (ExtractError::Write(x), ExtractError::Write(y)) => {
            alike(r@, x@, q@, y@, "写入内置代码失败："@, ""@);
        },
        (ExtractError::List(x), ExtractError::List(y)) => {
            alike(r@, x@, q@, y@, "读取临时目录失败："@, ""@);
        },
        (ExtractError::Rename(x), ExtractError::Rename(y)) => {
            alike(r@, x@, q@, y@, "整理目录失败："@, ""@);
        },
        _ => {},
    }
}

/// Of every error of a download that has a reason it is told in full, in words that
/// depend on its kind alone.
pub proof fn download_errors_are_told(e: &DownloadError, r: String, f: &DownloadError, q: String)
    requires
        call_ensures(DownloadError::message, (e,), r),
        call_ensures(DownloadError::message, (f,), q),
    ensures
        match (*e, *f) {
            (DownloadError::Request(x), DownloadError::Request(y)) => told_alike(r@, x@, q@, y@),
            (DownloadError::Body(x), DownloadError::Body(y)) => told_alike(r@, x@, q@, y@),
            (DownloadError::Save(x), DownloadError::Save(y)) => told_alike(r@, x@, q@, y@),
            (DownloadError::Open(x), DownloadError::Open(y)) => told_alike(r@, x@, q@, y@),
            (DownloadError::Unpack(x), DownloadError::Unpack(y)) => told_alike(r@, x@, q@, y@),
            (DownloadError::Rename(x), DownloadError::Rename(y)) => told_alike(r@, x@, q@, y@),
            _ => true,
        },
{
    match (*e, *f) {
        (DownloadError::Request(x), DownloadError::Request(y)) => {
            alike(r@, x@, q@, y@, "下载失败："@, ""@);
        },
        (DownloadError::Body(x), DownloadError::Body(y)) => {
            alike(r@, x@, q@, y@, "读取下载内容失败："@, ""@);
        },
        (DownloadError::Save(x), DownloadError::Save(y)) => {
            alike(r@, x@, q@, y@, "写入临时文件失败："@, ""@);
        },
        (DownloadError::Open(x), DownloadError::Open(y)) => {
            alike(r@, x@, q@, y@, "打开临时文件失败："@, ""@);
        },
        (DownloadError::Unpack(x), DownloadError::Unpack(y)) => {
            alike(r@, x@, q@, y@, "解压失败："@, ""@);
        },
        (DownloadError::Rename(x), DownloadError::Rename(y)) => {
            alike(r@, x@, q@, y@, "整理目录失败："@, ""@);
        },
        _ => {},
    }
}

/// Of every error of a forced update that has a reason it is told in full, in words
/// that depend on its kind alone.
pub proof fn forced_update_errors_are_told(e: &ForceError, r: String, f: &ForceError, q: String)
    requires
        call_ensures(ForceError::message, (e,), r),
        call_ensures(ForceError::message, (f,), q),
    ensures
        match (*e, *f) {
            (ForceError::FetchFailed(x), ForceError::FetchFailed(y)) => told_alike(r@, x@, q@, y@),
            (ForceError::ResetFailed(x), ForceError::ResetFailed(y)) => told_alike(r@, x@, q@, y@),
            (ForceError::DownloadFailed(x), ForceError::DownloadFailed(y)) => told_alike(r@, x@, q@, y@),
            _ => true,
        },
{
    match (*e, *f) {
        (ForceError::FetchFailed(x), ForceError::FetchFailed(y)) => {
            alike(r@, x@, q@, y@, "拉取更新失败："@, ""@);
        },
        (ForceError::ResetFailed(x), ForceError::ResetFailed(y)) => {
            alike(r@, x@, q@, y@, "更新代码失败："@, ""@);
        },
        (ForceError::DownloadFailed(x), ForceError::DownloadFailed(y)) => {
            alike(r@, x@, q@, y@, ""@, ""@);
        },
        _ => {},
    }
}

/// Of an installation or a build that failed during an upgrade the reason is told in
/// full, in words that depend on the kind alone.
pub proof fn upgrade_errors_are_told(e: &UpgradeStatus, r: String, f: &UpgradeStatus, q: String)
    requires
        call_ensures(UpgradeStatus::text, (e,), r),
        call_ensures(UpgradeStatus::text, (f,), q),
    ensures
        match (*e, *f) {
            (UpgradeStatus::InstallFailed(x), UpgradeStatus::InstallFailed(y)) => told_alike(r@, x@, q@, y@),
            (UpgradeStatus::BuildFailed(x), UpgradeStatus::BuildFailed(y)) => told_alike(r@, x@, q@, y@),
            _ => true,
        },
{
    match (*e, *f) {
        (UpgradeStatus::InstallFailed(x), UpgradeStatus::InstallFailed(y)) => {
            alike(r@, x@, q@, y@, "安装依赖失败："@, ""@);
        },
        (UpgradeStatus::BuildFailed(x), UpgradeStatus::BuildFailed(y)) => {
            alike(r@, x@, q@, y@, "构建失败："@, ""@);
        },
        _ => {},
    }
}

/// Of an installation or a build that failed during a launch the reason is told in
/// full, in words that depend on the kind alone.
pub proof fn launch_errors_are_told(e: &BootError, r: String, f: &BootError, q: String)
    requires
        call_ensures(BootError::message, (e,), r),
        call_ensures(BootError::message, (f,), q),
    ensures
        match (*e, *f) {
            (BootError::Install(x), BootError::Install(y)) => told_alike(r@, x@, q@, y@),
            (BootError::Build(x), BootError::Build(y)) => told_alike(r@, x@, q@, y@),
            _ => true,
        },
{
    match (*e, *f) {
        (BootError::Install(x), BootError::Install(y)) => {
            alike(r@, x@, q@, y@, "安装依赖失败："@, ""@);
        },
        (BootError::Build(x), BootError::Build(y)) => {
            alike(r@, x@, q@, y@, "构建失败："@, ""@);
        },
        _ => {},
    }
}

/// Where an upgrade could not refresh the code, its line ends with what the forced
/// update says of it.
pub proof fn an_upgrade_tells_what_the_update_says(
    e: ForceError,
    line: String,
    r: String,
    f: ForceError,
    other: String,
    q: String,
)
    requires
        call_ensures(ForceError::message, (&e,), line),
        call_ensures(UpgradeStatus::text, (&UpgradeStatus::UpdateFailed(e),), r),
        call_ensures(ForceError::message, (&f,), other),
        call_ensures(UpgradeStatus::text, (&UpgradeStatus::UpdateFailed(f),), q),
    ensures
        told_alike(r@, line@, q@, other@),
{
    alike(r@, line@, q@, other@, "更新失败："@, ""@);
}

/// Where a launch could not prepare the runtime, its line ends with what is said of
/// the runtime.
pub proof fn a_launch_tells_what_is_said_of_the_runtime(
    e: RuntimeError,
    line: String,
    r: String,
    f: RuntimeError,
    other: String,
    q: String,
)
    requires
        call_ensures(RuntimeError::message, (&e,), line),
        call_ensures(BootError::message, (&BootError::Runtime(e),), r),
        call_ensures(RuntimeError::message, (&f,), other),
        call_ensures(BootError::message, (&BootError::Runtime(f),), q),
    ensures
        told_alike(r@, line@, q@, other@),
{
    alike(r@, line@, q@, other@, "准备运行环境失败："@, ""@);
}

/// A download that failed is told of a runtime as it is told by itself, and so is
/// a build that could not be run.
pub proof fn reasons_stand_for_themselves(
    error: String,
    r: String,
    q: String,
)
    requires
        call_ensures(RuntimeError::message, (&RuntimeError::DownloadFailed(error),), r),
        call_ensures(BuildError::message, (&BuildError::NotRun(error),), q),
    ensures
        r@ == error@,
        q@ == error@,
{
}

/// Where neither a clone nor the archive could be had, both reasons are told in
/// full, that of the clone first; where there is none, the line says so in the same
/// words, and so it does where the reason is empty.
pub proof fn both_reasons_are_told(
    clone: Option<String>,
    download: String,
    r: String,
    other: Option<String>,
    another: String,
    q: String,
)
    requires
        call_ensures(
            RuntimeError::message,
            (&(RuntimeError::NothingHad { clone, download }),),
            r,
        ),
        call_ensures(
            RuntimeError::message,
            (&(RuntimeError::NothingHad { clone: other, download: another }),),
            q,
        ),
    ensures
        clone == other ==> told_alike(r@, download@, q@, another@),
        download == another && clone is Some && other is Some && clone->0@.len() > 0
            && other->0@.len() > 0 ==> told_alike(r@, clone->0@, q@, other->0@),
        download == another && (clone is None || clone->0@.len() == 0) && (other is None
            || other->0@.len() == 0) ==> r@ == q@,
{
    let start = "下载代码失败：git clone 失败（"@;
    let middle = "），备用下载也失败（"@;
    let end = "）"@;
    if clone == other {
        let a = start + (if clone is None || clone->0@.len() == 0 {
            "系统未安装 git"@
        } else {
            clone->0@
        }) + middle;
        alike(r@, download@, q@, another@, a, end);
    }
    if download == another && clone is Some && other is Some && clone->0@.len() > 0
        && other->0@.len() > 0 {
        let b = middle + download@ + end;
        assert(r@ =~= start + clone->0@ + b);
        assert(q@ =~= start + other->0@ + b);
        alike(r@, clone->0@, q@, other->0@, start, b);
    }
}

/// Where the bundled snapshot could not be used, the reason is told in full.
pub proof fn the_reason_for_no_snapshot_is_told(e: String, r: String, f: String, q: String)
    requires
        call_ensures(EnsureStatus::text, (&EnsureStatus::SnapshotFailed(e),), r),
        call_ensures(EnsureStatus::text, (&EnsureStatus::SnapshotFailed(f),), q),
    ensures
        told_alike(r@, e@, q@, f@),
{
    alike(r@, e@, q@, f@, "内置代码初始化失败（"@, "），尝试在线下载…"@);
}

/// Where a program could not be started or waited for, the program and the reason
/// are told in full.
pub proof fn programs_and_reasons_are_told(
    program: &str,
    e: &str,
    r: String,
    another: &str,
    f: &str,
    q: String,
    waited: String,
    rested: String,
)
    requires
        call_ensures(start_failed, (program, e), r),
        call_ensures(start_failed, (another, f), q),
        call_ensures(wait_failed, (e,), waited),
        call_ensures(wait_failed, (f,), rested),
    ensures
        program@ == another@ ==> told_alike(r@, e@, q@, f@),
        e@ == f@ ==> told_alike(r@, program@, q@, another@),
        told_alike(waited@, e@, rested@, f@),
{
    let start = "无法启动 "@;
    let middle = "："@;
    if program@ == another@ {
        alike(r@, e@, q@, f@, start + program@ + middle, ""@);
    }
    if e@ == f@ {
        assert(r@ =~= start + program@ + (middle + e@));
        assert(q@ =~= start + another@ + (middle + e@));
        alike(r@, program@, q@, another@, start, middle + e@);
    }
    alike(waited@, e@, rested@, f@, "进程执行失败："@, ""@);
}

/// Numbers are told by their digits: the share that is unpacked once, and a port
/// that is used in place of another twice.
pub proof fn numbers_are_told(
    percent: u32,
    shown: String,
    other: u32,
    seen: String,
    port: u16,
    r: String,
    another: u16,
    q: String,
)
    requires
        call_ensures(unpacking_text, (percent,), shown),
        call_ensures(unpacking_text, (other,), seen),
        call_ensures(BootStatus::text, (&BootStatus::PortTaken(port),), r),
        call_ensures(BootStatus::text, (&BootStatus::PortTaken(another),), q),
    ensures
        told_alike(
            shown@,
            crate::text::decimal(percent as nat),
            seen@,
            crate::text::decimal(other as nat),
        ),
        exists|start: Seq<char>, middle: Seq<char>| #[trigger]
            frames(
                r@,
                crate::text::decimal(port as nat),
                start,
                middle + crate::text::decimal(port as nat),
            ) && frames(
                q@,
                crate::text::decimal(another as nat),
                start,
                middle + crate::text::decimal(another as nat),
            ),
{
    alike(
        shown@,
        crate::text::decimal(percent as nat),
        seen@,
        crate::text::decimal(other as nat),
        "正在使用内置代码初始化… "@,
        "%"@,
    );
    let start = "端口 "@;
    let middle = " 被占用，已切换到 "@;
    let a = crate::text::decimal(port as nat);
    let b = crate::text::decimal(another as nat);
    assert(r@ =~= start + a + (middle + a));
    assert(q@ =~= start + b + (middle + b));
    assert(frames(r@, a, start, middle + a));
}

} // verus!
