use vstd::prelude::*;
use crate::paths::{Platform, join_path, join_path_spec};
use crate::resolve::{Res, Resolution, ResolveError};

verus! {

/// The one outside action a resolved destination asks for, over
/// mathematical values.
pub ghost enum Act {
    /// Download to this path.
    Fetch(Seq<char>),
    /// Remove the file standing at this path, then download to it.
    RemoveThenFetch(Seq<char>),
    /// Report that the file exists and end the run without writing.
    ReportExists,
    /// Hand this directory to the external media tool.
    RunMediaTool(Seq<char>, bool),
    /// Report the resolution error and end the run.
    Fail(ResolveError),
}

/// The one outside action a resolved destination asks for.
pub enum Action {
    Fetch(String),
    RemoveThenFetch(String),
    ReportExists,
    RunMediaTool(String, bool),
    Fail(ResolveError),
}

impl View for Action {
    type V = Act;

    open spec fn view(&self) -> Act {
        match self {
            Action::Fetch(p) => Act::Fetch(p@),
            Action::RemoveThenFetch(p) => Act::RemoveThenFetch(p@),
            Action::ReportExists => Act::ReportExists,
            Action::RunMediaTool(d, f) => Act::RunMediaTool(d@, *f),
            Action::Fail(e) => Act::Fail(*e),
        }
    }
}

/// The concrete file path a resolution writes to: the direct target, the
/// name joined onto the directory, or the bare name; none for media mode
/// or a conflict.
pub open spec fn spec_final_target(r: Res, p: Platform) -> Option<Seq<char>> {
    match r {
        Res::DirectFile(path) => Some(path),
        Res::IntoDirectory(d, n) => Some(join_path_spec(d, n, p)),
        Res::DeriveFromBareName(n) => Some(n),
        Res::MediaDirectory(d) => None,
        Res::Conflict(e) => None,
    }
}

/// The file path a resolution writes to; see `spec_final_target`.
pub fn final_target(r: &Resolution, platform: Platform) -> (t: Option<String>)
    ensures
        t.deep_view() == spec_final_target(r@, platform),
{
    match r {
        Resolution::DirectFile(path) => Some(path.clone()),
        Resolution::IntoDirectory(d, n) => Some(join_path(d.as_str(), n.as_str(), platform)),
        Resolution::DeriveFromBareName(n) => Some(n.clone()),
        Resolution::MediaDirectory(d) => None,
        Resolution::Conflict(e) => None,
    }
}

/// The overwrite gate: a target standing as a file is only replaced when
/// force is set, and is reported otherwise; a free target is written.
pub open spec fn spec_gate(path: Seq<char>, force: bool, target_is_file: bool) -> Act {
    if target_is_file {
        if force {
            Act::RemoveThenFetch(path)
        } else {
            Act::ReportExists
        }
    } else {
        Act::Fetch(path)
    }
}

/// The action a resolution dispatches to.  File-bound destinations pass
/// the overwrite gate on their final target; a bare name is written
/// directly; media mode runs the external tool with the force flag
/// passed through; a conflict is reported.
pub open spec fn spec_plan(r: Res, force: bool, target_is_file: bool, p: Platform) -> Act {
    match r {
        Res::DirectFile(path) => spec_gate(path, force, target_is_file),
        Res::IntoDirectory(d, n) => spec_gate(join_path_spec(d, n, p), force, target_is_file),
        Res::DeriveFromBareName(n) => Act::Fetch(n),
        Res::MediaDirectory(d) => Act::RunMediaTool(d, force),
        Res::Conflict(e) => Act::Fail(e),
    }
}

/// Plans the dispatch of a resolved destination; see `spec_plan`.
/// `target_is_file` is what the filesystem says of `final_target`: only
/// the overwrite gate reads it.
pub fn plan_dispatch(r: &Resolution, force: bool, target_is_file: bool, platform: Platform) -> (a:
    Action)
    ensures
        a@ == spec_plan(r@, force, target_is_file, platform),
{
    match r {
        Resolution::DirectFile(path) => gate(path.clone(), force, target_is_file),
        Resolution::IntoDirectory(d, n) => gate(
            join_path(d.as_str(), n.as_str(), platform),
            force,
            target_is_file,
        ),
        Resolution::DeriveFromBareName(n) => Action::Fetch(n.clone()),
        Resolution::MediaDirectory(d) => Action::RunMediaTool(d.clone(), force),
        Resolution::Conflict(e) => Action::Fail(*e),
    }
}

fn gate(path: String, force: bool, target_is_file: bool) -> (a: Action)
    ensures
        a@ == spec_gate(path@, force, target_is_file),
{
    if target_is_file {
        if force {
            Action::RemoveThenFetch(path)
        } else {
            Action::ReportExists
        }
    } else {
        Action::Fetch(path)
    }
}

/// The directory the two external binaries live under, keyed by platform
/// below the home directory.
pub open spec fn spec_libs_dir(home: Seq<char>, p: Platform) -> Seq<char> {
    if p is Windows {
        join_path_spec(home, "AppData\\Roaming\\pls\\libs"@, p)
    } else {
        join_path_spec(home, ".local/share/pls/libs"@, p)
    }
}

/// The directory the two external binaries live under; see `spec_libs_dir`.
pub fn libs_dir(home: &str, platform: Platform) -> (r: String)
    ensures
        r@ == spec_libs_dir(home@, platform),
{
    if matches!(platform, Platform::Windows) {
        join_path(home, "AppData\\Roaming\\pls\\libs", platform)
    } else {
        join_path(home, ".local/share/pls/libs", platform)
    }
}

/// The path of the external downloader binary under its directory.
pub open spec fn spec_media_tool_path(libs: Seq<char>, p: Platform) -> Seq<char> {
    if p is Windows {
        join_path_spec(libs, "yt-dlp.exe"@, p)
    } else {
        join_path_spec(libs, "yt-dlp"@, p)
    }
}

/// The path of the external downloader binary; see `spec_media_tool_path`.
pub fn media_tool_path(libs: &str, platform: Platform) -> (r: String)
    ensures
        r@ == spec_media_tool_path(libs@, platform),
{
    if matches!(platform, Platform::Windows) {
        join_path(libs, "yt-dlp.exe", platform)
    } else {
        join_path(libs, "yt-dlp", platform)
    }
}

/// The command line handed to the external media tool: the binary, the
/// URL, the overwrite policy the force flag asks for, the transcoder
/// location, and the target directory.
pub open spec fn spec_media_command(
    bin: Seq<char>,
    url: Seq<char>,
    libs: Seq<char>,
    out: Seq<char>,
    force: bool,
) -> Seq<char> {
    bin + " "@ + url + (if force {
        " --force-overwrites --ffmpeg-location "@
    } else {
        " --no-overwrites --ffmpeg-location "@
    }) + libs + " -P "@ + out
}

/// The command line handed to the external media tool; see
/// `spec_media_command`.
pub fn media_command(bin: &str, url: &str, libs: &str, out: &str, force: bool) -> (r: String)
    ensures
        r@ == spec_media_command(bin@, url@, libs@, out@, force),
{
    let mut r = bin.to_owned();
    r.append(" ");
    r.append(url);
    if force {
        r.append(" --force-overwrites --ffmpeg-location ");
    } else {
        r.append(" --no-overwrites --ffmpeg-location ");
    }
    r.append(libs);
    r.append(" -P ");
    r.append(out);
    r
}

} // verus!
