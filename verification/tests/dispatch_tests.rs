use pls::dispatch::{libs_dir, media_command, media_tool_path, plan_dispatch, Action};
use pls::paths::Platform;
use pls::resolve::{Resolution, ResolveError};

#[test]
fn libs_dir_by_platform() {
    assert_eq!(libs_dir("/home/u", Platform::Posix), "/home/u/.local/share/pls/libs");
    assert_eq!(
        libs_dir("C:\\Users\\u", Platform::Windows),
        "C:\\Users\\u\\AppData\\Roaming\\pls\\libs"
    );
}

#[test]
fn media_tool_path_by_platform() {
    assert_eq!(media_tool_path("/l", Platform::Posix), "/l/yt-dlp");
    assert_eq!(media_tool_path("C:\\l", Platform::Windows), "C:\\l\\yt-dlp.exe");
}

#[test]
fn media_command_without_force() {
    let c = media_command("/l/yt-dlp", "https://u", "/l", "/tmp/videos", false);
    assert_eq!(
        c,
        "/l/yt-dlp https://u --no-overwrites --ffmpeg-location /l -P /tmp/videos"
    );
}

#[test]
fn media_command_with_force() {
    let c = media_command("/l/yt-dlp", "https://u", "/l", "/tmp/videos", true);
    assert_eq!(
        c,
        "/l/yt-dlp https://u --force-overwrites --ffmpeg-location /l -P /tmp/videos"
    );
}

#[test]
fn conflicts_are_reported() {
    let a = plan_dispatch(
        &Resolution::Conflict(ResolveError::OutputDirectoryNotFound),
        false,
        false,
        Platform::Posix,
    );
    match a {
        Action::Fail(e) => assert_eq!(e, ResolveError::OutputDirectoryNotFound),
        _ => panic!("expected the failure report"),
    }
}

#[test]
fn force_flag_reaches_the_media_tool() {
    let a = plan_dispatch(
        &Resolution::MediaDirectory("/tmp/videos".to_string()),
        true,
        false,
        Platform::Posix,
    );
    match a {
        Action::RunMediaTool(d, force) => {
            assert_eq!(d, "/tmp/videos");
            assert!(force);
        }
        _ => panic!("expected the media tool"),
    }
}
