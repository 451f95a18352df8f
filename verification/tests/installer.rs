use stream_pad::installer::{AppMode, DownloadView, InstallerView, ViewPhase};
use stream_pad::screen::{
    action_button_contains, centered_origin, click_point, click_target, generate_background, ready_state_texts,
    rgb, status_screen, to_wide, ClickTarget, StatusScreen,
};
use stream_pad::setup::{
    clean_registry_path, code_text, find_companion_setup, installed_path_from_values, is_companion_setup_name,
    parse_json_string, program_outcome, release_version_of, resolve_launch_request, setup_download_url_of,
    setup_file_name_of, LaunchRequest, Program,
};

fn view(mode: AppMode) -> InstallerView {
    InstallerView::new(mode, "C:\\Program Files\\Stream Pad".to_string(), "12.5 GB available".to_string())
}

#[test]
fn initial_view() {
    let v = view(AppMode::Install);
    assert_eq!(v.phase, ViewPhase::Ready);
    assert_eq!(v.status, "Ready");
    assert_eq!(v.detail, "Ready to install Stream Pad.");
    assert_eq!(view(AppMode::Uninstall).detail, "Ready to uninstall Stream Pad.");
    assert!(v.download.is_none());
}

#[test]
fn begin_starts_once() {
    let mut v = view(AppMode::Install);
    assert!(v.begin(AppMode::Install));
    assert_eq!(v.phase, ViewPhase::Preparing);
    assert_eq!(v.status, "Preparing");
    assert_eq!(v.detail, "Preparing Stream Pad setup.");
    assert!(!v.begin(AppMode::Install));
    assert_eq!(v.phase, ViewPhase::Preparing);
    let mut u = view(AppMode::Uninstall);
    assert!(u.begin(AppMode::Uninstall));
    assert_eq!((u.phase, u.status.as_str()), (ViewPhase::Removing, "Uninstalling"));
    assert_eq!(u.detail, "Please wait while we remove Stream Pad.");
}

#[test]
fn progress_then_install_then_done() {
    let mut v = view(AppMode::Install);
    v.begin(AppMode::Install);
    v.set_download_progress(10, Some(100), 5);
    assert_eq!(v.phase, ViewPhase::Downloading);
    assert_eq!(v.status, "Downloading");
    assert_eq!(v.download, Some(DownloadView { downloaded: 10, total: Some(100), bytes_per_second: 5 }));
    v.set_installing();
    assert_eq!(v.phase, ViewPhase::Installing);
    assert!(v.download.is_none());
    assert!(v.finish(AppMode::Install, Ok(())));
    assert_eq!((v.phase, v.status.as_str(), v.detail.as_str()), (ViewPhase::Complete, "Done", "Stream Pad has been installed."));
    assert_eq!(v.install_path, "C:\\Program Files\\Stream Pad");
}

#[test]
fn failure_is_shown() {
    let mut v = view(AppMode::Uninstall);
    v.begin(AppMode::Uninstall);
    assert!(!v.finish(AppMode::Uninstall, Err("Could not find the Stream Pad uninstaller.".to_string())));
    assert_eq!((v.phase, v.status.as_str()), (ViewPhase::Failed, "Failed"));
    assert_eq!(v.detail, "Could not find the Stream Pad uninstaller.");
    let mut w = view(AppMode::Install);
    w.set_download_progress(1, None, 0);
    w.set_error("boom".to_string());
    assert!(w.download.is_none());
    let bad = InstallerView::unreadable("p".to_string(), "f".to_string());
    assert_eq!((bad.phase, bad.detail.as_str()), (ViewPhase::Failed, "The installer state could not be read."));
}

#[test]
fn launch_arguments() {
    let args = |v: &[&str]| v.iter().map(|s| s.to_string()).collect::<Vec<_>>();
    assert!(matches!(resolve_launch_request(&args(&[])), LaunchRequest::Install));
    assert!(matches!(resolve_launch_request(&args(&["--quiet"])), LaunchRequest::Install));
    match resolve_launch_request(&args(&["x", "--uninstall", "C:\\u.exe", "--uninstall-temp"])) {
        LaunchRequest::Uninstall { uninstall_path, relaunch } => {
            assert_eq!(uninstall_path, Some("C:\\u.exe".to_string()));
            assert!(relaunch);
        }
        other => panic!("{other:?}"),
    }
    match resolve_launch_request(&args(&["--uninstall-temp"])) {
        LaunchRequest::Uninstall { uninstall_path, relaunch } => {
            assert_eq!(uninstall_path, None);
            assert!(!relaunch);
        }
        other => panic!("{other:?}"),
    }
}

#[test]
fn registry_paths() {
    assert_eq!(clean_registry_path("  \"C:\\Stream Pad\"  "), Some("C:\\Stream Pad".to_string()));
    assert_eq!(clean_registry_path(" \"\" "), None);
    assert_eq!(clean_registry_path("   "), None);
    let values = vec![None, Some("\"\"".to_string()), Some("D:\\Apps\\Stream Pad".to_string()), Some("E:\\x".to_string())];
    assert_eq!(installed_path_from_values(&values), Some("D:\\Apps\\Stream Pad".to_string()));
    assert_eq!(installed_path_from_values(&vec![None, None]), None);
}

#[test]
fn release_metadata() {
    let meta = r#"{ "version" : "1.4.2", "notes": "x" }"#;
    assert_eq!(parse_json_string(meta, "version"), Some("1.4.2".to_string()));
    assert_eq!(parse_json_string(meta, "missing"), None);
    assert_eq!(parse_json_string(r#"{"version": 3}"#, "version"), None);
    assert_eq!(release_version_of(meta, "0.1.0"), "1.4.2");
    assert_eq!(release_version_of("{}", "0.1.0"), "0.1.0");
    assert_eq!(setup_file_name_of("1.4.2"), "Stream.Pad_1.4.2_x64-setup.exe");
    assert_eq!(
        setup_download_url_of("1.4.2"),
        "https://github.com/Antonis-ge0/Stream-Pad/releases/download/v1.4.2/Stream.Pad_1.4.2_x64-setup.exe"
    );
}

#[test]
fn companion_setup_names() {
    assert!(is_companion_setup_name("Stream.Pad_2.0.0_x64-setup.exe"));
    assert!(is_companion_setup_name(&setup_file_name_of("9.9")));
    assert!(!is_companion_setup_name("Stream.Pad_2.0.0_x64-installer.exe"));
    assert!(!is_companion_setup_name("Other_x64-setup.exe"));
    let names = vec![Some("readme.txt".to_string()), None, Some("Stream.Pad_1_x64-setup.exe".to_string())];
    assert_eq!(find_companion_setup(&names), Some(2));
    assert_eq!(find_companion_setup(&vec![None]), None);
}

#[test]
fn exit_reports() {
    assert_eq!(code_text(0), "0");
    assert_eq!(code_text(1603), "1603");
    assert_eq!(code_text(-7), "-7");
    assert_eq!(code_text(i32::MIN), i32::MIN.to_string());
    assert_eq!(program_outcome(Program::Setup, true, Some(5)), Ok(()));
    assert_eq!(
        program_outcome(Program::Setup, false, Some(2)),
        Err("The Stream Pad setup exited with code 2.".to_string())
    );
    assert_eq!(
        program_outcome(Program::Uninstaller, false, None),
        Err("The Stream Pad uninstaller exited with code unknown.".to_string())
    );
}

#[test]
fn clicks() {
    assert_eq!(click_point((30 << 16) | 500), (500, 30));
    assert_eq!(click_point(0xFFFF_FFFF), (-1, -1));
    assert_eq!(click_point(0x8000), (-32768, 0));
    assert_eq!(click_target((10 << 16) | 970), ClickTarget::Close);
    assert_eq!(click_target((520 << 16) | 500), ClickTarget::ActionButton);
    assert_eq!(click_target((100 << 16) | 100), ClickTarget::Drag);
    assert!(action_button_contains(409, 508));
    assert!(action_button_contains(571, 554));
    assert!(!action_button_contains(572, 554));
}

#[test]
fn geometry_and_colours() {
    assert_eq!(centered_origin(1920, 980, -1), 470);
    assert_eq!(centered_origin(800, 980, -1), -1);
    assert_eq!(rgb(10, 14, 18), 0x00120E0A);
    assert_eq!(rgb(255, 255, 255), 0x00FFFFFF);
}

#[test]
fn wide_strings() {
    assert_eq!(to_wide("Hi"), vec![0x48, 0x69, 0]);
    assert_eq!(to_wide(""), vec![0]);
    let mut expected: Vec<u16> = "Ä\u{1F600}z".encode_utf16().collect();
    expected.push(0);
    assert_eq!(to_wide("Ä\u{1F600}z"), expected);
}

#[test]
fn background_is_white() {
    let bg = generate_background(3, 2);
    assert_eq!(bg.len(), 24);
    assert!(bg.iter().all(|b| *b == 255));
    assert!(generate_background(0, 5).is_empty());
}

#[test]
fn screens_and_texts() {
    assert_eq!(status_screen(ViewPhase::Ready), StatusScreen::Ready);
    assert_eq!(status_screen(ViewPhase::Downloading), StatusScreen::Download);
    assert_eq!(status_screen(ViewPhase::Installing), StatusScreen::Spinner { failed: false });
    assert_eq!(status_screen(ViewPhase::Failed), StatusScreen::Spinner { failed: true });
    assert_eq!(status_screen(ViewPhase::Complete), StatusScreen::Done);
    let (a, b, c) = ready_state_texts(AppMode::Install, &view(AppMode::Install));
    assert_eq!(a, "Install path: C:\\Program Files\\Stream Pad");
    assert_eq!(b, "C drive free space: 12.5 GB available");
    assert_eq!(c, "Install");
    let (a, b, c) = ready_state_texts(AppMode::Uninstall, &view(AppMode::Uninstall));
    assert_eq!(a, "Installed path: C:\\Program Files\\Stream Pad");
    assert_eq!(b, "Stream Pad will be removed from this PC.");
    assert_eq!(c, "Uninstall");
}
