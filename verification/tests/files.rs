use stream_pad::files::{
    extension_from_file_name, extension_of_name, fallback_icon_for_path, fallback_icon_text, file_extension,
    file_label, file_stem_of_name, is_audio_extension_text, is_audio_file, is_supported_application,
    label_from_file_name,
};

#[test]
fn stem_and_extension_follow_path_rules() {
    assert_eq!(file_stem_of_name("song.mp3"), "song");
    assert_eq!(extension_of_name("song.mp3"), Some("mp3".to_string()));
    assert_eq!(file_stem_of_name("archive.tar.gz"), "archive.tar");
    assert_eq!(extension_of_name("archive.tar.gz"), Some("gz".to_string()));
    assert_eq!(file_stem_of_name(".bashrc"), ".bashrc");
    assert_eq!(extension_of_name(".bashrc"), None);
    assert_eq!(file_stem_of_name("README"), "README");
    assert_eq!(extension_of_name("README"), None);
    assert_eq!(file_stem_of_name("trailing."), "trailing");
    assert_eq!(extension_of_name("trailing."), Some(String::new()));
    assert_eq!(file_stem_of_name(".."), "..");
    assert_eq!(extension_of_name(".."), None);
}

#[test]
fn stem_and_extension_agree_with_std() {
    for name in ["a.b", ".x", "x.", "...", "a..b", "plain", ".a.b"] {
        let p = std::path::Path::new(name);
        assert_eq!(file_stem_of_name(name), p.file_stem().unwrap().to_str().unwrap());
        assert_eq!(extension_of_name(name).as_deref(), p.extension().map(|e| e.to_str().unwrap()));
    }
}

#[test]
fn label_prefers_a_non_blank_stem() {
    assert_eq!(label_from_file_name(Some("OBS Studio.exe")), "OBS Studio");
    assert_eq!(label_from_file_name(Some("   .wav")), "   .wav");
    assert_eq!(label_from_file_name(None), "Dropped Item");
    assert_eq!(file_label("/music/Intro Theme.flac"), "Intro Theme");
    assert_eq!(file_label("/"), "Dropped Item");
}

#[test]
fn extension_is_lower_case() {
    assert_eq!(extension_from_file_name(Some("LOUD.MP3")), "mp3");
    assert_eq!(extension_from_file_name(Some("noext")), "");
    assert_eq!(extension_from_file_name(None), "");
    assert_eq!(file_extension("/tmp/Setup.EXE"), "exe");
}

#[test]
fn audio_and_program_files_are_recognised() {
    for e in ["mp3", "wav", "ogg", "m4a", "flac", "aac"] {
        assert!(is_audio_extension_text(e));
    }
    assert!(!is_audio_extension_text("MP3"));
    assert!(!is_audio_extension_text("mp4"));
    assert!(is_audio_file("/sounds/Hit.Ogg"));
    assert!(!is_audio_file("/sounds/readme.txt"));
    assert!(is_supported_application("/apps/Game.Exe"));
    assert!(!is_supported_application("/apps/Game.lnk"));
}

#[test]
fn fallback_icons() {
    assert_eq!(fallback_icon_text(true, true), "\u{1F4C1}");
    assert_eq!(fallback_icon_text(false, true), "\u{1F50A}");
    assert_eq!(fallback_icon_text(false, false), "\u{1F3AE}");
    assert_eq!(fallback_icon_for_path("/x/y.wav", true), "\u{1F4C1}");
    assert_eq!(fallback_icon_for_path("/x/y.wav", false), "\u{1F50A}");
    assert_eq!(fallback_icon_for_path("/x/y.exe", false), "\u{1F3AE}");
}

#[test]
fn bare_file_names_are_their_own_file_name() {
    assert_eq!(file_label("Clip One.mp4"), "Clip One");
    assert_eq!(file_extension("Clip One.MP4"), "mp4");
    assert!(is_audio_file("beep.wav"));
    assert!(is_supported_application("tool.exe"));
    assert_eq!(file_label("..."), "..");
    assert_eq!(file_label(".."), "Dropped Item");
}

#[test]
fn slash_paths_use_their_last_part() {
    assert_eq!(file_label("/home/u/song.mp3"), "song");
    assert_eq!(file_extension("music/Beat.WAV"), "wav");
    assert!(is_audio_file("/home/u/song.mp3"));
    assert!(!is_audio_file("/home/u.mp3/notes"));
    assert!(is_supported_application("/opt/tools/Run.exe"));
    assert_eq!(fallback_icon_for_path("/home/u/song.mp3", false), "\u{1F50A}");
}

#[test]
fn windows_paths_name_their_file_on_either_platform() {
    let label = file_label("C:\\Music\\song.mp3");
    assert!(label == "song" || label == "C:\\Music\\song");
    assert_eq!(file_extension("C:\\Music\\song.mp3"), "mp3");
    assert!(is_audio_file("C:\\Music\\song.mp3"));
    assert!(is_supported_application("D:\\Games\\Racer.EXE"));
    assert!(!is_audio_file("D:\\Games\\Racer.EXE"));
    let share = file_label("\\\\server\\share\\Intro.wav");
    assert!(share == "Intro" || share == "\\\\server\\share\\Intro");
}

#[test]
fn trailing_dots_and_separators_are_skipped() {
    assert_eq!(file_label("/music/song.mp3/."), "song");
    assert_eq!(file_label("/music/song.mp3//"), "song");
    assert_eq!(file_label("/music/.."), "Dropped Item");
    assert_eq!(file_label("./"), "Dropped Item");
    assert_eq!(file_extension("/music/.."), "");
}

#[test]
fn labels_agree_with_std_path_rules() {
    for path in ["/a/b.mp3", "a/./", "/x/.hidden", "..", "/", "C:\\x\\y.wav", "/tmp/archive.tar.gz"] {
        let p = std::path::Path::new(path);
        let expected = p
            .file_stem()
            .and_then(|v| v.to_str())
            .filter(|v| !v.trim().is_empty())
            .or_else(|| p.file_name().and_then(|v| v.to_str()))
            .unwrap_or("Dropped Item");
        assert_eq!(file_label(path), expected);
        let ext = p.extension().and_then(|v| v.to_str()).unwrap_or("").to_lowercase();
        assert_eq!(file_extension(path), ext);
    }
}
