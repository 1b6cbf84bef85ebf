use std::path::{Path, MAIN_SEPARATOR};

use vimix_launcher::error::StartupError;
use vimix_launcher::resources::{resolve_binaries, ResourceBundle, Target, Tool};

const TOOLS: [Tool; 3] = [Tool::Ffmpeg, Tool::Ffprobe, Tool::Img2webp];

fn resolved(root: &str, target: Target) -> ResourceBundle {
    match resolve_binaries(Some(root), target) {
        Ok(bundle) => bundle,
        Err(e) => panic!("resolution failed: {:?}", e),
    }
}

#[test]
fn posix_paths_below_resource_root() {
    let bundle = resolved("/app/res", Target::Posix);
    assert_eq!(bundle.ffmpeg, "/app/res/resources/ffmpeg");
    assert_eq!(bundle.ffprobe, "/app/res/resources/ffprobe");
    assert_eq!(bundle.img2webp, "/app/res/resources/img2webp");
}

#[test]
fn windows_paths_end_in_exe() {
    let bundle = resolved("/app/res", Target::Windows);
    assert!(bundle.ffmpeg.ends_with(".exe"));
    assert!(bundle.ffprobe.ends_with(".exe"));
    assert!(bundle.img2webp.ends_with(".exe"));
    assert_eq!(bundle.ffmpeg, "/app/res\\resources\\ffmpeg.exe");
    assert_eq!(bundle.ffprobe, "/app/res\\resources\\ffprobe.exe");
    assert_eq!(bundle.img2webp, "/app/res\\resources\\img2webp.exe");
}

#[test]
fn windows_paths_are_joined_with_backslashes() {
    let bundle = resolved("C:\\Program Files\\Vimix", Target::Windows);
    assert_eq!(bundle.ffmpeg, "C:\\Program Files\\Vimix\\resources\\ffmpeg.exe");
    assert_eq!(bundle.ffprobe, "C:\\Program Files\\Vimix\\resources\\ffprobe.exe");
    assert_eq!(bundle.img2webp, "C:\\Program Files\\Vimix\\resources\\img2webp.exe");
}

#[test]
fn verbatim_windows_root_stays_verbatim() {
    let bundle = resolved("\\\\?\\C:\\app", Target::Windows);
    assert_eq!(bundle.ffmpeg, "\\\\?\\C:\\app\\resources\\ffmpeg.exe");
    assert_eq!(bundle.ffprobe, "\\\\?\\C:\\app\\resources\\ffprobe.exe");
    assert_eq!(bundle.img2webp, "\\\\?\\C:\\app\\resources\\img2webp.exe");
    for tool in TOOLS {
        assert!(!bundle.path(tool).contains('/'));
    }
}

#[test]
fn separator_is_not_doubled() {
    assert_eq!(resolved("/app/res/", Target::Posix).ffmpeg, "/app/res/resources/ffmpeg");
    assert_eq!(resolved("/", Target::Posix).ffprobe, "/resources/ffprobe");
    assert_eq!(resolved("C:\\app\\", Target::Windows).ffmpeg, "C:\\app\\resources\\ffmpeg.exe");
    assert_eq!(resolved("C:/app/", Target::Windows).img2webp, "C:/app/resources\\img2webp.exe");
    assert_eq!(resolved("C:\\", Target::Windows).ffprobe, "C:\\resources\\ffprobe.exe");
}

#[test]
fn backslash_is_no_separator_on_posix() {
    assert_eq!(resolved("/odd\\", Target::Posix).ffmpeg, "/odd\\/resources/ffmpeg");
}

#[test]
fn empty_root_gives_relative_paths() {
    let posix = resolved("", Target::Posix);
    assert_eq!(posix.ffmpeg, "resources/ffmpeg");
    assert_eq!(posix.ffprobe, "resources/ffprobe");
    assert_eq!(posix.img2webp, "resources/img2webp");
    let windows = resolved("", Target::Windows);
    assert_eq!(windows.ffmpeg, "resources\\ffmpeg.exe");
    assert_eq!(windows.ffprobe, "resources\\ffprobe.exe");
    assert_eq!(windows.img2webp, "resources\\img2webp.exe");
}

#[test]
fn root_is_not_looked_up() {
    assert_eq!(resolved("/no/such/dir", Target::Posix).img2webp, "/no/such/dir/resources/img2webp");
    assert_eq!(resolved("relative/dir", Target::Posix).ffmpeg, "relative/dir/resources/ffmpeg");
    assert_eq!(
        resolved("/with space/ünïcode", Target::Posix).ffprobe,
        "/with space/ünïcode/resources/ffprobe"
    );
}

#[test]
fn unresolved_root_is_fatal() {
    assert_eq!(resolve_binaries(None, Target::Posix), Err(StartupError::ResourceRootUnresolved));
    assert_eq!(resolve_binaries(None, Target::Windows), Err(StartupError::ResourceRootUnresolved));
}

#[test]
fn path_by_tool_matches_fields() {
    let bundle = resolved("/opt/vimix", Target::Posix);
    assert_eq!(bundle.path(Tool::Ffmpeg), "/opt/vimix/resources/ffmpeg");
    assert_eq!(bundle.path(Tool::Ffprobe), "/opt/vimix/resources/ffprobe");
    assert_eq!(bundle.path(Tool::Img2webp), "/opt/vimix/resources/img2webp");
    assert_eq!(bundle.path(Tool::Ffmpeg), bundle.ffmpeg);
    assert_eq!(bundle.path(Tool::Ffprobe), bundle.ffprobe);
    assert_eq!(bundle.path(Tool::Img2webp), bundle.img2webp);
}

#[test]
fn every_path_is_root_separator_resources_separator_file() {
    let roots = ["/app/res", "relative/dir", "/with space/ünïcode", "C:\\app", "\\\\?\\C:\\app", "x"];
    for root in roots {
        for target in [Target::Posix, Target::Windows] {
            let bundle = resolved(root, target);
            let sep = target.separator_text();
            for tool in TOOLS {
                let expected = format!(
                    "{}{}resources{}{}{}",
                    root,
                    sep,
                    sep,
                    tool.file_stem(),
                    target.executable_suffix()
                );
                assert_eq!(bundle.path(tool), expected);
            }
        }
    }
}

#[test]
fn paths_agree_with_the_path_join_of_this_system() {
    let target = if MAIN_SEPARATOR == '\\' { Target::Windows } else { Target::Posix };
    let roots = ["/app/res", "/app/res/", "/", "", "relative/dir", "relative/", "/with space/ünïcode"];
    for root in roots {
        let bundle = resolved(root, target);
        for tool in TOOLS {
            let file = format!("{}{}", tool.file_stem(), target.executable_suffix());
            let joined = Path::new(root).join("resources").join(file);
            assert_eq!(Some(bundle.path(tool)), joined.to_str());
        }
    }
}

#[test]
fn three_distinct_paths_in_one_directory() {
    for target in [Target::Posix, Target::Windows] {
        for root in ["/app/res", "/app/res/", "", "C:\\app"] {
            let bundle = resolved(root, target);
            assert_ne!(bundle.ffmpeg, bundle.ffprobe);
            assert_ne!(bundle.ffmpeg, bundle.img2webp);
            assert_ne!(bundle.ffprobe, bundle.img2webp);
            let mut parents = Vec::new();
            for tool in TOOLS {
                let file = format!("{}{}", tool.file_stem(), target.executable_suffix());
                assert!(!file.contains('/') && !file.contains('\\'));
                let path = bundle.path(tool);
                assert!(path.ends_with(&file));
                parents.push(path[..path.len() - file.len()].to_string());
            }
            let expected = format!("resources{}", target.separator_text());
            for parent in &parents {
                assert_eq!(parent, &parents[0]);
                assert!(parent.ends_with(&expected));
                assert!(parent.starts_with(root));
            }
        }
    }
}

#[test]
fn separators_of_each_target() {
    assert_eq!(Target::Posix.separator_text(), "/");
    assert_eq!(Target::Windows.separator_text(), "\\");
    assert!(Target::Posix.is_separator('/'));
    assert!(!Target::Posix.is_separator('\\'));
    assert!(Target::Windows.is_separator('/'));
    assert!(Target::Windows.is_separator('\\'));
    assert!(!Target::Posix.is_separator('s'));
    assert!(!Target::Windows.is_separator(':'));
}

#[test]
fn suffix_is_empty_except_on_windows() {
    assert_eq!(Target::Posix.executable_suffix(), "");
    assert_eq!(Target::Windows.executable_suffix(), ".exe");
    assert!(!Target::Windows.executable_suffix().is_empty());
}

#[test]
fn tools_have_fixed_names() {
    assert_eq!(Tool::Ffmpeg.file_stem(), "ffmpeg");
    assert_eq!(Tool::Ffprobe.file_stem(), "ffprobe");
    assert_eq!(Tool::Img2webp.file_stem(), "img2webp");
}

#[test]
fn resolution_is_deterministic() {
    for target in [Target::Posix, Target::Windows] {
        let first = resolved("/app/res", target);
        let second = resolved("/app/res", target);
        assert_eq!(first, second);
    }
    assert_ne!(resolved("/app/res", Target::Posix), resolved("/app/res", Target::Windows));
    assert_ne!(resolved("/app/res", Target::Posix), resolved("/app/other", Target::Posix));
}
