use vimix_launcher::decimal::port_text;
use vimix_launcher::error::StartupError;
use vimix_launcher::resources::{ResourceBundle, Target, Tool};
use vimix_launcher::sidecar::{sidecar_command, spawn_sidecar, variable, SidecarCommand};

fn prepared(root: &str, port: u16, target: Target) -> SidecarCommand {
    match spawn_sidecar(Some(root), port, target) {
        Ok(command) => command,
        Err(e) => panic!("preparation failed: {:?}", e),
    }
}

fn pair(name: &str, value: &str) -> (String, String) {
    (name.to_string(), value.to_string())
}

#[test]
fn port_is_passed_as_port_argument() {
    let command = prepared("/app/res", 53211, Target::Posix);
    assert_eq!(command.args, vec!["--port".to_string(), "53211".to_string()]);
}

#[test]
fn program_is_the_bundled_sidecar() {
    assert_eq!(prepared("/app/res", 1, Target::Posix).program, "Vimix-processor");
    assert_eq!(prepared("/app/res", 1, Target::Windows).program, "Vimix-processor");
}

#[test]
fn environment_names_each_tool_path() {
    let command = prepared("/app/res", 53211, Target::Posix);
    assert_eq!(
        command.env,
        vec![
            pair("FFMPEG_BIN", "/app/res/resources/ffmpeg"),
            pair("FFPROBE_BIN", "/app/res/resources/ffprobe"),
            pair("IMG2WEBP_BIN", "/app/res/resources/img2webp"),
        ]
    );
}

#[test]
fn environment_on_windows_uses_exe_paths() {
    let command = prepared("/app/res", 8080, Target::Windows);
    assert_eq!(
        command.env,
        vec![
            pair("FFMPEG_BIN", "/app/res\\resources\\ffmpeg.exe"),
            pair("FFPROBE_BIN", "/app/res\\resources\\ffprobe.exe"),
            pair("IMG2WEBP_BIN", "/app/res\\resources\\img2webp.exe"),
        ]
    );
    assert_eq!(command.args, vec!["--port".to_string(), "8080".to_string()]);
}

#[test]
fn command_takes_paths_from_the_bundle() {
    let bundle = ResourceBundle {
        ffmpeg: "a".to_string(),
        ffprobe: "b".to_string(),
        img2webp: "c".to_string(),
    };
    let command = sidecar_command(443, &bundle);
    assert_eq!(command.program, "Vimix-processor");
    assert_eq!(command.args, vec!["--port".to_string(), "443".to_string()]);
    assert_eq!(
        command.env,
        vec![pair("FFMPEG_BIN", "a"), pair("FFPROBE_BIN", "b"), pair("IMG2WEBP_BIN", "c")]
    );
}

#[test]
fn unresolved_root_prepares_nothing() {
    assert_eq!(spawn_sidecar(None, 53211, Target::Posix), Err(StartupError::ResourceRootUnresolved));
    assert_eq!(spawn_sidecar(None, 0, Target::Windows), Err(StartupError::ResourceRootUnresolved));
}

#[test]
fn variables_have_fixed_names() {
    assert_eq!(variable(Tool::Ffmpeg), "FFMPEG_BIN");
    assert_eq!(variable(Tool::Ffprobe), "FFPROBE_BIN");
    assert_eq!(variable(Tool::Img2webp), "IMG2WEBP_BIN");
}

#[test]
fn port_text_is_decimal() {
    assert_eq!(port_text(0), "0");
    assert_eq!(port_text(7), "7");
    assert_eq!(port_text(9), "9");
    assert_eq!(port_text(10), "10");
    assert_eq!(port_text(80), "80");
    assert_eq!(port_text(100), "100");
    assert_eq!(port_text(1024), "1024");
    assert_eq!(port_text(15000), "15000");
    assert_eq!(port_text(24999), "24999");
    assert_eq!(port_text(53211), "53211");
    assert_eq!(port_text(60006), "60006");
    assert_eq!(port_text(65535), "65535");
}

#[test]
fn port_text_agrees_with_std_on_every_port() {
    let mut port: u16 = 0;
    loop {
        assert_eq!(port_text(port), port.to_string());
        if port == u16::MAX {
            break;
        }
        port += 1;
    }
}

#[test]
fn port_text_reads_back() {
    for port in [0u16, 1, 9, 10, 99, 100, 4096, 53211, 65535] {
        assert_eq!(port_text(port).parse::<u16>(), Ok(port));
    }
}
