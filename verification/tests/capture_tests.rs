use devtoolbox::capture::{
    color_from_bitmap_file, get_pixel_color_wayland, get_pixel_color_x11, is_wayland,
    linux_platform, platform_get_pixel_color, CapturePlan, Platform, X11Reply,
};
use devtoolbox::color::PixelColor;
use devtoolbox::error::{CaptureError, ErrorKind};
use devtoolbox::tool::{
    check_tool_run, grim_args, hyprpicker_args, screencapture_args, Tool, ToolRun,
};

fn channels(out: Result<PixelColor, CaptureError>) -> (u8, u8, u8) {
    match out {
        Ok(color) => (color.r(), color.g(), color.b()),
        Err(error) => panic!("no colour: {}", error.message),
    }
}

fn failure(out: Result<PixelColor, CaptureError>) -> (ErrorKind, String) {
    match out {
        Ok(color) => panic!("a colour: {}", color.hex()),
        Err(error) => (error.kind, error.message),
    }
}

fn exited(success: bool, stdout: &[u8], stderr: &[u8]) -> ToolRun {
    ToolRun::Exited { success, stdout: stdout.to_vec(), stderr: stderr.to_vec() }
}

#[test]
fn wayland_is_told_by_display_or_session_type() {
    assert!(is_wayland(true, None));
    assert!(is_wayland(true, Some("x11")));
    assert!(is_wayland(false, Some("wayland")));
    assert!(!is_wayland(false, Some("x11")));
    assert!(!is_wayland(false, Some("Wayland")));
    assert!(!is_wayland(false, Some("wayland ")));
    assert!(!is_wayland(false, Some("")));
    assert!(!is_wayland(false, None));
}

#[test]
fn linux_platform_follows_the_session() {
    assert_eq!(linux_platform(true, None), Platform::LinuxWayland);
    assert_eq!(linux_platform(false, Some("wayland")), Platform::LinuxWayland);
    assert_eq!(linux_platform(false, Some("x11")), Platform::LinuxX11);
    assert_eq!(linux_platform(false, None), Platform::LinuxX11);
}

#[test]
fn windows_reads_the_screen_pixel() {
    match platform_get_pixel_color(Platform::Windows, -5, 700) {
        CapturePlan::ReadScreenPixel { x, y } => assert_eq!((x, y), (-5, 700)),
        other => panic!("unexpected plan: {:?}", other),
    }
}

#[test]
fn macos_runs_the_screen_capture_utility() {
    match platform_get_pixel_color(Platform::MacOs, 12, 345) {
        CapturePlan::Screenshot { args } => assert_eq!(
            args,
            vec!["-R", "12,345,1,1", "-t", "bmp", "-x", "/tmp/fd4d_pixel.bmp"]
        ),
        other => panic!("unexpected plan: {:?}", other),
    }
}

#[test]
fn x11_asks_for_an_image_at_sixteen_bit_coordinates() {
    match platform_get_pixel_color(Platform::LinuxX11, 100, -200) {
        CapturePlan::X11Image { x, y } => assert_eq!((x, y), (100, -200)),
        other => panic!("unexpected plan: {:?}", other),
    }
    match platform_get_pixel_color(Platform::LinuxX11, 65536 + 7, 40000) {
        CapturePlan::X11Image { x, y } => assert_eq!((x, y), (7, -25536)),
        other => panic!("unexpected plan: {:?}", other),
    }
}

#[test]
fn wayland_refuses_a_coordinate() {
    match platform_get_pixel_color(Platform::LinuxWayland, 1, 2) {
        CapturePlan::Refused(error) => {
            assert_eq!(error.kind, ErrorKind::UnsupportedOnSessionType);
            assert_eq!(
                error.message,
                "Captura por coordenada não suportada no Wayland. Use pick_color_portal."
            );
            assert_eq!(error.to_string(), error.message);
        }
        other => panic!("unexpected plan: {:?}", other),
    }
}

#[test]
fn arguments_of_the_tools() {
    assert_eq!(
        screencapture_args(-1, i32::MIN),
        vec!["-R", "-1,-2147483648,1,1", "-t", "bmp", "-x", "/tmp/fd4d_pixel.bmp"]
    );
    assert_eq!(screencapture_args(0, i32::MAX)[1], "0,2147483647,1,1");
    assert_eq!(grim_args(10, 2005), vec!["-g", "10,2005 1x1", "-t", "ppm", "-"]);
    assert_eq!(hyprpicker_args(), vec!["-a", "-f", "hex"]);
    assert_eq!(Tool::Screencapture.program(), "screencapture");
    assert_eq!(Tool::Hyprpicker.program(), "hyprpicker");
    assert_eq!(Tool::Grim.program(), "grim");
}

#[test]
fn a_successful_run_hands_its_output() {
    let run = exited(true, b"out", b"warning");
    match check_tool_run(Tool::Screencapture, &run) {
        Ok(printed) => assert_eq!(printed.as_slice(), b"out"),
        Err(error) => panic!("failed: {}", error.message),
    }
}

#[test]
fn a_tool_that_did_not_start() {
    let run = ToolRun::NotStarted { reason: "No such file or directory (os error 2)".to_string() };
    let texts = [
        (
            Tool::Screencapture,
            "Falha ao executar screencapture: No such file or directory (os error 2)",
        ),
        (
            Tool::Hyprpicker,
            "Falha ao executar hyprpicker: No such file or directory (os error 2). Instale com: sudo dnf install hyprpicker",
        ),
        (
            Tool::Grim,
            "Falha ao executar grim: No such file or directory (os error 2). Instale com: sudo dnf install grim",
        ),
    ];
    for (tool, text) in texts {
        match check_tool_run(tool, &run) {
            Ok(_) => panic!("no failure"),
            Err(error) => {
                assert_eq!(error.kind, ErrorKind::ExternalToolLaunchFailure);
                assert_eq!(error.message, text);
            }
        }
    }
}

#[test]
fn a_tool_that_failed_says_what_it_wrote() {
    let run = exited(false, b"#AABBCC", b"cannot open display\n");
    let texts = [
        (Tool::Screencapture, "screencapture falhou: cannot open display\n"),
        (Tool::Hyprpicker, "hyprpicker falhou: cannot open display\n"),
        (Tool::Grim, "grim falhou: cannot open display\n"),
    ];
    for (tool, text) in texts {
        match check_tool_run(tool, &run) {
            Ok(_) => panic!("no failure"),
            Err(error) => {
                assert_eq!(error.kind, ErrorKind::ExternalToolExitFailure);
                assert_eq!(error.message, text);
            }
        }
    }
}

#[test]
fn error_stream_that_is_not_utf8_is_shown_with_replacements() {
    let run = exited(false, b"", b"bad \xFF byte");
    match check_tool_run(Tool::Grim, &run) {
        Ok(_) => panic!("no failure"),
        Err(error) => assert_eq!(error.message, "grim falhou: bad \u{FFFD} byte"),
    }
}

#[test]
fn bitmap_file_that_was_read() {
    let mut data = vec![0u8; 57];
    data[10] = 54;
    data[54] = 0x10;
    data[55] = 0x20;
    data[56] = 0x30;
    assert_eq!(channels(color_from_bitmap_file(&Ok(data))), (0x30, 0x20, 0x10));
    assert_eq!(
        failure(color_from_bitmap_file(&Ok(vec![0u8; 12]))),
        (ErrorKind::MalformedCaptureOutput, "Arquivo BMP inválido".to_string())
    );
}

#[test]
fn bitmap_file_that_could_not_be_read() {
    assert_eq!(
        failure(color_from_bitmap_file(&Err("Permission denied (os error 13)".to_string()))),
        (
            ErrorKind::MalformedCaptureOutput,
            "Falha ao ler arquivo BMP: Permission denied (os error 13)".to_string()
        )
    );
}

#[test]
fn x11_image_is_blue_green_red() {
    let reply = X11Reply::Image { data: vec![0x10, 0x20, 0x30, 0x00] };
    assert_eq!(channels(get_pixel_color_x11(&reply)), (0x30, 0x20, 0x10));
}

#[test]
fn x11_failures() {
    let cases = [
        (
            X11Reply::NoConnection { reason: "refused".to_string() },
            ErrorKind::DeviceAccessFailure,
            "Falha ao conectar ao X11: refused",
        ),
        (
            X11Reply::RequestFailed { reason: "broken pipe".to_string() },
            ErrorKind::DeviceAccessFailure,
            "Falha ao capturar imagem: broken pipe",
        ),
        (
            X11Reply::ReplyFailed { reason: "BadMatch".to_string() },
            ErrorKind::DeviceAccessFailure,
            "Falha ao obter resposta: BadMatch",
        ),
        (
            X11Reply::Image { data: vec![1, 2] },
            ErrorKind::MalformedCaptureOutput,
            "Dados de pixel inválidos",
        ),
    ];
    for (reply, kind, text) in cases {
        assert_eq!(failure(get_pixel_color_x11(&reply)), (kind, text.to_string()));
    }
}

#[test]
fn pixmap_from_the_screenshot_utility() {
    let mut printed = b"P6\n1 1\n255\n".to_vec();
    printed.extend_from_slice(&[10, 20, 30]);
    assert_eq!(channels(get_pixel_color_wayland(&exited(true, &printed, b""))), (10, 20, 30));
    assert_eq!(
        failure(get_pixel_color_wayland(&exited(true, b"P6\n1 1\n", b""))),
        (ErrorKind::MalformedCaptureOutput, "Formato PPM inválido".to_string())
    );
    assert_eq!(
        failure(get_pixel_color_wayland(&exited(false, &printed, b"no output"))),
        (ErrorKind::ExternalToolExitFailure, "grim falhou: no output".to_string())
    );
    assert_eq!(
        failure(get_pixel_color_wayland(&ToolRun::NotStarted { reason: "missing".to_string() })),
        (
            ErrorKind::ExternalToolLaunchFailure,
            "Falha ao executar grim: missing. Instale com: sudo dnf install grim".to_string()
        )
    );
}
