//! Sampling the pixel at a coordinate: which backend serves a platform,
//! what it is asked, and what its answer means.

use vstd::prelude::*;
use vstd::string::*;
use crate::color::PixelColor;
use crate::error::{CaptureError, ErrorKind};
use crate::frame::{
    bitmap_sample,
    image_sample,
    parse_bitmap_pixel,
    parse_image_pixel,
    parse_pixmap_pixel,
    pixmap_sample,
    yields,
    Outcome,
};
use crate::text::same_text;
use crate::tool::{
    args_are,
    check_tool_run,
    run_failure,
    screencapture_arg_texts,
    screencapture_args,
    Tool,
    ToolRun,
};

verus! {

/// Where the capture runs.
#[derive(Clone, Copy, Debug, PartialEq, Eq, Structural)]
pub enum Platform {
    Windows,
    MacOs,
    /// Linux, in an X11 session.
    LinuxX11,
    /// Linux, in a Wayland session.
    LinuxWayland,
}

/// What the caller is to do for the pixel at a coordinate.
#[derive(Debug)]
#[allow(inconsistent_fields)]
pub enum CapturePlan {
    /// Open the device context of the whole screen, read the pixel at
    /// `(x, y)`, release the context; then `color_from_colorref`.
    ReadScreenPixel { x: i32, y: i32 },
    /// Run the screen capture utility with these arguments, then
    /// `check_tool_run`; read the bitmap it wrote at `SCREENSHOT_PATH` and
    /// delete that file; then `color_from_bitmap_file`.
    Screenshot { args: Vec<String> },
    /// Ask the display server for the one-by-one Z-pixmap image of the root
    /// window at `(x, y)`; then `get_pixel_color_x11`.
    X11Image { x: i16, y: i16 },
    /// Nothing: the capture is refused.
    Refused(CaptureError),
}

/// How the display server answered a request for an image.
#[derive(Debug)]
pub enum X11Reply {
    /// No connection to the display server.
    NoConnection { reason: String },
    /// The request could not be sent.
    RequestFailed { reason: String },
    /// The server answered with an error.
    ReplyFailed { reason: String },
    /// The bytes of the image.
    Image { data: Vec<u8> },
}

/// The session type that names Wayland.
pub const SESSION_WAYLAND: &'static str = "wayland";

pub const MSG_WAYLAND_UNSUPPORTED: &'static str =
    "Captura por coordenada não suportada no Wayland. Use pick_color_portal.";

pub const MSG_BITMAP_READ: &'static str = "Falha ao ler arquivo BMP: ";

pub const MSG_X11_CONNECT: &'static str = "Falha ao conectar ao X11: ";

pub const MSG_X11_REQUEST: &'static str = "Falha ao capturar imagem: ";

pub const MSG_X11_REPLY: &'static str = "Falha ao obter resposta: ";

/// A session is a Wayland one where a Wayland display is announced, or
/// where the session type is `wayland`.
pub open spec fn wayland_session(wayland_display: bool, session_type: Option<&str>) -> bool {
    wayland_display || (session_type matches Some(name) && name@ == SESSION_WAYLAND@)
}

/// The bitmap file that the screen capture utility wrote, or why it could
/// not be read.
pub open spec fn bitmap_file_sample(file: Result<Vec<u8>, String>) -> Outcome {
    match file {
        Ok(data) => bitmap_sample(data@),
        Err(reason) => Err((ErrorKind::MalformedCaptureOutput, MSG_BITMAP_READ@ + reason@)),
    }
}

/// The answer of the display server: the first pixel of the image, in blue,
/// green, red order.
pub open spec fn x11_sample(reply: X11Reply) -> Outcome {
    match reply {
        X11Reply::NoConnection { reason } => Err(
            (ErrorKind::DeviceAccessFailure, MSG_X11_CONNECT@ + reason@),
        ),
        X11Reply::RequestFailed { reason } => Err(
            (ErrorKind::DeviceAccessFailure, MSG_X11_REQUEST@ + reason@),
        ),
        X11Reply::ReplyFailed { reason } => Err(
            (ErrorKind::DeviceAccessFailure, MSG_X11_REPLY@ + reason@),
        ),
        X11Reply::Image { data } => image_sample(data@),
    }
}

/// A run of the screenshot utility that writes a pixmap to its output.
pub open spec fn grim_sample(run: ToolRun) -> Outcome {
    match run_failure(Tool::Grim, run) {
        Some(failure) => Err(failure),
        None => pixmap_sample(run->stdout@),
    }
}

/// Whether the session is a Wayland one. `wayland_display` says whether the
/// variable `WAYLAND_DISPLAY` is set, `session_type` is the value of
/// `XDG_SESSION_TYPE`, if it has one.
pub fn is_wayland(wayland_display: bool, session_type: Option<&str>) -> (wayland: bool)
    ensures
        wayland == wayland_session(wayland_display, session_type),
{
    if wayland_display {
        return true;
    }
    match session_type {
        Some(name) => same_text(name, SESSION_WAYLAND),
        None => false,
    }
}

/// The Linux platform of a session.
pub fn linux_platform(wayland_display: bool, session_type: Option<&str>) -> (platform: Platform)
    ensures
        platform == if wayland_session(wayland_display, session_type) {
            Platform::LinuxWayland
        } else {
            Platform::LinuxX11
        },
{
    if is_wayland(wayland_display, session_type) {
        Platform::LinuxWayland
    } else {
        Platform::LinuxX11
    }
}

/// Selects the backend that samples the pixel at `(x, y)` on `platform`.
/// A Wayland session has none: the capture is refused there.
pub fn platform_get_pixel_color(platform: Platform, x: i32, y: i32) -> (plan: CapturePlan)
    ensures
        match platform {
            Platform::Windows => plan matches CapturePlan::ReadScreenPixel { x: px, y: py } && px
                == x && py == y,
            Platform::MacOs => plan matches CapturePlan::Screenshot { args } && args_are(
                args,
                screencapture_arg_texts(x, y),
            ),
            Platform::LinuxX11 => plan matches CapturePlan::X11Image { x: px, y: py } && px
                == x as i16 && py == y as i16,
            Platform::LinuxWayland => plan matches CapturePlan::Refused(error) && error@ == (
                ErrorKind::UnsupportedOnSessionType,
                MSG_WAYLAND_UNSUPPORTED@,
            ),
        },
{
    match platform {
        Platform::Windows => CapturePlan::ReadScreenPixel { x, y },
        Platform::MacOs => CapturePlan::Screenshot { args: screencapture_args(x, y) },
        Platform::LinuxX11 => CapturePlan::X11Image {
            x: #[verifier::truncate]
            (x as i16),
            y: #[verifier::truncate]
            (y as i16),
        },
        Platform::LinuxWayland => CapturePlan::Refused(
            CaptureError::new(ErrorKind::UnsupportedOnSessionType, MSG_WAYLAND_UNSUPPORTED),
        ),
    }
}

/// The pixel of the bitmap file that the screen capture utility wrote.
pub fn color_from_bitmap_file(file: &Result<Vec<u8>, String>) -> (out: Result<
    PixelColor,
    CaptureError,
>)
    ensures
        yields(out, bitmap_file_sample(*file)),
{
    match file {
        Ok(data) => parse_bitmap_pixel(data.as_slice()),
        Err(reason) => Err(
            CaptureError::with_detail(
                ErrorKind::MalformedCaptureOutput,
                MSG_BITMAP_READ,
                reason.as_str(),
            ),
        ),
    }
}

/// The pixel that the display server sent.
pub fn get_pixel_color_x11(reply: &X11Reply) -> (out: Result<PixelColor, CaptureError>)
    ensures
        yields(out, x11_sample(*reply)),
{
    match reply {
        X11Reply::NoConnection { reason } => Err(
            CaptureError::with_detail(
                ErrorKind::DeviceAccessFailure,
                MSG_X11_CONNECT,
                reason.as_str(),
            ),
        ),
        X11Reply::RequestFailed { reason } => Err(
            CaptureError::with_detail(
                ErrorKind::DeviceAccessFailure,
                MSG_X11_REQUEST,
                reason.as_str(),
            ),
        ),
        X11Reply::ReplyFailed { reason } => Err(
            CaptureError::with_detail(
                ErrorKind::DeviceAccessFailure,
                MSG_X11_REPLY,
                reason.as_str(),
            ),
        ),
        X11Reply::Image { data } => parse_image_pixel(data.as_slice()),
    }
}

/// The pixel that a run of the screenshot utility printed as a pixmap.
pub fn get_pixel_color_wayland(run: &ToolRun) -> (out: Result<PixelColor, CaptureError>)
    ensures
        yields(out, grim_sample(*run)),
{
    match check_tool_run(Tool::Grim, run) {
        Err(error) => Err(error),
        Ok(printed) => parse_pixmap_pixel(printed.as_slice()),
    }
}

} // verus!
