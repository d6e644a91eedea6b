//! Letting the user point at a pixel: which method serves a platform, and
//! the chain of methods on Linux, where the desktop portal is asked first
//! and a picker tool second.

use vstd::prelude::*;
use vstd::string::*;
use crate::capture::Platform;
use crate::color::{build_pixel_color, PixelColor};
use crate::error::{CaptureError, ErrorKind};
use crate::frame::{yields, Outcome};
use crate::hexcode::{hex_sample, parse_hex_color};
use crate::tool::{check_tool_run, run_failure, utf8_lossy, utf8_lossy_text, Tool, ToolRun};

verus! {

/// What the caller is to do to let the user pick a pixel.
#[derive(Debug)]
pub enum PickPlan {
    /// Ask the desktop portal, then `portal_answered`.
    PortalThenPicker,
    /// Run a hook session (see the module `hook`) on a thread of its own,
    /// then `hook_session_joined`.
    HookSession,
    /// Nothing: picking is refused.
    Refused(CaptureError),
}

/// How the desktop portal answered.
#[derive(Debug)]
pub enum PortalAnswer {
    /// The request could not be made.
    RequestFailed { reason: String },
    /// The portal answered without a colour: the user cancelled, or it failed.
    Declined { reason: String },
    /// The colour that the user picked, each channel already as eight bits.
    Picked { r: u8, g: u8, b: u8 },
}

/// How the chain goes on after the portal.
#[derive(Debug)]
pub enum AfterPortal {
    /// The portal gave the colour: the chain ends.
    Done(PixelColor),
    /// The portal failed: run the picker tool, then `picker_ran` with this
    /// error.
    TryPicker { portal_error: CaptureError },
}

pub const MSG_MACOS_UNSUPPORTED: &'static str =
    "pick_color_portal ainda não suportado no macOS. Use get_pixel_color.";

pub const MSG_PORTAL_REQUEST: &'static str = "Erro ao invocar portal de cor: ";

pub const MSG_PORTAL_RESPONSE: &'static str = "Seleção cancelada ou falhou: ";

pub const MSG_WORKER: &'static str = "Erro na task de captura: ";

pub const MSG_CHAIN_PORTAL: &'static str = "Nenhum método de captura disponível.\nPortal XDG: ";

pub const MSG_CHAIN_PICKER: &'static str =
    " (verifique se xdg-desktop-portal-hyprland está instalado e rodando).\nhyprpicker: ";

pub const MSG_CHAIN_INSTALL: &'static str =
    ".\nInstale com: sudo dnf install xdg-desktop-portal-hyprland hyprpicker";

/// What the portal's answer yields.
pub open spec fn portal_sample(answer: PortalAnswer) -> Outcome {
    match answer {
        PortalAnswer::RequestFailed { reason } => Err(
            (ErrorKind::PortalRequestFailure, MSG_PORTAL_REQUEST@ + reason@),
        ),
        PortalAnswer::Declined { reason } => Err(
            (ErrorKind::PortalRequestFailure, MSG_PORTAL_RESPONSE@ + reason@),
        ),
        PortalAnswer::Picked { r, g, b } => Ok((r, g, b)),
    }
}

/// What a run of the picker tool yields: the colour that its output writes.
pub open spec fn picker_sample(run: ToolRun) -> Outcome {
    match run_failure(Tool::Hyprpicker, run) {
        Some(failure) => Err(failure),
        None => hex_sample(utf8_lossy_text(run->stdout@)),
    }
}

/// The message of a chain in which both methods failed: both causes, and
/// what to install.
pub open spec fn chain_message(portal: Seq<char>, picker: Seq<char>) -> Seq<char> {
    MSG_CHAIN_PORTAL@ + portal + MSG_CHAIN_PICKER@ + picker + MSG_CHAIN_INSTALL@
}

/// What the chain yields once the picker tool has run after a failed
/// portal: the picker's colour, or an error that names both failures.
pub open spec fn chain_sample(portal_failure: (ErrorKind, Seq<char>), run: ToolRun) -> Outcome {
    match picker_sample(run) {
        Ok(channels) => Ok(channels),
        Err(picker_failure) => Err(
            (ErrorKind::AllMethodsFailed, chain_message(portal_failure.1, picker_failure.1)),
        ),
    }
}

/// What a hook session yields once its thread has been joined.
pub open spec fn joined_sample(
    joined: Result<Result<PixelColor, CaptureError>, String>,
) -> Outcome {
    match joined {
        Ok(Ok(color)) => Ok(color@),
        Ok(Err(error)) => Err(error@),
        Err(reason) => Err((ErrorKind::HookInstallFailure, MSG_WORKER@ + reason@)),
    }
}

/// Selects the method by which the user picks a pixel on `platform`.
pub fn pick_color_portal(platform: Platform) -> (plan: PickPlan)
    ensures
        match platform {
            Platform::Windows => plan is HookSession,
            Platform::MacOs => plan matches PickPlan::Refused(error) && error@ == (
                ErrorKind::UnsupportedOnPlatform,
                MSG_MACOS_UNSUPPORTED@,
            ),
            Platform::LinuxX11 | Platform::LinuxWayland => plan is PortalThenPicker,
        },
{
    match platform {
        Platform::Windows => PickPlan::HookSession,
        Platform::MacOs => PickPlan::Refused(
            CaptureError::new(ErrorKind::UnsupportedOnPlatform, MSG_MACOS_UNSUPPORTED),
        ),
        Platform::LinuxX11 => PickPlan::PortalThenPicker,
        Platform::LinuxWayland => PickPlan::PortalThenPicker,
    }
}

/// The colour that the portal gave, or why it gave none.
pub fn pick_color_via_portal(answer: &PortalAnswer) -> (out: Result<PixelColor, CaptureError>)
    ensures
        yields(out, portal_sample(*answer)),
{
    match answer {
        PortalAnswer::RequestFailed { reason } => Err(
            CaptureError::with_detail(
                ErrorKind::PortalRequestFailure,
                MSG_PORTAL_REQUEST,
                reason.as_str(),
            ),
        ),
        PortalAnswer::Declined { reason } => Err(
            CaptureError::with_detail(
                ErrorKind::PortalRequestFailure,
                MSG_PORTAL_RESPONSE,
                reason.as_str(),
            ),
        ),
        PortalAnswer::Picked { r, g, b } => build_pixel_color(*r, *g, *b),
    }
}

/// The colour that a run of the picker tool printed, or why there is none.
pub fn pick_color_via_hyprpicker(run: &ToolRun) -> (out: Result<PixelColor, CaptureError>)
    ensures
        yields(out, picker_sample(*run)),
{
    match check_tool_run(Tool::Hyprpicker, run) {
        Err(error) => Err(error),
        Ok(printed) => {
            let text = utf8_lossy(printed.as_slice());
            parse_hex_color(text.as_str())
        },
    }
}

/// First link of the chain: a colour from the portal ends it, a failure of
/// the portal leads to the picker tool.
pub fn portal_answered(answer: &PortalAnswer) -> (next: AfterPortal)
    ensures
        match portal_sample(*answer) {
            Ok(channels) => next matches AfterPortal::Done(color) && color@ == channels,
            Err(failure) => next matches AfterPortal::TryPicker { portal_error } && portal_error@
                == failure,
        },
{
    match pick_color_via_portal(answer) {
        Ok(color) => AfterPortal::Done(color),
        Err(portal_error) => AfterPortal::TryPicker { portal_error },
    }
}

/// Second link of the chain: the picker's colour, or, if it failed too, one
/// error whose message gives both causes and what to install.
pub fn picker_ran(portal_error: &CaptureError, run: &ToolRun) -> (out: Result<
    PixelColor,
    CaptureError,
>)
    ensures
        yields(out, chain_sample(portal_error@, *run)),
{
    match pick_color_via_hyprpicker(run) {
        Ok(color) => Ok(color),
        Err(picker_error) => {
            let mut message = String::from_str(MSG_CHAIN_PORTAL);
            message.append(portal_error.message.as_str());
            message.append(MSG_CHAIN_PICKER);
            message.append(picker_error.message.as_str());
            message.append(MSG_CHAIN_INSTALL);
            Err(CaptureError { kind: ErrorKind::AllMethodsFailed, message })
        },
    }
}

/// The result of a hook session that ran on a thread of its own. A thread
/// that could not be joined counts as a failed hook.
pub fn hook_session_joined(joined: Result<Result<PixelColor, CaptureError>, String>) -> (out:
    Result<PixelColor, CaptureError>)
    ensures
        yields(out, joined_sample(joined)),
{
    match joined {
        Ok(result) => result,
        Err(reason) => Err(
            CaptureError::with_detail(ErrorKind::HookInstallFailure, MSG_WORKER, reason.as_str()),
        ),
    }
}

} // verus!
