//! Picking a pixel by a click, on Windows: every system cursor becomes a
//! cross, a global low-level mouse hook swallows the next press of the
//! primary button, and the pixel under the cursor is sampled.
//!
//! The session is a state machine. Its driver performs each action on the
//! system and reports what came of it; the machine says what to do next.
//! Whatever the system answers, a session that ends leaves the cursors and
//! the hook as it found them.

use vstd::prelude::*;
use crate::color::PixelColor;
use crate::error::{CaptureError, ErrorKind};
use crate::frame::{color_from_colorref, colorref_sample, yields, Outcome};

verus! {

/// A position on the screen.
#[allow(non_camel_case_types)]
#[derive(Clone, Copy, Debug, PartialEq, Eq, Structural)]
pub struct POINT {
    pub x: i32,
    pub y: i32,
}

impl Default for POINT {
    fn default() -> (point: POINT)
        ensures
            point == (POINT { x: 0, y: 0 }),
    {
        POINT { x: 0, y: 0 }
    }
}

/// The message that tells of a press of the primary button.
pub const WM_LBUTTONDOWN: u32 = 0x0201;

pub const OCR_NORMAL: u32 = 32512;

pub const OCR_IBEAM: u32 = 32513;

pub const OCR_HAND: u32 = 32649;

pub const OCR_APPSTARTING: u32 = 32650;

pub const OCR_SIZEALL: u32 = 32646;

pub const OCR_SIZENESW: u32 = 32643;

pub const OCR_SIZENS: u32 = 32645;

pub const OCR_SIZENWSE: u32 = 32642;

pub const OCR_SIZEWE: u32 = 32644;

pub const MSG_HOOK_INSTALL: &'static str = "Falha ao instalar mouse hook para captura de cor";

/// What the hook does with a mouse event.
#[derive(Clone, Copy, Debug, PartialEq, Eq, Structural)]
pub enum HookVerdict {
    /// Hand the event to the next hook.
    PassOn,
    /// Post the quit message and swallow the event, so that no window
    /// under the cursor reacts to the click.
    Swallow,
}

/// The system cursors that a session replaces by the cross.
pub open spec fn system_cursors() -> Seq<u32> {
    seq![
        OCR_NORMAL,
        OCR_IBEAM,
        OCR_HAND,
        OCR_APPSTARTING,
        OCR_SIZEALL,
        OCR_SIZENESW,
        OCR_SIZENS,
        OCR_SIZENWSE,
        OCR_SIZEWE,
    ]
}

/// Where a session stands: what its driver was last told to do.
#[derive(Clone, Copy, Debug, PartialEq, Eq, Structural)]
pub enum PickPhase {
    /// Nothing was asked yet.
    Idle,
    /// The cursors are being replaced by the cross.
    SwappingCursors,
    /// The mouse hook is being installed.
    InstallingHook,
    /// The message loop runs until the click.
    AwaitingClick,
    /// The mouse hook is being removed.
    RemovingHook,
    /// The cursors are being restored, after the click.
    RestoringCursors,
    /// The cursors are being restored, the hook having failed.
    RestoringAfterFailure,
    /// The position of the cursor is being read.
    Locating,
    /// The pixel under the cursor is being read.
    Sampling,
    /// The session has ended.
    Finished,
}

/// What the driver reports.
#[derive(Clone, Copy, Debug, PartialEq, Eq, Structural)]
pub enum PickEvent {
    /// The session is to begin.
    Begin,
    /// The cursors were replaced, as far as the system allowed.
    CursorsSwapped,
    /// The hook was installed, or could not be.
    HookInstalled { installed: bool },
    /// The message loop returned: the user clicked.
    Clicked,
    /// The hook was removed.
    HookRemoved,
    /// The cursors were restored.
    CursorsRestored,
    /// Where the cursor is.
    CursorAt { position: POINT },
    /// The packed colour value read at the position, or none where the
    /// device context of the screen could not be had.
    PixelRead { sample: Option<u32> },
}

/// What the driver is to do next.
#[derive(Debug)]
pub enum PickAction {
    /// Nothing: the event was not the one awaited.
    Wait,
    /// Replace each of the system cursors `ids` by a copy of the cross.
    SetCrossCursors { ids: Vec<u32> },
    /// Install the global low-level mouse hook, with `low_mouse_proc`.
    InstallHook,
    /// Run the message loop until the quit message.
    RunMessageLoop,
    /// Remove the mouse hook.
    RemoveHook,
    /// Restore the system cursors.
    RestoreCursors,
    /// Read the position of the cursor.
    ReadCursorPosition,
    /// Read the pixel at `(x, y)` of the screen.
    ReadScreenPixel { x: i32, y: i32 },
    /// End the session with this result.
    Finish(Result<PixelColor, CaptureError>),
}

/// An action over plain values.
pub enum ActionView {
    Wait,
    SetCrossCursors { ids: Seq<u32> },
    InstallHook,
    RunMessageLoop,
    RemoveHook,
    RestoreCursors,
    ReadCursorPosition,
    ReadScreenPixel { x: i32, y: i32 },
    Finish(Outcome),
}

impl View for PickAction {
    type V = ActionView;

    open spec fn view(&self) -> ActionView {
        match *self {
            PickAction::Wait => ActionView::Wait,
            PickAction::SetCrossCursors { ids } => ActionView::SetCrossCursors { ids: ids@ },
            PickAction::InstallHook => ActionView::InstallHook,
            PickAction::RunMessageLoop => ActionView::RunMessageLoop,
            PickAction::RemoveHook => ActionView::RemoveHook,
            PickAction::RestoreCursors => ActionView::RestoreCursors,
            PickAction::ReadCursorPosition => ActionView::ReadCursorPosition,
            PickAction::ReadScreenPixel { x, y } => ActionView::ReadScreenPixel { x, y },
            PickAction::Finish(Ok(color)) => ActionView::Finish(Ok(color@)),
            PickAction::Finish(Err(error)) => ActionView::Finish(Err(error@)),
        }
    }
}

/// Whether `event` is what a session in `phase` awaits.
pub open spec fn awaited(phase: PickPhase, event: PickEvent) -> bool {
    match phase {
        PickPhase::Idle => event is Begin,
        PickPhase::SwappingCursors => event is CursorsSwapped,
        PickPhase::InstallingHook => event is HookInstalled,
        PickPhase::AwaitingClick => event is Clicked,
        PickPhase::RemovingHook => event is HookRemoved,
        PickPhase::RestoringCursors => event is CursorsRestored,
        PickPhase::RestoringAfterFailure => event is CursorsRestored,
        PickPhase::Locating => event is CursorAt,
        PickPhase::Sampling => event is PixelRead,
        PickPhase::Finished => false,
    }
}

/// The phase that follows `phase` upon `event`. An event that is not
/// awaited changes nothing.
pub open spec fn next_phase(phase: PickPhase, event: PickEvent) -> PickPhase {
    if !awaited(phase, event) {
        phase
    } else {
        match phase {
            PickPhase::Idle => PickPhase::SwappingCursors,
            PickPhase::SwappingCursors => PickPhase::InstallingHook,
            PickPhase::InstallingHook => if event->installed {
                PickPhase::AwaitingClick
            } else {
                PickPhase::RestoringAfterFailure
            },
            PickPhase::AwaitingClick => PickPhase::RemovingHook,
            PickPhase::RemovingHook => PickPhase::RestoringCursors,
            PickPhase::RestoringCursors => PickPhase::Locating,
            PickPhase::RestoringAfterFailure => PickPhase::Finished,
            PickPhase::Locating => PickPhase::Sampling,
            PickPhase::Sampling => PickPhase::Finished,
            PickPhase::Finished => PickPhase::Finished,
        }
    }
}

/// What the driver is told upon `event` in `phase`.
pub open spec fn next_action(phase: PickPhase, event: PickEvent) -> ActionView {
    if !awaited(phase, event) {
        ActionView::Wait
    } else {
        match phase {
            PickPhase::Idle => ActionView::SetCrossCursors { ids: system_cursors() },
            PickPhase::SwappingCursors => ActionView::InstallHook,
            PickPhase::InstallingHook => if event->installed {
                ActionView::RunMessageLoop
            } else {
                ActionView::RestoreCursors
            },
            PickPhase::AwaitingClick => ActionView::RemoveHook,
            PickPhase::RemovingHook => ActionView::RestoreCursors,
            PickPhase::RestoringCursors => ActionView::ReadCursorPosition,
            PickPhase::RestoringAfterFailure => ActionView::Finish(
                Err((ErrorKind::HookInstallFailure, MSG_HOOK_INSTALL@)),
            ),
            PickPhase::Locating => ActionView::ReadScreenPixel {
                x: event->position.x,
                y: event->position.y,
            },
            PickPhase::Sampling => ActionView::Finish(colorref_sample(event->sample)),
            PickPhase::Finished => ActionView::Wait,
        }
    }
}

/// What a session has changed on the desktop.
pub struct Desktop {
    /// The system cursors show the cross.
    pub cross_cursors: bool,
    /// The mouse hook is installed.
    pub hook_installed: bool,
}

/// The desktop as a session finds it.
pub open spec fn untouched() -> Desktop {
    Desktop { cross_cursors: false, hook_installed: false }
}

/// The desktop once the driver has done what a session in `phase` asked
/// and reports `event`.
pub open spec fn desktop_after(desktop: Desktop, phase: PickPhase, event: PickEvent) -> Desktop {
    if !awaited(phase, event) {
        desktop
    } else {
        match phase {
            PickPhase::SwappingCursors => Desktop { cross_cursors: true, ..desktop },
            PickPhase::InstallingHook => Desktop { hook_installed: event->installed, ..desktop },
            PickPhase::RemovingHook => Desktop { hook_installed: false, ..desktop },
            PickPhase::RestoringCursors => Desktop { cross_cursors: false, ..desktop },
            PickPhase::RestoringAfterFailure => Desktop { cross_cursors: false, ..desktop },
            _ => desktop,
        }
    }
}

/// Where a session stands, and what it has changed on the desktop, after
/// the driver has reported `events` one after the other.
pub open spec fn session_after(events: Seq<PickEvent>) -> (PickPhase, Desktop)
    decreases events.len(),
{
    if events.len() == 0 {
        (PickPhase::Idle, untouched())
    } else {
        let (phase, desktop) = session_after(events.drop_last());
        (next_phase(phase, events.last()), desktop_after(desktop, phase, events.last()))
    }
}

/// What a session in `phase` has changed on the desktop.
pub open spec fn desktop_in(phase: PickPhase) -> Desktop {
    match phase {
        PickPhase::Idle => untouched(),
        PickPhase::SwappingCursors => untouched(),
        PickPhase::InstallingHook => Desktop { cross_cursors: true, hook_installed: false },
        PickPhase::AwaitingClick => Desktop { cross_cursors: true, hook_installed: true },
        PickPhase::RemovingHook => Desktop { cross_cursors: true, hook_installed: true },
        PickPhase::RestoringCursors => Desktop { cross_cursors: true, hook_installed: false },
        PickPhase::RestoringAfterFailure => Desktop { cross_cursors: true, hook_installed: false },
        PickPhase::Locating => untouched(),
        PickPhase::Sampling => untouched(),
        PickPhase::Finished => untouched(),
    }
}

/// At every point of a session, the phase tells what has been changed on
/// the desktop: the cross cursors are shown from the swap to the restore,
/// the hook is installed from its installation to its removal.
pub proof fn lemma_phase_tells_desktop(events: Seq<PickEvent>)
    ensures
        session_after(events).1 == desktop_in(session_after(events).0),
    decreases events.len(),
{
    if events.len() > 0 {
        lemma_phase_tells_desktop(events.drop_last());
    }
}

/// A session that has ended, with a colour or with an error, has left the
/// desktop as it found it: the system cursors are restored and no hook is
/// installed.
pub proof fn lemma_finished_session_restores_desktop(events: Seq<PickEvent>)
    requires
        session_after(events).0 == PickPhase::Finished,
    ensures
        session_after(events).1 == untouched(),
{
    lemma_phase_tells_desktop(events);
}

/// The session never reads the pixel, and never ends, while the cross
/// cursors are shown or the hook is installed.
pub proof fn lemma_sample_on_restored_desktop(events: Seq<PickEvent>, event: PickEvent)
    requires
        next_action(session_after(events).0, event) is ReadScreenPixel || next_action(
            session_after(events).0,
            event,
        ) is Finish,
    ensures
        session_after(events.push(event)).1 == untouched(),
{
    assert(events.push(event).drop_last() =~= events);
    lemma_phase_tells_desktop(events.push(event));
}

/// How many answers a session in `phase` still awaits, at most.
pub open spec fn steps_left(phase: PickPhase) -> nat {
    match phase {
        PickPhase::Idle => 8,
        PickPhase::SwappingCursors => 7,
        PickPhase::InstallingHook => 6,
        PickPhase::AwaitingClick => 5,
        PickPhase::RemovingHook => 4,
        PickPhase::RestoringCursors => 3,
        PickPhase::Locating => 2,
        PickPhase::Sampling => 1,
        PickPhase::RestoringAfterFailure => 1,
        PickPhase::Finished => 0,
    }
}

/// Every awaited answer brings the session nearer to its end, and nothing
/// is asked twice: a session ends with the eighth awaited answer at the
/// latest, and it ends exactly when the action is `Finish`.
pub proof fn lemma_session_advances(phase: PickPhase, event: PickEvent)
    ensures
        awaited(phase, event) ==> steps_left(next_phase(phase, event)) < steps_left(phase),
        next_action(phase, event) is Finish <==> awaited(phase, event) && next_phase(phase, event)
            == PickPhase::Finished,
        steps_left(phase) == 0 <==> phase == PickPhase::Finished,
{
}

/// What the mouse hook does with an event: the first press of the primary
/// button is swallowed, so that the message loop ends; all else passes.
pub fn low_mouse_proc(code: i32, w_param: usize) -> (verdict: HookVerdict)
    ensures
        verdict == if code >= 0 && w_param as u32 == WM_LBUTTONDOWN {
            HookVerdict::Swallow
        } else {
            HookVerdict::PassOn
        },
{
    if code < 0 {
        return HookVerdict::PassOn;
    }
    if #[verifier::truncate]
    (w_param as u32) == WM_LBUTTONDOWN {
        return HookVerdict::Swallow;
    }
    HookVerdict::PassOn
}

/// The system cursors that a session replaces by the cross.
pub fn set_all_cursors_to_cross() -> (ids: Vec<u32>)
    ensures
        ids@ == system_cursors(),
{
    let mut ids: Vec<u32> = Vec::new();
    ids.push(OCR_NORMAL);
    ids.push(OCR_IBEAM);
    ids.push(OCR_HAND);
    ids.push(OCR_APPSTARTING);
    ids.push(OCR_SIZEALL);
    ids.push(OCR_SIZENESW);
    ids.push(OCR_SIZENS);
    ids.push(OCR_SIZENWSE);
    ids.push(OCR_SIZEWE);
    ids
}

/// One step of a session: from where it stands and what the driver
/// reports, to where it stands next and what the driver is to do.
///
/// A session starts in `PickPhase::Idle` with `PickEvent::Begin`, and has
/// ended when the action is `PickAction::Finish`.
pub fn pick_color_interactive(phase: PickPhase, event: PickEvent) -> (next: (PickPhase, PickAction))
    ensures
        next.0 == next_phase(phase, event),
        next.1@ == next_action(phase, event),
{
    match (phase, event) {
        (PickPhase::Idle, PickEvent::Begin) => (
            PickPhase::SwappingCursors,
            PickAction::SetCrossCursors { ids: set_all_cursors_to_cross() },
        ),
        (PickPhase::SwappingCursors, PickEvent::CursorsSwapped) => (
            PickPhase::InstallingHook,
            PickAction::InstallHook,
        ),
        (PickPhase::InstallingHook, PickEvent::HookInstalled { installed }) => {
            if installed {
                (PickPhase::AwaitingClick, PickAction::RunMessageLoop)
            } else {
                (PickPhase::RestoringAfterFailure, PickAction::RestoreCursors)
            }
        },
        (PickPhase::AwaitingClick, PickEvent::Clicked) => (
            PickPhase::RemovingHook,
            PickAction::RemoveHook,
        ),
        (PickPhase::RemovingHook, PickEvent::HookRemoved) => (
            PickPhase::RestoringCursors,
            PickAction::RestoreCursors,
        ),
        (PickPhase::RestoringCursors, PickEvent::CursorsRestored) => (
            PickPhase::Locating,
            PickAction::ReadCursorPosition,
        ),
        (PickPhase::RestoringAfterFailure, PickEvent::CursorsRestored) => (
            PickPhase::Finished,
            PickAction::Finish(
                Err(CaptureError::new(ErrorKind::HookInstallFailure, MSG_HOOK_INSTALL)),
            ),
        ),
        (PickPhase::Locating, PickEvent::CursorAt { position }) => (
            PickPhase::Sampling,
            PickAction::ReadScreenPixel { x: position.x, y: position.y },
        ),
        (PickPhase::Sampling, PickEvent::PixelRead { sample }) => (
            PickPhase::Finished,
            PickAction::Finish(color_from_colorref(sample)),
        ),
        _ => (phase, PickAction::Wait),
    }
}

} // verus!
