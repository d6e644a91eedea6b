//! External programs: which one to run, with which arguments, and what a
//! finished run means. Running them is the caller's part.

use vstd::prelude::*;
use vstd::string::*;
use crate::error::{CaptureError, ErrorKind};
use crate::text::{push_signed_decimal, signed_decimal_text};

verus! {

/// The external programs that a capture may run.
#[derive(Clone, Copy, Debug, PartialEq, Eq, Structural)]
pub enum Tool {
    /// The screen capture utility of macOS.
    Screencapture,
    /// The interactive colour picker for Wayland compositors.
    Hyprpicker,
    /// The screenshot utility for Wayland compositors.
    Grim,
}

/// How a run of an external program ended.
#[derive(Debug)]
pub enum ToolRun {
    /// The program could not be started.
    NotStarted { reason: String },
    /// The program ran and ended.
    Exited { success: bool, stdout: Vec<u8>, stderr: Vec<u8> },
}

/// Where the screen capture utility is told to write its bitmap.
pub const SCREENSHOT_PATH: &'static str = "/tmp/fd4d_pixel.bmp";

pub const SCREENCAPTURE_PROGRAM: &'static str = "screencapture";

pub const HYPRPICKER_PROGRAM: &'static str = "hyprpicker";

pub const GRIM_PROGRAM: &'static str = "grim";

pub const MSG_SCREENCAPTURE_LAUNCH: &'static str = "Falha ao executar screencapture: ";

pub const MSG_SCREENCAPTURE_EXIT: &'static str = "screencapture falhou: ";

pub const MSG_HYPRPICKER_LAUNCH: &'static str = "Falha ao executar hyprpicker: ";

pub const MSG_HYPRPICKER_INSTALL: &'static str = ". Instale com: sudo dnf install hyprpicker";

pub const MSG_HYPRPICKER_EXIT: &'static str = "hyprpicker falhou: ";

pub const MSG_GRIM_LAUNCH: &'static str = "Falha ao executar grim: ";

pub const MSG_GRIM_INSTALL: &'static str = ". Instale com: sudo dnf install grim";

pub const MSG_GRIM_EXIT: &'static str = "grim falhou: ";

pub const NO_TEXT: &'static str = "";

/// The text that `String::from_utf8_lossy` of std makes of `bytes`: the
/// text they encode in UTF-8, each invalid sequence replaced by U+FFFD.
pub uninterp spec fn utf8_lossy_text(bytes: Seq<u8>) -> Seq<char>;

/// `String::from_utf8_lossy` of std, as an owned string. Nothing is claimed
/// of the text but that it depends on the bytes alone.
#[verifier::external_body]
pub(crate) fn utf8_lossy(bytes: &[u8]) -> (text: String)
    ensures
        text@ == utf8_lossy_text(bytes@),
{
    String::from_utf8_lossy(bytes).into_owned()
}

impl Tool {
    /// The name of the program.
    pub open spec fn program_text(self) -> Seq<char> {
        match self {
            Tool::Screencapture => SCREENCAPTURE_PROGRAM@,
            Tool::Hyprpicker => HYPRPICKER_PROGRAM@,
            Tool::Grim => GRIM_PROGRAM@,
        }
    }

    /// What the message of a failed start begins with.
    pub open spec fn launch_prefix(self) -> Seq<char> {
        match self {
            Tool::Screencapture => MSG_SCREENCAPTURE_LAUNCH@,
            Tool::Hyprpicker => MSG_HYPRPICKER_LAUNCH@,
            Tool::Grim => MSG_GRIM_LAUNCH@,
        }
    }

    /// What the message of a failed start ends with: how to install the
    /// program, where that is known.
    pub open spec fn launch_suffix(self) -> Seq<char> {
        match self {
            Tool::Screencapture => NO_TEXT@,
            Tool::Hyprpicker => MSG_HYPRPICKER_INSTALL@,
            Tool::Grim => MSG_GRIM_INSTALL@,
        }
    }

    /// What the message of a failed run begins with.
    pub open spec fn exit_prefix(self) -> Seq<char> {
        match self {
            Tool::Screencapture => MSG_SCREENCAPTURE_EXIT@,
            Tool::Hyprpicker => MSG_HYPRPICKER_EXIT@,
            Tool::Grim => MSG_GRIM_EXIT@,
        }
    }

    /// The name of the program to run.
    pub fn program(self) -> (name: &'static str)
        ensures
            name@ == self.program_text(),
    {
        match self {
            Tool::Screencapture => SCREENCAPTURE_PROGRAM,
            Tool::Hyprpicker => HYPRPICKER_PROGRAM,
            Tool::Grim => GRIM_PROGRAM,
        }
    }
}

/// Why `run` counts as failed, if it does: the program did not start, or it
/// ended with a failure status, in which case the message carries what it
/// wrote to its error stream.
pub open spec fn run_failure(tool: Tool, run: ToolRun) -> Option<(ErrorKind, Seq<char>)> {
    match run {
        ToolRun::NotStarted { reason } => Some(
            (
                ErrorKind::ExternalToolLaunchFailure,
                tool.launch_prefix() + reason@ + tool.launch_suffix(),
            ),
        ),
        ToolRun::Exited { success, stdout, stderr } => if success {
            None
        } else {
            Some((ErrorKind::ExternalToolExitFailure, tool.exit_prefix() + utf8_lossy_text(stderr@)))
        },
    }
}

/// The arguments of the screen capture utility for the one pixel at
/// `(x, y)`: a region of one by one, written as a bitmap, without sound.
pub open spec fn screencapture_arg_texts(x: i32, y: i32) -> Seq<Seq<char>> {
    seq![
        seq!['-', 'R'],
        signed_decimal_text(x as int) + seq![','] + signed_decimal_text(y as int) + seq![
            ',',
            '1',
            ',',
            '1',
        ],
        seq!['-', 't'],
        seq!['b', 'm', 'p'],
        seq!['-', 'x'],
        SCREENSHOT_PATH@,
    ]
}

/// The arguments of the screenshot utility for the one pixel at `(x, y)`:
/// a geometry of one by one, written as a pixmap to standard output.
pub open spec fn grim_arg_texts(x: i32, y: i32) -> Seq<Seq<char>> {
    seq![
        seq!['-', 'g'],
        signed_decimal_text(x as int) + seq![','] + signed_decimal_text(y as int) + seq![
            ' ',
            '1',
            'x',
            '1',
        ],
        seq!['-', 't'],
        seq!['p', 'p', 'm'],
        seq!['-'],
    ]
}

/// The arguments of the colour picker: copy to the clipboard, print as hex.
pub open spec fn hyprpicker_arg_texts() -> Seq<Seq<char>> {
    seq![seq!['-', 'a'], seq!['-', 'f'], seq!['h', 'e', 'x']]
}

/// `args` holds exactly the texts `texts`.
pub open spec fn args_are(args: Vec<String>, texts: Seq<Seq<char>>) -> bool {
    &&& args@.len() == texts.len()
    &&& forall|i: int| 0 <= i < texts.len() ==> (#[trigger] args@[i])@ == texts[i]
}

/// What a successful run wrote to its output, or why the run failed.
pub fn check_tool_run<'a>(tool: Tool, run: &'a ToolRun) -> (out: Result<&'a Vec<u8>, CaptureError>)
    ensures
        match out {
            Ok(printed) => run_failure(tool, *run) is None && printed@ == run->stdout@,
            Err(error) => run_failure(tool, *run) == Some(error@),
        },
{
    match run {
        ToolRun::NotStarted { reason } => {
            let error = match tool {
                Tool::Screencapture => CaptureError::with_detail_between(
                    ErrorKind::ExternalToolLaunchFailure,
                    MSG_SCREENCAPTURE_LAUNCH,
                    reason.as_str(),
                    NO_TEXT,
                ),
                Tool::Hyprpicker => CaptureError::with_detail_between(
                    ErrorKind::ExternalToolLaunchFailure,
                    MSG_HYPRPICKER_LAUNCH,
                    reason.as_str(),
                    MSG_HYPRPICKER_INSTALL,
                ),
                Tool::Grim => CaptureError::with_detail_between(
                    ErrorKind::ExternalToolLaunchFailure,
                    MSG_GRIM_LAUNCH,
                    reason.as_str(),
                    MSG_GRIM_INSTALL,
                ),
            };
            Err(error)
        },
        ToolRun::Exited { success, stdout, stderr } => {
            if *success {
                return Ok(stdout);
            }
            let said = utf8_lossy(stderr.as_slice());
            let prefix = match tool {
                Tool::Screencapture => MSG_SCREENCAPTURE_EXIT,
                Tool::Hyprpicker => MSG_HYPRPICKER_EXIT,
                Tool::Grim => MSG_GRIM_EXIT,
            };
            Err(CaptureError::with_detail(ErrorKind::ExternalToolExitFailure, prefix, said.as_str()))
        },
    }
}

/// The arguments of the screen capture utility for the pixel at `(x, y)`.
pub fn screencapture_args(x: i32, y: i32) -> (args: Vec<String>)
    ensures
        args_are(args, screencapture_arg_texts(x, y)),
{
    let mut region = String::new();
    push_signed_decimal(&mut region, x);
    region.push(',');
    push_signed_decimal(&mut region, y);
    region.push(',');
    region.push('1');
    region.push(',');
    region.push('1');
    assert(region@ =~= screencapture_arg_texts(x, y)[1]);
    proof {
        reveal_strlit("-R");
        reveal_strlit("-t");
        reveal_strlit("bmp");
        reveal_strlit("-x");
    }
    let mut args: Vec<String> = Vec::new();
    args.push(String::from_str("-R"));
    args.push(region);
    args.push(String::from_str("-t"));
    args.push(String::from_str("bmp"));
    args.push(String::from_str("-x"));
    args.push(String::from_str(SCREENSHOT_PATH));
    assert(args@[0]@ =~= seq!['-', 'R']);
    assert(args@[2]@ =~= seq!['-', 't']);
    assert(args@[3]@ =~= seq!['b', 'm', 'p']);
    assert(args@[4]@ =~= seq!['-', 'x']);
    assert(args@[1]@ == screencapture_arg_texts(x, y)[1]);
    assert(args@[5]@ == screencapture_arg_texts(x, y)[5]);
    args
}

/// The arguments of the screenshot utility for the pixel at `(x, y)`.
pub fn grim_args(x: i32, y: i32) -> (args: Vec<String>)
    ensures
        args_are(args, grim_arg_texts(x, y)),
{
    let mut geometry = String::new();
    push_signed_decimal(&mut geometry, x);
    geometry.push(',');
    push_signed_decimal(&mut geometry, y);
    geometry.push(' ');
    geometry.push('1');
    geometry.push('x');
    geometry.push('1');
    assert(geometry@ =~= grim_arg_texts(x, y)[1]);
    proof {
        reveal_strlit("-g");
        reveal_strlit("-t");
        reveal_strlit("ppm");
        reveal_strlit("-");
    }
    let mut args: Vec<String> = Vec::new();
    args.push(String::from_str("-g"));
    args.push(geometry);
    args.push(String::from_str("-t"));
    args.push(String::from_str("ppm"));
    args.push(String::from_str("-"));
    assert(args@[0]@ =~= seq!['-', 'g']);
    assert(args@[2]@ =~= seq!['-', 't']);
    assert(args@[3]@ =~= seq!['p', 'p', 'm']);
    assert(args@[4]@ =~= seq!['-']);
    assert(args@[1]@ == grim_arg_texts(x, y)[1]);
    args
}

/// The arguments of the colour picker.
pub fn hyprpicker_args() -> (args: Vec<String>)
    ensures
        args_are(args, hyprpicker_arg_texts()),
{
    proof {
        reveal_strlit("-a");
        reveal_strlit("-f");
        reveal_strlit("hex");
    }
    let mut args: Vec<String> = Vec::new();
    args.push(String::from_str("-a"));
    args.push(String::from_str("-f"));
    args.push(String::from_str("hex"));
    assert(args@[0]@ =~= seq!['-', 'a']);
    assert(args@[1]@ =~= seq!['-', 'f']);
    assert(args@[2]@ =~= seq!['h', 'e', 'x']);
    args
}

} // verus!
