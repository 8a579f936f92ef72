//! The checks that the entry point makes on a request, per command.
//!
//! Each command has a fixed list of [`Rule`]s.  A request is carried out only
//! when every rule of its command passes; otherwise the first rule that fails,
//! in list order, is the one reported to MATLAB.

use vstd::prelude::*;

use crate::command::Command;
use crate::handle::ObjectKind;
use crate::messages;
use crate::mx::{
    MxArg, DOUBLE_CLASS, INT16_CLASS, INT32_CLASS, INT64_CLASS, INT8_CLASS, LOGICAL_CLASS,
    SINGLE_CLASS, UINT16_CLASS, UINT32_CLASS, UINT64_CLASS, UINT8_CLASS,
};

verus! {

/// One check on a request.  Argument positions count the command name as
/// argument 0; ranges `lo..hi` exclude `hi`.
#[derive(Debug, Clone, Copy, PartialEq, Eq, Structural)]
pub enum Test {
    /// Exactly this many input arguments (the command name included).
    ArgCount(usize),
    /// No output variable.
    NoOutput,
    /// At most one output variable.
    AtMostOneOutput,
    /// The arguments in the range are all handle arrays.
    Handles(usize, usize),
    /// The two arguments are both handle arrays.
    HandlePair(usize, usize),
    /// The arguments in the range are all real double scalars.
    Reals(usize, usize),
    /// The argument is a real `uint32` scalar.
    KeyCode(usize),
    /// The arguments in the range are all logical scalars.
    Flags(usize, usize),
    /// The argument has this class and at least one element: it holds a
    /// uniform value of that class, and its first element is read once the
    /// call is carried out, so an empty array is refused too.
    Value(usize, i32),
    /// The handle in the argument is tagged with this kind.
    Kind(usize, ObjectKind),
    /// The argument is a character array.
    Text(usize),
    /// The argument, truncated to `i32`, is at least zero.  The truncation
    /// comes first, so values between -1 and 0, and NaN, pass.
    NonNegative(usize),
    /// Both arguments, truncated to `i32`, are above zero.
    Positive(usize, usize),
    /// The argument, read as a single, is not below zero.  NaN passes, and so
    /// do negative values that round to -0.0 as a single.
    NotBelowZero(usize),
}

/// A check, the command whose name identifies its failure to MATLAB
/// (`Strobe:<name>`), and the text shown with that failure.
///
/// The identifying command is the command itself, except where many commands
/// report the failure of a handle's tag under the name `background`.  The text
/// of a [`Test::Text`] check is not taken from the table: it names the
/// argument (see `dispatch`), and the table holds an empty text there.
#[derive(Debug, Clone, Copy)]
pub struct Rule {
    pub test: Test,
    pub id: Command,
    pub message: &'static str,
}

/// Whether `t` passes on a request with `nlhs` output variables and input
/// arguments `args`.
pub open spec fn passes(t: Test, nlhs: i32, args: Seq<MxArg>) -> bool {
    match t {
        Test::ArgCount(n) => args.len() == n,
        Test::NoOutput => nlhs == 0,
        Test::AtMostOneOutput => nlhs <= 1,
        Test::Handles(lo, hi) => forall|i: int| lo <= i < hi ==> #[trigger] args[i].handle_array(),
        Test::HandlePair(a, b) => args[a as int].handle_array() && args[b as int].handle_array(),
        Test::Reals(lo, hi) => forall|i: int| lo <= i < hi ==> #[trigger] args[i].real_scalar(),
        Test::KeyCode(i) => args[i as int].key_code(),
        Test::Flags(lo, hi) => forall|i: int| lo <= i < hi ==> #[trigger] args[i].logical_scalar(),
        Test::Value(i, class) => args[i as int].class_id == class && args[i as int].elements >= 1,
        Test::Kind(i, kind) => args[i as int].tag == kind.code(),
        Test::Text(i) => args[i as int].text(),
        Test::NonNegative(i) => args[i as int].truncated >= 0,
        Test::Positive(a, b) => args[a as int].truncated > 0 && args[b as int].truncated > 0,
        Test::NotBelowZero(i) => !args[i as int].negative_single,
    }
}

/// Every argument position that `t` reads lies below `n`.
pub open spec fn within(t: Test, n: nat) -> bool {
    match t {
        Test::ArgCount(_) => true,
        Test::NoOutput => true,
        Test::AtMostOneOutput => true,
        Test::Handles(lo, hi) => lo <= hi <= n,
        Test::HandlePair(a, b) => a < n && b < n,
        Test::Reals(lo, hi) => lo <= hi <= n,
        Test::KeyCode(i) => i < n,
        Test::Flags(lo, hi) => lo <= hi <= n,
        Test::Value(i, _) => i < n,
        Test::Kind(i, _) => i < n,
        Test::Text(i) => i < n,
        Test::NonNegative(i) => i < n,
        Test::Positive(a, b) => a < n && b < n,
        Test::NotBelowZero(i) => i < n,
    }
}

/// The number of input arguments that a rule list asks for.
pub open spec fn arity(rs: Seq<Rule>) -> nat {
    match rs[0].test {
        Test::ArgCount(n) => n as nat,
        _ => 0,
    }
}

/// The shape of every command's rule list: the argument count comes first,
/// the output count second, and no later rule reads past the argument count.
pub open spec fn well_formed(rs: Seq<Rule>) -> bool {
    &&& rs.len() >= 2
    &&& rs[0].test is ArgCount
    &&& arity(rs) >= 2
    &&& (rs[1].test == Test::NoOutput || rs[1].test == Test::AtMostOneOutput)
    &&& forall|k: int| 0 <= k < rs.len() ==> within(#[trigger] rs[k].test, arity(rs))
}

/// Every rule of `rs` passes.
pub open spec fn all_pass(rs: Seq<Rule>, nlhs: i32, args: Seq<MxArg>) -> bool {
    forall|j: int| 0 <= j < rs.len() ==> passes(#[trigger] rs[j].test, nlhs, args)
}

/// Rule `k` is the first rule of `rs` that fails.
pub open spec fn first_failure(rs: Seq<Rule>, nlhs: i32, args: Seq<MxArg>, k: int) -> bool {
    &&& 0 <= k < rs.len()
    &&& !passes(rs[k].test, nlhs, args)
    &&& forall|j: int| 0 <= j < k ==> passes(#[trigger] rs[j].test, nlhs, args)
}

/// The checks of a command, in the order in which they are made.
pub open spec fn rules(c: Command) -> Seq<Rule> {
    match c {
        Command::Background => seq![
            Rule { test: Test::ArgCount(6), id: Command::Background, message: messages::BACKGROUND_USAGE },
            Rule { test: Test::NoOutput, id: Command::Background, message: messages::NO_OUTPUT_VARIABLE },
            Rule { test: Test::Handles(1, 2), id: Command::Background, message: messages::SCREEN_EXPECTED },
            Rule { test: Test::Reals(2, 6), id: Command::Background, message: messages::BACKGROUND_REALS },
            Rule { test: Test::Kind(1, ObjectKind::Screen), id: Command::Background, message: messages::SCREEN_EXPECTED },
        ],
        Command::ColorMode => seq![
            Rule { test: Test::ArgCount(3), id: Command::ColorMode, message: messages::COLOR_MODE_USAGE },
            Rule { test: Test::NoOutput, id: Command::ColorMode, message: messages::NO_OUTPUT_VARIABLE },
            Rule { test: Test::Handles(1, 2), id: Command::ColorMode, message: messages::SCREEN_EXPECTED },
            Rule { test: Test::Kind(1, ObjectKind::Screen), id: Command::Background, message: messages::SCREEN_EXPECTED },
            Rule { test: Test::Text(2), id: Command::ColorMode, message: "" },
        ],
        Command::Stroke => seq![
            Rule { test: Test::ArgCount(6), id: Command::Stroke, message: messages::STROKE_USAGE },
            Rule { test: Test::NoOutput, id: Command::Stroke, message: messages::NO_OUTPUT_VARIABLE },
            Rule { test: Test::Handles(1, 2), id: Command::Stroke, message: messages::SCREEN_EXPECTED },
            Rule { test: Test::Reals(2, 6), id: Command::Stroke, message: messages::STROKE_REALS },
            Rule { test: Test::Kind(1, ObjectKind::Screen), id: Command::Background, message: messages::SCREEN_EXPECTED },
        ],
        Command::StrokeOn => seq![
            Rule { test: Test::ArgCount(2), id: Command::StrokeOn, message: messages::STROKE_ON_USAGE },
            Rule { test: Test::NoOutput, id: Command::StrokeOn, message: messages::NO_OUTPUT_VARIABLE },
            Rule { test: Test::Handles(1, 2), id: Command::StrokeOn, message: messages::SCREEN_EXPECTED },
            Rule { test: Test::Kind(1, ObjectKind::Screen), id: Command::Background, message: messages::SCREEN_EXPECTED },
        ],
        Command::StrokeOff => seq![
            Rule { test: Test::ArgCount(2), id: Command::StrokeOff, message: messages::STROKE_OFF_USAGE },
            Rule { test: Test::NoOutput, id: Command::StrokeOff, message: messages::NO_OUTPUT_VARIABLE_WRAPPED },
            Rule { test: Test::Handles(1, 2), id: Command::StrokeOff, message: messages::SCREEN_EXPECTED },
            Rule { test: Test::Kind(1, ObjectKind::Screen), id: Command::Background, message: messages::SCREEN_EXPECTED },
        ],
        Command::Fill => seq![
            Rule { test: Test::ArgCount(6), id: Command::Fill, message: messages::FILL_USAGE },
            Rule { test: Test::NoOutput, id: Command::Fill, message: messages::NO_OUTPUT_VARIABLE_WRAPPED },
            Rule { test: Test::Handles(1, 2), id: Command::Fill, message: messages::SCREEN_EXPECTED },
            Rule { test: Test::Reals(2, 6), id: Command::Fill, message: messages::FILL_REALS },
            Rule { test: Test::Kind(1, ObjectKind::Screen), id: Command::Background, message: messages::SCREEN_EXPECTED },
        ],
        Command::FillOn => seq![
            Rule { test: Test::ArgCount(2), id: Command::FillOn, message: messages::FILL_ON_USAGE },
            Rule { test: Test::NoOutput, id: Command::FillOn, message: messages::NO_OUTPUT_VARIABLE_WRAPPED },
            Rule { test: Test::Handles(1, 2), id: Command::FillOn, message: messages::SCREEN_EXPECTED },
            Rule { test: Test::Kind(1, ObjectKind::Screen), id: Command::Background, message: messages::SCREEN_EXPECTED },
        ],
        Command::FillOff => seq![
            Rule { test: Test::ArgCount(2), id: Command::FillOff, message: messages::FILL_OFF_USAGE },
            Rule { test: Test::NoOutput, id: Command::FillOff, message: messages::NO_OUTPUT_VARIABLE_WRAPPED },
            Rule { test: Test::Handles(1, 2), id: Command::FillOff, message: messages::SCREEN_EXPECTED },
            Rule { test: Test::Kind(1, ObjectKind::Screen), id: Command::Background, message: messages::SCREEN_EXPECTED },
        ],
        Command::FrameCount => seq![
            Rule { test: Test::ArgCount(2), id: Command::FrameCount, message: messages::FRAME_COUNT_USAGE },
            Rule { test: Test::AtMostOneOutput, id: Command::FrameCount, message: messages::ONE_OUTPUT_AT_MOST },
            Rule { test: Test::Handles(1, 2), id: Command::FrameCount, message: messages::SCREEN_EXPECTED },
            Rule { test: Test::Kind(1, ObjectKind::Screen), id: Command::Background, message: messages::SCREEN_EXPECTED },
        ],
        Command::SetFrameRate => seq![
            Rule { test: Test::ArgCount(3), id: Command::SetFrameRate, message: messages::SET_FRAME_RATE_USAGE },
            Rule { test: Test::NoOutput, id: Command::SetFrameRate, message: messages::NO_OUTPUT_VARIABLE_WRAPPED },
            Rule { test: Test::Handles(1, 2), id: Command::SetFrameRate, message: messages::SCREEN_EXPECTED },
            Rule { test: Test::Reals(2, 3), id: Command::SetFrameRate, message: messages::SET_FRAME_RATE_REALS },
            Rule { test: Test::Kind(1, ObjectKind::Screen), id: Command::Background, message: messages::SCREEN_EXPECTED },
            Rule { test: Test::NonNegative(2), id: Command::SetFrameRate, message: messages::SET_FRAME_RATE_REALS },
        ],
        Command::GetFrameRate => seq![
            Rule { test: Test::ArgCount(2), id: Command::GetFrameRate, message: messages::GET_FRAME_RATE_USAGE },
            Rule { test: Test::AtMostOneOutput, id: Command::GetFrameRate, message: messages::ONE_OUTPUT_AT_MOST },
            Rule { test: Test::Handles(1, 2), id: Command::GetFrameRate, message: messages::SCREEN_EXPECTED },
            Rule { test: Test::Kind(1, ObjectKind::Screen), id: Command::Background, message: messages::SCREEN_EXPECTED },
        ],
        Command::Height => seq![
            Rule { test: Test::ArgCount(2), id: Command::Height, message: messages::HEIGHT_USAGE },
            Rule { test: Test::AtMostOneOutput, id: Command::Height, message: messages::ONE_OUTPUT_AT_MOST },
            Rule { test: Test::Handles(1, 2), id: Command::Height, message: messages::SCREEN_EXPECTED },
            Rule { test: Test::Kind(1, ObjectKind::Screen), id: Command::Background, message: messages::SCREEN_EXPECTED },
        ],
        Command::Width => seq![
            Rule { test: Test::ArgCount(2), id: Command::Width, message: messages::WIDTH_USAGE },
            Rule { test: Test::AtMostOneOutput, id: Command::Width, message: messages::ONE_OUTPUT_AT_MOST },
            Rule { test: Test::Handles(1, 2), id: Command::Width, message: messages::SCREEN_EXPECTED },
            Rule { test: Test::Kind(1, ObjectKind::Screen), id: Command::Background, message: messages::SCREEN_EXPECTED },
        ],
        Command::Smooth => seq![
            Rule { test: Test::ArgCount(2), id: Command::Smooth, message: messages::SMOOTH_USAGE },
            Rule { test: Test::NoOutput, id: Command::Smooth, message: messages::NO_OUTPUT_VARIABLE_WRAPPED },
            Rule { test: Test::Handles(1, 2), id: Command::Smooth, message: messages::SCREEN_EXPECTED },
            Rule { test: Test::Kind(1, ObjectKind::Screen), id: Command::Background, message: messages::SCREEN_EXPECTED },
        ],
        Command::NoSmooth => seq![
            Rule { test: Test::ArgCount(2), id: Command::NoSmooth, message: messages::NO_SMOOTH_USAGE },
            Rule { test: Test::NoOutput, id: Command::NoSmooth, message: messages::NO_OUTPUT_VARIABLE_WRAPPED },
            Rule { test: Test::Handles(1, 2), id: Command::NoSmooth, message: messages::SCREEN_EXPECTED },
            Rule { test: Test::Kind(1, ObjectKind::Screen), id: Command::Background, message: messages::SCREEN_EXPECTED },
        ],
        Command::NoCursor => seq![
            Rule { test: Test::ArgCount(2), id: Command::NoCursor, message: messages::NO_CURSOR_USAGE },
            Rule { test: Test::NoOutput, id: Command::NoCursor, message: messages::NO_OUTPUT_VARIABLE_WRAPPED },
            Rule { test: Test::Handles(1, 2), id: Command::NoCursor, message: messages::SCREEN_EXPECTED },
            Rule { test: Test::Kind(1, ObjectKind::Screen), id: Command::Background, message: messages::SCREEN_EXPECTED },
        ],
        Command::Focused => seq![
            Rule { test: Test::ArgCount(2), id: Command::Focused, message: messages::FOCUSED_USAGE },
            Rule { test: Test::NoOutput, id: Command::Focused, message: messages::NO_OUTPUT_VARIABLE_WRAPPED },
            Rule { test: Test::Handles(1, 2), id: Command::Focused, message: messages::SCREEN_EXPECTED },
            Rule { test: Test::Kind(1, ObjectKind::Screen), id: Command::Background, message: messages::SCREEN_EXPECTED },
        ],
        Command::Cursor => seq![
            Rule { test: Test::ArgCount(3), id: Command::Cursor, message: messages::CURSOR_USAGE },
            Rule { test: Test::NoOutput, id: Command::Cursor, message: messages::NO_OUTPUT_VARIABLE_WRAPPED },
            Rule { test: Test::Handles(1, 2), id: Command::Cursor, message: messages::SCREEN_EXPECTED },
            Rule { test: Test::Kind(1, ObjectKind::Screen), id: Command::Background, message: messages::SCREEN_EXPECTED },
            Rule { test: Test::Text(2), id: Command::Cursor, message: "" },
        ],
        Command::ResetCursor => seq![
            Rule { test: Test::ArgCount(2), id: Command::ResetCursor, message: messages::RESET_CURSOR_USAGE },
            Rule { test: Test::NoOutput, id: Command::ResetCursor, message: messages::NO_OUTPUT_VARIABLE_WRAPPED },
            Rule { test: Test::Handles(1, 2), id: Command::ResetCursor, message: messages::SCREEN_EXPECTED },
            Rule { test: Test::Kind(1, ObjectKind::Screen), id: Command::Background, message: messages::SCREEN_EXPECTED },
        ],
        Command::Framebuffer => seq![
            Rule { test: Test::ArgCount(3), id: Command::Framebuffer, message: messages::FRAMEBUFFER_USAGE },
            Rule { test: Test::AtMostOneOutput, id: Command::Framebuffer, message: messages::ONE_OUTPUT_AT_MOST },
            Rule { test: Test::Handles(1, 3), id: Command::Framebuffer, message: messages::FRAMEBUFFER_HANDLES },
            Rule { test: Test::Kind(1, ObjectKind::Screen), id: Command::Background, message: messages::SCREEN_EXPECTED },
            Rule { test: Test::Kind(2, ObjectKind::Texture), id: Command::Background, message: messages::FRAMEBUFFER_KIND },
        ],
        Command::ClearFramebuffer => seq![
            Rule { test: Test::ArgCount(7), id: Command::ClearFramebuffer, message: messages::CLEAR_FRAMEBUFFER_USAGE },
            Rule { test: Test::NoOutput, id: Command::ClearFramebuffer, message: messages::NO_OUTPUT_VARIABLE_WRAPPED },
            Rule { test: Test::Handles(1, 3), id: Command::ClearFramebuffer, message: messages::CLEAR_FRAMEBUFFER_HANDLES },
            Rule { test: Test::Reals(3, 7), id: Command::ClearFramebuffer, message: messages::FILL_REALS },
            Rule { test: Test::Kind(1, ObjectKind::Screen), id: Command::Background, message: messages::SCREEN_EXPECTED },
            Rule { test: Test::Kind(2, ObjectKind::Framebuffer), id: Command::Background, message: messages::CLEAR_FRAMEBUFFER_KIND },
        ],
        Command::DrawOntoFramebuffer => seq![
            Rule { test: Test::ArgCount(4), id: Command::DrawOntoFramebuffer, message: messages::DRAW_ONTO_FRAMEBUFFER_USAGE },
            Rule { test: Test::NoOutput, id: Command::DrawOntoFramebuffer, message: messages::NO_OUTPUT_VARIABLE_WRAPPED },
            Rule { test: Test::Handles(1, 4), id: Command::DrawOntoFramebuffer, message: messages::DRAW_ONTO_FRAMEBUFFER_HANDLES },
            Rule { test: Test::Kind(1, ObjectKind::Screen), id: Command::Background, message: messages::SCREEN_EXPECTED },
            Rule { test: Test::Kind(2, ObjectKind::Shape), id: Command::Background, message: messages::DRAW_ONTO_FRAMEBUFFER_KIND },
            Rule { test: Test::Kind(3, ObjectKind::Framebuffer), id: Command::Background, message: messages::DRAW_ONTO_FRAMEBUFFER_KIND_2 },
        ],
        Command::LoadImage => seq![
            Rule { test: Test::ArgCount(2), id: Command::LoadImage, message: messages::LOAD_IMAGE_USAGE },
            Rule { test: Test::AtMostOneOutput, id: Command::LoadImage, message: messages::ONE_OUTPUT_AT_MOST },
            Rule { test: Test::Text(1), id: Command::LoadImage, message: "" },
        ],
        Command::ImageMode => seq![
            Rule { test: Test::ArgCount(3), id: Command::ImageMode, message: messages::IMAGE_MODE_USAGE },
            Rule { test: Test::NoOutput, id: Command::ImageMode, message: messages::NO_OUTPUT_VARIABLE_WRAPPED },
            Rule { test: Test::Handles(1, 2), id: Command::ImageMode, message: messages::SCREEN_EXPECTED },
            Rule { test: Test::Kind(1, ObjectKind::Screen), id: Command::Background, message: messages::SCREEN_EXPECTED },
            Rule { test: Test::Text(2), id: Command::ImageMode, message: "" },
        ],
        Command::NoTint => seq![
            Rule { test: Test::ArgCount(2), id: Command::NoTint, message: messages::NO_TINT_USAGE },
            Rule { test: Test::NoOutput, id: Command::NoTint, message: messages::NO_OUTPUT_VARIABLE_WRAPPED },
            Rule { test: Test::Handles(1, 2), id: Command::NoTint, message: messages::SCREEN_EXPECTED },
            Rule { test: Test::Kind(1, ObjectKind::Screen), id: Command::Background, message: messages::SCREEN_EXPECTED },
        ],
        Command::Save => seq![
            Rule { test: Test::ArgCount(3), id: Command::Save, message: messages::SAVE_USAGE },
            Rule { test: Test::NoOutput, id: Command::Save, message: messages::NO_OUTPUT_VARIABLE_WRAPPED },
            Rule { test: Test::Handles(1, 2), id: Command::Save, message: messages::SCREEN_EXPECTED },
            Rule { test: Test::Kind(1, ObjectKind::Screen), id: Command::Background, message: messages::SCREEN_EXPECTED },
            Rule { test: Test::Text(2), id: Command::Save, message: "" },
        ],
        Command::KeyPress => seq![
            Rule { test: Test::ArgCount(3), id: Command::KeyPress, message: messages::KEY_PRESS_USAGE },
            Rule { test: Test::AtMostOneOutput, id: Command::KeyPress, message: messages::ONE_OUTPUT_AT_MOST },
            Rule { test: Test::Handles(1, 2), id: Command::KeyPress, message: messages::SCREEN_EXPECTED },
            Rule { test: Test::KeyCode(2), id: Command::KeyPress, message: messages::KEY_PRESS_KEY },
            Rule { test: Test::Kind(1, ObjectKind::Screen), id: Command::Background, message: messages::SCREEN_EXPECTED },
        ],
        Command::SpaceWait => seq![
            Rule { test: Test::ArgCount(2), id: Command::SpaceWait, message: messages::SPACE_WAIT_USAGE },
            Rule { test: Test::NoOutput, id: Command::SpaceWait, message: messages::NO_OUTPUT_VARIABLE_WRAPPED },
            Rule { test: Test::Handles(1, 2), id: Command::SpaceWait, message: messages::SCREEN_EXPECTED },
            Rule { test: Test::Kind(1, ObjectKind::Screen), id: Command::Background, message: messages::SCREEN_EXPECTED },
        ],
        Command::MousePress => seq![
            Rule { test: Test::ArgCount(3), id: Command::MousePress, message: messages::MOUSE_PRESS_USAGE },
            Rule { test: Test::AtMostOneOutput, id: Command::MousePress, message: messages::ONE_OUTPUT_AT_MOST },
            Rule { test: Test::Handles(1, 2), id: Command::MousePress, message: messages::SCREEN_EXPECTED },
            Rule { test: Test::KeyCode(2), id: Command::MousePress, message: messages::MOUSE_PRESS_KEY },
            Rule { test: Test::Kind(1, ObjectKind::Screen), id: Command::Background, message: messages::SCREEN_EXPECTED },
        ],
        Command::MouseRelease => seq![
            Rule { test: Test::ArgCount(3), id: Command::MouseRelease, message: messages::MOUSE_RELEASE_USAGE },
            Rule { test: Test::AtMostOneOutput, id: Command::MouseRelease, message: messages::ONE_OUTPUT_AT_MOST },
            Rule { test: Test::Handles(1, 2), id: Command::MouseRelease, message: messages::SCREEN_EXPECTED },
            Rule { test: Test::Reals(2, 3), id: Command::MouseRelease, message: messages::MOUSE_PRESS_KEY },
            Rule { test: Test::Kind(1, ObjectKind::Screen), id: Command::Background, message: messages::SCREEN_EXPECTED },
        ],
        Command::MouseX => seq![
            Rule { test: Test::ArgCount(2), id: Command::MouseX, message: messages::MOUSE_X_USAGE },
            Rule { test: Test::AtMostOneOutput, id: Command::MouseX, message: messages::ONE_OUTPUT_AT_MOST },
            Rule { test: Test::Handles(1, 2), id: Command::MouseX, message: messages::SCREEN_EXPECTED },
            Rule { test: Test::Kind(1, ObjectKind::Screen), id: Command::Background, message: messages::SCREEN_EXPECTED },
        ],
        Command::MouseY => seq![
            Rule { test: Test::ArgCount(2), id: Command::MouseY, message: messages::MOUSE_Y_USAGE },
            Rule { test: Test::AtMostOneOutput, id: Command::MouseY, message: messages::ONE_OUTPUT_AT_MOST },
            Rule { test: Test::Handles(1, 2), id: Command::MouseY, message: messages::SCREEN_EXPECTED },
            Rule { test: Test::Kind(1, ObjectKind::Screen), id: Command::Background, message: messages::SCREEN_EXPECTED },
        ],
        Command::Mould => seq![
            Rule { test: Test::ArgCount(3), id: Command::Mould, message: messages::MOULD_USAGE },
            Rule { test: Test::AtMostOneOutput, id: Command::Mould, message: messages::ONE_OUTPUT_AT_MOST },
            Rule { test: Test::Handles(1, 3), id: Command::Mould, message: messages::MOULD_HANDLES },
            Rule { test: Test::Kind(1, ObjectKind::Shape), id: Command::Background, message: messages::MOULD_KIND },
            Rule { test: Test::Kind(2, ObjectKind::Shader), id: Command::Background, message: messages::MOULD_KIND_2 },
        ],
        Command::DrawMould => seq![
            Rule { test: Test::ArgCount(3), id: Command::DrawMould, message: messages::DRAW_MOULD_USAGE },
            Rule { test: Test::NoOutput, id: Command::DrawMould, message: messages::NO_OUTPUT_VARIABLE_WRAPPED },
            Rule { test: Test::Handles(1, 3), id: Command::DrawMould, message: messages::DRAW_MOULD_HANDLES },
            Rule { test: Test::Kind(1, ObjectKind::Screen), id: Command::Background, message: messages::SCREEN_EXPECTED },
            Rule { test: Test::Kind(2, ObjectKind::Mould), id: Command::Background, message: messages::DRAW_MOULD_KIND },
        ],
        Command::BlendMode => seq![
            Rule { test: Test::ArgCount(3), id: Command::BlendMode, message: messages::BLEND_MODE_USAGE },
            Rule { test: Test::NoOutput, id: Command::BlendMode, message: messages::NO_OUTPUT_VARIABLE_WRAPPED },
            Rule { test: Test::Handles(1, 2), id: Command::BlendMode, message: messages::SCREEN_EXPECTED },
            Rule { test: Test::Kind(1, ObjectKind::Screen), id: Command::Background, message: messages::SCREEN_EXPECTED },
            Rule { test: Test::Text(2), id: Command::BlendMode, message: "" },
        ],
        Command::Screen => seq![
            Rule { test: Test::ArgCount(6), id: Command::Screen, message: messages::SCREEN_USAGE },
            Rule { test: Test::AtMostOneOutput, id: Command::Screen, message: messages::SCREEN_ONE_OUTPUT },
            Rule { test: Test::Reals(1, 3), id: Command::Screen, message: messages::SCREEN_REALS },
            Rule { test: Test::Flags(3, 6), id: Command::Screen, message: messages::SCREEN_FLAGS },
            Rule { test: Test::Positive(1, 2), id: Command::Screen, message: messages::SCREEN_REALS },
        ],
        Command::Reveal => seq![
            Rule { test: Test::ArgCount(2), id: Command::Reveal, message: messages::REVEAL_USAGE },
            Rule { test: Test::NoOutput, id: Command::Reveal, message: messages::NO_OUTPUT_VARIABLE_WRAPPED },
            Rule { test: Test::Handles(1, 2), id: Command::Reveal, message: messages::SCREEN_EXPECTED },
            Rule { test: Test::Kind(1, ObjectKind::Screen), id: Command::Background, message: messages::SCREEN_EXPECTED },
        ],
        Command::EndDrawing => seq![
            Rule { test: Test::ArgCount(2), id: Command::EndDrawing, message: messages::END_DRAWING_USAGE },
            Rule { test: Test::NoOutput, id: Command::EndDrawing, message: messages::NO_OUTPUT_VARIABLE_WRAPPED },
            Rule { test: Test::Handles(1, 2), id: Command::EndDrawing, message: messages::SCREEN_EXPECTED },
            Rule { test: Test::Kind(1, ObjectKind::Screen), id: Command::Background, message: messages::SCREEN_EXPECTED },
        ],
        Command::LoadFragShader => seq![
            Rule { test: Test::ArgCount(3), id: Command::LoadFragShader, message: messages::LOAD_FRAG_SHADER_USAGE },
            Rule { test: Test::AtMostOneOutput, id: Command::LoadFragShader, message: messages::ONE_OUTPUT_AT_MOST },
            Rule { test: Test::Handles(1, 2), id: Command::LoadFragShader, message: messages::SCREEN_EXPECTED },
            Rule { test: Test::Kind(1, ObjectKind::Screen), id: Command::Background, message: messages::SCREEN_EXPECTED },
            Rule { test: Test::Text(2), id: Command::LoadFragShader, message: "" },
        ],
        Command::Shader => seq![
            Rule { test: Test::ArgCount(3), id: Command::Shader, message: messages::SHADER_USAGE },
            Rule { test: Test::NoOutput, id: Command::Shader, message: messages::NO_OUTPUT_VARIABLE_WRAPPED },
            Rule { test: Test::Handles(1, 3), id: Command::Shader, message: messages::SHADER_HANDLES },
            Rule { test: Test::Kind(1, ObjectKind::Screen), id: Command::Background, message: messages::SCREEN_EXPECTED },
            Rule { test: Test::Kind(2, ObjectKind::Shader), id: Command::Background, message: messages::MOULD_KIND_2 },
        ],
        Command::ResetShader => seq![
            Rule { test: Test::ArgCount(2), id: Command::ResetShader, message: messages::RESET_SHADER_USAGE },
            Rule { test: Test::NoOutput, id: Command::ResetShader, message: messages::NO_OUTPUT_VARIABLE_WRAPPED },
            Rule { test: Test::Handles(1, 2), id: Command::ResetShader, message: messages::SCREEN_EXPECTED },
            Rule { test: Test::Kind(1, ObjectKind::Screen), id: Command::Background, message: messages::SCREEN_EXPECTED },
        ],
        Command::Arc => seq![
            Rule { test: Test::ArgCount(9), id: Command::Arc, message: messages::ARC_USAGE },
            Rule { test: Test::AtMostOneOutput, id: Command::Arc, message: messages::ONE_OUTPUT_AT_MOST },
            Rule { test: Test::Handles(1, 2), id: Command::Arc, message: messages::SCREEN_EXPECTED },
            Rule { test: Test::Reals(2, 9), id: Command::Arc, message: messages::SHAPE_DIMENSIONS_REAL },
            Rule { test: Test::Kind(1, ObjectKind::Screen), id: Command::Background, message: messages::SCREEN_EXPECTED },
        ],
        Command::Ellipse => seq![
            Rule { test: Test::ArgCount(7), id: Command::Ellipse, message: messages::ELLIPSE_USAGE },
            Rule { test: Test::AtMostOneOutput, id: Command::Ellipse, message: messages::ONE_OUTPUT_AT_MOST },
            Rule { test: Test::Handles(1, 2), id: Command::Ellipse, message: messages::SCREEN_EXPECTED },
            Rule { test: Test::Reals(2, 7), id: Command::Ellipse, message: messages::SHAPE_DIMENSIONS_REAL },
            Rule { test: Test::Kind(1, ObjectKind::Screen), id: Command::Background, message: messages::SCREEN_EXPECTED },
        ],
        Command::Line => seq![
            Rule { test: Test::ArgCount(8), id: Command::Line, message: messages::LINE_USAGE },
            Rule { test: Test::AtMostOneOutput, id: Command::Line, message: messages::ONE_OUTPUT_AT_MOST },
            Rule { test: Test::Handles(1, 2), id: Command::Line, message: messages::SCREEN_EXPECTED },
            Rule { test: Test::Reals(2, 8), id: Command::Line, message: messages::SHAPE_DIMENSIONS_REAL },
            Rule { test: Test::Kind(1, ObjectKind::Screen), id: Command::Background, message: messages::SCREEN_EXPECTED },
        ],
        Command::Point => seq![
            Rule { test: Test::ArgCount(5), id: Command::Point, message: messages::POINT_USAGE },
            Rule { test: Test::AtMostOneOutput, id: Command::Point, message: messages::ONE_OUTPUT_AT_MOST },
            Rule { test: Test::Handles(1, 2), id: Command::Point, message: messages::SCREEN_EXPECTED },
            Rule { test: Test::Reals(2, 5), id: Command::Point, message: messages::SHAPE_DIMENSIONS_REAL },
            Rule { test: Test::Kind(1, ObjectKind::Screen), id: Command::Background, message: messages::SCREEN_EXPECTED },
        ],
        Command::Quad => seq![
            Rule { test: Test::ArgCount(14), id: Command::Quad, message: messages::QUAD_USAGE },
            Rule { test: Test::AtMostOneOutput, id: Command::Quad, message: messages::ONE_OUTPUT_AT_MOST },
            Rule { test: Test::Handles(1, 2), id: Command::Quad, message: messages::SCREEN_EXPECTED },
            Rule { test: Test::Reals(2, 14), id: Command::Quad, message: messages::SHAPE_DIMENSIONS_REAL },
            Rule { test: Test::Kind(1, ObjectKind::Screen), id: Command::Background, message: messages::SCREEN_EXPECTED },
        ],
        Command::Triangle => seq![
            Rule { test: Test::ArgCount(11), id: Command::Triangle, message: messages::TRIANGLE_USAGE },
            Rule { test: Test::AtMostOneOutput, id: Command::Triangle, message: messages::ONE_OUTPUT_AT_MOST },
            Rule { test: Test::Handles(1, 2), id: Command::Triangle, message: messages::SCREEN_EXPECTED },
            Rule { test: Test::Reals(2, 11), id: Command::Triangle, message: messages::SHAPE_DIMENSIONS_REAL },
            Rule { test: Test::Kind(1, ObjectKind::Screen), id: Command::Background, message: messages::SCREEN_EXPECTED },
        ],
        Command::Rect => seq![
            Rule { test: Test::ArgCount(7), id: Command::Rect, message: messages::RECT_USAGE },
            Rule { test: Test::AtMostOneOutput, id: Command::Rect, message: messages::ONE_OUTPUT_AT_MOST },
            Rule { test: Test::Handles(1, 2), id: Command::Rect, message: messages::SCREEN_EXPECTED },
            Rule { test: Test::Reals(2, 7), id: Command::Rect, message: messages::SHAPE_DIMENSIONS_REAL },
            Rule { test: Test::Kind(1, ObjectKind::Screen), id: Command::Background, message: messages::SCREEN_EXPECTED },
        ],
        Command::Cube => seq![
            Rule { test: Test::ArgCount(3), id: Command::Cube, message: messages::CUBE_USAGE },
            Rule { test: Test::AtMostOneOutput, id: Command::Cube, message: messages::ONE_OUTPUT_AT_MOST },
            Rule { test: Test::Handles(1, 2), id: Command::Cube, message: messages::SCREEN_EXPECTED },
            Rule { test: Test::Reals(2, 3), id: Command::Cube, message: messages::SHAPE_DIMENSIONS_REAL },
            Rule { test: Test::Kind(1, ObjectKind::Screen), id: Command::Background, message: messages::SCREEN_EXPECTED },
        ],
        Command::Draw => seq![
            Rule { test: Test::ArgCount(3), id: Command::Draw, message: messages::DRAW_USAGE },
            Rule { test: Test::NoOutput, id: Command::Draw, message: messages::NO_OUTPUT_VARIABLE_WRAPPED },
            Rule { test: Test::Handles(1, 3), id: Command::Draw, message: messages::DRAW_HANDLES },
            Rule { test: Test::Kind(1, ObjectKind::Screen), id: Command::Background, message: messages::SCREEN_EXPECTED },
            Rule { test: Test::Kind(2, ObjectKind::Shape), id: Command::Background, message: messages::DRAW_ONTO_FRAMEBUFFER_KIND },
        ],
        Command::StrokeWeight => seq![
            Rule { test: Test::ArgCount(3), id: Command::StrokeWeight, message: messages::STROKE_WEIGHT_USAGE },
            Rule { test: Test::NoOutput, id: Command::StrokeWeight, message: messages::NO_OUTPUT_VARIABLE_WRAPPED },
            Rule { test: Test::Handles(1, 2), id: Command::StrokeWeight, message: messages::SCREEN_EXPECTED },
            Rule { test: Test::Reals(2, 3), id: Command::StrokeWeight, message: messages::SET_FRAME_RATE_REALS },
            Rule { test: Test::Kind(1, ObjectKind::Screen), id: Command::Background, message: messages::SCREEN_EXPECTED },
            Rule { test: Test::NotBelowZero(2), id: Command::StrokeWeight, message: messages::SET_FRAME_RATE_REALS },
        ],
        Command::EllipseMode => seq![
            Rule { test: Test::ArgCount(3), id: Command::EllipseMode, message: messages::ELLIPSE_MODE_USAGE },
            Rule { test: Test::NoOutput, id: Command::EllipseMode, message: messages::NO_OUTPUT_VARIABLE_WRAPPED },
            Rule { test: Test::Handles(1, 2), id: Command::EllipseMode, message: messages::SCREEN_EXPECTED },
            Rule { test: Test::Kind(1, ObjectKind::Screen), id: Command::Background, message: messages::SCREEN_EXPECTED },
            Rule { test: Test::Text(2), id: Command::EllipseMode, message: "" },
        ],
        Command::RectMode => seq![
            Rule { test: Test::ArgCount(3), id: Command::RectMode, message: messages::RECT_MODE_USAGE },
            Rule { test: Test::NoOutput, id: Command::RectMode, message: messages::NO_OUTPUT_VARIABLE_WRAPPED },
            Rule { test: Test::Handles(1, 2), id: Command::RectMode, message: messages::SCREEN_EXPECTED },
            Rule { test: Test::Kind(1, ObjectKind::Screen), id: Command::Background, message: messages::SCREEN_EXPECTED },
            Rule { test: Test::Text(2), id: Command::RectMode, message: "" },
        ],
        Command::ShapeMode => seq![
            Rule { test: Test::ArgCount(3), id: Command::ShapeMode, message: messages::SHAPE_MODE_USAGE },
            Rule { test: Test::NoOutput, id: Command::ShapeMode, message: messages::NO_OUTPUT_VARIABLE_WRAPPED },
            Rule { test: Test::Handles(1, 2), id: Command::ShapeMode, message: messages::SCREEN_EXPECTED },
            Rule { test: Test::Kind(1, ObjectKind::Screen), id: Command::Background, message: messages::SCREEN_EXPECTED },
            Rule { test: Test::Text(2), id: Command::ShapeMode, message: "" },
        ],
        Command::Texture => seq![
            Rule { test: Test::ArgCount(3), id: Command::Texture, message: messages::TEXTURE_USAGE },
            Rule { test: Test::AtMostOneOutput, id: Command::Texture, message: messages::ONE_OUTPUT_AT_MOST },
            Rule { test: Test::Handles(1, 3), id: Command::Texture, message: messages::FRAMEBUFFER_HANDLES },
            Rule { test: Test::Kind(1, ObjectKind::Screen), id: Command::Background, message: messages::SCREEN_EXPECTED },
            Rule { test: Test::Kind(2, ObjectKind::Image), id: Command::Background, message: messages::TEXTURE_KIND },
        ],
        Command::AttachTexture => seq![
            Rule { test: Test::ArgCount(3), id: Command::AttachTexture, message: messages::ATTACH_TEXTURE_USAGE },
            Rule { test: Test::NoOutput, id: Command::AttachTexture, message: messages::NO_OUTPUT_VARIABLE_WRAPPED },
            Rule { test: Test::Handles(1, 3), id: Command::AttachTexture, message: messages::ATTACH_TEXTURE_HANDLES },
            Rule { test: Test::Kind(1, ObjectKind::Shape), id: Command::Background, message: messages::ATTACH_TEXTURE_KIND },
            Rule { test: Test::Kind(2, ObjectKind::Texture), id: Command::Background, message: messages::FRAMEBUFFER_KIND },
        ],
        Command::ApplyMatrix => seq![
            Rule { test: Test::ArgCount(18), id: Command::ApplyMatrix, message: messages::APPLY_MATRIX_USAGE },
            Rule { test: Test::NoOutput, id: Command::ApplyMatrix, message: messages::NO_OUTPUT_VARIABLE_WRAPPED },
            Rule { test: Test::Handles(1, 2), id: Command::ApplyMatrix, message: messages::SCREEN_EXPECTED },
            Rule { test: Test::Reals(2, 18), id: Command::ApplyMatrix, message: messages::APPLY_MATRIX_REALS },
            Rule { test: Test::Kind(1, ObjectKind::Screen), id: Command::ApplyMatrix, message: messages::SCREEN_EXPECTED },
        ],
        Command::PopMatrix => seq![
            Rule { test: Test::ArgCount(2), id: Command::PopMatrix, message: messages::POP_MATRIX_USAGE },
            Rule { test: Test::NoOutput, id: Command::PopMatrix, message: messages::NO_OUTPUT_VARIABLE_WRAPPED },
            Rule { test: Test::Handles(1, 2), id: Command::PopMatrix, message: messages::SCREEN_EXPECTED },
            Rule { test: Test::Kind(1, ObjectKind::Screen), id: Command::PopMatrix, message: messages::SCREEN_EXPECTED },
        ],
        Command::PushMatrix => seq![
            Rule { test: Test::ArgCount(2), id: Command::PushMatrix, message: messages::PUSH_MATRIX_USAGE },
            Rule { test: Test::NoOutput, id: Command::PushMatrix, message: messages::NO_OUTPUT_VARIABLE_WRAPPED },
            Rule { test: Test::Handles(1, 2), id: Command::PushMatrix, message: messages::SCREEN_EXPECTED },
            Rule { test: Test::Kind(1, ObjectKind::Screen), id: Command::PushMatrix, message: messages::SCREEN_EXPECTED },
        ],
        Command::ResetMatrix => seq![
            Rule { test: Test::ArgCount(2), id: Command::ResetMatrix, message: messages::RESET_MATRIX_USAGE },
            Rule { test: Test::NoOutput, id: Command::ResetMatrix, message: messages::NO_OUTPUT_VARIABLE_WRAPPED },
            Rule { test: Test::Handles(1, 2), id: Command::ResetMatrix, message: messages::SCREEN_EXPECTED },
            Rule { test: Test::Kind(1, ObjectKind::Screen), id: Command::ResetMatrix, message: messages::SCREEN_EXPECTED },
        ],
        Command::Rotate => seq![
            Rule { test: Test::ArgCount(6), id: Command::Rotate, message: messages::ROTATE_USAGE },
            Rule { test: Test::NoOutput, id: Command::Rotate, message: messages::NO_OUTPUT_VARIABLE_WRAPPED },
            Rule { test: Test::Handles(1, 2), id: Command::Rotate, message: messages::SCREEN_EXPECTED },
            Rule { test: Test::Reals(2, 6), id: Command::Rotate, message: messages::ROTATE_REALS },
            Rule { test: Test::Kind(1, ObjectKind::Screen), id: Command::Rotate, message: messages::SCREEN_EXPECTED },
        ],
        Command::RotateX => seq![
            Rule { test: Test::ArgCount(3), id: Command::RotateX, message: messages::ROTATE_X_USAGE },
            Rule { test: Test::NoOutput, id: Command::RotateX, message: messages::NO_OUTPUT_VARIABLE_WRAPPED },
            Rule { test: Test::Handles(1, 2), id: Command::RotateX, message: messages::SCREEN_EXPECTED },
            Rule { test: Test::Reals(2, 3), id: Command::RotateX, message: messages::ROTATE_X_REALS },
            Rule { test: Test::Kind(1, ObjectKind::Screen), id: Command::RotateX, message: messages::SCREEN_EXPECTED },
        ],
        Command::RotateY => seq![
            Rule { test: Test::ArgCount(3), id: Command::RotateY, message: messages::ROTATE_Y_USAGE },
            Rule { test: Test::NoOutput, id: Command::RotateY, message: messages::NO_OUTPUT_VARIABLE_WRAPPED },
            Rule { test: Test::Handles(1, 2), id: Command::RotateY, message: messages::SCREEN_EXPECTED },
            Rule { test: Test::Reals(2, 3), id: Command::RotateY, message: messages::ROTATE_Y_REALS },
            Rule { test: Test::Kind(1, ObjectKind::Screen), id: Command::RotateY, message: messages::SCREEN_EXPECTED },
        ],
        Command::RotateZ => seq![
            Rule { test: Test::ArgCount(3), id: Command::RotateZ, message: messages::ROTATE_Z_USAGE },
            Rule { test: Test::NoOutput, id: Command::RotateZ, message: messages::NO_OUTPUT_VARIABLE_WRAPPED },
            Rule { test: Test::Handles(1, 2), id: Command::RotateZ, message: messages::SCREEN_EXPECTED },
            Rule { test: Test::Reals(2, 3), id: Command::RotateZ, message: messages::ROTATE_Z_REALS },
            Rule { test: Test::Kind(1, ObjectKind::Screen), id: Command::RotateZ, message: messages::SCREEN_EXPECTED },
        ],
        Command::Scale => seq![
            Rule { test: Test::ArgCount(5), id: Command::Scale, message: messages::SCALE_USAGE },
            Rule { test: Test::NoOutput, id: Command::Scale, message: messages::NO_OUTPUT_VARIABLE_WRAPPED },
            Rule { test: Test::Handles(1, 2), id: Command::Scale, message: messages::SCREEN_EXPECTED },
            Rule { test: Test::Reals(2, 5), id: Command::Scale, message: messages::SCALE_REALS },
            Rule { test: Test::Kind(1, ObjectKind::Screen), id: Command::Scale, message: messages::SCREEN_EXPECTED },
        ],
        Command::ShearX => seq![
            Rule { test: Test::ArgCount(3), id: Command::ShearX, message: messages::SHEAR_X_USAGE },
            Rule { test: Test::NoOutput, id: Command::ShearX, message: messages::NO_OUTPUT_VARIABLE_WRAPPED },
            Rule { test: Test::Handles(1, 2), id: Command::ShearX, message: messages::SCREEN_EXPECTED },
            Rule { test: Test::Reals(2, 3), id: Command::ShearX, message: messages::SHEAR_X_REALS },
            Rule { test: Test::Kind(1, ObjectKind::Screen), id: Command::ShearX, message: messages::SCREEN_EXPECTED },
        ],
        Command::ShearY => seq![
            Rule { test: Test::ArgCount(3), id: Command::ShearY, message: messages::SHEAR_Y_USAGE },
            Rule { test: Test::NoOutput, id: Command::ShearY, message: messages::NO_OUTPUT_VARIABLE_WRAPPED },
            Rule { test: Test::Handles(1, 2), id: Command::ShearY, message: messages::SCREEN_EXPECTED },
            Rule { test: Test::Reals(2, 3), id: Command::ShearY, message: messages::SHEAR_X_REALS },
            Rule { test: Test::Kind(1, ObjectKind::Screen), id: Command::ShearY, message: messages::SCREEN_EXPECTED },
        ],
        Command::Translate => seq![
            Rule { test: Test::ArgCount(5), id: Command::Translate, message: messages::TRANSLATE_USAGE },
            Rule { test: Test::NoOutput, id: Command::Translate, message: messages::NO_OUTPUT_VARIABLE_WRAPPED },
            Rule { test: Test::Handles(1, 2), id: Command::Translate, message: messages::SCREEN_EXPECTED },
            Rule { test: Test::Reals(2, 5), id: Command::Translate, message: messages::TRANSLATE_REALS },
            Rule { test: Test::Kind(1, ObjectKind::Screen), id: Command::Translate, message: messages::SCREEN_EXPECTED },
        ],
        Command::PrintMatrix => seq![
            Rule { test: Test::ArgCount(2), id: Command::PrintMatrix, message: messages::PRINT_MATRIX_USAGE },
            Rule { test: Test::NoOutput, id: Command::PrintMatrix, message: messages::NO_OUTPUT_VARIABLE_WRAPPED },
            Rule { test: Test::Handles(1, 2), id: Command::PrintMatrix, message: messages::SCREEN_EXPECTED },
            Rule { test: Test::Kind(1, ObjectKind::Screen), id: Command::PrintMatrix, message: messages::SCREEN_EXPECTED },
        ],
        Command::ShaderSetI8 => seq![
            Rule { test: Test::ArgCount(4), id: Command::ShaderSetI8, message: messages::UNIFORM_USAGE },
            Rule { test: Test::NoOutput, id: Command::ShaderSetI8, message: messages::NO_OUTPUT_VARIABLE_WRAPPED },
            Rule { test: Test::Handles(1, 2), id: Command::ShaderSetI8, message: messages::SHADER_EXPECTED },
            Rule { test: Test::Value(3, INT8_CLASS), id: Command::ShaderSetI8, message: messages::SHADER_SET_I8_VALUE },
            Rule { test: Test::Kind(1, ObjectKind::Shader), id: Command::ShaderSetI8, message: messages::SHADER_EXPECTED },
            Rule { test: Test::Text(2), id: Command::ShaderSetI8, message: "" },
        ],
        Command::ShaderSetU8 => seq![
            Rule { test: Test::ArgCount(4), id: Command::ShaderSetU8, message: messages::UNIFORM_USAGE },
            Rule { test: Test::NoOutput, id: Command::ShaderSetU8, message: messages::NO_OUTPUT_VARIABLE_WRAPPED },
            Rule { test: Test::Handles(1, 2), id: Command::ShaderSetU8, message: messages::SHADER_EXPECTED },
            Rule { test: Test::Value(3, UINT8_CLASS), id: Command::ShaderSetU8, message: messages::SHADER_SET_U8_VALUE },
            Rule { test: Test::Kind(1, ObjectKind::Shader), id: Command::ShaderSetU8, message: messages::SHADER_EXPECTED },
            Rule { test: Test::Text(2), id: Command::ShaderSetU8, message: "" },
        ],
        Command::ShaderSetI16 => seq![
            Rule { test: Test::ArgCount(4), id: Command::ShaderSetI16, message: messages::UNIFORM_USAGE },
            Rule { test: Test::NoOutput, id: Command::ShaderSetI16, message: messages::NO_OUTPUT_VARIABLE_WRAPPED },
            Rule { test: Test::Handles(1, 2), id: Command::ShaderSetI16, message: messages::SHADER_EXPECTED },
            Rule { test: Test::Value(3, INT16_CLASS), id: Command::ShaderSetI16, message: messages::SHADER_SET_I16_VALUE },
            Rule { test: Test::Kind(1, ObjectKind::Shader), id: Command::ShaderSetI16, message: messages::SHADER_EXPECTED },
            Rule { test: Test::Text(2), id: Command::ShaderSetI16, message: "" },
        ],
        Command::ShaderSetU16 => seq![
            Rule { test: Test::ArgCount(4), id: Command::ShaderSetU16, message: messages::UNIFORM_USAGE },
            Rule { test: Test::NoOutput, id: Command::ShaderSetU16, message: messages::NO_OUTPUT_VARIABLE_WRAPPED },
            Rule { test: Test::Handles(1, 2), id: Command::ShaderSetU16, message: messages::SHADER_EXPECTED },
            Rule { test: Test::Value(3, UINT16_CLASS), id: Command::ShaderSetU16, message: messages::SHADER_SET_U16_VALUE },
            Rule { test: Test::Kind(1, ObjectKind::Shader), id: Command::ShaderSetU16, message: messages::SHADER_EXPECTED },
            Rule { test: Test::Text(2), id: Command::ShaderSetU16, message: "" },
        ],
        Command::ShaderSetI32 => seq![
            Rule { test: Test::ArgCount(4), id: Command::ShaderSetI32, message: messages::UNIFORM_USAGE },
            Rule { test: Test::NoOutput, id: Command::ShaderSetI32, message: messages::NO_OUTPUT_VARIABLE_WRAPPED },
            Rule { test: Test::Handles(1, 2), id: Command::ShaderSetI32, message: messages::SHADER_EXPECTED },
            Rule { test: Test::Value(3, INT32_CLASS), id: Command::ShaderSetI32, message: messages::SHADER_SET_I32_VALUE },
            Rule { test: Test::Kind(1, ObjectKind::Shader), id: Command::ShaderSetI32, message: messages::SHADER_EXPECTED },
            Rule { test: Test::Text(2), id: Command::ShaderSetI32, message: "" },
        ],
        Command::ShaderSetU32 => seq![
            Rule { test: Test::ArgCount(4), id: Command::ShaderSetU32, message: messages::UNIFORM_USAGE },
            Rule { test: Test::NoOutput, id: Command::ShaderSetU32, message: messages::NO_OUTPUT_VARIABLE_WRAPPED },
            Rule { test: Test::Handles(1, 2), id: Command::ShaderSetU32, message: messages::SHADER_EXPECTED },
            Rule { test: Test::Value(3, UINT32_CLASS), id: Command::ShaderSetU32, message: messages::SHADER_SET_U32_VALUE },
            Rule { test: Test::Kind(1, ObjectKind::Shader), id: Command::ShaderSetU32, message: messages::SHADER_EXPECTED },
            Rule { test: Test::Text(2), id: Command::ShaderSetU32, message: "" },
        ],
        Command::ShaderSetI64 => seq![
            Rule { test: Test::ArgCount(4), id: Command::ShaderSetI64, message: messages::UNIFORM_USAGE },
            Rule { test: Test::NoOutput, id: Command::ShaderSetI64, message: messages::NO_OUTPUT_VARIABLE_WRAPPED },
            Rule { test: Test::Handles(1, 2), id: Command::ShaderSetI64, message: messages::SHADER_EXPECTED },
            Rule { test: Test::Value(3, INT64_CLASS), id: Command::ShaderSetI64, message: messages::SHADER_SET_I64_VALUE },
            Rule { test: Test::Kind(1, ObjectKind::Shader), id: Command::ShaderSetI64, message: messages::SHADER_EXPECTED },
            Rule { test: Test::Text(2), id: Command::ShaderSetI64, message: "" },
        ],
        Command::ShaderSetU64 => seq![
            Rule { test: Test::ArgCount(4), id: Command::ShaderSetU64, message: messages::UNIFORM_USAGE },
            Rule { test: Test::NoOutput, id: Command::ShaderSetU64, message: messages::NO_OUTPUT_VARIABLE_WRAPPED },
            Rule { test: Test::Handles(1, 2), id: Command::ShaderSetU64, message: messages::SHADER_EXPECTED },
            Rule { test: Test::Value(3, UINT64_CLASS), id: Command::ShaderSetU64, message: messages::SHADER_SET_U64_VALUE },
            Rule { test: Test::Kind(1, ObjectKind::Shader), id: Command::ShaderSetU64, message: messages::SHADER_EXPECTED },
            Rule { test: Test::Text(2), id: Command::ShaderSetU64, message: "" },
        ],
        Command::ShaderSetF32 => seq![
            Rule { test: Test::ArgCount(4), id: Command::ShaderSetF32, message: messages::UNIFORM_USAGE },
            Rule { test: Test::NoOutput, id: Command::ShaderSetF32, message: messages::NO_OUTPUT_VARIABLE_WRAPPED },
            Rule { test: Test::Handles(1, 2), id: Command::ShaderSetF32, message: messages::SHADER_EXPECTED },
            Rule { test: Test::Value(3, SINGLE_CLASS), id: Command::ShaderSetF32, message: messages::SHADER_SET_F32_VALUE },
            Rule { test: Test::Kind(1, ObjectKind::Shader), id: Command::ShaderSetF32, message: messages::SHADER_EXPECTED },
            Rule { test: Test::Text(2), id: Command::ShaderSetF32, message: "" },
        ],
        Command::ShaderSetF64 => seq![
            Rule { test: Test::ArgCount(4), id: Command::ShaderSetF64, message: messages::UNIFORM_USAGE },
            Rule { test: Test::NoOutput, id: Command::ShaderSetF64, message: messages::NO_OUTPUT_VARIABLE_WRAPPED },
            Rule { test: Test::Handles(1, 2), id: Command::ShaderSetF64, message: messages::SHADER_EXPECTED },
            Rule { test: Test::Value(3, DOUBLE_CLASS), id: Command::ShaderSetF64, message: messages::SHADER_SET_F64_VALUE },
            Rule { test: Test::Kind(1, ObjectKind::Shader), id: Command::ShaderSetF64, message: messages::SHADER_EXPECTED },
            Rule { test: Test::Text(2), id: Command::ShaderSetF64, message: "" },
        ],
        Command::ShaderSetBool => seq![
            Rule { test: Test::ArgCount(4), id: Command::ShaderSetBool, message: messages::UNIFORM_USAGE },
            Rule { test: Test::NoOutput, id: Command::ShaderSetBool, message: messages::NO_OUTPUT_VARIABLE_WRAPPED },
            Rule { test: Test::Handles(1, 2), id: Command::ShaderSetBool, message: messages::SHADER_EXPECTED },
            Rule { test: Test::Value(3, LOGICAL_CLASS), id: Command::ShaderSetBool, message: messages::SHADER_SET_BOOL_VALUE },
            Rule { test: Test::Kind(1, ObjectKind::Shader), id: Command::ShaderSetBool, message: messages::SHADER_EXPECTED },
            Rule { test: Test::Text(2), id: Command::ShaderSetBool, message: "" },
        ],
        Command::ShaderSetTex => seq![
            Rule { test: Test::ArgCount(4), id: Command::ShaderSetTex, message: messages::UNIFORM_USAGE },
            Rule { test: Test::NoOutput, id: Command::ShaderSetTex, message: messages::NO_OUTPUT_VARIABLE_WRAPPED },
            Rule { test: Test::HandlePair(1, 3), id: Command::ShaderSetTex, message: messages::SHADER_SET_TEX_HANDLES },
            Rule { test: Test::Kind(1, ObjectKind::Shader), id: Command::ShaderSetTex, message: messages::SHADER_EXPECTED },
            Rule { test: Test::Text(2), id: Command::ShaderSetTex, message: "" },
            Rule { test: Test::Kind(3, ObjectKind::Texture), id: Command::ShaderSetTex, message: messages::SHADER_SET_TEX_KIND },
        ],
        Command::DropScreen => seq![
            Rule { test: Test::ArgCount(2), id: Command::DropScreen, message: messages::DROP_SCREEN_USAGE },
            Rule { test: Test::NoOutput, id: Command::DropScreen, message: messages::NO_OUTPUT_VARIABLE_WRAPPED },
            Rule { test: Test::Handles(1, 2), id: Command::DropScreen, message: messages::SCREEN_EXPECTED },
            Rule { test: Test::Kind(1, ObjectKind::Screen), id: Command::DropScreen, message: messages::SCREEN_EXPECTED },
        ],
        Command::DropShape => seq![
            Rule { test: Test::ArgCount(2), id: Command::DropShape, message: messages::DROP_SHAPE_USAGE },
            Rule { test: Test::NoOutput, id: Command::DropShape, message: messages::NO_OUTPUT_VARIABLE_WRAPPED },
            Rule { test: Test::Handles(1, 2), id: Command::DropShape, message: messages::MOULD_KIND },
            Rule { test: Test::Kind(1, ObjectKind::Shape), id: Command::DropShape, message: messages::MOULD_KIND },
        ],
        Command::DropTexture => seq![
            Rule { test: Test::ArgCount(2), id: Command::DropTexture, message: messages::DROP_TEXTURE_USAGE },
            Rule { test: Test::NoOutput, id: Command::DropTexture, message: messages::NO_OUTPUT_VARIABLE_WRAPPED },
            Rule { test: Test::Handles(1, 2), id: Command::DropTexture, message: messages::DROP_TEXTURE_HANDLES },
            Rule { test: Test::Kind(1, ObjectKind::Texture), id: Command::DropTexture, message: messages::DROP_TEXTURE_HANDLES },
        ],
        Command::DropImage => seq![
            Rule { test: Test::ArgCount(2), id: Command::DropImage, message: messages::DROP_IMAGE_USAGE },
            Rule { test: Test::NoOutput, id: Command::DropImage, message: messages::NO_OUTPUT_VARIABLE_WRAPPED },
            Rule { test: Test::Handles(1, 2), id: Command::DropImage, message: messages::DROP_IMAGE_HANDLES },
            Rule { test: Test::Kind(1, ObjectKind::Image), id: Command::DropImage, message: messages::DROP_IMAGE_HANDLES },
        ],
        Command::DropShader => seq![
            Rule { test: Test::ArgCount(2), id: Command::DropShader, message: messages::DROP_SHADER_USAGE },
            Rule { test: Test::NoOutput, id: Command::DropShader, message: messages::NO_OUTPUT_VARIABLE_WRAPPED },
            Rule { test: Test::Handles(1, 2), id: Command::DropShader, message: messages::SHADER_EXPECTED },
            Rule { test: Test::Kind(1, ObjectKind::Shader), id: Command::DropShader, message: messages::SHADER_EXPECTED },
        ],
        Command::DropFbo => seq![
            Rule { test: Test::ArgCount(2), id: Command::DropFbo, message: messages::DROP_FBO_USAGE },
            Rule { test: Test::NoOutput, id: Command::DropFbo, message: messages::NO_OUTPUT_VARIABLE_WRAPPED },
            Rule { test: Test::Handles(1, 2), id: Command::DropFbo, message: messages::DROP_FBO_HANDLES },
            Rule { test: Test::Kind(1, ObjectKind::Framebuffer), id: Command::DropFbo, message: messages::DROP_FBO_HANDLES },
        ],
        Command::DropMould => seq![
            Rule { test: Test::ArgCount(2), id: Command::DropMould, message: messages::DROP_MOULD_USAGE },
            Rule { test: Test::NoOutput, id: Command::DropMould, message: messages::NO_OUTPUT_VARIABLE_WRAPPED },
            Rule { test: Test::Handles(1, 2), id: Command::DropMould, message: messages::DROP_MOULD_HANDLES },
            Rule { test: Test::Kind(1, ObjectKind::Mould), id: Command::DropMould, message: messages::DROP_MOULD_HANDLES },
        ],
    }
}

pub fn rule_list(c: Command) -> (r: Vec<Rule>)
    ensures
        r@ == rules(c),
{
    match c {
        Command::Background => vec![
            Rule { test: Test::ArgCount(6), id: Command::Background, message: messages::BACKGROUND_USAGE },
            Rule { test: Test::NoOutput, id: Command::Background, message: messages::NO_OUTPUT_VARIABLE },
            Rule { test: Test::Handles(1, 2), id: Command::Background, message: messages::SCREEN_EXPECTED },
            Rule { test: Test::Reals(2, 6), id: Command::Background, message: messages::BACKGROUND_REALS },
            Rule { test: Test::Kind(1, ObjectKind::Screen), id: Command::Background, message: messages::SCREEN_EXPECTED },
        ],
        Command::ColorMode => vec![
            Rule { test: Test::ArgCount(3), id: Command::ColorMode, message: messages::COLOR_MODE_USAGE },
            Rule { test: Test::NoOutput, id: Command::ColorMode, message: messages::NO_OUTPUT_VARIABLE },
            Rule { test: Test::Handles(1, 2), id: Command::ColorMode, message: messages::SCREEN_EXPECTED },
            Rule { test: Test::Kind(1, ObjectKind::Screen), id: Command::Background, message: messages::SCREEN_EXPECTED },
            Rule { test: Test::Text(2), id: Command::ColorMode, message: "" },
        ],
        Command::Stroke => vec![
            Rule { test: Test::ArgCount(6), id: Command::Stroke, message: messages::STROKE_USAGE },
            Rule { test: Test::NoOutput, id: Command::Stroke, message: messages::NO_OUTPUT_VARIABLE },
            Rule { test: Test::Handles(1, 2), id: Command::Stroke, message: messages::SCREEN_EXPECTED },
            Rule { test: Test::Reals(2, 6), id: Command::Stroke, message: messages::STROKE_REALS },
            Rule { test: Test::Kind(1, ObjectKind::Screen), id: Command::Background, message: messages::SCREEN_EXPECTED },
        ],
        Command::StrokeOn => vec![
            Rule { test: Test::ArgCount(2), id: Command::StrokeOn, message: messages::STROKE_ON_USAGE },
            Rule { test: Test::NoOutput, id: Command::StrokeOn, message: messages::NO_OUTPUT_VARIABLE },
            Rule { test: Test::Handles(1, 2), id: Command::StrokeOn, message: messages::SCREEN_EXPECTED },
            Rule { test: Test::Kind(1, ObjectKind::Screen), id: Command::Background, message: messages::SCREEN_EXPECTED },
        ],
        Command::StrokeOff => vec![
            Rule { test: Test::ArgCount(2), id: Command::StrokeOff, message: messages::STROKE_OFF_USAGE },
            Rule { test: Test::NoOutput, id: Command::StrokeOff, message: messages::NO_OUTPUT_VARIABLE_WRAPPED },
            Rule { test: Test::Handles(1, 2), id: Command::StrokeOff, message: messages::SCREEN_EXPECTED },
            Rule { test: Test::Kind(1, ObjectKind::Screen), id: Command::Background, message: messages::SCREEN_EXPECTED },
        ],
        Command::Fill => vec![
            Rule { test: Test::ArgCount(6), id: Command::Fill, message: messages::FILL_USAGE },
            Rule { test: Test::NoOutput, id: Command::Fill, message: messages::NO_OUTPUT_VARIABLE_WRAPPED },
            Rule { test: Test::Handles(1, 2), id: Command::Fill, message: messages::SCREEN_EXPECTED },
            Rule { test: Test::Reals(2, 6), id: Command::Fill, message: messages::FILL_REALS },
            Rule { test: Test::Kind(1, ObjectKind::Screen), id: Command::Background, message: messages::SCREEN_EXPECTED },
        ],
        Command::FillOn => vec![
            Rule { test: Test::ArgCount(2), id: Command::FillOn, message: messages::FILL_ON_USAGE },
            Rule { test: Test::NoOutput, id: Command::FillOn, message: messages::NO_OUTPUT_VARIABLE_WRAPPED },
            Rule { test: Test::Handles(1, 2), id: Command::FillOn, message: messages::SCREEN_EXPECTED },
            Rule { test: Test::Kind(1, ObjectKind::Screen), id: Command::Background, message: messages::SCREEN_EXPECTED },
        ],
        Command::FillOff => vec![
            Rule { test: Test::ArgCount(2), id: Command::FillOff, message: messages::FILL_OFF_USAGE },
            Rule { test: Test::NoOutput, id: Command::FillOff, message: messages::NO_OUTPUT_VARIABLE_WRAPPED },
            Rule { test: Test::Handles(1, 2), id: Command::FillOff, message: messages::SCREEN_EXPECTED },
            Rule { test: Test::Kind(1, ObjectKind::Screen), id: Command::Background, message: messages::SCREEN_EXPECTED },
        ],
        Command::FrameCount => vec![
            Rule { test: Test::ArgCount(2), id: Command::FrameCount, message: messages::FRAME_COUNT_USAGE },
            Rule { test: Test::AtMostOneOutput, id: Command::FrameCount, message: messages::ONE_OUTPUT_AT_MOST },
            Rule { test: Test::Handles(1, 2), id: Command::FrameCount, message: messages::SCREEN_EXPECTED },
            Rule { test: Test::Kind(1, ObjectKind::Screen), id: Command::Background, message: messages::SCREEN_EXPECTED },
        ],
        Command::SetFrameRate => vec![
            Rule { test: Test::ArgCount(3), id: Command::SetFrameRate, message: messages::SET_FRAME_RATE_USAGE },
            Rule { test: Test::NoOutput, id: Command::SetFrameRate, message: messages::NO_OUTPUT_VARIABLE_WRAPPED },
            Rule { test: Test::Handles(1, 2), id: Command::SetFrameRate, message: messages::SCREEN_EXPECTED },
            Rule { test: Test::Reals(2, 3), id: Command::SetFrameRate, message: messages::SET_FRAME_RATE_REALS },
            Rule { test: Test::Kind(1, ObjectKind::Screen), id: Command::Background, message: messages::SCREEN_EXPECTED },
            Rule { test: Test::NonNegative(2), id: Command::SetFrameRate, message: messages::SET_FRAME_RATE_REALS },
        ],
        Command::GetFrameRate => vec![
            Rule { test: Test::ArgCount(2), id: Command::GetFrameRate, message: messages::GET_FRAME_RATE_USAGE },
            Rule { test: Test::AtMostOneOutput, id: Command::GetFrameRate, message: messages::ONE_OUTPUT_AT_MOST },
            Rule { test: Test::Handles(1, 2), id: Command::GetFrameRate, message: messages::SCREEN_EXPECTED },
            Rule { test: Test::Kind(1, ObjectKind::Screen), id: Command::Background, message: messages::SCREEN_EXPECTED },
        ],
        Command::Height => vec![
            Rule { test: Test::ArgCount(2), id: Command::Height, message: messages::HEIGHT_USAGE },
            Rule { test: Test::AtMostOneOutput, id: Command::Height, message: messages::ONE_OUTPUT_AT_MOST },
            Rule { test: Test::Handles(1, 2), id: Command::Height, message: messages::SCREEN_EXPECTED },
            Rule { test: Test::Kind(1, ObjectKind::Screen), id: Command::Background, message: messages::SCREEN_EXPECTED },
        ],
        Command::Width => vec![
            Rule { test: Test::ArgCount(2), id: Command::Width, message: messages::WIDTH_USAGE },
            Rule { test: Test::AtMostOneOutput, id: Command::Width, message: messages::ONE_OUTPUT_AT_MOST },
            Rule { test: Test::Handles(1, 2), id: Command::Width, message: messages::SCREEN_EXPECTED },
            Rule { test: Test::Kind(1, ObjectKind::Screen), id: Command::Background, message: messages::SCREEN_EXPECTED },
        ],
        Command::Smooth => vec![
            Rule { test: Test::ArgCount(2), id: Command::Smooth, message: messages::SMOOTH_USAGE },
            Rule { test: Test::NoOutput, id: Command::Smooth, message: messages::NO_OUTPUT_VARIABLE_WRAPPED },
            Rule { test: Test::Handles(1, 2), id: Command::Smooth, message: messages::SCREEN_EXPECTED },
            Rule { test: Test::Kind(1, ObjectKind::Screen), id: Command::Background, message: messages::SCREEN_EXPECTED },
        ],
        Command::NoSmooth => vec![
            Rule { test: Test::ArgCount(2), id: Command::NoSmooth, message: messages::NO_SMOOTH_USAGE },
            Rule { test: Test::NoOutput, id: Command::NoSmooth, message: messages::NO_OUTPUT_VARIABLE_WRAPPED },
            Rule { test: Test::Handles(1, 2), id: Command::NoSmooth, message: messages::SCREEN_EXPECTED },
            Rule { test: Test::Kind(1, ObjectKind::Screen), id: Command::Background, message: messages::SCREEN_EXPECTED },
        ],
        Command::NoCursor => vec![
            Rule { test: Test::ArgCount(2), id: Command::NoCursor, message: messages::NO_CURSOR_USAGE },
            Rule { test: Test::NoOutput, id: Command::NoCursor, message: messages::NO_OUTPUT_VARIABLE_WRAPPED },
            Rule { test: Test::Handles(1, 2), id: Command::NoCursor, message: messages::SCREEN_EXPECTED },
            Rule { test: Test::Kind(1, ObjectKind::Screen), id: Command::Background, message: messages::SCREEN_EXPECTED },
        ],
        Command::Focused => vec![
            Rule { test: Test::ArgCount(2), id: Command::Focused, message: messages::FOCUSED_USAGE },
            Rule { test: Test::NoOutput, id: Command::Focused, message: messages::NO_OUTPUT_VARIABLE_WRAPPED },
            Rule { test: Test::Handles(1, 2), id: Command::Focused, message: messages::SCREEN_EXPECTED },
            Rule { test: Test::Kind(1, ObjectKind::Screen), id: Command::Background, message: messages::SCREEN_EXPECTED },
        ],
        Command::Cursor => vec![
            Rule { test: Test::ArgCount(3), id: Command::Cursor, message: messages::CURSOR_USAGE },
            Rule { test: Test::NoOutput, id: Command::Cursor, message: messages::NO_OUTPUT_VARIABLE_WRAPPED },
            Rule { test: Test::Handles(1, 2), id: Command::Cursor, message: messages::SCREEN_EXPECTED },
            Rule { test: Test::Kind(1, ObjectKind::Screen), id: Command::Background, message: messages::SCREEN_EXPECTED },
            Rule { test: Test::Text(2), id: Command::Cursor, message: "" },
        ],
        Command::ResetCursor => vec![
            Rule { test: Test::ArgCount(2), id: Command::ResetCursor, message: messages::RESET_CURSOR_USAGE },
            Rule { test: Test::NoOutput, id: Command::ResetCursor, message: messages::NO_OUTPUT_VARIABLE_WRAPPED },
            Rule { test: Test::Handles(1, 2), id: Command::ResetCursor, message: messages::SCREEN_EXPECTED },
            Rule { test: Test::Kind(1, ObjectKind::Screen), id: Command::Background, message: messages::SCREEN_EXPECTED },
        ],
        Command::Framebuffer => vec![
            Rule { test: Test::ArgCount(3), id: Command::Framebuffer, message: messages::FRAMEBUFFER_USAGE },
            Rule { test: Test::AtMostOneOutput, id: Command::Framebuffer, message: messages::ONE_OUTPUT_AT_MOST },
            Rule { test: Test::Handles(1, 3), id: Command::Framebuffer, message: messages::FRAMEBUFFER_HANDLES },
            Rule { test: Test::Kind(1, ObjectKind::Screen), id: Command::Background, message: messages::SCREEN_EXPECTED },
            Rule { test: Test::Kind(2, ObjectKind::Texture), id: Command::Background, message: messages::FRAMEBUFFER_KIND },
        ],
        Command::ClearFramebuffer => vec![
            Rule { test: Test::ArgCount(7), id: Command::ClearFramebuffer, message: messages::CLEAR_FRAMEBUFFER_USAGE },
            Rule { test: Test::NoOutput, id: Command::ClearFramebuffer, message: messages::NO_OUTPUT_VARIABLE_WRAPPED },
            Rule { test: Test::Handles(1, 3), id: Command::ClearFramebuffer, message: messages::CLEAR_FRAMEBUFFER_HANDLES },
            Rule { test: Test::Reals(3, 7), id: Command::ClearFramebuffer, message: messages::FILL_REALS },
            Rule { test: Test::Kind(1, ObjectKind::Screen), id: Command::Background, message: messages::SCREEN_EXPECTED },
            Rule { test: Test::Kind(2, ObjectKind::Framebuffer), id: Command::Background, message: messages::CLEAR_FRAMEBUFFER_KIND },
        ],
        Command::DrawOntoFramebuffer => vec![
            Rule { test: Test::ArgCount(4), id: Command::DrawOntoFramebuffer, message: messages::DRAW_ONTO_FRAMEBUFFER_USAGE },
            Rule { test: Test::NoOutput, id: Command::DrawOntoFramebuffer, message: messages::NO_OUTPUT_VARIABLE_WRAPPED },
            Rule { test: Test::Handles(1, 4), id: Command::DrawOntoFramebuffer, message: messages::DRAW_ONTO_FRAMEBUFFER_HANDLES },
            Rule { test: Test::Kind(1, ObjectKind::Screen), id: Command::Background, message: messages::SCREEN_EXPECTED },
            Rule { test: Test::Kind(2, ObjectKind::Shape), id: Command::Background, message: messages::DRAW_ONTO_FRAMEBUFFER_KIND },
            Rule { test: Test::Kind(3, ObjectKind::Framebuffer), id: Command::Background, message: messages::DRAW_ONTO_FRAMEBUFFER_KIND_2 },
        ],
        Command::LoadImage => vec![
            Rule { test: Test::ArgCount(2), id: Command::LoadImage, message: messages::LOAD_IMAGE_USAGE },
            Rule { test: Test::AtMostOneOutput, id: Command::LoadImage, message: messages::ONE_OUTPUT_AT_MOST },
            Rule { test: Test::Text(1), id: Command::LoadImage, message: "" },
        ],
        Command::ImageMode => vec![
            Rule { test: Test::ArgCount(3), id: Command::ImageMode, message: messages::IMAGE_MODE_USAGE },
            Rule { test: Test::NoOutput, id: Command::ImageMode, message: messages::NO_OUTPUT_VARIABLE_WRAPPED },
            Rule { test: Test::Handles(1, 2), id: Command::ImageMode, message: messages::SCREEN_EXPECTED },
            Rule { test: Test::Kind(1, ObjectKind::Screen), id: Command::Background, message: messages::SCREEN_EXPECTED },
            Rule { test: Test::Text(2), id: Command::ImageMode, message: "" },
        ],
        Command::NoTint => vec![
            Rule { test: Test::ArgCount(2), id: Command::NoTint, message: messages::NO_TINT_USAGE },
            Rule { test: Test::NoOutput, id: Command::NoTint, message: messages::NO_OUTPUT_VARIABLE_WRAPPED },
            Rule { test: Test::Handles(1, 2), id: Command::NoTint, message: messages::SCREEN_EXPECTED },
            Rule { test: Test::Kind(1, ObjectKind::Screen), id: Command::Background, message: messages::SCREEN_EXPECTED },
        ],
        Command::Save => vec![
            Rule { test: Test::ArgCount(3), id: Command::Save, message: messages::SAVE_USAGE },
            Rule { test: Test::NoOutput, id: Command::Save, message: messages::NO_OUTPUT_VARIABLE_WRAPPED },
            Rule { test: Test::Handles(1, 2), id: Command::Save, message: messages::SCREEN_EXPECTED },
            Rule { test: Test::Kind(1, ObjectKind::Screen), id: Command::Background, message: messages::SCREEN_EXPECTED },
            Rule { test: Test::Text(2), id: Command::Save, message: "" },
        ],
        Command::KeyPress => vec![
            Rule { test: Test::ArgCount(3), id: Command::KeyPress, message: messages::KEY_PRESS_USAGE },
            Rule { test: Test::AtMostOneOutput, id: Command::KeyPress, message: messages::ONE_OUTPUT_AT_MOST },
            Rule { test: Test::Handles(1, 2), id: Command::KeyPress, message: messages::SCREEN_EXPECTED },
            Rule { test: Test::KeyCode(2), id: Command::KeyPress, message: messages::KEY_PRESS_KEY },
            Rule { test: Test::Kind(1, ObjectKind::Screen), id: Command::Background, message: messages::SCREEN_EXPECTED },
        ],
        Command::SpaceWait => vec![
            Rule { test: Test::ArgCount(2), id: Command::SpaceWait, message: messages::SPACE_WAIT_USAGE },
            Rule { test: Test::NoOutput, id: Command::SpaceWait, message: messages::NO_OUTPUT_VARIABLE_WRAPPED },
            Rule { test: Test::Handles(1, 2), id: Command::SpaceWait, message: messages::SCREEN_EXPECTED },
            Rule { test: Test::Kind(1, ObjectKind::Screen), id: Command::Background, message: messages::SCREEN_EXPECTED },
        ],
        Command::MousePress => vec![
            Rule { test: Test::ArgCount(3), id: Command::MousePress, message: messages::MOUSE_PRESS_USAGE },
            Rule { test: Test::AtMostOneOutput, id: Command::MousePress, message: messages::ONE_OUTPUT_AT_MOST },
            Rule { test: Test::Handles(1, 2), id: Command::MousePress, message: messages::SCREEN_EXPECTED },
            Rule { test: Test::KeyCode(2), id: Command::MousePress, message: messages::MOUSE_PRESS_KEY },
            Rule { test: Test::Kind(1, ObjectKind::Screen), id: Command::Background, message: messages::SCREEN_EXPECTED },
        ],
        Command::MouseRelease => vec![
            Rule { test: Test::ArgCount(3), id: Command::MouseRelease, message: messages::MOUSE_RELEASE_USAGE },
            Rule { test: Test::AtMostOneOutput, id: Command::MouseRelease, message: messages::ONE_OUTPUT_AT_MOST },
            Rule { test: Test::Handles(1, 2), id: Command::MouseRelease, message: messages::SCREEN_EXPECTED },
            Rule { test: Test::Reals(2, 3), id: Command::MouseRelease, message: messages::MOUSE_PRESS_KEY },
            Rule { test: Test::Kind(1, ObjectKind::Screen), id: Command::Background, message: messages::SCREEN_EXPECTED },
        ],
        Command::MouseX => vec![
            Rule { test: Test::ArgCount(2), id: Command::MouseX, message: messages::MOUSE_X_USAGE },
            Rule { test: Test::AtMostOneOutput, id: Command::MouseX, message: messages::ONE_OUTPUT_AT_MOST },
            Rule { test: Test::Handles(1, 2), id: Command::MouseX, message: messages::SCREEN_EXPECTED },
            Rule { test: Test::Kind(1, ObjectKind::Screen), id: Command::Background, message: messages::SCREEN_EXPECTED },
        ],
        Command::MouseY => vec![
            Rule { test: Test::ArgCount(2), id: Command::MouseY, message: messages::MOUSE_Y_USAGE },
            Rule { test: Test::AtMostOneOutput, id: Command::MouseY, message: messages::ONE_OUTPUT_AT_MOST },
            Rule { test: Test::Handles(1, 2), id: Command::MouseY, message: messages::SCREEN_EXPECTED },
            Rule { test: Test::Kind(1, ObjectKind::Screen), id: Command::Background, message: messages::SCREEN_EXPECTED },
        ],
        Command::Mould => vec![
            Rule { test: Test::ArgCount(3), id: Command::Mould, message: messages::MOULD_USAGE },
            Rule { test: Test::AtMostOneOutput, id: Command::Mould, message: messages::ONE_OUTPUT_AT_MOST },
            Rule { test: Test::Handles(1, 3), id: Command::Mould, message: messages::MOULD_HANDLES },
            Rule { test: Test::Kind(1, ObjectKind::Shape), id: Command::Background, message: messages::MOULD_KIND },
            Rule { test: Test::Kind(2, ObjectKind::Shader), id: Command::Background, message: messages::MOULD_KIND_2 },
        ],
        Command::DrawMould => vec![
            Rule { test: Test::ArgCount(3), id: Command::DrawMould, message: messages::DRAW_MOULD_USAGE },
            Rule { test: Test::NoOutput, id: Command::DrawMould, message: messages::NO_OUTPUT_VARIABLE_WRAPPED },
            Rule { test: Test::Handles(1, 3), id: Command::DrawMould, message: messages::DRAW_MOULD_HANDLES },
            Rule { test: Test::Kind(1, ObjectKind::Screen), id: Command::Background, message: messages::SCREEN_EXPECTED },
            Rule { test: Test::Kind(2, ObjectKind::Mould), id: Command::Background, message: messages::DRAW_MOULD_KIND },
        ],
        Command::BlendMode => vec![
            Rule { test: Test::ArgCount(3), id: Command::BlendMode, message: messages::BLEND_MODE_USAGE },
            Rule { test: Test::NoOutput, id: Command::BlendMode, message: messages::NO_OUTPUT_VARIABLE_WRAPPED },
            Rule { test: Test::Handles(1, 2), id: Command::BlendMode, message: messages::SCREEN_EXPECTED },
            Rule { test: Test::Kind(1, ObjectKind::Screen), id: Command::Background, message: messages::SCREEN_EXPECTED },
            Rule { test: Test::Text(2), id: Command::BlendMode, message: "" },
        ],
        Command::Screen => vec![
            Rule { test: Test::ArgCount(6), id: Command::Screen, message: messages::SCREEN_USAGE },
            Rule { test: Test::AtMostOneOutput, id: Command::Screen, message: messages::SCREEN_ONE_OUTPUT },
            Rule { test: Test::Reals(1, 3), id: Command::Screen, message: messages::SCREEN_REALS },
            Rule { test: Test::Flags(3, 6), id: Command::Screen, message: messages::SCREEN_FLAGS },
            Rule { test: Test::Positive(1, 2), id: Command::Screen, message: messages::SCREEN_REALS },
        ],
        Command::Reveal => vec![
            Rule { test: Test::ArgCount(2), id: Command::Reveal, message: messages::REVEAL_USAGE },
            Rule { test: Test::NoOutput, id: Command::Reveal, message: messages::NO_OUTPUT_VARIABLE_WRAPPED },
            Rule { test: Test::Handles(1, 2), id: Command::Reveal, message: messages::SCREEN_EXPECTED },
            Rule { test: Test::Kind(1, ObjectKind::Screen), id: Command::Background, message: messages::SCREEN_EXPECTED },
        ],
        Command::EndDrawing => vec![
            Rule { test: Test::ArgCount(2), id: Command::EndDrawing, message: messages::END_DRAWING_USAGE },
            Rule { test: Test::NoOutput, id: Command::EndDrawing, message: messages::NO_OUTPUT_VARIABLE_WRAPPED },
            Rule { test: Test::Handles(1, 2), id: Command::EndDrawing, message: messages::SCREEN_EXPECTED },
            Rule { test: Test::Kind(1, ObjectKind::Screen), id: Command::Background, message: messages::SCREEN_EXPECTED },
        ],
        Command::LoadFragShader => vec![
            Rule { test: Test::ArgCount(3), id: Command::LoadFragShader, message: messages::LOAD_FRAG_SHADER_USAGE },
            Rule { test: Test::AtMostOneOutput, id: Command::LoadFragShader, message: messages::ONE_OUTPUT_AT_MOST },
            Rule { test: Test::Handles(1, 2), id: Command::LoadFragShader, message: messages::SCREEN_EXPECTED },
            Rule { test: Test::Kind(1, ObjectKind::Screen), id: Command::Background, message: messages::SCREEN_EXPECTED },
            Rule { test: Test::Text(2), id: Command::LoadFragShader, message: "" },
        ],
        Command::Shader => vec![
            Rule { test: Test::ArgCount(3), id: Command::Shader, message: messages::SHADER_USAGE },
            Rule { test: Test::NoOutput, id: Command::Shader, message: messages::NO_OUTPUT_VARIABLE_WRAPPED },
            Rule { test: Test::Handles(1, 3), id: Command::Shader, message: messages::SHADER_HANDLES },
            Rule { test: Test::Kind(1, ObjectKind::Screen), id: Command::Background, message: messages::SCREEN_EXPECTED },
            Rule { test: Test::Kind(2, ObjectKind::Shader), id: Command::Background, message: messages::MOULD_KIND_2 },
        ],
        Command::ResetShader => vec![
            Rule { test: Test::ArgCount(2), id: Command::ResetShader, message: messages::RESET_SHADER_USAGE },
            Rule { test: Test::NoOutput, id: Command::ResetShader, message: messages::NO_OUTPUT_VARIABLE_WRAPPED },
            Rule { test: Test::Handles(1, 2), id: Command::ResetShader, message: messages::SCREEN_EXPECTED },
            Rule { test: Test::Kind(1, ObjectKind::Screen), id: Command::Background, message: messages::SCREEN_EXPECTED },
        ],
        Command::Arc => vec![
            Rule { test: Test::ArgCount(9), id: Command::Arc, message: messages::ARC_USAGE },
            Rule { test: Test::AtMostOneOutput, id: Command::Arc, message: messages::ONE_OUTPUT_AT_MOST },
            Rule { test: Test::Handles(1, 2), id: Command::Arc, message: messages::SCREEN_EXPECTED },
            Rule { test: Test::Reals(2, 9), id: Command::Arc, message: messages::SHAPE_DIMENSIONS_REAL },
            Rule { test: Test::Kind(1, ObjectKind::Screen), id: Command::Background, message: messages::SCREEN_EXPECTED },
        ],
        Command::Ellipse => vec![
            Rule { test: Test::ArgCount(7), id: Command::Ellipse, message: messages::ELLIPSE_USAGE },
            Rule { test: Test::AtMostOneOutput, id: Command::Ellipse, message: messages::ONE_OUTPUT_AT_MOST },
            Rule { test: Test::Handles(1, 2), id: Command::Ellipse, message: messages::SCREEN_EXPECTED },
            Rule { test: Test::Reals(2, 7), id: Command::Ellipse, message: messages::SHAPE_DIMENSIONS_REAL },
            Rule { test: Test::Kind(1, ObjectKind::Screen), id: Command::Background, message: messages::SCREEN_EXPECTED },
        ],
        Command::Line => vec![
            Rule { test: Test::ArgCount(8), id: Command::Line, message: messages::LINE_USAGE },
            Rule { test: Test::AtMostOneOutput, id: Command::Line, message: messages::ONE_OUTPUT_AT_MOST },
            Rule { test: Test::Handles(1, 2), id: Command::Line, message: messages::SCREEN_EXPECTED },
            Rule { test: Test::Reals(2, 8), id: Command::Line, message: messages::SHAPE_DIMENSIONS_REAL },
            Rule { test: Test::Kind(1, ObjectKind::Screen), id: Command::Background, message: messages::SCREEN_EXPECTED },
        ],
        Command::Point => vec![
            Rule { test: Test::ArgCount(5), id: Command::Point, message: messages::POINT_USAGE },
            Rule { test: Test::AtMostOneOutput, id: Command::Point, message: messages::ONE_OUTPUT_AT_MOST },
            Rule { test: Test::Handles(1, 2), id: Command::Point, message: messages::SCREEN_EXPECTED },
            Rule { test: Test::Reals(2, 5), id: Command::Point, message: messages::SHAPE_DIMENSIONS_REAL },
            Rule { test: Test::Kind(1, ObjectKind::Screen), id: Command::Background, message: messages::SCREEN_EXPECTED },
        ],
        Command::Quad => vec![
            Rule { test: Test::ArgCount(14), id: Command::Quad, message: messages::QUAD_USAGE },
            Rule { test: Test::AtMostOneOutput, id: Command::Quad, message: messages::ONE_OUTPUT_AT_MOST },
            Rule { test: Test::Handles(1, 2), id: Command::Quad, message: messages::SCREEN_EXPECTED },
            Rule { test: Test::Reals(2, 14), id: Command::Quad, message: messages::SHAPE_DIMENSIONS_REAL },
            Rule { test: Test::Kind(1, ObjectKind::Screen), id: Command::Background, message: messages::SCREEN_EXPECTED },
        ],
        Command::Triangle => vec![
            Rule { test: Test::ArgCount(11), id: Command::Triangle, message: messages::TRIANGLE_USAGE },
            Rule { test: Test::AtMostOneOutput, id: Command::Triangle, message: messages::ONE_OUTPUT_AT_MOST },
            Rule { test: Test::Handles(1, 2), id: Command::Triangle, message: messages::SCREEN_EXPECTED },
            Rule { test: Test::Reals(2, 11), id: Command::Triangle, message: messages::SHAPE_DIMENSIONS_REAL },
            Rule { test: Test::Kind(1, ObjectKind::Screen), id: Command::Background, message: messages::SCREEN_EXPECTED },
        ],
        Command::Rect => vec![
            Rule { test: Test::ArgCount(7), id: Command::Rect, message: messages::RECT_USAGE },
            Rule { test: Test::AtMostOneOutput, id: Command::Rect, message: messages::ONE_OUTPUT_AT_MOST },
            Rule { test: Test::Handles(1, 2), id: Command::Rect, message: messages::SCREEN_EXPECTED },
            Rule { test: Test::Reals(2, 7), id: Command::Rect, message: messages::SHAPE_DIMENSIONS_REAL },
            Rule { test: Test::Kind(1, ObjectKind::Screen), id: Command::Background, message: messages::SCREEN_EXPECTED },
        ],
        Command::Cube => vec![
            Rule { test: Test::ArgCount(3), id: Command::Cube, message: messages::CUBE_USAGE },
            Rule { test: Test::AtMostOneOutput, id: Command::Cube, message: messages::ONE_OUTPUT_AT_MOST },
            Rule { test: Test::Handles(1, 2), id: Command::Cube, message: messages::SCREEN_EXPECTED },
            Rule { test: Test::Reals(2, 3), id: Command::Cube, message: messages::SHAPE_DIMENSIONS_REAL },
            Rule { test: Test::Kind(1, ObjectKind::Screen), id: Command::Background, message: messages::SCREEN_EXPECTED },
        ],
        Command::Draw => vec![
            Rule { test: Test::ArgCount(3), id: Command::Draw, message: messages::DRAW_USAGE },
            Rule { test: Test::NoOutput, id: Command::Draw, message: messages::NO_OUTPUT_VARIABLE_WRAPPED },
            Rule { test: Test::Handles(1, 3), id: Command::Draw, message: messages::DRAW_HANDLES },
            Rule { test: Test::Kind(1, ObjectKind::Screen), id: Command::Background, message: messages::SCREEN_EXPECTED },
            Rule { test: Test::Kind(2, ObjectKind::Shape), id: Command::Background, message: messages::DRAW_ONTO_FRAMEBUFFER_KIND },
        ],
        Command::StrokeWeight => vec![
            Rule { test: Test::ArgCount(3), id: Command::StrokeWeight, message: messages::STROKE_WEIGHT_USAGE },
            Rule { test: Test::NoOutput, id: Command::StrokeWeight, message: messages::NO_OUTPUT_VARIABLE_WRAPPED },
            Rule { test: Test::Handles(1, 2), id: Command::StrokeWeight, message: messages::SCREEN_EXPECTED },
            Rule { test: Test::Reals(2, 3), id: Command::StrokeWeight, message: messages::SET_FRAME_RATE_REALS },
            Rule { test: Test::Kind(1, ObjectKind::Screen), id: Command::Background, message: messages::SCREEN_EXPECTED },
            Rule { test: Test::NotBelowZero(2), id: Command::StrokeWeight, message: messages::SET_FRAME_RATE_REALS },
        ],
        Command::EllipseMode => vec![
            Rule { test: Test::ArgCount(3), id: Command::EllipseMode, message: messages::ELLIPSE_MODE_USAGE },
            Rule { test: Test::NoOutput, id: Command::EllipseMode, message: messages::NO_OUTPUT_VARIABLE_WRAPPED },
            Rule { test: Test::Handles(1, 2), id: Command::EllipseMode, message: messages::SCREEN_EXPECTED },
            Rule { test: Test::Kind(1, ObjectKind::Screen), id: Command::Background, message: messages::SCREEN_EXPECTED },
            Rule { test: Test::Text(2), id: Command::EllipseMode, message: "" },
        ],
        Command::RectMode => vec![
            Rule { test: Test::ArgCount(3), id: Command::RectMode, message: messages::RECT_MODE_USAGE },
            Rule { test: Test::NoOutput, id: Command::RectMode, message: messages::NO_OUTPUT_VARIABLE_WRAPPED },
            Rule { test: Test::Handles(1, 2), id: Command::RectMode, message: messages::SCREEN_EXPECTED },
            Rule { test: Test::Kind(1, ObjectKind::Screen), id: Command::Background, message: messages::SCREEN_EXPECTED },
            Rule { test: Test::Text(2), id: Command::RectMode, message: "" },
        ],
        Command::ShapeMode => vec![
            Rule { test: Test::ArgCount(3), id: Command::ShapeMode, message: messages::SHAPE_MODE_USAGE },
            Rule { test: Test::NoOutput, id: Command::ShapeMode, message: messages::NO_OUTPUT_VARIABLE_WRAPPED },
            Rule { test: Test::Handles(1, 2), id: Command::ShapeMode, message: messages::SCREEN_EXPECTED },
            Rule { test: Test::Kind(1, ObjectKind::Screen), id: Command::Background, message: messages::SCREEN_EXPECTED },
            Rule { test: Test::Text(2), id: Command::ShapeMode, message: "" },
        ],
        Command::Texture => vec![
            Rule { test: Test::ArgCount(3), id: Command::Texture, message: messages::TEXTURE_USAGE },
            Rule { test: Test::AtMostOneOutput, id: Command::Texture, message: messages::ONE_OUTPUT_AT_MOST },
            Rule { test: Test::Handles(1, 3), id: Command::Texture, message: messages::FRAMEBUFFER_HANDLES },
            Rule { test: Test::Kind(1, ObjectKind::Screen), id: Command::Background, message: messages::SCREEN_EXPECTED },
            Rule { test: Test::Kind(2, ObjectKind::Image), id: Command::Background, message: messages::TEXTURE_KIND },
        ],
        Command::AttachTexture => vec![
            Rule { test: Test::ArgCount(3), id: Command::AttachTexture, message: messages::ATTACH_TEXTURE_USAGE },
            Rule { test: Test::NoOutput, id: Command::AttachTexture, message: messages::NO_OUTPUT_VARIABLE_WRAPPED },
            Rule { test: Test::Handles(1, 3), id: Command::AttachTexture, message: messages::ATTACH_TEXTURE_HANDLES },
            Rule { test: Test::Kind(1, ObjectKind::Shape), id: Command::Background, message: messages::ATTACH_TEXTURE_KIND },
            Rule { test: Test::Kind(2, ObjectKind::Texture), id: Command::Background, message: messages::FRAMEBUFFER_KIND },
        ],
        Command::ApplyMatrix => vec![
            Rule { test: Test::ArgCount(18), id: Command::ApplyMatrix, message: messages::APPLY_MATRIX_USAGE },
            Rule { test: Test::NoOutput, id: Command::ApplyMatrix, message: messages::NO_OUTPUT_VARIABLE_WRAPPED },
            Rule { test: Test::Handles(1, 2), id: Command::ApplyMatrix, message: messages::SCREEN_EXPECTED },
            Rule { test: Test::Reals(2, 18), id: Command::ApplyMatrix, message: messages::APPLY_MATRIX_REALS },
            Rule { test: Test::Kind(1, ObjectKind::Screen), id: Command::ApplyMatrix, message: messages::SCREEN_EXPECTED },
        ],
        Command::PopMatrix => vec![
            Rule { test: Test::ArgCount(2), id: Command::PopMatrix, message: messages::POP_MATRIX_USAGE },
            Rule { test: Test::NoOutput, id: Command::PopMatrix, message: messages::NO_OUTPUT_VARIABLE_WRAPPED },
            Rule { test: Test::Handles(1, 2), id: Command::PopMatrix, message: messages::SCREEN_EXPECTED },
            Rule { test: Test::Kind(1, ObjectKind::Screen), id: Command::PopMatrix, message: messages::SCREEN_EXPECTED },
        ],
        Command::PushMatrix => vec![
            Rule { test: Test::ArgCount(2), id: Command::PushMatrix, message: messages::PUSH_MATRIX_USAGE },
            Rule { test: Test::NoOutput, id: Command::PushMatrix, message: messages::NO_OUTPUT_VARIABLE_WRAPPED },
            Rule { test: Test::Handles(1, 2), id: Command::PushMatrix, message: messages::SCREEN_EXPECTED },
            Rule { test: Test::Kind(1, ObjectKind::Screen), id: Command::PushMatrix, message: messages::SCREEN_EXPECTED },
        ],
        Command::ResetMatrix => vec![
            Rule { test: Test::ArgCount(2), id: Command::ResetMatrix, message: messages::RESET_MATRIX_USAGE },
            Rule { test: Test::NoOutput, id: Command::ResetMatrix, message: messages::NO_OUTPUT_VARIABLE_WRAPPED },
            Rule { test: Test::Handles(1, 2), id: Command::ResetMatrix, message: messages::SCREEN_EXPECTED },
            Rule { test: Test::Kind(1, ObjectKind::Screen), id: Command::ResetMatrix, message: messages::SCREEN_EXPECTED },
        ],
        Command::Rotate => vec![
            Rule { test: Test::ArgCount(6), id: Command::Rotate, message: messages::ROTATE_USAGE },
            Rule { test: Test::NoOutput, id: Command::Rotate, message: messages::NO_OUTPUT_VARIABLE_WRAPPED },
            Rule { test: Test::Handles(1, 2), id: Command::Rotate, message: messages::SCREEN_EXPECTED },
            Rule { test: Test::Reals(2, 6), id: Command::Rotate, message: messages::ROTATE_REALS },
            Rule { test: Test::Kind(1, ObjectKind::Screen), id: Command::Rotate, message: messages::SCREEN_EXPECTED },
        ],
        Command::RotateX => vec![
            Rule { test: Test::ArgCount(3), id: Command::RotateX, message: messages::ROTATE_X_USAGE },
            Rule { test: Test::NoOutput, id: Command::RotateX, message: messages::NO_OUTPUT_VARIABLE_WRAPPED },
            Rule { test: Test::Handles(1, 2), id: Command::RotateX, message: messages::SCREEN_EXPECTED },
            Rule { test: Test::Reals(2, 3), id: Command::RotateX, message: messages::ROTATE_X_REALS },
            Rule { test: Test::Kind(1, ObjectKind::Screen), id: Command::RotateX, message: messages::SCREEN_EXPECTED },
        ],
        Command::RotateY => vec![
            Rule { test: Test::ArgCount(3), id: Command::RotateY, message: messages::ROTATE_Y_USAGE },
            Rule { test: Test::NoOutput, id: Command::RotateY, message: messages::NO_OUTPUT_VARIABLE_WRAPPED },
            Rule { test: Test::Handles(1, 2), id: Command::RotateY, message: messages::SCREEN_EXPECTED },
            Rule { test: Test::Reals(2, 3), id: Command::RotateY, message: messages::ROTATE_Y_REALS },
            Rule { test: Test::Kind(1, ObjectKind::Screen), id: Command::RotateY, message: messages::SCREEN_EXPECTED },
        ],
        Command::RotateZ => vec![
            Rule { test: Test::ArgCount(3), id: Command::RotateZ, message: messages::ROTATE_Z_USAGE },
            Rule { test: Test::NoOutput, id: Command::RotateZ, message: messages::NO_OUTPUT_VARIABLE_WRAPPED },
            Rule { test: Test::Handles(1, 2), id: Command::RotateZ, message: messages::SCREEN_EXPECTED },
            Rule { test: Test::Reals(2, 3), id: Command::RotateZ, message: messages::ROTATE_Z_REALS },
            Rule { test: Test::Kind(1, ObjectKind::Screen), id: Command::RotateZ, message: messages::SCREEN_EXPECTED },
        ],
        Command::Scale => vec![
            Rule { test: Test::ArgCount(5), id: Command::Scale, message: messages::SCALE_USAGE },
            Rule { test: Test::NoOutput, id: Command::Scale, message: messages::NO_OUTPUT_VARIABLE_WRAPPED },
            Rule { test: Test::Handles(1, 2), id: Command::Scale, message: messages::SCREEN_EXPECTED },
            Rule { test: Test::Reals(2, 5), id: Command::Scale, message: messages::SCALE_REALS },
            Rule { test: Test::Kind(1, ObjectKind::Screen), id: Command::Scale, message: messages::SCREEN_EXPECTED },
        ],
        Command::ShearX => vec![
            Rule { test: Test::ArgCount(3), id: Command::ShearX, message: messages::SHEAR_X_USAGE },
            Rule { test: Test::NoOutput, id: Command::ShearX, message: messages::NO_OUTPUT_VARIABLE_WRAPPED },
            Rule { test: Test::Handles(1, 2), id: Command::ShearX, message: messages::SCREEN_EXPECTED },
            Rule { test: Test::Reals(2, 3), id: Command::ShearX, message: messages::SHEAR_X_REALS },
            Rule { test: Test::Kind(1, ObjectKind::Screen), id: Command::ShearX, message: messages::SCREEN_EXPECTED },
        ],
        Command::ShearY => vec![
            Rule { test: Test::ArgCount(3), id: Command::ShearY, message: messages::SHEAR_Y_USAGE },
            Rule { test: Test::NoOutput, id: Command::ShearY, message: messages::NO_OUTPUT_VARIABLE_WRAPPED },
            Rule { test: Test::Handles(1, 2), id: Command::ShearY, message: messages::SCREEN_EXPECTED },
            Rule { test: Test::Reals(2, 3), id: Command::ShearY, message: messages::SHEAR_X_REALS },
            Rule { test: Test::Kind(1, ObjectKind::Screen), id: Command::ShearY, message: messages::SCREEN_EXPECTED },
        ],
        Command::Translate => vec![
            Rule { test: Test::ArgCount(5), id: Command::Translate, message: messages::TRANSLATE_USAGE },
            Rule { test: Test::NoOutput, id: Command::Translate, message: messages::NO_OUTPUT_VARIABLE_WRAPPED },
            Rule { test: Test::Handles(1, 2), id: Command::Translate, message: messages::SCREEN_EXPECTED },
            Rule { test: Test::Reals(2, 5), id: Command::Translate, message: messages::TRANSLATE_REALS },
            Rule { test: Test::Kind(1, ObjectKind::Screen), id: Command::Translate, message: messages::SCREEN_EXPECTED },
        ],
        Command::PrintMatrix => vec![
            Rule { test: Test::ArgCount(2), id: Command::PrintMatrix, message: messages::PRINT_MATRIX_USAGE },
            Rule { test: Test::NoOutput, id: Command::PrintMatrix, message: messages::NO_OUTPUT_VARIABLE_WRAPPED },
            Rule { test: Test::Handles(1, 2), id: Command::PrintMatrix, message: messages::SCREEN_EXPECTED },
            Rule { test: Test::Kind(1, ObjectKind::Screen), id: Command::PrintMatrix, message: messages::SCREEN_EXPECTED },
        ],
        Command::ShaderSetI8 => vec![
            Rule { test: Test::ArgCount(4), id: Command::ShaderSetI8, message: messages::UNIFORM_USAGE },
            Rule { test: Test::NoOutput, id: Command::ShaderSetI8, message: messages::NO_OUTPUT_VARIABLE_WRAPPED },
            Rule { test: Test::Handles(1, 2), id: Command::ShaderSetI8, message: messages::SHADER_EXPECTED },
            Rule { test: Test::Value(3, INT8_CLASS), id: Command::ShaderSetI8, message: messages::SHADER_SET_I8_VALUE },
            Rule { test: Test::Kind(1, ObjectKind::Shader), id: Command::ShaderSetI8, message: messages::SHADER_EXPECTED },
            Rule { test: Test::Text(2), id: Command::ShaderSetI8, message: "" },
        ],
        Command::ShaderSetU8 => vec![
            Rule { test: Test::ArgCount(4), id: Command::ShaderSetU8, message: messages::UNIFORM_USAGE },
            Rule { test: Test::NoOutput, id: Command::ShaderSetU8, message: messages::NO_OUTPUT_VARIABLE_WRAPPED },
            Rule { test: Test::Handles(1, 2), id: Command::ShaderSetU8, message: messages::SHADER_EXPECTED },
            Rule { test: Test::Value(3, UINT8_CLASS), id: Command::ShaderSetU8, message: messages::SHADER_SET_U8_VALUE },
            Rule { test: Test::Kind(1, ObjectKind::Shader), id: Command::ShaderSetU8, message: messages::SHADER_EXPECTED },
            Rule { test: Test::Text(2), id: Command::ShaderSetU8, message: "" },
        ],
        Command::ShaderSetI16 => vec![
            Rule { test: Test::ArgCount(4), id: Command::ShaderSetI16, message: messages::UNIFORM_USAGE },
            Rule { test: Test::NoOutput, id: Command::ShaderSetI16, message: messages::NO_OUTPUT_VARIABLE_WRAPPED },
            Rule { test: Test::Handles(1, 2), id: Command::ShaderSetI16, message: messages::SHADER_EXPECTED },
            Rule { test: Test::Value(3, INT16_CLASS), id: Command::ShaderSetI16, message: messages::SHADER_SET_I16_VALUE },
            Rule { test: Test::Kind(1, ObjectKind::Shader), id: Command::ShaderSetI16, message: messages::SHADER_EXPECTED },
            Rule { test: Test::Text(2), id: Command::ShaderSetI16, message: "" },
        ],
        Command::ShaderSetU16 => vec![
            Rule { test: Test::ArgCount(4), id: Command::ShaderSetU16, message: messages::UNIFORM_USAGE },
            Rule { test: Test::NoOutput, id: Command::ShaderSetU16, message: messages::NO_OUTPUT_VARIABLE_WRAPPED },
            Rule { test: Test::Handles(1, 2), id: Command::ShaderSetU16, message: messages::SHADER_EXPECTED },
            Rule { test: Test::Value(3, UINT16_CLASS), id: Command::ShaderSetU16, message: messages::SHADER_SET_U16_VALUE },
            Rule { test: Test::Kind(1, ObjectKind::Shader), id: Command::ShaderSetU16, message: messages::SHADER_EXPECTED },
            Rule { test: Test::Text(2), id: Command::ShaderSetU16, message: "" },
        ],
        Command::ShaderSetI32 => vec![
            Rule { test: Test::ArgCount(4), id: Command::ShaderSetI32, message: messages::UNIFORM_USAGE },
            Rule { test: Test::NoOutput, id: Command::ShaderSetI32, message: messages::NO_OUTPUT_VARIABLE_WRAPPED },
            Rule { test: Test::Handles(1, 2), id: Command::ShaderSetI32, message: messages::SHADER_EXPECTED },
            Rule { test: Test::Value(3, INT32_CLASS), id: Command::ShaderSetI32, message: messages::SHADER_SET_I32_VALUE },
            Rule { test: Test::Kind(1, ObjectKind::Shader), id: Command::ShaderSetI32, message: messages::SHADER_EXPECTED },
            Rule { test: Test::Text(2), id: Command::ShaderSetI32, message: "" },
        ],
        Command::ShaderSetU32 => vec![
            Rule { test: Test::ArgCount(4), id: Command::ShaderSetU32, message: messages::UNIFORM_USAGE },
            Rule { test: Test::NoOutput, id: Command::ShaderSetU32, message: messages::NO_OUTPUT_VARIABLE_WRAPPED },
            Rule { test: Test::Handles(1, 2), id: Command::ShaderSetU32, message: messages::SHADER_EXPECTED },
            Rule { test: Test::Value(3, UINT32_CLASS), id: Command::ShaderSetU32, message: messages::SHADER_SET_U32_VALUE },
            Rule { test: Test::Kind(1, ObjectKind::Shader), id: Command::ShaderSetU32, message: messages::SHADER_EXPECTED },
            Rule { test: Test::Text(2), id: Command::ShaderSetU32, message: "" },
        ],
        Command::ShaderSetI64 => vec![
            Rule { test: Test::ArgCount(4), id: Command::ShaderSetI64, message: messages::UNIFORM_USAGE },
            Rule { test: Test::NoOutput, id: Command::ShaderSetI64, message: messages::NO_OUTPUT_VARIABLE_WRAPPED },
            Rule { test: Test::Handles(1, 2), id: Command::ShaderSetI64, message: messages::SHADER_EXPECTED },
            Rule { test: Test::Value(3, INT64_CLASS), id: Command::ShaderSetI64, message: messages::SHADER_SET_I64_VALUE },
            Rule { test: Test::Kind(1, ObjectKind::Shader), id: Command::ShaderSetI64, message: messages::SHADER_EXPECTED },
            Rule { test: Test::Text(2), id: Command::ShaderSetI64, message: "" },
        ],
        Command::ShaderSetU64 => vec![
            Rule { test: Test::ArgCount(4), id: Command::ShaderSetU64, message: messages::UNIFORM_USAGE },
            Rule { test: Test::NoOutput, id: Command::ShaderSetU64, message: messages::NO_OUTPUT_VARIABLE_WRAPPED },
            Rule { test: Test::Handles(1, 2), id: Command::ShaderSetU64, message: messages::SHADER_EXPECTED },
            Rule { test: Test::Value(3, UINT64_CLASS), id: Command::ShaderSetU64, message: messages::SHADER_SET_U64_VALUE },
            Rule { test: Test::Kind(1, ObjectKind::Shader), id: Command::ShaderSetU64, message: messages::SHADER_EXPECTED },
            Rule { test: Test::Text(2), id: Command::ShaderSetU64, message: "" },
        ],
        Command::ShaderSetF32 => vec![
            Rule { test: Test::ArgCount(4), id: Command::ShaderSetF32, message: messages::UNIFORM_USAGE },
            Rule { test: Test::NoOutput, id: Command::ShaderSetF32, message: messages::NO_OUTPUT_VARIABLE_WRAPPED },
            Rule { test: Test::Handles(1, 2), id: Command::ShaderSetF32, message: messages::SHADER_EXPECTED },
            Rule { test: Test::Value(3, SINGLE_CLASS), id: Command::ShaderSetF32, message: messages::SHADER_SET_F32_VALUE },
            Rule { test: Test::Kind(1, ObjectKind::Shader), id: Command::ShaderSetF32, message: messages::SHADER_EXPECTED },
            Rule { test: Test::Text(2), id: Command::ShaderSetF32, message: "" },
        ],
        Command::ShaderSetF64 => vec![
            Rule { test: Test::ArgCount(4), id: Command::ShaderSetF64, message: messages::UNIFORM_USAGE },
            Rule { test: Test::NoOutput, id: Command::ShaderSetF64, message: messages::NO_OUTPUT_VARIABLE_WRAPPED },
            Rule { test: Test::Handles(1, 2), id: Command::ShaderSetF64, message: messages::SHADER_EXPECTED },
            Rule { test: Test::Value(3, DOUBLE_CLASS), id: Command::ShaderSetF64, message: messages::SHADER_SET_F64_VALUE },
            Rule { test: Test::Kind(1, ObjectKind::Shader), id: Command::ShaderSetF64, message: messages::SHADER_EXPECTED },
            Rule { test: Test::Text(2), id: Command::ShaderSetF64, message: "" },
        ],
        Command::ShaderSetBool => vec![
            Rule { test: Test::ArgCount(4), id: Command::ShaderSetBool, message: messages::UNIFORM_USAGE },
            Rule { test: Test::NoOutput, id: Command::ShaderSetBool, message: messages::NO_OUTPUT_VARIABLE_WRAPPED },
            Rule { test: Test::Handles(1, 2), id: Command::ShaderSetBool, message: messages::SHADER_EXPECTED },
            Rule { test: Test::Value(3, LOGICAL_CLASS), id: Command::ShaderSetBool, message: messages::SHADER_SET_BOOL_VALUE },
            Rule { test: Test::Kind(1, ObjectKind::Shader), id: Command::ShaderSetBool, message: messages::SHADER_EXPECTED },
            Rule { test: Test::Text(2), id: Command::ShaderSetBool, message: "" },
        ],
        Command::ShaderSetTex => vec![
            Rule { test: Test::ArgCount(4), id: Command::ShaderSetTex, message: messages::UNIFORM_USAGE },
            Rule { test: Test::NoOutput, id: Command::ShaderSetTex, message: messages::NO_OUTPUT_VARIABLE_WRAPPED },
            Rule { test: Test::HandlePair(1, 3), id: Command::ShaderSetTex, message: messages::SHADER_SET_TEX_HANDLES },
            Rule { test: Test::Kind(1, ObjectKind::Shader), id: Command::ShaderSetTex, message: messages::SHADER_EXPECTED },
            Rule { test: Test::Text(2), id: Command::ShaderSetTex, message: "" },
            Rule { test: Test::Kind(3, ObjectKind::Texture), id: Command::ShaderSetTex, message: messages::SHADER_SET_TEX_KIND },
        ],
        Command::DropScreen => vec![
            Rule { test: Test::ArgCount(2), id: Command::DropScreen, message: messages::DROP_SCREEN_USAGE },
            Rule { test: Test::NoOutput, id: Command::DropScreen, message: messages::NO_OUTPUT_VARIABLE_WRAPPED },
            Rule { test: Test::Handles(1, 2), id: Command::DropScreen, message: messages::SCREEN_EXPECTED },
            Rule { test: Test::Kind(1, ObjectKind::Screen), id: Command::DropScreen, message: messages::SCREEN_EXPECTED },
        ],
        Command::DropShape => vec![
            Rule { test: Test::ArgCount(2), id: Command::DropShape, message: messages::DROP_SHAPE_USAGE },
            Rule { test: Test::NoOutput, id: Command::DropShape, message: messages::NO_OUTPUT_VARIABLE_WRAPPED },
            Rule { test: Test::Handles(1, 2), id: Command::DropShape, message: messages::MOULD_KIND },
            Rule { test: Test::Kind(1, ObjectKind::Shape), id: Command::DropShape, message: messages::MOULD_KIND },
        ],
        Command::DropTexture => vec![
            Rule { test: Test::ArgCount(2), id: Command::DropTexture, message: messages::DROP_TEXTURE_USAGE },
            Rule { test: Test::NoOutput, id: Command::DropTexture, message: messages::NO_OUTPUT_VARIABLE_WRAPPED },
            Rule { test: Test::Handles(1, 2), id: Command::DropTexture, message: messages::DROP_TEXTURE_HANDLES },
            Rule { test: Test::Kind(1, ObjectKind::Texture), id: Command::DropTexture, message: messages::DROP_TEXTURE_HANDLES },
        ],
        Command::DropImage => vec![
            Rule { test: Test::ArgCount(2), id: Command::DropImage, message: messages::DROP_IMAGE_USAGE },
            Rule { test: Test::NoOutput, id: Command::DropImage, message: messages::NO_OUTPUT_VARIABLE_WRAPPED },
            Rule { test: Test::Handles(1, 2), id: Command::DropImage, message: messages::DROP_IMAGE_HANDLES },
            Rule { test: Test::Kind(1, ObjectKind::Image), id: Command::DropImage, message: messages::DROP_IMAGE_HANDLES },
        ],
        Command::DropShader => vec![
            Rule { test: Test::ArgCount(2), id: Command::DropShader, message: messages::DROP_SHADER_USAGE },
            Rule { test: Test::NoOutput, id: Command::DropShader, message: messages::NO_OUTPUT_VARIABLE_WRAPPED },
            Rule { test: Test::Handles(1, 2), id: Command::DropShader, message: messages::SHADER_EXPECTED },
            Rule { test: Test::Kind(1, ObjectKind::Shader), id: Command::DropShader, message: messages::SHADER_EXPECTED },
        ],
        Command::DropFbo => vec![
            Rule { test: Test::ArgCount(2), id: Command::DropFbo, message: messages::DROP_FBO_USAGE },
            Rule { test: Test::NoOutput, id: Command::DropFbo, message: messages::NO_OUTPUT_VARIABLE_WRAPPED },
            Rule { test: Test::Handles(1, 2), id: Command::DropFbo, message: messages::DROP_FBO_HANDLES },
            Rule { test: Test::Kind(1, ObjectKind::Framebuffer), id: Command::DropFbo, message: messages::DROP_FBO_HANDLES },
        ],
        Command::DropMould => vec![
            Rule { test: Test::ArgCount(2), id: Command::DropMould, message: messages::DROP_MOULD_USAGE },
            Rule { test: Test::NoOutput, id: Command::DropMould, message: messages::NO_OUTPUT_VARIABLE_WRAPPED },
            Rule { test: Test::Handles(1, 2), id: Command::DropMould, message: messages::DROP_MOULD_HANDLES },
            Rule { test: Test::Kind(1, ObjectKind::Mould), id: Command::DropMould, message: messages::DROP_MOULD_HANDLES },
        ],
    }
}

/// Every command's rule list has the shape described by [`well_formed`].
pub proof fn law_rules_well_formed(c: Command)
    ensures
        well_formed(rules(c)),
{
    match c {
        Command::Background => {},
        Command::ColorMode => {},
        Command::Stroke => {},
        Command::StrokeOn => {},
        Command::StrokeOff => {},
        Command::Fill => {},
        Command::FillOn => {},
        Command::FillOff => {},
        Command::FrameCount => {},
        Command::SetFrameRate => {},
        Command::GetFrameRate => {},
        Command::Height => {},
        Command::Width => {},
        Command::Smooth => {},
        Command::NoSmooth => {},
        Command::NoCursor => {},
        Command::Focused => {},
        Command::Cursor => {},
        Command::ResetCursor => {},
        Command::Framebuffer => {},
        Command::ClearFramebuffer => {},
        Command::DrawOntoFramebuffer => {},
        Command::LoadImage => {},
        Command::ImageMode => {},
        Command::NoTint => {},
        Command::Save => {},
        Command::KeyPress => {},
        Command::SpaceWait => {},
        Command::MousePress => {},
        Command::MouseRelease => {},
        Command::MouseX => {},
        Command::MouseY => {},
        Command::Mould => {},
        Command::DrawMould => {},
        Command::BlendMode => {},
        Command::Screen => {},
        Command::Reveal => {},
        Command::EndDrawing => {},
        Command::LoadFragShader => {},
        Command::Shader => {},
        Command::ResetShader => {},
        Command::Arc => {},
        Command::Ellipse => {},
        Command::Line => {},
        Command::Point => {},
        Command::Quad => {},
        Command::Triangle => {},
        Command::Rect => {},
        Command::Cube => {},
        Command::Draw => {},
        Command::StrokeWeight => {},
        Command::EllipseMode => {},
        Command::RectMode => {},
        Command::ShapeMode => {},
        Command::Texture => {},
        Command::AttachTexture => {},
        Command::ApplyMatrix => {},
        Command::PopMatrix => {},
        Command::PushMatrix => {},
        Command::ResetMatrix => {},
        Command::Rotate => {},
        Command::RotateX => {},
        Command::RotateY => {},
        Command::RotateZ => {},
        Command::Scale => {},
        Command::ShearX => {},
        Command::ShearY => {},
        Command::Translate => {},
        Command::PrintMatrix => {},
        Command::ShaderSetI8 => {},
        Command::ShaderSetU8 => {},
        Command::ShaderSetI16 => {},
        Command::ShaderSetU16 => {},
        Command::ShaderSetI32 => {},
        Command::ShaderSetU32 => {},
        Command::ShaderSetI64 => {},
        Command::ShaderSetU64 => {},
        Command::ShaderSetF32 => {},
        Command::ShaderSetF64 => {},
        Command::ShaderSetBool => {},
        Command::ShaderSetTex => {},
        Command::DropScreen => {},
        Command::DropShape => {},
        Command::DropTexture => {},
        Command::DropImage => {},
        Command::DropShader => {},
        Command::DropFbo => {},
        Command::DropMould => {},
    }
}

/// Whether every argument in `lo..hi` is a handle array.
fn all_handles(args: &Vec<MxArg>, lo: usize, hi: usize) -> (r: bool)
    requires
        lo <= hi <= args.len(),
    ensures
        r == forall|i: int| lo <= i < hi ==> #[trigger] args@[i].handle_array(),
{
    let mut i = lo;
    while i < hi
        invariant
            lo <= i <= hi <= args.len(),
            forall|j: int| lo <= j < i ==> #[trigger] args@[j].handle_array(),
        decreases hi - i,
    {
        if !args[i].is_handle_array() {
            return false;
        }
        i = i + 1;
    }
    true
}

/// Whether every argument in `lo..hi` is a real double scalar.
fn all_reals(args: &Vec<MxArg>, lo: usize, hi: usize) -> (r: bool)
    requires
        lo <= hi <= args.len(),
    ensures
        r == forall|i: int| lo <= i < hi ==> #[trigger] args@[i].real_scalar(),
{
    let mut i = lo;
    while i < hi
        invariant
            lo <= i <= hi <= args.len(),
            forall|j: int| lo <= j < i ==> #[trigger] args@[j].real_scalar(),
        decreases hi - i,
    {
        if !args[i].is_real_scalar() {
            return false;
        }
        i = i + 1;
    }
    true
}

/// Whether every argument in `lo..hi` is a logical scalar.
fn all_flags(args: &Vec<MxArg>, lo: usize, hi: usize) -> (r: bool)
    requires
        lo <= hi <= args.len(),
    ensures
        r == forall|i: int| lo <= i < hi ==> #[trigger] args@[i].logical_scalar(),
{
    let mut i = lo;
    while i < hi
        invariant
            lo <= i <= hi <= args.len(),
            forall|j: int| lo <= j < i ==> #[trigger] args@[j].logical_scalar(),
        decreases hi - i,
    {
        if !args[i].is_logical_scalar() {
            return false;
        }
        i = i + 1;
    }
    true
}

/// Carries out one check.
pub fn check(t: Test, nlhs: i32, args: &Vec<MxArg>) -> (r: bool)
    requires
        within(t, args.len() as nat),
    ensures
        r == passes(t, nlhs, args@),
{
    match t {
        Test::ArgCount(n) => args.len() == n,
        Test::NoOutput => nlhs == 0,
        Test::AtMostOneOutput => nlhs <= 1,
        Test::Handles(lo, hi) => all_handles(args, lo, hi),
        Test::HandlePair(a, b) => args[a].is_handle_array() && args[b].is_handle_array(),
        Test::Reals(lo, hi) => all_reals(args, lo, hi),
        Test::KeyCode(i) => args[i].is_key_code(),
        Test::Flags(lo, hi) => all_flags(args, lo, hi),
        Test::Value(i, class) => args[i].class_id == class && args[i].elements >= 1,
        Test::Kind(i, kind) => args[i].tag == kind.tag(),
        Test::Text(i) => args[i].is_text(),
        Test::NonNegative(i) => args[i].truncated >= 0,
        Test::Positive(a, b) => args[a].truncated > 0 && args[b].truncated > 0,
        Test::NotBelowZero(i) => !args[i].negative_single,
    }
}

/// Runs the rules of a list in order and reports the first that fails.
pub fn first_failing(rs: &Vec<Rule>, nlhs: i32, args: &Vec<MxArg>) -> (r: Option<usize>)
    requires
        well_formed(rs@),
    ensures
        r matches Some(k) ==> first_failure(rs@, nlhs, args@, k as int),
        r is None ==> all_pass(rs@, nlhs, args@),
{
    let mut i: usize = 0;
    while i < rs.len()
        invariant
            well_formed(rs@),
            i <= rs.len(),
            forall|j: int| 0 <= j < i ==> passes(#[trigger] rs@[j].test, nlhs, args@),
        decreases rs.len() - i,
    {
        let rule = rs[i];
        proof {
            assert(within(rs@[i as int].test, arity(rs@)));
            if i > 0 {
                assert(passes(rs@[0].test, nlhs, args@));
            }
        }
        if !check(rule.test, nlhs, args) {
            return Some(i);
        }
        i = i + 1;
    }
    None
}

/// At most one rule is the first to fail.
pub proof fn lemma_first_failure_unique(
    rs: Seq<Rule>,
    nlhs: i32,
    args: Seq<MxArg>,
    a: int,
    b: int,
)
    requires
        first_failure(rs, nlhs, args, a),
        first_failure(rs, nlhs, args, b),
    ensures
        a == b,
{
    if a < b {
        assert(passes(rs[a].test, nlhs, args));
    } else if b < a {
        assert(passes(rs[b].test, nlhs, args));
    }
}

} // verus!
