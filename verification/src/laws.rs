//! Properties of the rule tables and of the decisions, stated over all
//! commands and all calls.

use vstd::prelude::*;

use crate::command::{Command, Output};
use crate::handle::ObjectKind;
use crate::mx::{
    MxArg, DOUBLE_CLASS, INT16_CLASS, INT32_CLASS, INT64_CLASS, INT8_CLASS, LOGICAL_CLASS,
    SINGLE_CLASS, UINT16_CLASS, UINT32_CLASS, UINT64_CLASS, UINT8_CLASS,
};
use crate::rules::{all_pass, arity, passes, rules, Test};
use crate::command::law_names_distinct;
use crate::dispatch::{judgement, verdict};

verus! {

/// What a rule needs to hold of the arguments before it may read them: the
/// tag of a handle is the second word of a two-element `uint64` array, and
/// the numbers compared with zero are those of real double scalars.
pub open spec fn read_is_guarded(t: Test, args: Seq<MxArg>) -> bool {
    match t {
        Test::Kind(i, _) => args[i as int].handle_array(),
        Test::NonNegative(i) => args[i as int].real_scalar(),
        Test::NotBelowZero(i) => args[i as int].real_scalar(),
        Test::Positive(a, b) => args[a as int].real_scalar() && args[b as int].real_scalar(),
        _ => true,
    }
}

/// A command that hands something back accepts at most one output variable;
/// a command that hands nothing back accepts none.  That check is always the
/// second one, right after the argument count.
pub proof fn law_output_rule(c: Command)
    ensures
        rules(c).len() >= 2,
        rules(c)[1].test == (if c.output() == Output::Nothing {
            Test::NoOutput
        } else {
            Test::AtMostOneOutput
        }),
{
    match c {
        Command::Background => {},
        Command::ColorMode => {},
        Command::Stroke => {},
        Command::StrokeOn => {},
        Command::StrokeOff => {},
        Command::Fill => {},
        Command::FillOn => {},
        Command::FillOff => {},
        Command::FrameCount => {},
        Command::SetFrameRate => {},
        Command::GetFrameRate => {},
        Command::Height => {},
        Command::Width => {},
        Command::Smooth => {},
        Command::NoSmooth => {},
        Command::NoCursor => {},
        Command::Focused => {},
        Command::Cursor => {},
        Command::ResetCursor => {},
        Command::Framebuffer => {},
        Command::ClearFramebuffer => {},
        Command::DrawOntoFramebuffer => {},
        Command::LoadImage => {},
        Command::ImageMode => {},
        Command::NoTint => {},
        Command::Save => {},
        Command::KeyPress => {},
        Command::SpaceWait => {},
        Command::MousePress => {},
        Command::MouseRelease => {},
        Command::MouseX => {},
        Command::MouseY => {},
        Command::Mould => {},
        Command::DrawMould => {},
        Command::BlendMode => {},
        Command::Screen => {},
        Command::Reveal => {},
        Command::EndDrawing => {},
        Command::LoadFragShader => {},
        Command::Shader => {},
        Command::ResetShader => {},
        Command::Arc => {},
        Command::Ellipse => {},
        Command::Line => {},
        Command::Point => {},
        Command::Quad => {},
        Command::Triangle => {},
        Command::Rect => {},
        Command::Cube => {},
        Command::Draw => {},
        Command::StrokeWeight => {},
        Command::EllipseMode => {},
        Command::RectMode => {},
        Command::ShapeMode => {},
        Command::Texture => {},
        Command::AttachTexture => {},
        Command::ApplyMatrix => {},
        Command::PopMatrix => {},
        Command::PushMatrix => {},
        Command::ResetMatrix => {},
        Command::Rotate => {},
        Command::RotateX => {},
        Command::RotateY => {},
        Command::RotateZ => {},
        Command::Scale => {},
        Command::ShearX => {},
        Command::ShearY => {},
        Command::Translate => {},
        Command::PrintMatrix => {},
        Command::ShaderSetI8 => {},
        Command::ShaderSetU8 => {},
        Command::ShaderSetI16 => {},
        Command::ShaderSetU16 => {},
        Command::ShaderSetI32 => {},
        Command::ShaderSetU32 => {},
        Command::ShaderSetI64 => {},
        Command::ShaderSetU64 => {},
        Command::ShaderSetF32 => {},
        Command::ShaderSetF64 => {},
        Command::ShaderSetBool => {},
        Command::ShaderSetTex => {},
        Command::DropScreen => {},
        Command::DropShape => {},
        Command::DropTexture => {},
        Command::DropImage => {},
        Command::DropShader => {},
        Command::DropFbo => {},
        Command::DropMould => {},
    }
}

/// No rule reads what an earlier rule has not checked: when every rule
/// before rule `k` passed, the argument that rule `k` reads has the shape it
/// reads it as.
pub proof fn law_reads_are_guarded(c: Command, nlhs: i32, args: Seq<MxArg>, k: int)
    requires
        0 <= k < rules(c).len(),
        forall|j: int| 0 <= j < k ==> passes(#[trigger] rules(c)[j].test, nlhs, args),
    ensures
        read_is_guarded(rules(c)[k].test, args),
{
    if k > 2 {
        assert(passes(rules(c)[2].test, nlhs, args));
    }
    if k > 3 {
        assert(passes(rules(c)[3].test, nlhs, args));
    }
    match c {
        Command::Background => {},
        Command::ColorMode => {},
        Command::Stroke => {},
        Command::StrokeOn => {},
        Command::StrokeOff => {},
        Command::Fill => {},
        Command::FillOn => {},
        Command::FillOff => {},
        Command::FrameCount => {},
        Command::SetFrameRate => {},
        Command::GetFrameRate => {},
        Command::Height => {},
        Command::Width => {},
        Command::Smooth => {},
        Command::NoSmooth => {},
        Command::NoCursor => {},
        Command::Focused => {},
        Command::Cursor => {},
        Command::ResetCursor => {},
        Command::Framebuffer => {},
        Command::ClearFramebuffer => {},
        Command::DrawOntoFramebuffer => {},
        Command::LoadImage => {},
        Command::ImageMode => {},
        Command::NoTint => {},
        Command::Save => {},
        Command::KeyPress => {},
        Command::SpaceWait => {},
        Command::MousePress => {},
        Command::MouseRelease => {},
        Command::MouseX => {},
        Command::MouseY => {},
        Command::Mould => {},
        Command::DrawMould => {},
        Command::BlendMode => {},
        Command::Screen => {},
        Command::Reveal => {},
        Command::EndDrawing => {},
        Command::LoadFragShader => {},
        Command::Shader => {},
        Command::ResetShader => {},
        Command::Arc => {},
        Command::Ellipse => {},
        Command::Line => {},
        Command::Point => {},
        Command::Quad => {},
        Command::Triangle => {},
        Command::Rect => {},
        Command::Cube => {},
        Command::Draw => {},
        Command::StrokeWeight => {},
        Command::EllipseMode => {},
        Command::RectMode => {},
        Command::ShapeMode => {},
        Command::Texture => {},
        Command::AttachTexture => {},
        Command::ApplyMatrix => {},
        Command::PopMatrix => {},
        Command::PushMatrix => {},
        Command::ResetMatrix => {},
        Command::Rotate => {},
        Command::RotateX => {},
        Command::RotateY => {},
        Command::RotateZ => {},
        Command::Scale => {},
        Command::ShearX => {},
        Command::ShearY => {},
        Command::Translate => {},
        Command::PrintMatrix => {},
        Command::ShaderSetI8 => {},
        Command::ShaderSetU8 => {},
        Command::ShaderSetI16 => {},
        Command::ShaderSetU16 => {},
        Command::ShaderSetI32 => {},
        Command::ShaderSetU32 => {},
        Command::ShaderSetI64 => {},
        Command::ShaderSetU64 => {},
        Command::ShaderSetF32 => {},
        Command::ShaderSetF64 => {},
        Command::ShaderSetBool => {},
        Command::ShaderSetTex => {},
        Command::DropScreen => {},
        Command::DropShape => {},
        Command::DropTexture => {},
        Command::DropImage => {},
        Command::DropShader => {},
        Command::DropFbo => {},
        Command::DropMould => {},
    }
}

/// A call that passes every rule of its command has exactly the arguments
/// the command asks for and an acceptable number of output variables.
pub proof fn law_accepted_call(c: Command, nlhs: i32, args: Seq<MxArg>)
    requires
        all_pass(rules(c), nlhs, args),
    ensures
        args.len() == arity(rules(c)),
        nlhs <= 1,
        c.output() == Output::Nothing ==> nlhs == 0,
{
    law_output_rule(c);
    assert(passes(rules(c)[0].test, nlhs, args));
    assert(passes(rules(c)[1].test, nlhs, args));
    match c {
        Command::Background => {},
        Command::ColorMode => {},
        Command::Stroke => {},
        Command::StrokeOn => {},
        Command::StrokeOff => {},
        Command::Fill => {},
        Command::FillOn => {},
        Command::FillOff => {},
        Command::FrameCount => {},
        Command::SetFrameRate => {},
        Command::GetFrameRate => {},
        Command::Height => {},
        Command::Width => {},
        Command::Smooth => {},
        Command::NoSmooth => {},
        Command::NoCursor => {},
        Command::Focused => {},
        Command::Cursor => {},
        Command::ResetCursor => {},
        Command::Framebuffer => {},
        Command::ClearFramebuffer => {},
        Command::DrawOntoFramebuffer => {},
        Command::LoadImage => {},
        Command::ImageMode => {},
        Command::NoTint => {},
        Command::Save => {},
        Command::KeyPress => {},
        Command::SpaceWait => {},
        Command::MousePress => {},
        Command::MouseRelease => {},
        Command::MouseX => {},
        Command::MouseY => {},
        Command::Mould => {},
        Command::DrawMould => {},
        Command::BlendMode => {},
        Command::Screen => {},
        Command::Reveal => {},
        Command::EndDrawing => {},
        Command::LoadFragShader => {},
        Command::Shader => {},
        Command::ResetShader => {},
        Command::Arc => {},
        Command::Ellipse => {},
        Command::Line => {},
        Command::Point => {},
        Command::Quad => {},
        Command::Triangle => {},
        Command::Rect => {},
        Command::Cube => {},
        Command::Draw => {},
        Command::StrokeWeight => {},
        Command::EllipseMode => {},
        Command::RectMode => {},
        Command::ShapeMode => {},
        Command::Texture => {},
        Command::AttachTexture => {},
        Command::ApplyMatrix => {},
        Command::PopMatrix => {},
        Command::PushMatrix => {},
        Command::ResetMatrix => {},
        Command::Rotate => {},
        Command::RotateX => {},
        Command::RotateY => {},
        Command::RotateZ => {},
        Command::Scale => {},
        Command::ShearX => {},
        Command::ShearY => {},
        Command::Translate => {},
        Command::PrintMatrix => {},
        Command::ShaderSetI8 => {},
        Command::ShaderSetU8 => {},
        Command::ShaderSetI16 => {},
        Command::ShaderSetU16 => {},
        Command::ShaderSetI32 => {},
        Command::ShaderSetU32 => {},
        Command::ShaderSetI64 => {},
        Command::ShaderSetU64 => {},
        Command::ShaderSetF32 => {},
        Command::ShaderSetF64 => {},
        Command::ShaderSetBool => {},
        Command::ShaderSetTex => {},
        Command::DropScreen => {},
        Command::DropShape => {},
        Command::DropTexture => {},
        Command::DropImage => {},
        Command::DropShader => {},
        Command::DropFbo => {},
        Command::DropMould => {},
    }
}

/// A handle that this library handed out for an object of kind `kind` is
/// accepted as a handle of that kind, and of no other kind, at any argument
/// position: `arg` is what is read back from the array that holds
/// `handle_words(address, kind)`.
pub proof fn law_handle_round_trip(
    address: u64,
    kind: ObjectKind,
    other: ObjectKind,
    arg: MxArg,
    nlhs: i32,
    args: Seq<MxArg>,
    i: usize,
)
    requires
        arg.class_id == UINT64_CLASS,
        !arg.complex,
        arg.elements == 2,
        (arg.address, arg.tag) == (address, kind.code()),
        i < args.len(),
        args[i as int] == arg,
    ensures
        passes(Test::Handles(i, (i + 1) as usize), nlhs, args),
        passes(Test::Kind(i, kind), nlhs, args),
        passes(Test::Kind(i, other), nlhs, args) <==> other == kind,
{
}

/// Every kind of object that a command can take is made by some command.
pub proof fn law_every_kind_is_made(kind: ObjectKind)
    ensures
        exists|c: Command| c.output() == Output::Handle(kind),
{
    let c = match kind {
        ObjectKind::Screen => Command::Screen,
        ObjectKind::Shape => Command::Rect,
        ObjectKind::Texture => Command::Texture,
        ObjectKind::Framebuffer => Command::Framebuffer,
        ObjectKind::Image => Command::LoadImage,
        ObjectKind::Mould => Command::Mould,
        ObjectKind::Shader => Command::LoadFragShader,
    };
    assert(c.output() == Output::Handle(kind));
}

/// How the entry point reads an argument of a call that it carries out.
#[derive(Debug, Clone, Copy, PartialEq, Eq, Structural)]
pub enum Shape {
    /// The address word of a handle to an object of this kind.
    Handle(ObjectKind),
    /// The value of a real double scalar.
    Real,
    /// The value of a real `uint32` scalar.
    Key,
    /// The value of a logical scalar.
    Flag,
    /// The text of a string.
    Text,
    /// The first element of an array of this class.
    Value(i32),
}

/// `a` has the shape that it is read as.
pub open spec fn has_shape(a: MxArg, s: Shape) -> bool {
    match s {
        Shape::Handle(kind) => a.handle_array() && a.tag == kind.code(),
        Shape::Real => a.real_scalar(),
        Shape::Key => a.key_code(),
        Shape::Flag => a.logical_scalar(),
        Shape::Text => a.text(),
        Shape::Value(class) => a.class_id == class && a.elements >= 1,
    }
}

/// The shapes in which the entry point reads arguments 1, 2, ... of a call
/// of `c` that it carries out: handles for the address of an object of the
/// given kind, reals and key codes for their value, flags for their logical,
/// strings for their text, uniform values for their first element.
pub open spec fn reads(c: Command) -> Seq<Shape> {
    match c {
        Command::Background => seq![Shape::Handle(ObjectKind::Screen), Shape::Real, Shape::Real, Shape::Real, Shape::Real],
        Command::ColorMode => seq![Shape::Handle(ObjectKind::Screen), Shape::Text],
        Command::Stroke => seq![Shape::Handle(ObjectKind::Screen), Shape::Real, Shape::Real, Shape::Real, Shape::Real],
        Command::StrokeOn => seq![Shape::Handle(ObjectKind::Screen)],
        Command::StrokeOff => seq![Shape::Handle(ObjectKind::Screen)],
        Command::Fill => seq![Shape::Handle(ObjectKind::Screen), Shape::Real, Shape::Real, Shape::Real, Shape::Real],
        Command::FillOn => seq![Shape::Handle(ObjectKind::Screen)],
        Command::FillOff => seq![Shape::Handle(ObjectKind::Screen)],
        Command::FrameCount => seq![Shape::Handle(ObjectKind::Screen)],
        Command::SetFrameRate => seq![Shape::Handle(ObjectKind::Screen), Shape::Real],
        Command::GetFrameRate => seq![Shape::Handle(ObjectKind::Screen)],
        Command::Height => seq![Shape::Handle(ObjectKind::Screen)],
        Command::Width => seq![Shape::Handle(ObjectKind::Screen)],
        Command::Smooth => seq![Shape::Handle(ObjectKind::Screen)],
        Command::NoSmooth => seq![Shape::Handle(ObjectKind::Screen)],
        Command::NoCursor => seq![Shape::Handle(ObjectKind::Screen)],
        Command::Focused => seq![Shape::Handle(ObjectKind::Screen)],
        Command::Cursor => seq![Shape::Handle(ObjectKind::Screen), Shape::Text],
        Command::ResetCursor => seq![Shape::Handle(ObjectKind::Screen)],
        Command::Framebuffer => seq![Shape::Handle(ObjectKind::Screen), Shape::Handle(ObjectKind::Texture)],
        Command::ClearFramebuffer => seq![Shape::Handle(ObjectKind::Screen), Shape::Handle(ObjectKind::Framebuffer), Shape::Real, Shape::Real, Shape::Real, Shape::Real],
        Command::DrawOntoFramebuffer => seq![Shape::Handle(ObjectKind::Screen), Shape::Handle(ObjectKind::Shape), Shape::Handle(ObjectKind::Framebuffer)],
        Command::LoadImage => seq![Shape::Text],
        Command::ImageMode => seq![Shape::Handle(ObjectKind::Screen), Shape::Text],
        Command::NoTint => seq![Shape::Handle(ObjectKind::Screen)],
        Command::Save => seq![Shape::Handle(ObjectKind::Screen), Shape::Text],
        Command::KeyPress => seq![Shape::Handle(ObjectKind::Screen), Shape::Key],
        Command::SpaceWait => seq![Shape::Handle(ObjectKind::Screen)],
        Command::MousePress => seq![Shape::Handle(ObjectKind::Screen), Shape::Key],
        Command::MouseRelease => seq![Shape::Handle(ObjectKind::Screen), Shape::Real],
        Command::MouseX => seq![Shape::Handle(ObjectKind::Screen)],
        Command::MouseY => seq![Shape::Handle(ObjectKind::Screen)],
        Command::Mould => seq![Shape::Handle(ObjectKind::Shape), Shape::Handle(ObjectKind::Shader)],
        Command::DrawMould => seq![Shape::Handle(ObjectKind::Screen), Shape::Handle(ObjectKind::Mould)],
        Command::BlendMode => seq![Shape::Handle(ObjectKind::Screen), Shape::Text],
        Command::Screen => seq![Shape::Real, Shape::Real, Shape::Flag, Shape::Flag, Shape::Flag],
        Command::Reveal => seq![Shape::Handle(ObjectKind::Screen)],
        Command::EndDrawing => seq![Shape::Handle(ObjectKind::Screen)],
        Command::LoadFragShader => seq![Shape::Handle(ObjectKind::Screen), Shape::Text],
        Command::Shader => seq![Shape::Handle(ObjectKind::Screen), Shape::Handle(ObjectKind::Shader)],
        Command::ResetShader => seq![Shape::Handle(ObjectKind::Screen)],
        Command::Arc => seq![Shape::Handle(ObjectKind::Screen), Shape::Real, Shape::Real, Shape::Real, Shape::Real, Shape::Real, Shape::Real, Shape::Real],
        Command::Ellipse => seq![Shape::Handle(ObjectKind::Screen), Shape::Real, Shape::Real, Shape::Real, Shape::Real, Shape::Real],
        Command::Line => seq![Shape::Handle(ObjectKind::Screen), Shape::Real, Shape::Real, Shape::Real, Shape::Real, Shape::Real, Shape::Real],
        Command::Point => seq![Shape::Handle(ObjectKind::Screen), Shape::Real, Shape::Real, Shape::Real],
        Command::Quad => seq![Shape::Handle(ObjectKind::Screen), Shape::Real, Shape::Real, Shape::Real, Shape::Real, Shape::Real, Shape::Real, Shape::Real, Shape::Real, Shape::Real, Shape::Real, Shape::Real, Shape::Real],
        Command::Triangle => seq![Shape::Handle(ObjectKind::Screen), Shape::Real, Shape::Real, Shape::Real, Shape::Real, Shape::Real, Shape::Real, Shape::Real, Shape::Real, Shape::Real],
        Command::Rect => seq![Shape::Handle(ObjectKind::Screen), Shape::Real, Shape::Real, Shape::Real, Shape::Real, Shape::Real],
        Command::Cube => seq![Shape::Handle(ObjectKind::Screen), Shape::Real],
        Command::Draw => seq![Shape::Handle(ObjectKind::Screen), Shape::Handle(ObjectKind::Shape)],
        Command::StrokeWeight => seq![Shape::Handle(ObjectKind::Screen), Shape::Real],
        Command::EllipseMode => seq![Shape::Handle(ObjectKind::Screen), Shape::Text],
        Command::RectMode => seq![Shape::Handle(ObjectKind::Screen), Shape::Text],
        Command::ShapeMode => seq![Shape::Handle(ObjectKind::Screen), Shape::Text],
        Command::Texture => seq![Shape::Handle(ObjectKind::Screen), Shape::Handle(ObjectKind::Image)],
        Command::AttachTexture => seq![Shape::Handle(ObjectKind::Shape), Shape::Handle(ObjectKind::Texture)],
        Command::ApplyMatrix => seq![Shape::Handle(ObjectKind::Screen), Shape::Real, Shape::Real, Shape::Real, Shape::Real, Shape::Real, Shape::Real, Shape::Real, Shape::Real, Shape::Real, Shape::Real, Shape::Real, Shape::Real, Shape::Real, Shape::Real, Shape::Real, Shape::Real],
        Command::PopMatrix => seq![Shape::Handle(ObjectKind::Screen)],
        Command::PushMatrix => seq![Shape::Handle(ObjectKind::Screen)],
        Command::ResetMatrix => seq![Shape::Handle(ObjectKind::Screen)],
        Command::Rotate => seq![Shape::Handle(ObjectKind::Screen), Shape::Real, Shape::Real, Shape::Real, Shape::Real],
        Command::RotateX => seq![Shape::Handle(ObjectKind::Screen), Shape::Real],
        Command::RotateY => seq![Shape::Handle(ObjectKind::Screen), Shape::Real],
        Command::RotateZ => seq![Shape::Handle(ObjectKind::Screen), Shape::Real],
        Command::Scale => seq![Shape::Handle(ObjectKind::Screen), Shape::Real, Shape::Real, Shape::Real],
        Command::ShearX => seq![Shape::Handle(ObjectKind::Screen), Shape::Real],
        Command::ShearY => seq![Shape::Handle(ObjectKind::Screen), Shape::Real],
        Command::Translate => seq![Shape::Handle(ObjectKind::Screen), Shape::Real, Shape::Real, Shape::Real],
        Command::PrintMatrix => seq![Shape::Handle(ObjectKind::Screen)],
        Command::ShaderSetI8 => seq![Shape::Handle(ObjectKind::Shader), Shape::Text, Shape::Value(INT8_CLASS)],
        Command::ShaderSetU8 => seq![Shape::Handle(ObjectKind::Shader), Shape::Text, Shape::Value(UINT8_CLASS)],
        Command::ShaderSetI16 => seq![Shape::Handle(ObjectKind::Shader), Shape::Text, Shape::Value(INT16_CLASS)],
        Command::ShaderSetU16 => seq![Shape::Handle(ObjectKind::Shader), Shape::Text, Shape::Value(UINT16_CLASS)],
        Command::ShaderSetI32 => seq![Shape::Handle(ObjectKind::Shader), Shape::Text, Shape::Value(INT32_CLASS)],
        Command::ShaderSetU32 => seq![Shape::Handle(ObjectKind::Shader), Shape::Text, Shape::Value(UINT32_CLASS)],
        Command::ShaderSetI64 => seq![Shape::Handle(ObjectKind::Shader), Shape::Text, Shape::Value(INT64_CLASS)],
        Command::ShaderSetU64 => seq![Shape::Handle(ObjectKind::Shader), Shape::Text, Shape::Value(UINT64_CLASS)],
        Command::ShaderSetF32 => seq![Shape::Handle(ObjectKind::Shader), Shape::Text, Shape::Value(SINGLE_CLASS)],
        Command::ShaderSetF64 => seq![Shape::Handle(ObjectKind::Shader), Shape::Text, Shape::Value(DOUBLE_CLASS)],
        Command::ShaderSetBool => seq![Shape::Handle(ObjectKind::Shader), Shape::Text, Shape::Value(LOGICAL_CLASS)],
        Command::ShaderSetTex => seq![Shape::Handle(ObjectKind::Shader), Shape::Text, Shape::Handle(ObjectKind::Texture)],
        Command::DropScreen => seq![Shape::Handle(ObjectKind::Screen)],
        Command::DropShape => seq![Shape::Handle(ObjectKind::Shape)],
        Command::DropTexture => seq![Shape::Handle(ObjectKind::Texture)],
        Command::DropImage => seq![Shape::Handle(ObjectKind::Image)],
        Command::DropShader => seq![Shape::Handle(ObjectKind::Shader)],
        Command::DropFbo => seq![Shape::Handle(ObjectKind::Framebuffer)],
        Command::DropMould => seq![Shape::Handle(ObjectKind::Mould)],
    }
}

/// Every argument that the entry point reads of a call it carries out has
/// the shape it is read as: a call that passes every rule of its command
/// has one argument per read, after the name, and each has its shape.
pub proof fn law_reads_after_run(c: Command, nlhs: i32, args: Seq<MxArg>)
    requires
        all_pass(rules(c), nlhs, args),
    ensures
        args.len() == reads(c).len() + 1,
        forall|j: int| 0 <= j < reads(c).len() ==> has_shape(args[j + 1], #[trigger] reads(c)[j]),
        value_conditions(c, args),
{
    assert forall|k: int| 0 <= k < rules(c).len() implies passes(rules(c)[k].test, nlhs, args) by {
        assert(passes(rules(c)[k].test, nlhs, args));
    }
    match c {
        Command::Background => {},
        Command::ColorMode => {},
        Command::Stroke => {},
        Command::StrokeOn => {},
        Command::StrokeOff => {},
        Command::Fill => {},
        Command::FillOn => {},
        Command::FillOff => {},
        Command::FrameCount => {},
        Command::SetFrameRate => {},
        Command::GetFrameRate => {},
        Command::Height => {},
        Command::Width => {},
        Command::Smooth => {},
        Command::NoSmooth => {},
        Command::NoCursor => {},
        Command::Focused => {},
        Command::Cursor => {},
        Command::ResetCursor => {},
        Command::Framebuffer => {},
        Command::ClearFramebuffer => {},
        Command::DrawOntoFramebuffer => {},
        Command::LoadImage => {},
        Command::ImageMode => {},
        Command::NoTint => {},
        Command::Save => {},
        Command::KeyPress => {},
        Command::SpaceWait => {},
        Command::MousePress => {},
        Command::MouseRelease => {},
        Command::MouseX => {},
        Command::MouseY => {},
        Command::Mould => {},
        Command::DrawMould => {},
        Command::BlendMode => {},
        Command::Screen => {},
        Command::Reveal => {},
        Command::EndDrawing => {},
        Command::LoadFragShader => {},
        Command::Shader => {},
        Command::ResetShader => {},
        Command::Arc => {},
        Command::Ellipse => {},
        Command::Line => {},
        Command::Point => {},
        Command::Quad => {},
        Command::Triangle => {},
        Command::Rect => {},
        Command::Cube => {},
        Command::Draw => {},
        Command::StrokeWeight => {},
        Command::EllipseMode => {},
        Command::RectMode => {},
        Command::ShapeMode => {},
        Command::Texture => {},
        Command::AttachTexture => {},
        Command::ApplyMatrix => {},
        Command::PopMatrix => {},
        Command::PushMatrix => {},
        Command::ResetMatrix => {},
        Command::Rotate => {},
        Command::RotateX => {},
        Command::RotateY => {},
        Command::RotateZ => {},
        Command::Scale => {},
        Command::ShearX => {},
        Command::ShearY => {},
        Command::Translate => {},
        Command::PrintMatrix => {},
        Command::ShaderSetI8 => {},
        Command::ShaderSetU8 => {},
        Command::ShaderSetI16 => {},
        Command::ShaderSetU16 => {},
        Command::ShaderSetI32 => {},
        Command::ShaderSetU32 => {},
        Command::ShaderSetI64 => {},
        Command::ShaderSetU64 => {},
        Command::ShaderSetF32 => {},
        Command::ShaderSetF64 => {},
        Command::ShaderSetBool => {},
        Command::ShaderSetTex => {},
        Command::DropScreen => {},
        Command::DropShape => {},
        Command::DropTexture => {},
        Command::DropImage => {},
        Command::DropShader => {},
        Command::DropFbo => {},
        Command::DropMould => {},
    }
}

/// The checks on the values of arguments, besides their shapes: a screen's
/// width and height truncate above zero, a frame rate truncates to at least
/// zero, and a stroke weight is not below zero as a single.
pub open spec fn value_conditions(c: Command, args: Seq<MxArg>) -> bool {
    match c {
        Command::Screen => args[1].truncated > 0 && args[2].truncated > 0,
        Command::SetFrameRate => args[2].truncated >= 0,
        Command::StrokeWeight => !args[2].negative_single,
        _ => true,
    }
}

/// A call whose name is a string and whose arguments have exactly the shapes
/// that its command reads, with values that meet the value checks and an
/// acceptable number of output variables, passes every rule of its command:
/// the commands refuse nothing else.
pub proof fn law_run_when_well_shaped(c: Command, nlhs: i32, args: Seq<MxArg>)
    requires
        args.len() == reads(c).len() + 1,
        args[0].text(),
        forall|j: int| 0 <= j < reads(c).len() ==> has_shape(args[j + 1], #[trigger] reads(c)[j]),
        value_conditions(c, args),
        0 <= nlhs <= 1,
        c.output() == Output::Nothing ==> nlhs == 0,
    ensures
        all_pass(rules(c), nlhs, args),
{
    match c {
        Command::Background => {
            assert(has_shape(args[1], reads(c)[0]));
            assert(has_shape(args[2], reads(c)[1]));
            assert(has_shape(args[3], reads(c)[2]));
            assert(has_shape(args[4], reads(c)[3]));
            assert(has_shape(args[5], reads(c)[4]));
        },
        Command::ColorMode => {
            assert(has_shape(args[1], reads(c)[0]));
            assert(has_shape(args[2], reads(c)[1]));
        },
        Command::Stroke => {
            assert(has_shape(args[1], reads(c)[0]));
            assert(has_shape(args[2], reads(c)[1]));
            assert(has_shape(args[3], reads(c)[2]));
            assert(has_shape(args[4], reads(c)[3]));
            assert(has_shape(args[5], reads(c)[4]));
        },
        Command::StrokeOn => {
            assert(has_shape(args[1], reads(c)[0]));
        },
        Command::StrokeOff => {
            assert(has_shape(args[1], reads(c)[0]));
        },
        Command::Fill => {
            assert(has_shape(args[1], reads(c)[0]));
            assert(has_shape(args[2], reads(c)[1]));
            assert(has_shape(args[3], reads(c)[2]));
            assert(has_shape(args[4], reads(c)[3]));
            assert(has_shape(args[5], reads(c)[4]));
        },
        Command::FillOn => {
            assert(has_shape(args[1], reads(c)[0]));
        },
        Command::FillOff => {
            assert(has_shape(args[1], reads(c)[0]));
        },
        Command::FrameCount => {
            assert(has_shape(args[1], reads(c)[0]));
        },
        Command::SetFrameRate => {
            assert(has_shape(args[1], reads(c)[0]));
            assert(has_shape(args[2], reads(c)[1]));
        },
        Command::GetFrameRate => {
            assert(has_shape(args[1], reads(c)[0]));
        },
        Command::Height => {
            assert(has_shape(args[1], reads(c)[0]));
        },
        Command::Width => {
            assert(has_shape(args[1], reads(c)[0]));
        },
        Command::Smooth => {
            assert(has_shape(args[1], reads(c)[0]));
        },
        Command::NoSmooth => {
            assert(has_shape(args[1], reads(c)[0]));
        },
        Command::NoCursor => {
            assert(has_shape(args[1], reads(c)[0]));
        },
        Command::Focused => {
            assert(has_shape(args[1], reads(c)[0]));
        },
        Command::Cursor => {
            assert(has_shape(args[1], reads(c)[0]));
            assert(has_shape(args[2], reads(c)[1]));
        },
        Command::ResetCursor => {
            assert(has_shape(args[1], reads(c)[0]));
        },
        Command::Framebuffer => {
            assert(has_shape(args[1], reads(c)[0]));
            assert(has_shape(args[2], reads(c)[1]));
        },
        Command::ClearFramebuffer => {
            assert(has_shape(args[1], reads(c)[0]));
            assert(has_shape(args[2], reads(c)[1]));
            assert(has_shape(args[3], reads(c)[2]));
            assert(has_shape(args[4], reads(c)[3]));
            assert(has_shape(args[5], reads(c)[4]));
            assert(has_shape(args[6], reads(c)[5]));
        },
        Command::DrawOntoFramebuffer => {
            assert(has_shape(args[1], reads(c)[0]));
            assert(has_shape(args[2], reads(c)[1]));
            assert(has_shape(args[3], reads(c)[2]));
        },
        Command::LoadImage => {
            assert(has_shape(args[1], reads(c)[0]));
        },
        Command::ImageMode => {
            assert(has_shape(args[1], reads(c)[0]));
            assert(has_shape(args[2], reads(c)[1]));
        },
        Command::NoTint => {
            assert(has_shape(args[1], reads(c)[0]));
        },
        Command::Save => {
            assert(has_shape(args[1], reads(c)[0]));
            assert(has_shape(args[2], reads(c)[1]));
        },
        Command::KeyPress => {
            assert(has_shape(args[1], reads(c)[0]));
            assert(has_shape(args[2], reads(c)[1]));
        },
        Command::SpaceWait => {
            assert(has_shape(args[1], reads(c)[0]));
        },
        Command::MousePress => {
            assert(has_shape(args[1], reads(c)[0]));
            assert(has_shape(args[2], reads(c)[1]));
        },
        Command::MouseRelease => {
            assert(has_shape(args[1], reads(c)[0]));
            assert(has_shape(args[2], reads(c)[1]));
        },
        Command::MouseX => {
            assert(has_shape(args[1], reads(c)[0]));
        },
        Command::MouseY => {
            assert(has_shape(args[1], reads(c)[0]));
        },
        Command::Mould => {
            assert(has_shape(args[1], reads(c)[0]));
            assert(has_shape(args[2], reads(c)[1]));
        },
        Command::DrawMould => {
            assert(has_shape(args[1], reads(c)[0]));
            assert(has_shape(args[2], reads(c)[1]));
        },
        Command::BlendMode => {
            assert(has_shape(args[1], reads(c)[0]));
            assert(has_shape(args[2], reads(c)[1]));
        },
        Command::Screen => {
            assert(has_shape(args[1], reads(c)[0]));
            assert(has_shape(args[2], reads(c)[1]));
            assert(has_shape(args[3], reads(c)[2]));
            assert(has_shape(args[4], reads(c)[3]));
            assert(has_shape(args[5], reads(c)[4]));
        },
        Command::Reveal => {
            assert(has_shape(args[1], reads(c)[0]));
        },
        Command::EndDrawing => {
            assert(has_shape(args[1], reads(c)[0]));
        },
        Command::LoadFragShader => {
            assert(has_shape(args[1], reads(c)[0]));
            assert(has_shape(args[2], reads(c)[1]));
        },
        Command::Shader => {
            assert(has_shape(args[1], reads(c)[0]));
            assert(has_shape(args[2], reads(c)[1]));
        },
        Command::ResetShader => {
            assert(has_shape(args[1], reads(c)[0]));
        },
        Command::Arc => {
            assert(has_shape(args[1], reads(c)[0]));
            assert(has_shape(args[2], reads(c)[1]));
            assert(has_shape(args[3], reads(c)[2]));
            assert(has_shape(args[4], reads(c)[3]));
            assert(has_shape(args[5], reads(c)[4]));
            assert(has_shape(args[6], reads(c)[5]));
            assert(has_shape(args[7], reads(c)[6]));
            assert(has_shape(args[8], reads(c)[7]));
        },
        Command::Ellipse => {
            assert(has_shape(args[1], reads(c)[0]));
            assert(has_shape(args[2], reads(c)[1]));
            assert(has_shape(args[3], reads(c)[2]));
            assert(has_shape(args[4], reads(c)[3]));
            assert(has_shape(args[5], reads(c)[4]));
            assert(has_shape(args[6], reads(c)[5]));
        },
        Command::Line => {
            assert(has_shape(args[1], reads(c)[0]));
            assert(has_shape(args[2], reads(c)[1]));
            assert(has_shape(args[3], reads(c)[2]));
            assert(has_shape(args[4], reads(c)[3]));
            assert(has_shape(args[5], reads(c)[4]));
            assert(has_shape(args[6], reads(c)[5]));
            assert(has_shape(args[7], reads(c)[6]));
        },
        Command::Point => {
            assert(has_shape(args[1], reads(c)[0]));
            assert(has_shape(args[2], reads(c)[1]));
            assert(has_shape(args[3], reads(c)[2]));
            assert(has_shape(args[4], reads(c)[3]));
        },
        Command::Quad => {
            assert(has_shape(args[1], reads(c)[0]));
            assert(has_shape(args[2], reads(c)[1]));
            assert(has_shape(args[3], reads(c)[2]));
            assert(has_shape(args[4], reads(c)[3]));
            assert(has_shape(args[5], reads(c)[4]));
            assert(has_shape(args[6], reads(c)[5]));
            assert(has_shape(args[7], reads(c)[6]));
            assert(has_shape(args[8], reads(c)[7]));
            assert(has_shape(args[9], reads(c)[8]));
            assert(has_shape(args[10], reads(c)[9]));
            assert(has_shape(args[11], reads(c)[10]));
            assert(has_shape(args[12], reads(c)[11]));
            assert(has_shape(args[13], reads(c)[12]));
        },
        Command::Triangle => {
            assert(has_shape(args[1], reads(c)[0]));
            assert(has_shape(args[2], reads(c)[1]));
            assert(has_shape(args[3], reads(c)[2]));
            assert(has_shape(args[4], reads(c)[3]));
            assert(has_shape(args[5], reads(c)[4]));
            assert(has_shape(args[6], reads(c)[5]));
            assert(has_shape(args[7], reads(c)[6]));
            assert(has_shape(args[8], reads(c)[7]));
            assert(has_shape(args[9], reads(c)[8]));
            assert(has_shape(args[10], reads(c)[9]));
        },
        Command::Rect => {
            assert(has_shape(args[1], reads(c)[0]));
            assert(has_shape(args[2], reads(c)[1]));
            assert(has_shape(args[3], reads(c)[2]));
            assert(has_shape(args[4], reads(c)[3]));
            assert(has_shape(args[5], reads(c)[4]));
            assert(has_shape(args[6], reads(c)[5]));
        },
        Command::Cube => {
            assert(has_shape(args[1], reads(c)[0]));
            assert(has_shape(args[2], reads(c)[1]));
        },
        Command::Draw => {
            assert(has_shape(args[1], reads(c)[0]));
            assert(has_shape(args[2], reads(c)[1]));
        },
        Command::StrokeWeight => {
            assert(has_shape(args[1], reads(c)[0]));
            assert(has_shape(args[2], reads(c)[1]));
        },
        Command::EllipseMode => {
            assert(has_shape(args[1], reads(c)[0]));
            assert(has_shape(args[2], reads(c)[1]));
        },
        Command::RectMode => {
            assert(has_shape(args[1], reads(c)[0]));
            assert(has_shape(args[2], reads(c)[1]));
        },
        Command::ShapeMode => {
            assert(has_shape(args[1], reads(c)[0]));
            assert(has_shape(args[2], reads(c)[1]));
        },
        Command::Texture => {
            assert(has_shape(args[1], reads(c)[0]));
            assert(has_shape(args[2], reads(c)[1]));
        },
        Command::AttachTexture => {
            assert(has_shape(args[1], reads(c)[0]));
            assert(has_shape(args[2], reads(c)[1]));
        },
        Command::ApplyMatrix => {
            assert(has_shape(args[1], reads(c)[0]));
            assert(has_shape(args[2], reads(c)[1]));
            assert(has_shape(args[3], reads(c)[2]));
            assert(has_shape(args[4], reads(c)[3]));
            assert(has_shape(args[5], reads(c)[4]));
            assert(has_shape(args[6], reads(c)[5]));
            assert(has_shape(args[7], reads(c)[6]));
            assert(has_shape(args[8], reads(c)[7]));
            assert(has_shape(args[9], reads(c)[8]));
            assert(has_shape(args[10], reads(c)[9]));
            assert(has_shape(args[11], reads(c)[10]));
            assert(has_shape(args[12], reads(c)[11]));
            assert(has_shape(args[13], reads(c)[12]));
            assert(has_shape(args[14], reads(c)[13]));
            assert(has_shape(args[15], reads(c)[14]));
            assert(has_shape(args[16], reads(c)[15]));
            assert(has_shape(args[17], reads(c)[16]));
        },
        Command::PopMatrix => {
            assert(has_shape(args[1], reads(c)[0]));
        },
        Command::PushMatrix => {
            assert(has_shape(args[1], reads(c)[0]));
        },
        Command::ResetMatrix => {
            assert(has_shape(args[1], reads(c)[0]));
        },
        Command::Rotate => {
            assert(has_shape(args[1], reads(c)[0]));
            assert(has_shape(args[2], reads(c)[1]));
            assert(has_shape(args[3], reads(c)[2]));
            assert(has_shape(args[4], reads(c)[3]));
            assert(has_shape(args[5], reads(c)[4]));
        },
        Command::RotateX => {
            assert(has_shape(args[1], reads(c)[0]));
            assert(has_shape(args[2], reads(c)[1]));
        },
        Command::RotateY => {
            assert(has_shape(args[1], reads(c)[0]));
            assert(has_shape(args[2], reads(c)[1]));
        },
        Command::RotateZ => {
            assert(has_shape(args[1], reads(c)[0]));
            assert(has_shape(args[2], reads(c)[1]));
        },
        Command::Scale => {
            assert(has_shape(args[1], reads(c)[0]));
            assert(has_shape(args[2], reads(c)[1]));
            assert(has_shape(args[3], reads(c)[2]));
            assert(has_shape(args[4], reads(c)[3]));
        },
        Command::ShearX => {
            assert(has_shape(args[1], reads(c)[0]));
            assert(has_shape(args[2], reads(c)[1]));
        },
        Command::ShearY => {
            assert(has_shape(args[1], reads(c)[0]));
            assert(has_shape(args[2], reads(c)[1]));
        },
        Command::Translate => {
            assert(has_shape(args[1], reads(c)[0]));
            assert(has_shape(args[2], reads(c)[1]));
            assert(has_shape(args[3], reads(c)[2]));
            assert(has_shape(args[4], reads(c)[3]));
        },
        Command::PrintMatrix => {
            assert(has_shape(args[1], reads(c)[0]));
        },
        Command::ShaderSetI8 => {
            assert(has_shape(args[1], reads(c)[0]));
            assert(has_shape(args[2], reads(c)[1]));
            assert(has_shape(args[3], reads(c)[2]));
        },
        Command::ShaderSetU8 => {
            assert(has_shape(args[1], reads(c)[0]));
            assert(has_shape(args[2], reads(c)[1]));
            assert(has_shape(args[3], reads(c)[2]));
        },
        Command::ShaderSetI16 => {
            assert(has_shape(args[1], reads(c)[0]));
            assert(has_shape(args[2], reads(c)[1]));
            assert(has_shape(args[3], reads(c)[2]));
        },
        Command::ShaderSetU16 => {
            assert(has_shape(args[1], reads(c)[0]));
            assert(has_shape(args[2], reads(c)[1]));
            assert(has_shape(args[3], reads(c)[2]));
        },
        Command::ShaderSetI32 => {
            assert(has_shape(args[1], reads(c)[0]));
            assert(has_shape(args[2], reads(c)[1]));
            assert(has_shape(args[3], reads(c)[2]));
        },
        Command::ShaderSetU32 => {
            assert(has_shape(args[1], reads(c)[0]));
            assert(has_shape(args[2], reads(c)[1]));
            assert(has_shape(args[3], reads(c)[2]));
        },
        Command::ShaderSetI64 => {
            assert(has_shape(args[1], reads(c)[0]));
            assert(has_shape(args[2], reads(c)[1]));
            assert(has_shape(args[3], reads(c)[2]));
        },
        Command::ShaderSetU64 => {
            assert(has_shape(args[1], reads(c)[0]));
            assert(has_shape(args[2], reads(c)[1]));
            assert(has_shape(args[3], reads(c)[2]));
        },
        Command::ShaderSetF32 => {
            assert(has_shape(args[1], reads(c)[0]));
            assert(has_shape(args[2], reads(c)[1]));
            assert(has_shape(args[3], reads(c)[2]));
        },
        Command::ShaderSetF64 => {
            assert(has_shape(args[1], reads(c)[0]));
            assert(has_shape(args[2], reads(c)[1]));
            assert(has_shape(args[3], reads(c)[2]));
        },
        Command::ShaderSetBool => {
            assert(has_shape(args[1], reads(c)[0]));
            assert(has_shape(args[2], reads(c)[1]));
            assert(has_shape(args[3], reads(c)[2]));
        },
        Command::ShaderSetTex => {
            assert(has_shape(args[1], reads(c)[0]));
            assert(has_shape(args[2], reads(c)[1]));
            assert(has_shape(args[3], reads(c)[2]));
        },
        Command::DropScreen => {
            assert(has_shape(args[1], reads(c)[0]));
        },
        Command::DropShape => {
            assert(has_shape(args[1], reads(c)[0]));
        },
        Command::DropTexture => {
            assert(has_shape(args[1], reads(c)[0]));
        },
        Command::DropImage => {
            assert(has_shape(args[1], reads(c)[0]));
        },
        Command::DropShader => {
            assert(has_shape(args[1], reads(c)[0]));
        },
        Command::DropFbo => {
            assert(has_shape(args[1], reads(c)[0]));
        },
        Command::DropMould => {
            assert(has_shape(args[1], reads(c)[0]));
        },
    }
}

/// What the commands hand back: the queries a number, the constructors a
/// handle to the kind of object they make, and every other command nothing.
pub proof fn law_results()
    ensures
        Command::FrameCount.output() == Output::Number,
        Command::GetFrameRate.output() == Output::Number,
        Command::Height.output() == Output::Number,
        Command::Width.output() == Output::Number,
        Command::KeyPress.output() == Output::Number,
        Command::MousePress.output() == Output::Number,
        Command::MouseRelease.output() == Output::Number,
        Command::MouseX.output() == Output::Number,
        Command::MouseY.output() == Output::Number,
        Command::Screen.output() == Output::Handle(ObjectKind::Screen),
        Command::Arc.output() == Output::Handle(ObjectKind::Shape),
        Command::Ellipse.output() == Output::Handle(ObjectKind::Shape),
        Command::Line.output() == Output::Handle(ObjectKind::Shape),
        Command::Point.output() == Output::Handle(ObjectKind::Shape),
        Command::Quad.output() == Output::Handle(ObjectKind::Shape),
        Command::Triangle.output() == Output::Handle(ObjectKind::Shape),
        Command::Rect.output() == Output::Handle(ObjectKind::Shape),
        Command::Cube.output() == Output::Handle(ObjectKind::Shape),
        Command::Framebuffer.output() == Output::Handle(ObjectKind::Framebuffer),
        Command::LoadImage.output() == Output::Handle(ObjectKind::Image),
        Command::Texture.output() == Output::Handle(ObjectKind::Texture),
        Command::Mould.output() == Output::Handle(ObjectKind::Mould),
        Command::LoadFragShader.output() == Output::Handle(ObjectKind::Shader),
        forall|c: Command| c.output() == Output::Nothing <==> !(c == Command::FrameCount || c == Command::GetFrameRate || c == Command::Height || c == Command::Width || c == Command::KeyPress || c == Command::MousePress || c == Command::MouseRelease || c == Command::MouseX || c == Command::MouseY || c == Command::Screen || c == Command::Arc || c == Command::Ellipse || c == Command::Line || c == Command::Point || c == Command::Quad || c == Command::Triangle || c == Command::Rect || c == Command::Cube || c == Command::Framebuffer || c == Command::LoadImage || c == Command::Texture || c == Command::Mould || c == Command::LoadFragShader),
{
    assert forall|c: Command| c.output() == Output::Nothing <==> !(c == Command::FrameCount || c == Command::GetFrameRate || c == Command::Height || c == Command::Width || c == Command::KeyPress || c == Command::MousePress || c == Command::MouseRelease || c == Command::MouseX || c == Command::MouseY || c == Command::Screen || c == Command::Arc || c == Command::Ellipse || c == Command::Line || c == Command::Point || c == Command::Quad || c == Command::Triangle || c == Command::Rect || c == Command::Cube || c == Command::Framebuffer || c == Command::LoadImage || c == Command::Texture || c == Command::Mould || c == Command::LoadFragShader) by {
        match c {
            Command::Background => {},
            Command::ColorMode => {},
            Command::Stroke => {},
            Command::StrokeOn => {},
            Command::StrokeOff => {},
            Command::Fill => {},
            Command::FillOn => {},
            Command::FillOff => {},
            Command::FrameCount => {},
            Command::SetFrameRate => {},
            Command::GetFrameRate => {},
            Command::Height => {},
            Command::Width => {},
            Command::Smooth => {},
            Command::NoSmooth => {},
            Command::NoCursor => {},
            Command::Focused => {},
            Command::Cursor => {},
            Command::ResetCursor => {},
            Command::Framebuffer => {},
            Command::ClearFramebuffer => {},
            Command::DrawOntoFramebuffer => {},
            Command::LoadImage => {},
            Command::ImageMode => {},
            Command::NoTint => {},
            Command::Save => {},
            Command::KeyPress => {},
            Command::SpaceWait => {},
            Command::MousePress => {},
            Command::MouseRelease => {},
            Command::MouseX => {},
            Command::MouseY => {},
            Command::Mould => {},
            Command::DrawMould => {},
            Command::BlendMode => {},
            Command::Screen => {},
            Command::Reveal => {},
            Command::EndDrawing => {},
            Command::LoadFragShader => {},
            Command::Shader => {},
            Command::ResetShader => {},
            Command::Arc => {},
            Command::Ellipse => {},
            Command::Line => {},
            Command::Point => {},
            Command::Quad => {},
            Command::Triangle => {},
            Command::Rect => {},
            Command::Cube => {},
            Command::Draw => {},
            Command::StrokeWeight => {},
            Command::EllipseMode => {},
            Command::RectMode => {},
            Command::ShapeMode => {},
            Command::Texture => {},
            Command::AttachTexture => {},
            Command::ApplyMatrix => {},
            Command::PopMatrix => {},
            Command::PushMatrix => {},
            Command::ResetMatrix => {},
            Command::Rotate => {},
            Command::RotateX => {},
            Command::RotateY => {},
            Command::RotateZ => {},
            Command::Scale => {},
            Command::ShearX => {},
            Command::ShearY => {},
            Command::Translate => {},
            Command::PrintMatrix => {},
            Command::ShaderSetI8 => {},
            Command::ShaderSetU8 => {},
            Command::ShaderSetI16 => {},
            Command::ShaderSetU16 => {},
            Command::ShaderSetI32 => {},
            Command::ShaderSetU32 => {},
            Command::ShaderSetI64 => {},
            Command::ShaderSetU64 => {},
            Command::ShaderSetF32 => {},
            Command::ShaderSetF64 => {},
            Command::ShaderSetBool => {},
            Command::ShaderSetTex => {},
            Command::DropScreen => {},
            Command::DropShape => {},
            Command::DropTexture => {},
            Command::DropImage => {},
            Command::DropShader => {},
            Command::DropFbo => {},
            Command::DropMould => {},
        }
    }
}

/// Each command is requested under the name that MATLAB code writes for it:
/// a call whose first argument is a string with one of these names is
/// decided as a call of that command.
pub proof fn law_dispatch_names(nlhs: i32, args: Seq<MxArg>)
    requires
        args.len() >= 1,
        args[0].text(),
    ensures
        verdict("background"@, nlhs, args) == judgement(Command::Background, nlhs, args),
        verdict("color_mode"@, nlhs, args) == judgement(Command::ColorMode, nlhs, args),
        verdict("stroke"@, nlhs, args) == judgement(Command::Stroke, nlhs, args),
        verdict("stroke_on"@, nlhs, args) == judgement(Command::StrokeOn, nlhs, args),
        verdict("stroke_off"@, nlhs, args) == judgement(Command::StrokeOff, nlhs, args),
        verdict("fill"@, nlhs, args) == judgement(Command::Fill, nlhs, args),
        verdict("fill_on"@, nlhs, args) == judgement(Command::FillOn, nlhs, args),
        verdict("fill_off"@, nlhs, args) == judgement(Command::FillOff, nlhs, args),
        verdict("frame_count"@, nlhs, args) == judgement(Command::FrameCount, nlhs, args),
        verdict("set_frame_rate"@, nlhs, args) == judgement(Command::SetFrameRate, nlhs, args),
        verdict("get_frame_rate"@, nlhs, args) == judgement(Command::GetFrameRate, nlhs, args),
        verdict("height"@, nlhs, args) == judgement(Command::Height, nlhs, args),
        verdict("width"@, nlhs, args) == judgement(Command::Width, nlhs, args),
        verdict("smooth"@, nlhs, args) == judgement(Command::Smooth, nlhs, args),
        verdict("no_smooth"@, nlhs, args) == judgement(Command::NoSmooth, nlhs, args),
        verdict("no_cursor"@, nlhs, args) == judgement(Command::NoCursor, nlhs, args),
        verdict("focused"@, nlhs, args) == judgement(Command::Focused, nlhs, args),
        verdict("cursor"@, nlhs, args) == judgement(Command::Cursor, nlhs, args),
        verdict("reset_cursor"@, nlhs, args) == judgement(Command::ResetCursor, nlhs, args),
        verdict("framebuffer"@, nlhs, args) == judgement(Command::Framebuffer, nlhs, args),
        verdict("clear_framebuffer"@, nlhs, args) == judgement(Command::ClearFramebuffer, nlhs, args),
        verdict("draw_onto_framebuffer"@, nlhs, args) == judgement(Command::DrawOntoFramebuffer, nlhs, args),
        verdict("load_image"@, nlhs, args) == judgement(Command::LoadImage, nlhs, args),
        verdict("image_mode"@, nlhs, args) == judgement(Command::ImageMode, nlhs, args),
        verdict("no_tint"@, nlhs, args) == judgement(Command::NoTint, nlhs, args),
        verdict("save"@, nlhs, args) == judgement(Command::Save, nlhs, args),
        verdict("key_press"@, nlhs, args) == judgement(Command::KeyPress, nlhs, args),
        verdict("space_wait"@, nlhs, args) == judgement(Command::SpaceWait, nlhs, args),
        verdict("mouse_press"@, nlhs, args) == judgement(Command::MousePress, nlhs, args),
        verdict("mouse_release"@, nlhs, args) == judgement(Command::MouseRelease, nlhs, args),
        verdict("mouse_x"@, nlhs, args) == judgement(Command::MouseX, nlhs, args),
        verdict("mouse_y"@, nlhs, args) == judgement(Command::MouseY, nlhs, args),
        verdict("mould"@, nlhs, args) == judgement(Command::Mould, nlhs, args),
        verdict("draw_mould"@, nlhs, args) == judgement(Command::DrawMould, nlhs, args),
        verdict("blend_mode"@, nlhs, args) == judgement(Command::BlendMode, nlhs, args),
        verdict("screen"@, nlhs, args) == judgement(Command::Screen, nlhs, args),
        verdict("reveal"@, nlhs, args) == judgement(Command::Reveal, nlhs, args),
        verdict("end_drawing"@, nlhs, args) == judgement(Command::EndDrawing, nlhs, args),
        verdict("load_frag_shader"@, nlhs, args) == judgement(Command::LoadFragShader, nlhs, args),
        verdict("shader"@, nlhs, args) == judgement(Command::Shader, nlhs, args),
        verdict("reset_shader"@, nlhs, args) == judgement(Command::ResetShader, nlhs, args),
        verdict("arc"@, nlhs, args) == judgement(Command::Arc, nlhs, args),
        verdict("ellipse"@, nlhs, args) == judgement(Command::Ellipse, nlhs, args),
        verdict("line"@, nlhs, args) == judgement(Command::Line, nlhs, args),
        verdict("point"@, nlhs, args) == judgement(Command::Point, nlhs, args),
        verdict("quad"@, nlhs, args) == judgement(Command::Quad, nlhs, args),
        verdict("triangle"@, nlhs, args) == judgement(Command::Triangle, nlhs, args),
        verdict("rect"@, nlhs, args) == judgement(Command::Rect, nlhs, args),
        verdict("cube"@, nlhs, args) == judgement(Command::Cube, nlhs, args),
        verdict("draw"@, nlhs, args) == judgement(Command::Draw, nlhs, args),
        verdict("stroke_weight"@, nlhs, args) == judgement(Command::StrokeWeight, nlhs, args),
        verdict("ellipse_mode"@, nlhs, args) == judgement(Command::EllipseMode, nlhs, args),
        verdict("rect_mode"@, nlhs, args) == judgement(Command::RectMode, nlhs, args),
        verdict("shape_mode"@, nlhs, args) == judgement(Command::ShapeMode, nlhs, args),
        verdict("texture"@, nlhs, args) == judgement(Command::Texture, nlhs, args),
        verdict("attach_texture"@, nlhs, args) == judgement(Command::AttachTexture, nlhs, args),
        verdict("apply_matrix"@, nlhs, args) == judgement(Command::ApplyMatrix, nlhs, args),
        verdict("pop_matrix"@, nlhs, args) == judgement(Command::PopMatrix, nlhs, args),
        verdict("push_matrix"@, nlhs, args) == judgement(Command::PushMatrix, nlhs, args),
        verdict("reset_matrix"@, nlhs, args) == judgement(Command::ResetMatrix, nlhs, args),
        verdict("rotate"@, nlhs, args) == judgement(Command::Rotate, nlhs, args),
        verdict("rotate_x"@, nlhs, args) == judgement(Command::RotateX, nlhs, args),
        verdict("rotate_y"@, nlhs, args) == judgement(Command::RotateY, nlhs, args),
        verdict("rotate_z"@, nlhs, args) == judgement(Command::RotateZ, nlhs, args),
        verdict("scale"@, nlhs, args) == judgement(Command::Scale, nlhs, args),
        verdict("shear_x"@, nlhs, args) == judgement(Command::ShearX, nlhs, args),
        verdict("shear_y"@, nlhs, args) == judgement(Command::ShearY, nlhs, args),
        verdict("translate"@, nlhs, args) == judgement(Command::Translate, nlhs, args),
        verdict("print_matrix"@, nlhs, args) == judgement(Command::PrintMatrix, nlhs, args),
        verdict("shader_set_i8"@, nlhs, args) == judgement(Command::ShaderSetI8, nlhs, args),
        verdict("shader_set_u8"@, nlhs, args) == judgement(Command::ShaderSetU8, nlhs, args),
        verdict("shader_set_i16"@, nlhs, args) == judgement(Command::ShaderSetI16, nlhs, args),
        verdict("shader_set_u16"@, nlhs, args) == judgement(Command::ShaderSetU16, nlhs, args),
        verdict("shader_set_i32"@, nlhs, args) == judgement(Command::ShaderSetI32, nlhs, args),
        verdict("shader_set_u32"@, nlhs, args) == judgement(Command::ShaderSetU32, nlhs, args),
        verdict("shader_set_i64"@, nlhs, args) == judgement(Command::ShaderSetI64, nlhs, args),
        verdict("shader_set_u64"@, nlhs, args) == judgement(Command::ShaderSetU64, nlhs, args),
        verdict("shader_set_f32"@, nlhs, args) == judgement(Command::ShaderSetF32, nlhs, args),
        verdict("shader_set_f64"@, nlhs, args) == judgement(Command::ShaderSetF64, nlhs, args),
        verdict("shader_set_bool"@, nlhs, args) == judgement(Command::ShaderSetBool, nlhs, args),
        verdict("shader_set_tex"@, nlhs, args) == judgement(Command::ShaderSetTex, nlhs, args),
        verdict("drop_screen"@, nlhs, args) == judgement(Command::DropScreen, nlhs, args),
        verdict("drop_shape"@, nlhs, args) == judgement(Command::DropShape, nlhs, args),
        verdict("drop_texture"@, nlhs, args) == judgement(Command::DropTexture, nlhs, args),
        verdict("drop_image"@, nlhs, args) == judgement(Command::DropImage, nlhs, args),
        verdict("drop_shader"@, nlhs, args) == judgement(Command::DropShader, nlhs, args),
        verdict("drop_fbo"@, nlhs, args) == judgement(Command::DropFbo, nlhs, args),
        verdict("drop_mould"@, nlhs, args) == judgement(Command::DropMould, nlhs, args),
{
    law_names_distinct(choose|d: Command| "background"@ == d.name(), Command::Background);
    law_names_distinct(choose|d: Command| "color_mode"@ == d.name(), Command::ColorMode);
    law_names_distinct(choose|d: Command| "stroke"@ == d.name(), Command::Stroke);
    law_names_distinct(choose|d: Command| "stroke_on"@ == d.name(), Command::StrokeOn);
    law_names_distinct(choose|d: Command| "stroke_off"@ == d.name(), Command::StrokeOff);
    law_names_distinct(choose|d: Command| "fill"@ == d.name(), Command::Fill);
    law_names_distinct(choose|d: Command| "fill_on"@ == d.name(), Command::FillOn);
    law_names_distinct(choose|d: Command| "fill_off"@ == d.name(), Command::FillOff);
    law_names_distinct(choose|d: Command| "frame_count"@ == d.name(), Command::FrameCount);
    law_names_distinct(choose|d: Command| "set_frame_rate"@ == d.name(), Command::SetFrameRate);
    law_names_distinct(choose|d: Command| "get_frame_rate"@ == d.name(), Command::GetFrameRate);
    law_names_distinct(choose|d: Command| "height"@ == d.name(), Command::Height);
    law_names_distinct(choose|d: Command| "width"@ == d.name(), Command::Width);
    law_names_distinct(choose|d: Command| "smooth"@ == d.name(), Command::Smooth);
    law_names_distinct(choose|d: Command| "no_smooth"@ == d.name(), Command::NoSmooth);
    law_names_distinct(choose|d: Command| "no_cursor"@ == d.name(), Command::NoCursor);
    law_names_distinct(choose|d: Command| "focused"@ == d.name(), Command::Focused);
    law_names_distinct(choose|d: Command| "cursor"@ == d.name(), Command::Cursor);
    law_names_distinct(choose|d: Command| "reset_cursor"@ == d.name(), Command::ResetCursor);
    law_names_distinct(choose|d: Command| "framebuffer"@ == d.name(), Command::Framebuffer);
    law_names_distinct(choose|d: Command| "clear_framebuffer"@ == d.name(), Command::ClearFramebuffer);
    law_names_distinct(choose|d: Command| "draw_onto_framebuffer"@ == d.name(), Command::DrawOntoFramebuffer);
    law_names_distinct(choose|d: Command| "load_image"@ == d.name(), Command::LoadImage);
    law_names_distinct(choose|d: Command| "image_mode"@ == d.name(), Command::ImageMode);
    law_names_distinct(choose|d: Command| "no_tint"@ == d.name(), Command::NoTint);
    law_names_distinct(choose|d: Command| "save"@ == d.name(), Command::Save);
    law_names_distinct(choose|d: Command| "key_press"@ == d.name(), Command::KeyPress);
    law_names_distinct(choose|d: Command| "space_wait"@ == d.name(), Command::SpaceWait);
    law_names_distinct(choose|d: Command| "mouse_press"@ == d.name(), Command::MousePress);
    law_names_distinct(choose|d: Command| "mouse_release"@ == d.name(), Command::MouseRelease);
    law_names_distinct(choose|d: Command| "mouse_x"@ == d.name(), Command::MouseX);
    law_names_distinct(choose|d: Command| "mouse_y"@ == d.name(), Command::MouseY);
    law_names_distinct(choose|d: Command| "mould"@ == d.name(), Command::Mould);
    law_names_distinct(choose|d: Command| "draw_mould"@ == d.name(), Command::DrawMould);
    law_names_distinct(choose|d: Command| "blend_mode"@ == d.name(), Command::BlendMode);
    law_names_distinct(choose|d: Command| "screen"@ == d.name(), Command::Screen);
    law_names_distinct(choose|d: Command| "reveal"@ == d.name(), Command::Reveal);
    law_names_distinct(choose|d: Command| "end_drawing"@ == d.name(), Command::EndDrawing);
    law_names_distinct(choose|d: Command| "load_frag_shader"@ == d.name(), Command::LoadFragShader);
    law_names_distinct(choose|d: Command| "shader"@ == d.name(), Command::Shader);
    law_names_distinct(choose|d: Command| "reset_shader"@ == d.name(), Command::ResetShader);
    law_names_distinct(choose|d: Command| "arc"@ == d.name(), Command::Arc);
    law_names_distinct(choose|d: Command| "ellipse"@ == d.name(), Command::Ellipse);
    law_names_distinct(choose|d: Command| "line"@ == d.name(), Command::Line);
    law_names_distinct(choose|d: Command| "point"@ == d.name(), Command::Point);
    law_names_distinct(choose|d: Command| "quad"@ == d.name(), Command::Quad);
    law_names_distinct(choose|d: Command| "triangle"@ == d.name(), Command::Triangle);
    law_names_distinct(choose|d: Command| "rect"@ == d.name(), Command::Rect);
    law_names_distinct(choose|d: Command| "cube"@ == d.name(), Command::Cube);
    law_names_distinct(choose|d: Command| "draw"@ == d.name(), Command::Draw);
    law_names_distinct(choose|d: Command| "stroke_weight"@ == d.name(), Command::StrokeWeight);
    law_names_distinct(choose|d: Command| "ellipse_mode"@ == d.name(), Command::EllipseMode);
    law_names_distinct(choose|d: Command| "rect_mode"@ == d.name(), Command::RectMode);
    law_names_distinct(choose|d: Command| "shape_mode"@ == d.name(), Command::ShapeMode);
    law_names_distinct(choose|d: Command| "texture"@ == d.name(), Command::Texture);
    law_names_distinct(choose|d: Command| "attach_texture"@ == d.name(), Command::AttachTexture);
    law_names_distinct(choose|d: Command| "apply_matrix"@ == d.name(), Command::ApplyMatrix);
    law_names_distinct(choose|d: Command| "pop_matrix"@ == d.name(), Command::PopMatrix);
    law_names_distinct(choose|d: Command| "push_matrix"@ == d.name(), Command::PushMatrix);
    law_names_distinct(choose|d: Command| "reset_matrix"@ == d.name(), Command::ResetMatrix);
    law_names_distinct(choose|d: Command| "rotate"@ == d.name(), Command::Rotate);
    law_names_distinct(choose|d: Command| "rotate_x"@ == d.name(), Command::RotateX);
    law_names_distinct(choose|d: Command| "rotate_y"@ == d.name(), Command::RotateY);
    law_names_distinct(choose|d: Command| "rotate_z"@ == d.name(), Command::RotateZ);
    law_names_distinct(choose|d: Command| "scale"@ == d.name(), Command::Scale);
    law_names_distinct(choose|d: Command| "shear_x"@ == d.name(), Command::ShearX);
    law_names_distinct(choose|d: Command| "shear_y"@ == d.name(), Command::ShearY);
    law_names_distinct(choose|d: Command| "translate"@ == d.name(), Command::Translate);
    law_names_distinct(choose|d: Command| "print_matrix"@ == d.name(), Command::PrintMatrix);
    law_names_distinct(choose|d: Command| "shader_set_i8"@ == d.name(), Command::ShaderSetI8);
    law_names_distinct(choose|d: Command| "shader_set_u8"@ == d.name(), Command::ShaderSetU8);
    law_names_distinct(choose|d: Command| "shader_set_i16"@ == d.name(), Command::ShaderSetI16);
    law_names_distinct(choose|d: Command| "shader_set_u16"@ == d.name(), Command::ShaderSetU16);
    law_names_distinct(choose|d: Command| "shader_set_i32"@ == d.name(), Command::ShaderSetI32);
    law_names_distinct(choose|d: Command| "shader_set_u32"@ == d.name(), Command::ShaderSetU32);
    law_names_distinct(choose|d: Command| "shader_set_i64"@ == d.name(), Command::ShaderSetI64);
    law_names_distinct(choose|d: Command| "shader_set_u64"@ == d.name(), Command::ShaderSetU64);
    law_names_distinct(choose|d: Command| "shader_set_f32"@ == d.name(), Command::ShaderSetF32);
    law_names_distinct(choose|d: Command| "shader_set_f64"@ == d.name(), Command::ShaderSetF64);
    law_names_distinct(choose|d: Command| "shader_set_bool"@ == d.name(), Command::ShaderSetBool);
    law_names_distinct(choose|d: Command| "shader_set_tex"@ == d.name(), Command::ShaderSetTex);
    law_names_distinct(choose|d: Command| "drop_screen"@ == d.name(), Command::DropScreen);
    law_names_distinct(choose|d: Command| "drop_shape"@ == d.name(), Command::DropShape);
    law_names_distinct(choose|d: Command| "drop_texture"@ == d.name(), Command::DropTexture);
    law_names_distinct(choose|d: Command| "drop_image"@ == d.name(), Command::DropImage);
    law_names_distinct(choose|d: Command| "drop_shader"@ == d.name(), Command::DropShader);
    law_names_distinct(choose|d: Command| "drop_fbo"@ == d.name(), Command::DropFbo);
    law_names_distinct(choose|d: Command| "drop_mould"@ == d.name(), Command::DropMould);
}

/// The commands that report a handle of the wrong kind under the name
/// `background` rather than under their own name.
pub open spec fn reports_kind_as_background(c: Command) -> bool {
    c == Command::Background || c == Command::ColorMode || c == Command::Stroke || c == Command::StrokeOn || c == Command::StrokeOff || c == Command::Fill || c == Command::FillOn || c == Command::FillOff || c == Command::FrameCount || c == Command::SetFrameRate || c == Command::GetFrameRate || c == Command::Height || c == Command::Width || c == Command::Smooth || c == Command::NoSmooth || c == Command::NoCursor || c == Command::Focused || c == Command::Cursor || c == Command::ResetCursor || c == Command::Framebuffer || c == Command::ClearFramebuffer || c == Command::DrawOntoFramebuffer || c == Command::ImageMode || c == Command::NoTint || c == Command::Save || c == Command::KeyPress || c == Command::SpaceWait || c == Command::MousePress || c == Command::MouseRelease || c == Command::MouseX || c == Command::MouseY || c == Command::Mould || c == Command::DrawMould || c == Command::BlendMode || c == Command::Reveal || c == Command::EndDrawing || c == Command::LoadFragShader || c == Command::Shader || c == Command::ResetShader || c == Command::Arc || c == Command::Ellipse || c == Command::Line || c == Command::Point || c == Command::Quad || c == Command::Triangle || c == Command::Rect || c == Command::Cube || c == Command::Draw || c == Command::StrokeWeight || c == Command::EllipseMode || c == Command::RectMode || c == Command::ShapeMode || c == Command::Texture || c == Command::AttachTexture
}

/// Every failure is reported under the command's own name, except a handle
/// of the wrong kind in the commands of [`reports_kind_as_background`].
pub proof fn law_error_ids(c: Command)
    ensures
        forall|k: int|
            0 <= k < rules(c).len() ==> (#[trigger] rules(c)[k]).id == (if rules(c)[k].test is Kind
                && reports_kind_as_background(c) {
                Command::Background
            } else {
                c
            }),
{
    match c {
        Command::Background => {},
        Command::ColorMode => {},
        Command::Stroke => {},
        Command::StrokeOn => {},
        Command::StrokeOff => {},
        Command::Fill => {},
        Command::FillOn => {},
        Command::FillOff => {},
        Command::FrameCount => {},
        Command::SetFrameRate => {},
        Command::GetFrameRate => {},
        Command::Height => {},
        Command::Width => {},
        Command::Smooth => {},
        Command::NoSmooth => {},
        Command::NoCursor => {},
        Command::Focused => {},
        Command::Cursor => {},
        Command::ResetCursor => {},
        Command::Framebuffer => {},
        Command::ClearFramebuffer => {},
        Command::DrawOntoFramebuffer => {},
        Command::LoadImage => {},
        Command::ImageMode => {},
        Command::NoTint => {},
        Command::Save => {},
        Command::KeyPress => {},
        Command::SpaceWait => {},
        Command::MousePress => {},
        Command::MouseRelease => {},
        Command::MouseX => {},
        Command::MouseY => {},
        Command::Mould => {},
        Command::DrawMould => {},
        Command::BlendMode => {},
        Command::Screen => {},
        Command::Reveal => {},
        Command::EndDrawing => {},
        Command::LoadFragShader => {},
        Command::Shader => {},
        Command::ResetShader => {},
        Command::Arc => {},
        Command::Ellipse => {},
        Command::Line => {},
        Command::Point => {},
        Command::Quad => {},
        Command::Triangle => {},
        Command::Rect => {},
        Command::Cube => {},
        Command::Draw => {},
        Command::StrokeWeight => {},
        Command::EllipseMode => {},
        Command::RectMode => {},
        Command::ShapeMode => {},
        Command::Texture => {},
        Command::AttachTexture => {},
        Command::ApplyMatrix => {},
        Command::PopMatrix => {},
        Command::PushMatrix => {},
        Command::ResetMatrix => {},
        Command::Rotate => {},
        Command::RotateX => {},
        Command::RotateY => {},
        Command::RotateZ => {},
        Command::Scale => {},
        Command::ShearX => {},
        Command::ShearY => {},
        Command::Translate => {},
        Command::PrintMatrix => {},
        Command::ShaderSetI8 => {},
        Command::ShaderSetU8 => {},
        Command::ShaderSetI16 => {},
        Command::ShaderSetU16 => {},
        Command::ShaderSetI32 => {},
        Command::ShaderSetU32 => {},
        Command::ShaderSetI64 => {},
        Command::ShaderSetU64 => {},
        Command::ShaderSetF32 => {},
        Command::ShaderSetF64 => {},
        Command::ShaderSetBool => {},
        Command::ShaderSetTex => {},
        Command::DropScreen => {},
        Command::DropShape => {},
        Command::DropTexture => {},
        Command::DropImage => {},
        Command::DropShader => {},
        Command::DropFbo => {},
        Command::DropMould => {},
    }
}

/// The stage at which a test is made: the argument count, then the number of
/// output variables, then the shapes of the arguments, then handle kinds and
/// strings, and last the values of numbers.
pub open spec fn stage(t: Test) -> int {
    match t {
        Test::ArgCount(_) => 0,
        Test::NoOutput => 1,
        Test::AtMostOneOutput => 1,
        Test::Handles(_, _) => 2,
        Test::HandlePair(_, _) => 2,
        Test::Reals(_, _) => 2,
        Test::KeyCode(_) => 2,
        Test::Flags(_, _) => 2,
        Test::Value(_, _) => 2,
        Test::Kind(_, _) => 3,
        Test::Text(_) => 3,
        Test::NonNegative(_) => 4,
        Test::Positive(_, _) => 4,
        Test::NotBelowZero(_) => 4,
    }
}

/// Within every command the checks are made stage by stage, so a call with
/// several faults is refused for the one of the earliest stage.
pub proof fn law_check_order(c: Command)
    ensures
        forall|i: int, j: int|
            0 <= i < j < rules(c).len() ==> stage(#[trigger] rules(c)[i].test) <= stage(
                #[trigger] rules(c)[j].test,
            ),
{
    match c {
        Command::Background => {},
        Command::ColorMode => {},
        Command::Stroke => {},
        Command::StrokeOn => {},
        Command::StrokeOff => {},
        Command::Fill => {},
        Command::FillOn => {},
        Command::FillOff => {},
        Command::FrameCount => {},
        Command::SetFrameRate => {},
        Command::GetFrameRate => {},
        Command::Height => {},
        Command::Width => {},
        Command::Smooth => {},
        Command::NoSmooth => {},
        Command::NoCursor => {},
        Command::Focused => {},
        Command::Cursor => {},
        Command::ResetCursor => {},
        Command::Framebuffer => {},
        Command::ClearFramebuffer => {},
        Command::DrawOntoFramebuffer => {},
        Command::LoadImage => {},
        Command::ImageMode => {},
        Command::NoTint => {},
        Command::Save => {},
        Command::KeyPress => {},
        Command::SpaceWait => {},
        Command::MousePress => {},
        Command::MouseRelease => {},
        Command::MouseX => {},
        Command::MouseY => {},
        Command::Mould => {},
        Command::DrawMould => {},
        Command::BlendMode => {},
        Command::Screen => {},
        Command::Reveal => {},
        Command::EndDrawing => {},
        Command::LoadFragShader => {},
        Command::Shader => {},
        Command::ResetShader => {},
        Command::Arc => {},
        Command::Ellipse => {},
        Command::Line => {},
        Command::Point => {},
        Command::Quad => {},
        Command::Triangle => {},
        Command::Rect => {},
        Command::Cube => {},
        Command::Draw => {},
        Command::StrokeWeight => {},
        Command::EllipseMode => {},
        Command::RectMode => {},
        Command::ShapeMode => {},
        Command::Texture => {},
        Command::AttachTexture => {},
        Command::ApplyMatrix => {},
        Command::PopMatrix => {},
        Command::PushMatrix => {},
        Command::ResetMatrix => {},
        Command::Rotate => {},
        Command::RotateX => {},
        Command::RotateY => {},
        Command::RotateZ => {},
        Command::Scale => {},
        Command::ShearX => {},
        Command::ShearY => {},
        Command::Translate => {},
        Command::PrintMatrix => {},
        Command::ShaderSetI8 => {},
        Command::ShaderSetU8 => {},
        Command::ShaderSetI16 => {},
        Command::ShaderSetU16 => {},
        Command::ShaderSetI32 => {},
        Command::ShaderSetU32 => {},
        Command::ShaderSetI64 => {},
        Command::ShaderSetU64 => {},
        Command::ShaderSetF32 => {},
        Command::ShaderSetF64 => {},
        Command::ShaderSetBool => {},
        Command::ShaderSetTex => {},
        Command::DropScreen => {},
        Command::DropShape => {},
        Command::DropTexture => {},
        Command::DropImage => {},
        Command::DropShader => {},
        Command::DropFbo => {},
        Command::DropMould => {},
    }
}

} // verus!
