//! The commands of the entry point and the names under which they are
//! requested.

use vstd::prelude::*;
use vstd::string::StrSliceExecFns;

use crate::handle::ObjectKind;

verus! {

/// How many commands there are.
pub const COMMAND_COUNT: usize = 88;

/// The commands that the entry point understands, one per Strobe function.
#[derive(Debug, Clone, Copy, PartialEq, Eq, Structural)]
pub enum Command {
    Background,
    ColorMode,
    Stroke,
    StrokeOn,
    StrokeOff,
    Fill,
    FillOn,
    FillOff,
    FrameCount,
    /// The rate is checked after truncation to `i32`: rates between -1 and 0
    /// pass as 0.
    SetFrameRate,
    GetFrameRate,
    Height,
    Width,
    Smooth,
    NoSmooth,
    NoCursor,
    Focused,
    Cursor,
    ResetCursor,
    Framebuffer,
    ClearFramebuffer,
    DrawOntoFramebuffer,
    LoadImage,
    ImageMode,
    NoTint,
    Save,
    KeyPress,
    SpaceWait,
    MousePress,
    /// Unlike `key_press` and `mouse_press`, takes the button as a real
    /// double scalar, and refuses a `uint32` button.
    MouseRelease,
    MouseX,
    MouseY,
    Mould,
    DrawMould,
    BlendMode,
    Screen,
    Reveal,
    EndDrawing,
    LoadFragShader,
    Shader,
    ResetShader,
    Arc,
    Ellipse,
    Line,
    Point,
    Quad,
    Triangle,
    Rect,
    Cube,
    Draw,
    StrokeWeight,
    EllipseMode,
    RectMode,
    ShapeMode,
    Texture,
    AttachTexture,
    ApplyMatrix,
    PopMatrix,
    PushMatrix,
    ResetMatrix,
    Rotate,
    RotateX,
    RotateY,
    RotateZ,
    Scale,
    ShearX,
    ShearY,
    Translate,
    PrintMatrix,
    ShaderSetI8,
    ShaderSetU8,
    ShaderSetI16,
    ShaderSetU16,
    ShaderSetI32,
    ShaderSetU32,
    ShaderSetI64,
    ShaderSetU64,
    ShaderSetF32,
    ShaderSetF64,
    ShaderSetBool,
    ShaderSetTex,
    DropScreen,
    DropShape,
    DropTexture,
    DropImage,
    DropShader,
    DropFbo,
    DropMould,
}

/// What a command hands back to MATLAB in its (first) output variable.
#[derive(Debug, Clone, Copy, PartialEq, Eq, Structural)]
pub enum Output {
    /// Nothing: the command takes no output variable.
    Nothing,
    /// A double scalar (a count, a size, a coordinate or a pressed state).
    Number,
    /// A handle to a new object of the given kind.
    Handle(ObjectKind),
}

impl Command {
    /// The name under which MATLAB code requests the command.
    pub open spec fn name(self) -> Seq<char> {
        match self {
            Command::Background => "background"@,
            Command::ColorMode => "color_mode"@,
            Command::Stroke => "stroke"@,
            Command::StrokeOn => "stroke_on"@,
            Command::StrokeOff => "stroke_off"@,
            Command::Fill => "fill"@,
            Command::FillOn => "fill_on"@,
            Command::FillOff => "fill_off"@,
            Command::FrameCount => "frame_count"@,
            Command::SetFrameRate => "set_frame_rate"@,
            Command::GetFrameRate => "get_frame_rate"@,
            Command::Height => "height"@,
            Command::Width => "width"@,
            Command::Smooth => "smooth"@,
            Command::NoSmooth => "no_smooth"@,
            Command::NoCursor => "no_cursor"@,
            Command::Focused => "focused"@,
            Command::Cursor => "cursor"@,
            Command::ResetCursor => "reset_cursor"@,
            Command::Framebuffer => "framebuffer"@,
            Command::ClearFramebuffer => "clear_framebuffer"@,
            Command::DrawOntoFramebuffer => "draw_onto_framebuffer"@,
            Command::LoadImage => "load_image"@,
            Command::ImageMode => "image_mode"@,
            Command::NoTint => "no_tint"@,
            Command::Save => "save"@,
            Command::KeyPress => "key_press"@,
            Command::SpaceWait => "space_wait"@,
            Command::MousePress => "mouse_press"@,
            Command::MouseRelease => "mouse_release"@,
            Command::MouseX => "mouse_x"@,
            Command::MouseY => "mouse_y"@,
            Command::Mould => "mould"@,
            Command::DrawMould => "draw_mould"@,
            Command::BlendMode => "blend_mode"@,
            Command::Screen => "screen"@,
            Command::Reveal => "reveal"@,
            Command::EndDrawing => "end_drawing"@,
            Command::LoadFragShader => "load_frag_shader"@,
            Command::Shader => "shader"@,
            Command::ResetShader => "reset_shader"@,
            Command::Arc => "arc"@,
            Command::Ellipse => "ellipse"@,
            Command::Line => "line"@,
            Command::Point => "point"@,
            Command::Quad => "quad"@,
            Command::Triangle => "triangle"@,
            Command::Rect => "rect"@,
            Command::Cube => "cube"@,
            Command::Draw => "draw"@,
            Command::StrokeWeight => "stroke_weight"@,
            Command::EllipseMode => "ellipse_mode"@,
            Command::RectMode => "rect_mode"@,
            Command::ShapeMode => "shape_mode"@,
            Command::Texture => "texture"@,
            Command::AttachTexture => "attach_texture"@,
            Command::ApplyMatrix => "apply_matrix"@,
            Command::PopMatrix => "pop_matrix"@,
            Command::PushMatrix => "push_matrix"@,
            Command::ResetMatrix => "reset_matrix"@,
            Command::Rotate => "rotate"@,
            Command::RotateX => "rotate_x"@,
            Command::RotateY => "rotate_y"@,
            Command::RotateZ => "rotate_z"@,
            Command::Scale => "scale"@,
            Command::ShearX => "shear_x"@,
            Command::ShearY => "shear_y"@,
            Command::Translate => "translate"@,
            Command::PrintMatrix => "print_matrix"@,
            Command::ShaderSetI8 => "shader_set_i8"@,
            Command::ShaderSetU8 => "shader_set_u8"@,
            Command::ShaderSetI16 => "shader_set_i16"@,
            Command::ShaderSetU16 => "shader_set_u16"@,
            Command::ShaderSetI32 => "shader_set_i32"@,
            Command::ShaderSetU32 => "shader_set_u32"@,
            Command::ShaderSetI64 => "shader_set_i64"@,
            Command::ShaderSetU64 => "shader_set_u64"@,
            Command::ShaderSetF32 => "shader_set_f32"@,
            Command::ShaderSetF64 => "shader_set_f64"@,
            Command::ShaderSetBool => "shader_set_bool"@,
            Command::ShaderSetTex => "shader_set_tex"@,
            Command::DropScreen => "drop_screen"@,
            Command::DropShape => "drop_shape"@,
            Command::DropTexture => "drop_texture"@,
            Command::DropImage => "drop_image"@,
            Command::DropShader => "drop_shader"@,
            Command::DropFbo => "drop_fbo"@,
            Command::DropMould => "drop_mould"@,
        }
    }

    pub fn name_str(self) -> (r: &'static str)
        ensures
            r@ == self.name(),
    {
        match self {
            Command::Background => "background",
            Command::ColorMode => "color_mode",
            Command::Stroke => "stroke",
            Command::StrokeOn => "stroke_on",
            Command::StrokeOff => "stroke_off",
            Command::Fill => "fill",
            Command::FillOn => "fill_on",
            Command::FillOff => "fill_off",
            Command::FrameCount => "frame_count",
            Command::SetFrameRate => "set_frame_rate",
            Command::GetFrameRate => "get_frame_rate",
            Command::Height => "height",
            Command::Width => "width",
            Command::Smooth => "smooth",
            Command::NoSmooth => "no_smooth",
            Command::NoCursor => "no_cursor",
            Command::Focused => "focused",
            Command::Cursor => "cursor",
            Command::ResetCursor => "reset_cursor",
            Command::Framebuffer => "framebuffer",
            Command::ClearFramebuffer => "clear_framebuffer",
            Command::DrawOntoFramebuffer => "draw_onto_framebuffer",
            Command::LoadImage => "load_image",
            Command::ImageMode => "image_mode",
            Command::NoTint => "no_tint",
            Command::Save => "save",
            Command::KeyPress => "key_press",
            Command::SpaceWait => "space_wait",
            Command::MousePress => "mouse_press",
            Command::MouseRelease => "mouse_release",
            Command::MouseX => "mouse_x",
            Command::MouseY => "mouse_y",
            Command::Mould => "mould",
            Command::DrawMould => "draw_mould",
            Command::BlendMode => "blend_mode",
            Command::Screen => "screen",
            Command::Reveal => "reveal",
            Command::EndDrawing => "end_drawing",
            Command::LoadFragShader => "load_frag_shader",
            Command::Shader => "shader",
            Command::ResetShader => "reset_shader",
            Command::Arc => "arc",
            Command::Ellipse => "ellipse",
            Command::Line => "line",
            Command::Point => "point",
            Command::Quad => "quad",
            Command::Triangle => "triangle",
            Command::Rect => "rect",
            Command::Cube => "cube",
            Command::Draw => "draw",
            Command::StrokeWeight => "stroke_weight",
            Command::EllipseMode => "ellipse_mode",
            Command::RectMode => "rect_mode",
            Command::ShapeMode => "shape_mode",
            Command::Texture => "texture",
            Command::AttachTexture => "attach_texture",
            Command::ApplyMatrix => "apply_matrix",
            Command::PopMatrix => "pop_matrix",
            Command::PushMatrix => "push_matrix",
            Command::ResetMatrix => "reset_matrix",
            Command::Rotate => "rotate",
            Command::RotateX => "rotate_x",
            Command::RotateY => "rotate_y",
            Command::RotateZ => "rotate_z",
            Command::Scale => "scale",
            Command::ShearX => "shear_x",
            Command::ShearY => "shear_y",
            Command::Translate => "translate",
            Command::PrintMatrix => "print_matrix",
            Command::ShaderSetI8 => "shader_set_i8",
            Command::ShaderSetU8 => "shader_set_u8",
            Command::ShaderSetI16 => "shader_set_i16",
            Command::ShaderSetU16 => "shader_set_u16",
            Command::ShaderSetI32 => "shader_set_i32",
            Command::ShaderSetU32 => "shader_set_u32",
            Command::ShaderSetI64 => "shader_set_i64",
            Command::ShaderSetU64 => "shader_set_u64",
            Command::ShaderSetF32 => "shader_set_f32",
            Command::ShaderSetF64 => "shader_set_f64",
            Command::ShaderSetBool => "shader_set_bool",
            Command::ShaderSetTex => "shader_set_tex",
            Command::DropScreen => "drop_screen",
            Command::DropShape => "drop_shape",
            Command::DropTexture => "drop_texture",
            Command::DropImage => "drop_image",
            Command::DropShader => "drop_shader",
            Command::DropFbo => "drop_fbo",
            Command::DropMould => "drop_mould",
        }
    }

    /// The position of the command in [`all_commands`].
    pub open spec fn ordinal(self) -> int {
        match self {
            Command::Background => 0,
            Command::ColorMode => 1,
            Command::Stroke => 2,
            Command::StrokeOn => 3,
            Command::StrokeOff => 4,
            Command::Fill => 5,
            Command::FillOn => 6,
            Command::FillOff => 7,
            Command::FrameCount => 8,
            Command::SetFrameRate => 9,
            Command::GetFrameRate => 10,
            Command::Height => 11,
            Command::Width => 12,
            Command::Smooth => 13,
            Command::NoSmooth => 14,
            Command::NoCursor => 15,
            Command::Focused => 16,
            Command::Cursor => 17,
            Command::ResetCursor => 18,
            Command::Framebuffer => 19,
            Command::ClearFramebuffer => 20,
            Command::DrawOntoFramebuffer => 21,
            Command::LoadImage => 22,
            Command::ImageMode => 23,
            Command::NoTint => 24,
            Command::Save => 25,
            Command::KeyPress => 26,
            Command::SpaceWait => 27,
            Command::MousePress => 28,
            Command::MouseRelease => 29,
            Command::MouseX => 30,
            Command::MouseY => 31,
            Command::Mould => 32,
            Command::DrawMould => 33,
            Command::BlendMode => 34,
            Command::Screen => 35,
            Command::Reveal => 36,
            Command::EndDrawing => 37,
            Command::LoadFragShader => 38,
            Command::Shader => 39,
            Command::ResetShader => 40,
            Command::Arc => 41,
            Command::Ellipse => 42,
            Command::Line => 43,
            Command::Point => 44,
            Command::Quad => 45,
            Command::Triangle => 46,
            Command::Rect => 47,
            Command::Cube => 48,
            Command::Draw => 49,
            Command::StrokeWeight => 50,
            Command::EllipseMode => 51,
            Command::RectMode => 52,
            Command::ShapeMode => 53,
            Command::Texture => 54,
            Command::AttachTexture => 55,
            Command::ApplyMatrix => 56,
            Command::PopMatrix => 57,
            Command::PushMatrix => 58,
            Command::ResetMatrix => 59,
            Command::Rotate => 60,
            Command::RotateX => 61,
            Command::RotateY => 62,
            Command::RotateZ => 63,
            Command::Scale => 64,
            Command::ShearX => 65,
            Command::ShearY => 66,
            Command::Translate => 67,
            Command::PrintMatrix => 68,
            Command::ShaderSetI8 => 69,
            Command::ShaderSetU8 => 70,
            Command::ShaderSetI16 => 71,
            Command::ShaderSetU16 => 72,
            Command::ShaderSetI32 => 73,
            Command::ShaderSetU32 => 74,
            Command::ShaderSetI64 => 75,
            Command::ShaderSetU64 => 76,
            Command::ShaderSetF32 => 77,
            Command::ShaderSetF64 => 78,
            Command::ShaderSetBool => 79,
            Command::ShaderSetTex => 80,
            Command::DropScreen => 81,
            Command::DropShape => 82,
            Command::DropTexture => 83,
            Command::DropImage => 84,
            Command::DropShader => 85,
            Command::DropFbo => 86,
            Command::DropMould => 87,
        }
    }

    /// What the command hands back to MATLAB.
    pub open spec fn output(self) -> Output {
        match self {
            Command::Background => Output::Nothing,
            Command::ColorMode => Output::Nothing,
            Command::Stroke => Output::Nothing,
            Command::StrokeOn => Output::Nothing,
            Command::StrokeOff => Output::Nothing,
            Command::Fill => Output::Nothing,
            Command::FillOn => Output::Nothing,
            Command::FillOff => Output::Nothing,
            Command::FrameCount => Output::Number,
            Command::SetFrameRate => Output::Nothing,
            Command::GetFrameRate => Output::Number,
            Command::Height => Output::Number,
            Command::Width => Output::Number,
            Command::Smooth => Output::Nothing,
            Command::NoSmooth => Output::Nothing,
            Command::NoCursor => Output::Nothing,
            Command::Focused => Output::Nothing,
            Command::Cursor => Output::Nothing,
            Command::ResetCursor => Output::Nothing,
            Command::Framebuffer => Output::Handle(ObjectKind::Framebuffer),
            Command::ClearFramebuffer => Output::Nothing,
            Command::DrawOntoFramebuffer => Output::Nothing,
            Command::LoadImage => Output::Handle(ObjectKind::Image),
            Command::ImageMode => Output::Nothing,
            Command::NoTint => Output::Nothing,
            Command::Save => Output::Nothing,
            Command::KeyPress => Output::Number,
            Command::SpaceWait => Output::Nothing,
            Command::MousePress => Output::Number,
            Command::MouseRelease => Output::Number,
            Command::MouseX => Output::Number,
            Command::MouseY => Output::Number,
            Command::Mould => Output::Handle(ObjectKind::Mould),
            Command::DrawMould => Output::Nothing,
            Command::BlendMode => Output::Nothing,
            Command::Screen => Output::Handle(ObjectKind::Screen),
            Command::Reveal => Output::Nothing,
            Command::EndDrawing => Output::Nothing,
            Command::LoadFragShader => Output::Handle(ObjectKind::Shader),
            Command::Shader => Output::Nothing,
            Command::ResetShader => Output::Nothing,
            Command::Arc => Output::Handle(ObjectKind::Shape),
            Command::Ellipse => Output::Handle(ObjectKind::Shape),
            Command::Line => Output::Handle(ObjectKind::Shape),
            Command::Point => Output::Handle(ObjectKind::Shape),
            Command::Quad => Output::Handle(ObjectKind::Shape),
            Command::Triangle => Output::Handle(ObjectKind::Shape),
            Command::Rect => Output::Handle(ObjectKind::Shape),
            Command::Cube => Output::Handle(ObjectKind::Shape),
            Command::Draw => Output::Nothing,
            Command::StrokeWeight => Output::Nothing,
            Command::EllipseMode => Output::Nothing,
            Command::RectMode => Output::Nothing,
            Command::ShapeMode => Output::Nothing,
            Command::Texture => Output::Handle(ObjectKind::Texture),
            Command::AttachTexture => Output::Nothing,
            Command::ApplyMatrix => Output::Nothing,
            Command::PopMatrix => Output::Nothing,
            Command::PushMatrix => Output::Nothing,
            Command::ResetMatrix => Output::Nothing,
            Command::Rotate => Output::Nothing,
            Command::RotateX => Output::Nothing,
            Command::RotateY => Output::Nothing,
            Command::RotateZ => Output::Nothing,
            Command::Scale => Output::Nothing,
            Command::ShearX => Output::Nothing,
            Command::ShearY => Output::Nothing,
            Command::Translate => Output::Nothing,
            Command::PrintMatrix => Output::Nothing,
            Command::ShaderSetI8 => Output::Nothing,
            Command::ShaderSetU8 => Output::Nothing,
            Command::ShaderSetI16 => Output::Nothing,
            Command::ShaderSetU16 => Output::Nothing,
            Command::ShaderSetI32 => Output::Nothing,
            Command::ShaderSetU32 => Output::Nothing,
            Command::ShaderSetI64 => Output::Nothing,
            Command::ShaderSetU64 => Output::Nothing,
            Command::ShaderSetF32 => Output::Nothing,
            Command::ShaderSetF64 => Output::Nothing,
            Command::ShaderSetBool => Output::Nothing,
            Command::ShaderSetTex => Output::Nothing,
            Command::DropScreen => Output::Nothing,
            Command::DropShape => Output::Nothing,
            Command::DropTexture => Output::Nothing,
            Command::DropImage => Output::Nothing,
            Command::DropShader => Output::Nothing,
            Command::DropFbo => Output::Nothing,
            Command::DropMould => Output::Nothing,
        }
    }

    pub fn result_kind(self) -> (r: Output)
        ensures
            r == self.output(),
    {
        match self {
            Command::Background => Output::Nothing,
            Command::ColorMode => Output::Nothing,
            Command::Stroke => Output::Nothing,
            Command::StrokeOn => Output::Nothing,
            Command::StrokeOff => Output::Nothing,
            Command::Fill => Output::Nothing,
            Command::FillOn => Output::Nothing,
            Command::FillOff => Output::Nothing,
            Command::FrameCount => Output::Number,
            Command::SetFrameRate => Output::Nothing,
            Command::GetFrameRate => Output::Number,
            Command::Height => Output::Number,
            Command::Width => Output::Number,
            Command::Smooth => Output::Nothing,
            Command::NoSmooth => Output::Nothing,
            Command::NoCursor => Output::Nothing,
            Command::Focused => Output::Nothing,
            Command::Cursor => Output::Nothing,
            Command::ResetCursor => Output::Nothing,
            Command::Framebuffer => Output::Handle(ObjectKind::Framebuffer),
            Command::ClearFramebuffer => Output::Nothing,
            Command::DrawOntoFramebuffer => Output::Nothing,
            Command::LoadImage => Output::Handle(ObjectKind::Image),
            Command::ImageMode => Output::Nothing,
            Command::NoTint => Output::Nothing,
            Command::Save => Output::Nothing,
            Command::KeyPress => Output::Number,
            Command::SpaceWait => Output::Nothing,
            Command::MousePress => Output::Number,
            Command::MouseRelease => Output::Number,
            Command::MouseX => Output::Number,
            Command::MouseY => Output::Number,
            Command::Mould => Output::Handle(ObjectKind::Mould),
            Command::DrawMould => Output::Nothing,
            Command::BlendMode => Output::Nothing,
            Command::Screen => Output::Handle(ObjectKind::Screen),
            Command::Reveal => Output::Nothing,
            Command::EndDrawing => Output::Nothing,
            Command::LoadFragShader => Output::Handle(ObjectKind::Shader),
            Command::Shader => Output::Nothing,
            Command::ResetShader => Output::Nothing,
            Command::Arc => Output::Handle(ObjectKind::Shape),
            Command::Ellipse => Output::Handle(ObjectKind::Shape),
            Command::Line => Output::Handle(ObjectKind::Shape),
            Command::Point => Output::Handle(ObjectKind::Shape),
            Command::Quad => Output::Handle(ObjectKind::Shape),
            Command::Triangle => Output::Handle(ObjectKind::Shape),
            Command::Rect => Output::Handle(ObjectKind::Shape),
            Command::Cube => Output::Handle(ObjectKind::Shape),
            Command::Draw => Output::Nothing,
            Command::StrokeWeight => Output::Nothing,
            Command::EllipseMode => Output::Nothing,
            Command::RectMode => Output::Nothing,
            Command::ShapeMode => Output::Nothing,
            Command::Texture => Output::Handle(ObjectKind::Texture),
            Command::AttachTexture => Output::Nothing,
            Command::ApplyMatrix => Output::Nothing,
            Command::PopMatrix => Output::Nothing,
            Command::PushMatrix => Output::Nothing,
            Command::ResetMatrix => Output::Nothing,
            Command::Rotate => Output::Nothing,
            Command::RotateX => Output::Nothing,
            Command::RotateY => Output::Nothing,
            Command::RotateZ => Output::Nothing,
            Command::Scale => Output::Nothing,
            Command::ShearX => Output::Nothing,
            Command::ShearY => Output::Nothing,
            Command::Translate => Output::Nothing,
            Command::PrintMatrix => Output::Nothing,
            Command::ShaderSetI8 => Output::Nothing,
            Command::ShaderSetU8 => Output::Nothing,
            Command::ShaderSetI16 => Output::Nothing,
            Command::ShaderSetU16 => Output::Nothing,
            Command::ShaderSetI32 => Output::Nothing,
            Command::ShaderSetU32 => Output::Nothing,
            Command::ShaderSetI64 => Output::Nothing,
            Command::ShaderSetU64 => Output::Nothing,
            Command::ShaderSetF32 => Output::Nothing,
            Command::ShaderSetF64 => Output::Nothing,
            Command::ShaderSetBool => Output::Nothing,
            Command::ShaderSetTex => Output::Nothing,
            Command::DropScreen => Output::Nothing,
            Command::DropShape => Output::Nothing,
            Command::DropTexture => Output::Nothing,
            Command::DropImage => Output::Nothing,
            Command::DropShader => Output::Nothing,
            Command::DropFbo => Output::Nothing,
            Command::DropMould => Output::Nothing,
        }
    }
}

pub fn all_commands() -> (r: Vec<Command>)
    ensures
        r@.len() == COMMAND_COUNT,
        forall|c: Command| 0 <= #[trigger] c.ordinal() < COMMAND_COUNT && r@[c.ordinal()] == c,
{
    vec![
        Command::Background,
        Command::ColorMode,
        Command::Stroke,
        Command::StrokeOn,
        Command::StrokeOff,
        Command::Fill,
        Command::FillOn,
        Command::FillOff,
        Command::FrameCount,
        Command::SetFrameRate,
        Command::GetFrameRate,
        Command::Height,
        Command::Width,
        Command::Smooth,
        Command::NoSmooth,
        Command::NoCursor,
        Command::Focused,
        Command::Cursor,
        Command::ResetCursor,
        Command::Framebuffer,
        Command::ClearFramebuffer,
        Command::DrawOntoFramebuffer,
        Command::LoadImage,
        Command::ImageMode,
        Command::NoTint,
        Command::Save,
        Command::KeyPress,
        Command::SpaceWait,
        Command::MousePress,
        Command::MouseRelease,
        Command::MouseX,
        Command::MouseY,
        Command::Mould,
        Command::DrawMould,
        Command::BlendMode,
        Command::Screen,
        Command::Reveal,
        Command::EndDrawing,
        Command::LoadFragShader,
        Command::Shader,
        Command::ResetShader,
        Command::Arc,
        Command::Ellipse,
        Command::Line,
        Command::Point,
        Command::Quad,
        Command::Triangle,
        Command::Rect,
        Command::Cube,
        Command::Draw,
        Command::StrokeWeight,
        Command::EllipseMode,
        Command::RectMode,
        Command::ShapeMode,
        Command::Texture,
        Command::AttachTexture,
        Command::ApplyMatrix,
        Command::PopMatrix,
        Command::PushMatrix,
        Command::ResetMatrix,
        Command::Rotate,
        Command::RotateX,
        Command::RotateY,
        Command::RotateZ,
        Command::Scale,
        Command::ShearX,
        Command::ShearY,
        Command::Translate,
        Command::PrintMatrix,
        Command::ShaderSetI8,
        Command::ShaderSetU8,
        Command::ShaderSetI16,
        Command::ShaderSetU16,
        Command::ShaderSetI32,
        Command::ShaderSetU32,
        Command::ShaderSetI64,
        Command::ShaderSetU64,
        Command::ShaderSetF32,
        Command::ShaderSetF64,
        Command::ShaderSetBool,
        Command::ShaderSetTex,
        Command::DropScreen,
        Command::DropShape,
        Command::DropTexture,
        Command::DropImage,
        Command::DropShader,
        Command::DropFbo,
        Command::DropMould,
    ]
}

/// A few characters of a name, enough to tell the command names apart.
pub open spec fn fingerprint(s: Seq<char>) -> (nat, char, char, char, char, char, char) {
    (s.len(), s[0], s[1], s[2], s[s.len() - 1], s[s.len() - 2], s[s.len() - 3])
}

/// The command whose name has fingerprint `f`.
pub open spec fn command_of_fingerprint(f: (nat, char, char, char, char, char, char)) -> Command {
    if f == (10nat, 'b', 'a', 'c', 'd', 'n', 'u') {
        Command::Background
    } else if f == (10nat, 'c', 'o', 'l', 'e', 'd', 'o') {
        Command::ColorMode
    } else if f == (6nat, 's', 't', 'r', 'e', 'k', 'o') {
        Command::Stroke
    } else if f == (9nat, 's', 't', 'r', 'n', 'o', '_') {
        Command::StrokeOn
    } else if f == (10nat, 's', 't', 'r', 'f', 'f', 'o') {
        Command::StrokeOff
    } else if f == (4nat, 'f', 'i', 'l', 'l', 'l', 'i') {
        Command::Fill
    } else if f == (7nat, 'f', 'i', 'l', 'n', 'o', '_') {
        Command::FillOn
    } else if f == (8nat, 'f', 'i', 'l', 'f', 'f', 'o') {
        Command::FillOff
    } else if f == (11nat, 'f', 'r', 'a', 't', 'n', 'u') {
        Command::FrameCount
    } else if f == (14nat, 's', 'e', 't', 'e', 't', 'a') {
        Command::SetFrameRate
    } else if f == (14nat, 'g', 'e', 't', 'e', 't', 'a') {
        Command::GetFrameRate
    } else if f == (6nat, 'h', 'e', 'i', 't', 'h', 'g') {
        Command::Height
    } else if f == (5nat, 'w', 'i', 'd', 'h', 't', 'd') {
        Command::Width
    } else if f == (6nat, 's', 'm', 'o', 'h', 't', 'o') {
        Command::Smooth
    } else if f == (9nat, 'n', 'o', '_', 'h', 't', 'o') {
        Command::NoSmooth
    } else if f == (9nat, 'n', 'o', '_', 'r', 'o', 's') {
        Command::NoCursor
    } else if f == (7nat, 'f', 'o', 'c', 'd', 'e', 's') {
        Command::Focused
    } else if f == (6nat, 'c', 'u', 'r', 'r', 'o', 's') {
        Command::Cursor
    } else if f == (12nat, 'r', 'e', 's', 'r', 'o', 's') {
        Command::ResetCursor
    } else if f == (11nat, 'f', 'r', 'a', 'r', 'e', 'f') {
        Command::Framebuffer
    } else if f == (17nat, 'c', 'l', 'e', 'r', 'e', 'f') {
        Command::ClearFramebuffer
    } else if f == (21nat, 'd', 'r', 'a', 'r', 'e', 'f') {
        Command::DrawOntoFramebuffer
    } else if f == (10nat, 'l', 'o', 'a', 'e', 'g', 'a') {
        Command::LoadImage
    } else if f == (10nat, 'i', 'm', 'a', 'e', 'd', 'o') {
        Command::ImageMode
    } else if f == (7nat, 'n', 'o', '_', 't', 'n', 'i') {
        Command::NoTint
    } else if f == (4nat, 's', 'a', 'v', 'e', 'v', 'a') {
        Command::Save
    } else if f == (9nat, 'k', 'e', 'y', 's', 's', 'e') {
        Command::KeyPress
    } else if f == (10nat, 's', 'p', 'a', 't', 'i', 'a') {
        Command::SpaceWait
    } else if f == (11nat, 'm', 'o', 'u', 's', 's', 'e') {
        Command::MousePress
    } else if f == (13nat, 'm', 'o', 'u', 'e', 's', 'a') {
        Command::MouseRelease
    } else if f == (7nat, 'm', 'o', 'u', 'x', '_', 'e') {
        Command::MouseX
    } else if f == (7nat, 'm', 'o', 'u', 'y', '_', 'e') {
        Command::MouseY
    } else if f == (5nat, 'm', 'o', 'u', 'd', 'l', 'u') {
        Command::Mould
    } else if f == (10nat, 'd', 'r', 'a', 'd', 'l', 'u') {
        Command::DrawMould
    } else if f == (10nat, 'b', 'l', 'e', 'e', 'd', 'o') {
        Command::BlendMode
    } else if f == (6nat, 's', 'c', 'r', 'n', 'e', 'e') {
        Command::Screen
    } else if f == (6nat, 'r', 'e', 'v', 'l', 'a', 'e') {
        Command::Reveal
    } else if f == (11nat, 'e', 'n', 'd', 'g', 'n', 'i') {
        Command::EndDrawing
    } else if f == (16nat, 'l', 'o', 'a', 'r', 'e', 'd') {
        Command::LoadFragShader
    } else if f == (6nat, 's', 'h', 'a', 'r', 'e', 'd') {
        Command::Shader
    } else if f == (12nat, 'r', 'e', 's', 'r', 'e', 'd') {
        Command::ResetShader
    } else if f == (3nat, 'a', 'r', 'c', 'c', 'r', 'a') {
        Command::Arc
    } else if f == (7nat, 'e', 'l', 'l', 'e', 's', 'p') {
        Command::Ellipse
    } else if f == (4nat, 'l', 'i', 'n', 'e', 'n', 'i') {
        Command::Line
    } else if f == (5nat, 'p', 'o', 'i', 't', 'n', 'i') {
        Command::Point
    } else if f == (4nat, 'q', 'u', 'a', 'd', 'a', 'u') {
        Command::Quad
    } else if f == (8nat, 't', 'r', 'i', 'e', 'l', 'g') {
        Command::Triangle
    } else if f == (4nat, 'r', 'e', 'c', 't', 'c', 'e') {
        Command::Rect
    } else if f == (4nat, 'c', 'u', 'b', 'e', 'b', 'u') {
        Command::Cube
    } else if f == (4nat, 'd', 'r', 'a', 'w', 'a', 'r') {
        Command::Draw
    } else if f == (13nat, 's', 't', 'r', 't', 'h', 'g') {
        Command::StrokeWeight
    } else if f == (12nat, 'e', 'l', 'l', 'e', 'd', 'o') {
        Command::EllipseMode
    } else if f == (9nat, 'r', 'e', 'c', 'e', 'd', 'o') {
        Command::RectMode
    } else if f == (10nat, 's', 'h', 'a', 'e', 'd', 'o') {
        Command::ShapeMode
    } else if f == (7nat, 't', 'e', 'x', 'e', 'r', 'u') {
        Command::Texture
    } else if f == (14nat, 'a', 't', 't', 'e', 'r', 'u') {
        Command::AttachTexture
    } else if f == (12nat, 'a', 'p', 'p', 'x', 'i', 'r') {
        Command::ApplyMatrix
    } else if f == (10nat, 'p', 'o', 'p', 'x', 'i', 'r') {
        Command::PopMatrix
    } else if f == (11nat, 'p', 'u', 's', 'x', 'i', 'r') {
        Command::PushMatrix
    } else if f == (12nat, 'r', 'e', 's', 'x', 'i', 'r') {
        Command::ResetMatrix
    } else if f == (6nat, 'r', 'o', 't', 'e', 't', 'a') {
        Command::Rotate
    } else if f == (8nat, 'r', 'o', 't', 'x', '_', 'e') {
        Command::RotateX
    } else if f == (8nat, 'r', 'o', 't', 'y', '_', 'e') {
        Command::RotateY
    } else if f == (8nat, 'r', 'o', 't', 'z', '_', 'e') {
        Command::RotateZ
    } else if f == (5nat, 's', 'c', 'a', 'e', 'l', 'a') {
        Command::Scale
    } else if f == (7nat, 's', 'h', 'e', 'x', '_', 'r') {
        Command::ShearX
    } else if f == (7nat, 's', 'h', 'e', 'y', '_', 'r') {
        Command::ShearY
    } else if f == (9nat, 't', 'r', 'a', 'e', 't', 'a') {
        Command::Translate
    } else if f == (12nat, 'p', 'r', 'i', 'x', 'i', 'r') {
        Command::PrintMatrix
    } else if f == (13nat, 's', 'h', 'a', '8', 'i', '_') {
        Command::ShaderSetI8
    } else if f == (13nat, 's', 'h', 'a', '8', 'u', '_') {
        Command::ShaderSetU8
    } else if f == (14nat, 's', 'h', 'a', '6', '1', 'i') {
        Command::ShaderSetI16
    } else if f == (14nat, 's', 'h', 'a', '6', '1', 'u') {
        Command::ShaderSetU16
    } else if f == (14nat, 's', 'h', 'a', '2', '3', 'i') {
        Command::ShaderSetI32
    } else if f == (14nat, 's', 'h', 'a', '2', '3', 'u') {
        Command::ShaderSetU32
    } else if f == (14nat, 's', 'h', 'a', '4', '6', 'i') {
        Command::ShaderSetI64
    } else if f == (14nat, 's', 'h', 'a', '4', '6', 'u') {
        Command::ShaderSetU64
    } else if f == (14nat, 's', 'h', 'a', '2', '3', 'f') {
        Command::ShaderSetF32
    } else if f == (14nat, 's', 'h', 'a', '4', '6', 'f') {
        Command::ShaderSetF64
    } else if f == (15nat, 's', 'h', 'a', 'l', 'o', 'o') {
        Command::ShaderSetBool
    } else if f == (14nat, 's', 'h', 'a', 'x', 'e', 't') {
        Command::ShaderSetTex
    } else if f == (11nat, 'd', 'r', 'o', 'n', 'e', 'e') {
        Command::DropScreen
    } else if f == (10nat, 'd', 'r', 'o', 'e', 'p', 'a') {
        Command::DropShape
    } else if f == (12nat, 'd', 'r', 'o', 'e', 'r', 'u') {
        Command::DropTexture
    } else if f == (10nat, 'd', 'r', 'o', 'e', 'g', 'a') {
        Command::DropImage
    } else if f == (11nat, 'd', 'r', 'o', 'r', 'e', 'd') {
        Command::DropShader
    } else if f == (8nat, 'd', 'r', 'o', 'o', 'b', 'f') {
        Command::DropFbo
    } else {
        Command::DropMould
    }
}

/// The fingerprint of each command's name leads back to the command.
pub proof fn lemma_fingerprint(c: Command)
    ensures
        command_of_fingerprint(fingerprint(c.name())) == c,
{
    match c {
        Command::Background => {
            reveal_strlit("background");
        },
        Command::ColorMode => {
            reveal_strlit("color_mode");
        },
        Command::Stroke => {
            reveal_strlit("stroke");
        },
        Command::StrokeOn => {
            reveal_strlit("stroke_on");
        },
        Command::StrokeOff => {
            reveal_strlit("stroke_off");
        },
        Command::Fill => {
            reveal_strlit("fill");
        },
        Command::FillOn => {
            reveal_strlit("fill_on");
        },
        Command::FillOff => {
            reveal_strlit("fill_off");
        },
        Command::FrameCount => {
            reveal_strlit("frame_count");
        },
        Command::SetFrameRate => {
            reveal_strlit("set_frame_rate");
        },
        Command::GetFrameRate => {
            reveal_strlit("get_frame_rate");
        },
        Command::Height => {
            reveal_strlit("height");
        },
        Command::Width => {
            reveal_strlit("width");
        },
        Command::Smooth => {
            reveal_strlit("smooth");
        },
        Command::NoSmooth => {
            reveal_strlit("no_smooth");
        },
        Command::NoCursor => {
            reveal_strlit("no_cursor");
        },
        Command::Focused => {
            reveal_strlit("focused");
        },
        Command::Cursor => {
            reveal_strlit("cursor");
        },
        Command::ResetCursor => {
            reveal_strlit("reset_cursor");
        },
        Command::Framebuffer => {
            reveal_strlit("framebuffer");
        },
        Command::ClearFramebuffer => {
            reveal_strlit("clear_framebuffer");
        },
        Command::DrawOntoFramebuffer => {
            reveal_strlit("draw_onto_framebuffer");
        },
        Command::LoadImage => {
            reveal_strlit("load_image");
        },
        Command::ImageMode => {
            reveal_strlit("image_mode");
        },
        Command::NoTint => {
            reveal_strlit("no_tint");
        },
        Command::Save => {
            reveal_strlit("save");
        },
        Command::KeyPress => {
            reveal_strlit("key_press");
        },
        Command::SpaceWait => {
            reveal_strlit("space_wait");
        },
        Command::MousePress => {
            reveal_strlit("mouse_press");
        },
        Command::MouseRelease => {
            reveal_strlit("mouse_release");
        },
        Command::MouseX => {
            reveal_strlit("mouse_x");
        },
        Command::MouseY => {
            reveal_strlit("mouse_y");
        },
        Command::Mould => {
            reveal_strlit("mould");
        },
        Command::DrawMould => {
            reveal_strlit("draw_mould");
        },
        Command::BlendMode => {
            reveal_strlit("blend_mode");
        },
        Command::Screen => {
            reveal_strlit("screen");
        },
        Command::Reveal => {
            reveal_strlit("reveal");
        },
        Command::EndDrawing => {
            reveal_strlit("end_drawing");
        },
        Command::LoadFragShader => {
            reveal_strlit("load_frag_shader");
        },
        Command::Shader => {
            reveal_strlit("shader");
        },
        Command::ResetShader => {
            reveal_strlit("reset_shader");
        },
        Command::Arc => {
            reveal_strlit("arc");
        },
        Command::Ellipse => {
            reveal_strlit("ellipse");
        },
        Command::Line => {
            reveal_strlit("line");
        },
        Command::Point => {
            reveal_strlit("point");
        },
        Command::Quad => {
            reveal_strlit("quad");
        },
        Command::Triangle => {
            reveal_strlit("triangle");
        },
        Command::Rect => {
            reveal_strlit("rect");
        },
        Command::Cube => {
            reveal_strlit("cube");
        },
        Command::Draw => {
            reveal_strlit("draw");
        },
        Command::StrokeWeight => {
            reveal_strlit("stroke_weight");
        },
        Command::EllipseMode => {
            reveal_strlit("ellipse_mode");
        },
        Command::RectMode => {
            reveal_strlit("rect_mode");
        },
        Command::ShapeMode => {
            reveal_strlit("shape_mode");
        },
        Command::Texture => {
            reveal_strlit("texture");
        },
        Command::AttachTexture => {
            reveal_strlit("attach_texture");
        },
        Command::ApplyMatrix => {
            reveal_strlit("apply_matrix");
        },
        Command::PopMatrix => {
            reveal_strlit("pop_matrix");
        },
        Command::PushMatrix => {
            reveal_strlit("push_matrix");
        },
        Command::ResetMatrix => {
            reveal_strlit("reset_matrix");
        },
        Command::Rotate => {
            reveal_strlit("rotate");
        },
        Command::RotateX => {
            reveal_strlit("rotate_x");
        },
        Command::RotateY => {
            reveal_strlit("rotate_y");
        },
        Command::RotateZ => {
            reveal_strlit("rotate_z");
        },
        Command::Scale => {
            reveal_strlit("scale");
        },
        Command::ShearX => {
            reveal_strlit("shear_x");
        },
        Command::ShearY => {
            reveal_strlit("shear_y");
        },
        Command::Translate => {
            reveal_strlit("translate");
        },
        Command::PrintMatrix => {
            reveal_strlit("print_matrix");
        },
        Command::ShaderSetI8 => {
            reveal_strlit("shader_set_i8");
        },
        Command::ShaderSetU8 => {
            reveal_strlit("shader_set_u8");
        },
        Command::ShaderSetI16 => {
            reveal_strlit("shader_set_i16");
        },
        Command::ShaderSetU16 => {
            reveal_strlit("shader_set_u16");
        },
        Command::ShaderSetI32 => {
            reveal_strlit("shader_set_i32");
        },
        Command::ShaderSetU32 => {
            reveal_strlit("shader_set_u32");
        },
        Command::ShaderSetI64 => {
            reveal_strlit("shader_set_i64");
        },
        Command::ShaderSetU64 => {
            reveal_strlit("shader_set_u64");
        },
        Command::ShaderSetF32 => {
            reveal_strlit("shader_set_f32");
        },
        Command::ShaderSetF64 => {
            reveal_strlit("shader_set_f64");
        },
        Command::ShaderSetBool => {
            reveal_strlit("shader_set_bool");
        },
        Command::ShaderSetTex => {
            reveal_strlit("shader_set_tex");
        },
        Command::DropScreen => {
            reveal_strlit("drop_screen");
        },
        Command::DropShape => {
            reveal_strlit("drop_shape");
        },
        Command::DropTexture => {
            reveal_strlit("drop_texture");
        },
        Command::DropImage => {
            reveal_strlit("drop_image");
        },
        Command::DropShader => {
            reveal_strlit("drop_shader");
        },
        Command::DropFbo => {
            reveal_strlit("drop_fbo");
        },
        Command::DropMould => {
            reveal_strlit("drop_mould");
        },
    }
}

/// Distinct commands have distinct names, so a name requests at most one
/// command.
pub proof fn law_names_distinct(c: Command, d: Command)
    ensures
        c.name() == d.name() ==> c == d,
{
    lemma_fingerprint(c);
    lemma_fingerprint(d);
}

/// Whether two strings hold the same characters.
pub fn str_eq(a: &str, b: &str) -> (r: bool)
    ensures
        r == (a@ == b@),
{
    let n = a.unicode_len();
    let m = b.unicode_len();
    if n != m {
        return false;
    }
    let mut i: usize = 0;
    while i < n
        invariant
            n == a@.len(),
            m == b@.len(),
            n == m,
            i <= n,
            forall|j: int| 0 <= j < i ==> a@[j] == b@[j],
        decreases n - i,
    {
        if a.get_char(i) != b.get_char(i) {
            return false;
        }
        i = i + 1;
    }
    assert(a@ =~= b@);
    true
}

/// The command requested under `name`, if there is one.
pub fn parse_command(name: &str) -> (r: Option<Command>)
    ensures
        r matches Some(c) ==> name@ == c.name(),
        r is None ==> forall|c: Command| name@ != c.name(),
{
    let all = all_commands();
    let mut i: usize = 0;
    while i < all.len()
        invariant
            all@.len() == COMMAND_COUNT,
            forall|c: Command| 0 <= #[trigger] c.ordinal() < COMMAND_COUNT && all@[c.ordinal()] == c,
            forall|j: int| 0 <= j < i ==> name@ != all@[j].name(),
        decreases all.len() - i,
    {
        let c = all[i];
        if str_eq(name, c.name_str()) {
            return Some(c);
        }
        i = i + 1;
    }
    assert forall|c: Command| name@ != c.name() by {
        assert(all@[c.ordinal()] == c);
    }
    None
}

} // verus!
