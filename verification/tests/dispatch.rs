use strobe_mex::command::{all_commands, parse_command, Command, Output};
use strobe_mex::dispatch::{
    decide, decimal_string, judge, not_implemented_notice, string_check_message, Decision,
    Rejection,
};
use strobe_mex::handle::ObjectKind;
use strobe_mex::messages;
use strobe_mex::mx::{
    MxArg, CHAR_CLASS, DOUBLE_CLASS, INT8_CLASS, LOGICAL_CLASS, UINT32_CLASS, UINT64_CLASS,
    UINT8_CLASS,
};

fn text(len: usize) -> MxArg {
    MxArg {
        class_id: CHAR_CLASS,
        complex: false,
        elements: len,
        address: 0,
        tag: 0,
        truncated: 0,
        negative_single: false,
    }
}

fn handle(kind: ObjectKind, address: u64) -> MxArg {
    MxArg {
        class_id: UINT64_CLASS,
        complex: false,
        elements: 2,
        address,
        tag: kind.tag(),
        truncated: 0,
        negative_single: false,
    }
}

fn double(v: i32) -> MxArg {
    MxArg {
        class_id: DOUBLE_CLASS,
        complex: false,
        elements: 1,
        address: 0,
        tag: 0,
        truncated: v,
        negative_single: v < 0,
    }
}

fn flag() -> MxArg {
    MxArg {
        class_id: LOGICAL_CLASS,
        complex: false,
        elements: 1,
        address: 0,
        tag: 0,
        truncated: 1,
        negative_single: false,
    }
}

fn of_class(class_id: i32) -> MxArg {
    MxArg {
        class_id,
        complex: false,
        elements: 1,
        address: 0,
        tag: 0,
        truncated: 0,
        negative_single: false,
    }
}

fn rejected_at(d: Decision, command: Command, step: usize) {
    assert_eq!(d, Decision::Reject(Rejection::Rule { command, step }));
}

fn background_args() -> Vec<MxArg> {
    vec![text(10), handle(ObjectKind::Screen, 4096), double(1), double(0), double(0), double(1)]
}

#[test]
fn background_is_run_when_every_check_passes() {
    let d = decide("background", 0, &background_args());
    assert_eq!(d, Decision::Run(Command::Background));
}

#[test]
fn wrong_argument_count_is_reported_first() {
    let mut args = background_args();
    args.pop();
    let d = decide("background", 3, &args);
    rejected_at(d, Command::Background, 0);
    if let Decision::Reject(r) = d {
        assert_eq!(r.error_id(), "Strobe:background");
        assert_eq!(r.message(), messages::BACKGROUND_USAGE);
        assert!(r.message().starts_with("Please provide the screen, whose background color"));
    }
}

#[test]
fn output_variable_is_refused_for_commands_without_result() {
    let d = decide("background", 1, &background_args());
    rejected_at(d, Command::Background, 1);
    if let Decision::Reject(r) = d {
        assert_eq!(r.message(), messages::NO_OUTPUT_VARIABLE);
        assert!(r.message().starts_with("It does not make sense to have an output variable"));
    }
}

#[test]
fn at_most_one_output_for_commands_with_result() {
    let args = vec![text(11), handle(ObjectKind::Screen, 8)];
    assert_eq!(decide("frame_count", 1, &args), Decision::Run(Command::FrameCount));
    assert_eq!(decide("frame_count", 0, &args), Decision::Run(Command::FrameCount));
    let d = decide("frame_count", 2, &args);
    rejected_at(d, Command::FrameCount, 1);
    if let Decision::Reject(r) = d {
        assert_eq!(r.error_id(), "Strobe:frame_count");
        assert_eq!(r.message(), messages::ONE_OUTPUT_AT_MOST);
    }
}

#[test]
fn first_argument_must_be_a_handle_array() {
    let mut args = background_args();
    args[1] = double(3);
    rejected_at(decide("background", 0, &args), Command::Background, 2);
    args[1] = handle(ObjectKind::Screen, 1);
    args[1].elements = 3;
    rejected_at(decide("background", 0, &args), Command::Background, 2);
    args[1] = handle(ObjectKind::Screen, 1);
    args[1].complex = true;
    rejected_at(decide("background", 0, &args), Command::Background, 2);
}

#[test]
fn color_components_must_be_real_scalars() {
    let mut args = background_args();
    args[5].complex = true;
    let d = decide("background", 0, &args);
    rejected_at(d, Command::Background, 3);
    if let Decision::Reject(r) = d {
        assert_eq!(r.message(), messages::BACKGROUND_REALS);
    }
    let mut args = background_args();
    args[2].elements = 4;
    rejected_at(decide("background", 0, &args), Command::Background, 3);
}

#[test]
fn handle_of_wrong_kind_is_refused_under_background_id() {
    let mut args = background_args();
    args[1] = handle(ObjectKind::Shape, 4096);
    let d = decide("stroke", 0, &args);
    rejected_at(d, Command::Stroke, 4);
    if let Decision::Reject(r) = d {
        assert_eq!(r.error_id(), "Strobe:background");
        assert_eq!(r.message(), "Please make sure that the first argument is a valid screen.");
    }
}

#[test]
fn transform_commands_report_wrong_kind_under_their_own_id() {
    let args = vec![text(8), handle(ObjectKind::Texture, 1), double(1), double(0), double(0), double(1)];
    let d = decide("rotate", 0, &args);
    rejected_at(d, Command::Rotate, 4);
    if let Decision::Reject(r) = d {
        assert_eq!(r.error_id(), "Strobe:rotate");
    }
}

#[test]
fn command_name_must_be_a_string() {
    let mut args = background_args();
    args[0] = double(1);
    let d = decide("background", 0, &args);
    assert_eq!(d, Decision::Reject(Rejection::NameNotText));
    if let Decision::Reject(r) = d {
        assert_eq!(r.error_id(), "Strobe:strobeMainFunction");
        assert_eq!(r.message(), "Please make sure that argument #0 is a valid string.");
    }
}

#[test]
fn unknown_command_is_not_implemented() {
    assert_eq!(decide("Background", 0, &background_args()), Decision::NotImplemented);
    assert_eq!(decide("", 0, &background_args()), Decision::NotImplemented);
    assert_eq!(not_implemented_notice(), "not yet implemented, sorry...\n");
}

#[test]
fn string_argument_is_checked_after_the_handle_tag() {
    let mut args = vec![text(10), handle(ObjectKind::Screen, 4), double(2)];
    let d = decide("color_mode", 0, &args);
    rejected_at(d, Command::ColorMode, 4);
    if let Decision::Reject(r) = d {
        assert_eq!(r.error_id(), "Strobe:color_mode");
        assert_eq!(r.message(), "Please make sure that argument #2 is a valid string.");
    }
    args[1] = handle(ObjectKind::Image, 4);
    rejected_at(decide("color_mode", 0, &args), Command::ColorMode, 3);
    args[1] = handle(ObjectKind::Screen, 4);
    args[2] = text(3);
    assert_eq!(decide("color_mode", 0, &args), Decision::Run(Command::ColorMode));
}

#[test]
fn load_image_wants_a_file_name() {
    let d = decide("load_image", 1, &vec![text(10), double(1)]);
    rejected_at(d, Command::LoadImage, 2);
    if let Decision::Reject(r) = d {
        assert_eq!(r.message(), "Please make sure that argument #1 is a valid string.");
        assert_eq!(r.error_id(), "Strobe:load_image");
    }
    let ok = decide("load_image", 1, &vec![text(10), text(9)]);
    assert_eq!(ok, Decision::Run(Command::LoadImage));
    assert_eq!(Command::LoadImage.result_kind(), Output::Handle(ObjectKind::Image));
}

#[test]
fn screen_needs_positive_size_and_flags() {
    let args = vec![text(6), double(640), double(480), flag(), flag(), flag()];
    assert_eq!(decide("screen", 1, &args), Decision::Run(Command::Screen));
    let mut zero = args.clone();
    zero[2] = double(0);
    let d = decide("screen", 1, &zero);
    rejected_at(d, Command::Screen, 4);
    if let Decision::Reject(r) = d {
        assert_eq!(r.message(), messages::SCREEN_REALS);
    }
    let mut not_flag = args.clone();
    not_flag[4] = double(1);
    rejected_at(decide("screen", 1, &not_flag), Command::Screen, 3);
    let mut two_flags = args.clone();
    two_flags[5].elements = 2;
    rejected_at(decide("screen", 1, &two_flags), Command::Screen, 3);
    rejected_at(decide("screen", 2, &args), Command::Screen, 1);
}

#[test]
fn frame_rate_must_not_be_negative() {
    let args = vec![text(14), handle(ObjectKind::Screen, 4), double(-1)];
    let d = decide("set_frame_rate", 0, &args);
    rejected_at(d, Command::SetFrameRate, 5);
    if let Decision::Reject(r) = d {
        assert_eq!(r.message(), messages::SET_FRAME_RATE_REALS);
    }
    let ok = vec![text(14), handle(ObjectKind::Screen, 4), double(0)];
    assert_eq!(decide("set_frame_rate", 0, &ok), Decision::Run(Command::SetFrameRate));
}

#[test]
fn stroke_weight_must_not_be_negative() {
    let args = vec![text(13), handle(ObjectKind::Screen, 4), double(-2)];
    rejected_at(decide("stroke_weight", 0, &args), Command::StrokeWeight, 5);
    let ok = vec![text(13), handle(ObjectKind::Screen, 4), double(2)];
    assert_eq!(decide("stroke_weight", 0, &ok), Decision::Run(Command::StrokeWeight));
}

#[test]
fn key_press_wants_a_uint32_key() {
    let args = vec![text(9), handle(ObjectKind::Screen, 4), double(32)];
    let d = decide("key_press", 1, &args);
    rejected_at(d, Command::KeyPress, 3);
    let ok = vec![text(9), handle(ObjectKind::Screen, 4), of_class(UINT32_CLASS)];
    assert_eq!(decide("key_press", 1, &ok), Decision::Run(Command::KeyPress));
    // mouse_release takes the button as a double
    assert_eq!(
        decide("mouse_release", 1, &args),
        Decision::Run(Command::MouseRelease)
    );
}

#[test]
fn uniform_value_class_is_checked_before_the_shader_tag() {
    let args = vec![text(13), handle(ObjectKind::Screen, 4), text(4), of_class(UINT8_CLASS)];
    let d = decide("shader_set_i8", 0, &args);
    rejected_at(d, Command::ShaderSetI8, 3);
    if let Decision::Reject(r) = d {
        assert_eq!(
            r.message(),
            "Please make sure that the fourth argument is an 8-bit integer (int8)."
        );
    }
    let mut args2 = args.clone();
    args2[3] = of_class(INT8_CLASS);
    let d2 = decide("shader_set_i8", 0, &args2);
    rejected_at(d2, Command::ShaderSetI8, 4);
    if let Decision::Reject(r) = d2 {
        assert_eq!(r.error_id(), "Strobe:shader_set_i8");
        assert_eq!(r.message(), messages::SHADER_EXPECTED);
    }
    args2[1] = handle(ObjectKind::Shader, 4);
    assert_eq!(decide("shader_set_i8", 0, &args2), Decision::Run(Command::ShaderSetI8));
}

#[test]
fn shader_texture_is_checked_after_the_uniform_name() {
    let args = vec![
        text(14),
        handle(ObjectKind::Shader, 4),
        double(1),
        handle(ObjectKind::Image, 5),
    ];
    rejected_at(decide("shader_set_tex", 0, &args), Command::ShaderSetTex, 4);
    let mut args2 = args.clone();
    args2[2] = text(3);
    let d = decide("shader_set_tex", 0, &args2);
    rejected_at(d, Command::ShaderSetTex, 5);
    if let Decision::Reject(r) = d {
        assert_eq!(r.message(), "Please make sure that the thrid argument is a valid texture.");
    }
    args2[3] = handle(ObjectKind::Texture, 5);
    assert_eq!(decide("shader_set_tex", 0, &args2), Decision::Run(Command::ShaderSetTex));
}

#[test]
fn every_command_is_found_by_its_name() {
    let all = all_commands();
    assert_eq!(all.len(), 88);
    for c in all {
        assert_eq!(parse_command(c.name_str()), Some(c));
    }
    assert_eq!(parse_command("drop_fbo"), Some(Command::DropFbo));
    assert_eq!(parse_command("drop_fbo "), None);
}

#[test]
fn judge_agrees_with_decide() {
    let args = background_args();
    assert_eq!(judge(Command::Fill, 0, &args), decide("fill", 0, &args));
    assert_eq!(judge(Command::Fill, 0, &args), Decision::Run(Command::Fill));
}

#[test]
fn decimal_and_string_messages() {
    assert_eq!(decimal_string(0), "0");
    assert_eq!(decimal_string(7), "7");
    assert_eq!(decimal_string(17), "17");
    assert_eq!(decimal_string(1204), "1204");
    assert_eq!(string_check_message(12), "Please make sure that argument #12 is a valid string.");
}

#[test]
fn call_without_arguments_is_refused_as_nameless() {
    let d = decide("", 0, &vec![]);
    assert_eq!(d, Decision::Reject(Rejection::NameNotText));
    if let Decision::Reject(r) = d {
        assert_eq!(r.error_id(), "Strobe:strobeMainFunction");
    }
}

#[test]
fn empty_uniform_value_is_refused() {
    let mut value = of_class(INT8_CLASS);
    value.elements = 0;
    let args = vec![text(13), handle(ObjectKind::Shader, 4), text(4), value];
    rejected_at(decide("shader_set_i8", 0, &args), Command::ShaderSetI8, 3);
}
