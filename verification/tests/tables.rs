use std::collections::HashSet;

use strobe_mex::command::{all_commands, Command, Output};
use strobe_mex::dispatch::{decide, Decision, Rejection};
use strobe_mex::handle::{handle_words, ObjectKind};
use strobe_mex::mx::{MxArg, CHAR_CLASS, UINT64_CLASS};
use strobe_mex::rules::{check, first_failing, rule_list, Test};
use strobe_mex::text::c_chars;

const KINDS: [ObjectKind; 7] = [
    ObjectKind::Screen,
    ObjectKind::Shape,
    ObjectKind::Texture,
    ObjectKind::Framebuffer,
    ObjectKind::Image,
    ObjectKind::Mould,
    ObjectKind::Shader,
];

fn name_arg() -> MxArg {
    MxArg {
        class_id: CHAR_CLASS,
        complex: false,
        elements: 4,
        address: 0,
        tag: 0,
        truncated: 0,
        negative_single: false,
    }
}

/// What the entry point reads back from the 1x2 uint64 array it wrote.
fn read_back(words: (u64, u64)) -> MxArg {
    MxArg {
        class_id: UINT64_CLASS,
        complex: false,
        elements: 2,
        address: words.0,
        tag: words.1,
        truncated: 0,
        negative_single: false,
    }
}

fn drop_command(kind: ObjectKind) -> &'static str {
    match kind {
        ObjectKind::Screen => "drop_screen",
        ObjectKind::Shape => "drop_shape",
        ObjectKind::Texture => "drop_texture",
        ObjectKind::Framebuffer => "drop_fbo",
        ObjectKind::Image => "drop_image",
        ObjectKind::Mould => "drop_mould",
        ObjectKind::Shader => "drop_shader",
    }
}

#[test]
fn tags_are_one_to_seven_and_invertible() {
    for (i, k) in KINDS.iter().enumerate() {
        assert_eq!(k.tag(), i as u64 + 1);
        assert_eq!(ObjectKind::from_tag(k.tag()), Some(*k));
    }
    assert_eq!(ObjectKind::from_tag(0), None);
    assert_eq!(ObjectKind::from_tag(8), None);
    assert_eq!(handle_words(123, ObjectKind::Mould), (123, 6));
}

fn drop_of(kind: ObjectKind) -> Command {
    match kind {
        ObjectKind::Screen => Command::DropScreen,
        ObjectKind::Shape => Command::DropShape,
        ObjectKind::Texture => Command::DropTexture,
        ObjectKind::Framebuffer => Command::DropFbo,
        ObjectKind::Image => Command::DropImage,
        ObjectKind::Mould => Command::DropMould,
        ObjectKind::Shader => Command::DropShader,
    }
}

#[test]
fn handles_round_trip_through_the_drop_commands() {
    for kind in KINDS {
        for other in KINDS {
            let args = vec![name_arg(), read_back(handle_words(0xdead_beef, other))];
            let d = decide(drop_command(kind), 0, &args);
            if other == kind {
                assert_eq!(d, Decision::Run(drop_of(kind)));
            } else {
                assert_eq!(
                    d,
                    Decision::Reject(Rejection::Rule { command: drop_of(kind), step: 3 })
                );
            }
        }
    }
}

#[test]
fn output_rule_follows_the_result_kind() {
    for c in all_commands() {
        let rs = rule_list(c);
        assert!(matches!(rs[0].test, Test::ArgCount(n) if n >= 2));
        let expected = if c.result_kind() == Output::Nothing {
            Test::NoOutput
        } else {
            Test::AtMostOneOutput
        };
        assert_eq!(rs[1].test, expected, "{:?}", c);
    }
}

#[test]
fn every_kind_of_object_is_made_by_some_command() {
    for kind in KINDS {
        assert!(all_commands().into_iter().any(|c| c.result_kind() == Output::Handle(kind)));
    }
    assert_eq!(Command::Rect.result_kind(), Output::Handle(ObjectKind::Shape));
    assert_eq!(Command::Framebuffer.result_kind(), Output::Handle(ObjectKind::Framebuffer));
    assert_eq!(Command::MouseX.result_kind(), Output::Number);
}

#[test]
fn command_names_are_distinct() {
    let names: HashSet<&str> = all_commands().into_iter().map(|c| c.name_str()).collect();
    assert_eq!(names.len(), 88);
}

#[test]
fn accepted_calls_have_the_declared_argument_count() {
    let args = vec![name_arg(), read_back(handle_words(1, ObjectKind::Screen))];
    for c in all_commands() {
        let rs = rule_list(c);
        if let Test::ArgCount(n) = rs[0].test {
            if let Decision::Run(_) = decide(c.name_str(), 0, &args) {
                assert_eq!(n, 2);
            }
        }
    }
    let ok = decide("reveal", 0, &args);
    assert_eq!(ok, Decision::Run(Command::Reveal));
}

#[test]
fn first_failing_reports_the_earliest_failure() {
    let rs = rule_list(Command::Draw);
    let args = vec![name_arg(), name_arg(), name_arg()];
    assert_eq!(first_failing(&rs, 5, &args), Some(1));
    assert_eq!(first_failing(&rs, 0, &args), Some(2));
    assert!(check(Test::Text(0), 0, &args));
    assert!(!check(Test::Handles(1, 3), 0, &args));
}

#[test]
fn c_chars_appends_a_terminating_zero() {
    assert_eq!(c_chars("abc"), vec![97, 98, 99, 0]);
    assert_eq!(c_chars(""), vec![0]);
    assert_eq!(c_chars("é"), vec![-61, -87, 0]);
}
