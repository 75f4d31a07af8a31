//! Scenario tests for the scanner and the dispatch synthesizer.

use message_dispatch::ast::Attr;
use message_dispatch::ast::CallTarget;
use message_dispatch::ast::DiagnosticRecord;
use message_dispatch::ast::Fragment;
use message_dispatch::ast::GenError;
use message_dispatch::ast::ImplBlock;
use message_dispatch::ast::Member;
use message_dispatch::ast::MessageKind;
use message_dispatch::ast::Method;
use message_dispatch::ast::Param;
use message_dispatch::ast::ReceiverShape;
use message_dispatch::ast::ReturnDesc;
use message_dispatch::expand::message_block;
use message_dispatch::scanner::describe;
use message_dispatch::scanner::get_function_type;
use message_dispatch::scanner::get_message_handler_type;
use message_dispatch::synth::gen_handle_block;
use message_dispatch::synth::gen_impl;
use message_dispatch::synth::gen_one_question;
use message_dispatch::synth::gen_one_tell;

fn attr(segments: &[&str]) -> Attr {
    Attr { segments: segments.iter().map(|s| s.to_string()).collect() }
}

fn marked(name: &str, marker: &str, params: Vec<Param>) -> Method {
    Method {
        name: name.to_string(),
        attrs: vec![attr(&[marker])],
        params,
        ret: ReturnDesc::Omitted,
    }
}

fn unmarked(name: &str, params: Vec<Param>) -> Method {
    Method { name: name.to_string(), attrs: vec![], params, ret: ReturnDesc::Omitted }
}

fn shared_ref() -> Param {
    Param::Receiver { by_ref: true, mutable: false }
}

fn mut_ref() -> Param {
    Param::Receiver { by_ref: true, mutable: true }
}

fn by_value() -> Param {
    Param::Receiver { by_ref: false, mutable: false }
}

fn typed(ty: &str) -> Param {
    Param::Typed { ty: ty.to_string() }
}

fn fragment(ty: &str, method: &str, target: CallTarget) -> Fragment {
    Fragment { payload_ty: ty.to_string(), method: method.to_string(), target }
}

fn block(self_ty: &str, members: Vec<Member>) -> ImplBlock {
    ImplBlock { self_ty: self_ty.to_string(), members }
}

#[test]
fn unmarked_method_contributes_nothing() {
    let m = unmarked("plain", vec![shared_ref(), typed("Ping")]);
    assert_eq!(get_message_handler_type(&m), MessageKind::Unclassified);
    let groups = gen_handle_block(&vec![Member::Method(m)]).unwrap();
    assert!(groups.questions.is_empty());
    assert!(groups.tells.is_empty());
    assert!(groups.broadcasts.is_empty());
}

#[test]
fn question_two_params_yields_one_fragment() {
    let m = marked("handle", "question", vec![mut_ref(), typed("Ping")]);
    let groups = gen_handle_block(&vec![Member::Method(m)]).unwrap();
    assert_eq!(groups.questions, vec![fragment("Ping", "handle", CallTarget::Instance)]);
    assert!(groups.tells.is_empty());
}

#[test]
fn question_three_params_reads_second_parameter() {
    let m = marked("handle", "question", vec![shared_ref(), typed("Ping"), typed("Sender")]);
    let r = gen_one_question(&m).unwrap();
    assert_eq!(r, fragment("Ping", "handle", CallTarget::Instance));
}

#[test]
fn tell_by_value_receiver_fails() {
    let m = marked("consume", "tell", vec![by_value(), typed("LogMsg")]);
    let err = gen_one_tell(&m).unwrap_err();
    assert_eq!(
        err,
        GenError::ByValueReceiver { kind: MessageKind::Tell, method: "consume".to_string() }
    );
}

#[test]
fn question_zero_params_fails() {
    let m = marked("bare", "question", vec![]);
    assert_eq!(get_function_type(&m), ReceiverShape::Static);
    let err = gen_one_question(&m).unwrap_err();
    assert_eq!(err, GenError::StaticArity { method: "bare".to_string(), count: 0 });
}

#[test]
fn fragment_order_follows_declaration_order() {
    let members = vec![
        Member::Method(marked("q1", "question", vec![shared_ref(), typed("A")])),
        Member::Method(marked("t1", "tell", vec![shared_ref(), typed("B")])),
        Member::Method(unmarked("skip_me", vec![shared_ref(), typed("C")])),
        Member::Method(marked("b1", "broadcast", vec![shared_ref(), typed("D")])),
        Member::Method(marked("q2", "question", vec![mut_ref(), typed("E")])),
        Member::Other,
        Member::Method(marked("t2", "tell", vec![mut_ref(), typed("F")])),
        Member::Method(marked("q3", "question", vec![typed("G")])),
    ];
    let groups = gen_handle_block(&members).unwrap();
    assert_eq!(
        groups.questions,
        vec![
            fragment("A", "q1", CallTarget::Instance),
            fragment("E", "q2", CallTarget::Instance),
            fragment("G", "q3", CallTarget::Qualified),
        ]
    );
    assert_eq!(
        groups.tells,
        vec![
            fragment("B", "t1", CallTarget::Instance),
            fragment("F", "t2", CallTarget::Instance),
        ]
    );
    assert!(groups.broadcasts.is_empty());
}

#[test]
fn scenario_ping_and_log() {
    let b = block(
        "MyActor",
        vec![
            Member::Method(marked(
                "handle_ping",
                "question",
                vec![mut_ref(), typed("Ping"), typed("Sender")],
            )),
            Member::Method(marked(
                "handle_log",
                "tell",
                vec![shared_ref(), typed("LogMsg"), typed("Addr")],
            )),
        ],
    );
    let generated = gen_impl(&b).unwrap();
    assert_eq!(generated.self_ty, "MyActor");
    assert_eq!(generated.questions, vec![fragment("Ping", "handle_ping", CallTarget::Instance)]);
    assert_eq!(generated.tells, vec![fragment("LogMsg", "handle_log", CallTarget::Instance)]);
    assert!(generated.broadcasts.is_empty());
}

#[test]
fn scenario_by_value_question_names_method() {
    let b = block(
        "MyActor",
        vec![Member::Method(marked("oneshot", "question", vec![by_value(), typed("Ping")]))],
    );
    let err = message_block(&b).unwrap_err();
    match err {
        GenError::ByValueReceiver { kind, method } => {
            assert_eq!(kind, MessageKind::Question);
            assert_eq!(method, "oneshot");
        }
        other => panic!("unexpected error: {:?}", other),
    }
}

#[test]
fn scenario_unrecognized_marker_is_diagnostic_only() {
    let m = marked("audit", "log_only", vec![shared_ref(), typed("Event")]);
    assert_eq!(get_message_handler_type(&m), MessageKind::Unclassified);
    let b = block("MyActor", vec![Member::Method(m)]);
    let exp = message_block(&b).unwrap();
    assert!(exp.dispatch.questions.is_empty());
    assert!(exp.dispatch.tells.is_empty());
    assert!(exp.dispatch.broadcasts.is_empty());
    assert_eq!(
        exp.diagnostics,
        vec![DiagnosticRecord::MethodInfo {
            name: "audit".to_string(),
            attr_count: 1,
            attr_name: "log_only".to_string(),
            seg_count: 1,
            ret: "default".to_string(),
        }]
    );
}

#[test]
fn static_question_single_param_is_qualified() {
    let m = marked("on_boot", "question", vec![typed("BootMsg")]);
    let r = gen_one_question(&m).unwrap();
    assert_eq!(r, fragment("BootMsg", "on_boot", CallTarget::Qualified));
}

#[test]
fn static_tell_two_params_is_qualified() {
    let m = marked("notify", "tell", vec![typed("Note"), typed("Addr")]);
    let r = gen_one_tell(&m).unwrap();
    assert_eq!(r, fragment("Note", "notify", CallTarget::Qualified));
}

#[test]
fn static_three_params_fails() {
    let m = marked("wide", "tell", vec![typed("A"), typed("B"), typed("C")]);
    let err = gen_one_tell(&m).unwrap_err();
    assert_eq!(err, GenError::StaticArity { method: "wide".to_string(), count: 3 });
}

#[test]
fn instance_four_params_fails() {
    let m = marked(
        "wide",
        "question",
        vec![shared_ref(), typed("A"), typed("B"), typed("C")],
    );
    let err = gen_one_question(&m).unwrap_err();
    assert_eq!(err, GenError::InstanceArity { method: "wide".to_string(), count: 4 });
}

#[test]
fn receiver_in_payload_position_fails() {
    let m = marked("odd", "question", vec![typed("A"), shared_ref()]);
    assert_eq!(get_function_type(&m), ReceiverShape::SharedRef);
    let err = gen_one_question(&m).unwrap_err();
    assert_eq!(err, GenError::UntypedPayload { method: "odd".to_string() });
}

#[test]
fn path_marker_recognized_by_last_segment() {
    let m = Method {
        name: "routed".to_string(),
        attrs: vec![attr(&["rigger", "question"])],
        params: vec![shared_ref(), typed("Msg")],
        ret: ReturnDesc::Omitted,
    };
    assert_eq!(get_message_handler_type(&m), MessageKind::Question);
}

#[test]
fn later_recognized_marker_counts() {
    let m = Method {
        name: "layered".to_string(),
        attrs: vec![attr(&["log_only"]), attr(&["tell"])],
        params: vec![shared_ref(), typed("Msg")],
        ret: ReturnDesc::Omitted,
    };
    assert_eq!(get_message_handler_type(&m), MessageKind::Tell);
}

#[test]
fn marker_without_segments_stops_the_scan() {
    let m = Method {
        name: "odd".to_string(),
        attrs: vec![attr(&[]), attr(&["question"])],
        params: vec![shared_ref(), typed("Msg")],
        ret: ReturnDesc::Omitted,
    };
    assert_eq!(get_message_handler_type(&m), MessageKind::Unclassified);
}

#[test]
fn broadcast_recognized_but_not_routed() {
    let m = marked("fanout", "broadcast", vec![shared_ref(), typed("News")]);
    assert_eq!(get_message_handler_type(&m), MessageKind::Broadcast);
    let groups = gen_handle_block(&vec![Member::Method(m)]).unwrap();
    assert!(groups.questions.is_empty());
    assert!(groups.tells.is_empty());
    assert!(groups.broadcasts.is_empty());
}

#[test]
fn failure_aborts_whole_pass() {
    let b = block(
        "MyActor",
        vec![
            Member::Method(marked("good", "question", vec![shared_ref(), typed("Ping")])),
            Member::Method(marked("bad", "tell", vec![by_value(), typed("LogMsg")])),
        ],
    );
    assert!(message_block(&b).is_err());
}

#[test]
fn first_error_in_declaration_order_wins() {
    let b = block(
        "MyActor",
        vec![
            Member::Method(marked("early", "question", vec![])),
            Member::Method(marked("late", "tell", vec![by_value(), typed("LogMsg")])),
        ],
    );
    let err = message_block(&b).unwrap_err();
    assert_eq!(err, GenError::StaticArity { method: "early".to_string(), count: 0 });
}

#[test]
fn receiver_shapes_detected() {
    assert_eq!(
        get_function_type(&unmarked("a", vec![shared_ref(), typed("T")])),
        ReceiverShape::SharedRef
    );
    assert_eq!(
        get_function_type(&unmarked("b", vec![mut_ref(), typed("T")])),
        ReceiverShape::MutableRef
    );
    assert_eq!(
        get_function_type(&unmarked("c", vec![by_value(), typed("T")])),
        ReceiverShape::ByValue
    );
    assert_eq!(get_function_type(&unmarked("d", vec![typed("T")])), ReceiverShape::Static);
}

#[test]
fn mutable_by_value_receiver_is_by_value() {
    let m = unmarked("own", vec![Param::Receiver { by_ref: false, mutable: true }, typed("T")]);
    assert_eq!(get_function_type(&m), ReceiverShape::ByValue);
}

#[test]
fn instance_receiver_alone_fails() {
    let m = marked("lonely", "question", vec![shared_ref()]);
    let err = gen_one_question(&m).unwrap_err();
    assert_eq!(err, GenError::InstanceArity { method: "lonely".to_string(), count: 1 });
}

#[test]
fn diagnostics_render_return_types() {
    let verbatim = Method {
        name: "v".to_string(),
        attrs: vec![],
        params: vec![],
        ret: ReturnDesc::Verbatim("u32".to_string()),
    };
    match describe(&Member::Method(verbatim)) {
        DiagnosticRecord::MethodInfo { ret, attr_name, seg_count, attr_count, name } => {
            assert_eq!(name, "v");
            assert_eq!(ret, "u32");
            assert_eq!(attr_name, "");
            assert_eq!(seg_count, 0);
            assert_eq!(attr_count, 0);
        }
        other => panic!("unexpected record: {:?}", other),
    }
    let unrecognized = Method {
        name: "u".to_string(),
        attrs: vec![],
        params: vec![],
        ret: ReturnDesc::Unrecognized,
    };
    match describe(&Member::Method(unrecognized)) {
        DiagnosticRecord::MethodInfo { ret, .. } => assert_eq!(ret, "unknown"),
        other => panic!("unexpected record: {:?}", other),
    }
    assert_eq!(describe(&Member::Other), DiagnosticRecord::UnknownItem);
}

#[test]
fn diagnostics_follow_member_order() {
    let b = block(
        "MyActor",
        vec![
            Member::Other,
            Member::Method(Method {
                name: "routed".to_string(),
                attrs: vec![attr(&["rigger", "question"])],
                params: vec![shared_ref(), typed("Msg")],
                ret: ReturnDesc::Omitted,
            }),
        ],
    );
    let exp = message_block(&b).unwrap();
    assert_eq!(exp.diagnostics.len(), 2);
    assert_eq!(exp.diagnostics[0], DiagnosticRecord::UnknownItem);
    assert_eq!(
        exp.diagnostics[1],
        DiagnosticRecord::MethodInfo {
            name: "routed".to_string(),
            attr_count: 1,
            attr_name: "question".to_string(),
            seg_count: 2,
            ret: "default".to_string(),
        }
    );
}
