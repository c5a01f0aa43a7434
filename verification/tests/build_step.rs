use hello_triangle::shader::{
    build_start, build_step, fragment_shader_source, is_fatal, link_failure, make_log_buffer,
    printable_log_len, stage_failure, vertex_shader_source, BuildAction, BuildError, BuildEvent,
    BuildPhase, StageKind, STATUS_TRUE,
};

#[test]
fn sources_are_the_fixed_pair() {
    let v = vertex_shader_source();
    let f = fragment_shader_source();
    assert!(!v.is_empty());
    assert!(!f.is_empty());
    assert!(v.contains("#version 330 core"));
    assert!(v.contains("layout (location = 0) in vec3 position;"));
    assert!(v.contains("layout (location = 1) in vec3 color;"));
    assert!(v.contains("out vec3 ourColor;"));
    assert!(f.contains("#version 330 core"));
    assert!(f.contains("in vec3 ourColor;"));
    assert!(f.contains("out vec4 color;"));
}

#[test]
fn clean_build_reaches_program() {
    let (p0, a0) = build_start();
    assert!(matches!(p0, BuildPhase::NeedVertex));
    assert!(matches!(a0, BuildAction::CompileStage { kind: StageKind::Vertex }));

    let (p1, a1) = build_step(
        p0,
        BuildEvent::StageCompiled { handle: 7, status: STATUS_TRUE, log_bytes: None },
    );
    assert!(matches!(p1, BuildPhase::NeedFragment { vertex: 7 }));
    assert!(matches!(a1, BuildAction::CompileStage { kind: StageKind::Fragment }));

    let (p2, a2) = build_step(
        p1,
        BuildEvent::StageCompiled { handle: 8, status: STATUS_TRUE, log_bytes: None },
    );
    assert!(matches!(p2, BuildPhase::NeedLink { vertex: 7, fragment: 8 }));
    assert!(matches!(a2, BuildAction::LinkStages { vertex: 7, fragment: 8 }));

    let (p3, a3) = build_step(
        p2,
        BuildEvent::Linked { program: 3, status: STATUS_TRUE, log_bytes: None },
    );
    match p3 {
        BuildPhase::Done { program, link_ok } => {
            assert_eq!(program, 3);
            assert!(link_ok);
        }
        _ => panic!("clean build must end in Done"),
    }
    assert!(matches!(a3, BuildAction::Proceed));
}

#[test]
fn vertex_compile_failure_is_fatal_before_program_creation() {
    let (p0, _) = build_start();
    let diagnostic = b"ERROR: 0:3: syntax error".to_vec();
    let (p1, a1) = build_step(
        p0,
        BuildEvent::StageCompiled { handle: 7, status: 0, log_bytes: Some(diagnostic) },
    );
    assert!(matches!(p1, BuildPhase::Aborted));
    match a1 {
        BuildAction::FailBuild { error } => match error {
            BuildError::ShaderCompile { kind, log } => {
                assert_eq!(kind, StageKind::Vertex);
                assert!(!log.is_empty());
                assert_eq!(log, "ERROR: 0:3: syntax error");
                assert!(is_fatal(&BuildError::ShaderCompile { kind, log }));
            }
            _ => panic!("a failed stage compile must classify as ShaderCompile"),
        },
        _ => panic!("a failed stage compile must abort the build"),
    }
}

#[test]
fn fragment_compile_failure_is_fatal() {
    let (p0, _) = build_start();
    let (p1, _) = build_step(
        p0,
        BuildEvent::StageCompiled { handle: 7, status: STATUS_TRUE, log_bytes: None },
    );
    let (p2, a2) = build_step(
        p1,
        BuildEvent::StageCompiled {
            handle: 8,
            status: 0,
            log_bytes: Some(b"undeclared identifier".to_vec()),
        },
    );
    assert!(matches!(p2, BuildPhase::Aborted));
    match a2 {
        BuildAction::FailBuild { error: BuildError::ShaderCompile { kind, log } } => {
            assert_eq!(kind, StageKind::Fragment);
            assert_eq!(log, "undeclared identifier");
        }
        _ => panic!("a failed fragment compile must abort with its diagnostic"),
    }
}

#[test]
fn link_failure_is_reported_but_not_fatal() {
    let (p0, _) = build_start();
    let (p1, _) = build_step(
        p0,
        BuildEvent::StageCompiled { handle: 7, status: STATUS_TRUE, log_bytes: None },
    );
    let (p2, _) = build_step(
        p1,
        BuildEvent::StageCompiled { handle: 8, status: STATUS_TRUE, log_bytes: None },
    );
    let (p3, a3) = build_step(
        p2,
        BuildEvent::Linked {
            program: 3,
            status: 0,
            log_bytes: Some(b"error: undeclared varying ourColor".to_vec()),
        },
    );
    match p3 {
        BuildPhase::Done { program, link_ok } => {
            assert_eq!(program, 3);
            assert!(!link_ok);
        }
        _ => panic!("a link failure must still keep the program handle"),
    }
    match a3 {
        BuildAction::WarnAndProceed { error } => match error {
            BuildError::ProgramLink { log } => {
                assert_eq!(log, "error: undeclared varying ourColor");
                assert!(!is_fatal(&BuildError::ProgramLink { log }));
            }
            _ => panic!("a failed link must classify as ProgramLink"),
        },
        _ => panic!("a failed link must warn and return control"),
    }
}

#[test]
fn undecodable_stage_log_is_log_decode_error() {
    let bad = vec![0xffu8, 0xfe, 0xfd];
    let e = stage_failure(StageKind::Vertex, bad);
    assert!(matches!(e, BuildError::LogDecode));
    assert!(is_fatal(&e));
}

#[test]
fn undecodable_link_log_aborts_the_build() {
    let (p0, _) = build_start();
    let (p1, _) = build_step(
        p0,
        BuildEvent::StageCompiled { handle: 7, status: STATUS_TRUE, log_bytes: None },
    );
    let (p2, _) = build_step(
        p1,
        BuildEvent::StageCompiled { handle: 8, status: STATUS_TRUE, log_bytes: None },
    );
    let (p3, a3) = build_step(
        p2,
        BuildEvent::Linked { program: 3, status: 0, log_bytes: Some(vec![0xc0u8, 0x00]) },
    );
    assert!(matches!(p3, BuildPhase::Aborted));
    assert!(matches!(a3, BuildAction::FailBuild { error: BuildError::LogDecode }));
}

#[test]
fn stage_failure_decodes_the_diagnostic_text() {
    let e = stage_failure(StageKind::Fragment, b"oops".to_vec());
    match e {
        BuildError::ShaderCompile { kind, log } => {
            assert_eq!(kind, StageKind::Fragment);
            assert_eq!(log, "oops");
        }
        _ => panic!("valid diagnostic bytes must decode"),
    }
}

#[test]
fn link_failure_decodes_the_diagnostic_text() {
    let e = link_failure(b"mismatched varyings".to_vec());
    match e {
        BuildError::ProgramLink { log } => assert_eq!(log, "mismatched varyings"),
        _ => panic!("valid diagnostic bytes must decode"),
    }
}

#[test]
fn log_buffer_holds_reported_length_minus_terminator() {
    assert_eq!(printable_log_len(1), 0);
    assert_eq!(printable_log_len(42), 41);
    let b = make_log_buffer(5);
    assert_eq!(b.len(), 4);
    assert!(b.iter().all(|&x| x == 0));
    assert_eq!(make_log_buffer(1).len(), 0);
}
