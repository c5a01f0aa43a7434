//! The shader build step: compile a fixed vertex/fragment source pair,
//! link the two stages into a program object, and classify every
//! device-reported status. A stage compile failure is fatal; a link
//! failure is only reported and the program handle is still handed on;
//! a diagnostic log whose bytes are not valid text is itself fatal.
//!
//! The device calls themselves happen outside the library. The build is
//! driven as a state machine: each transition takes the device's report
//! of the previous action and decides the next phase and action.

use vstd::prelude::*;

verus! {

/// The vertex-stage source the program always compiles.
pub open spec fn vertex_source_spec() -> Seq<char> {
    "\n    #version 330 core\n    layout (location = 0) in vec3 position;\n    layout (location = 1) in vec3 color;\n    out vec3 ourColor;\n    void main() {\n        gl_Position = vec4(position.x, position.y, position.z, 1.0);\n        ourColor = color;\n    }\n"@
}

/// The fragment-stage source the program always compiles.
pub open spec fn fragment_source_spec() -> Seq<char> {
    "\n    #version 330 core\n    in vec3 ourColor;\n    out vec4 color;\n    void main() {\n        color = vec4(ourColor, 1.0f);\n    }\n"@
}

/// The vertex-stage source text; it is fixed and never empty.
pub fn vertex_shader_source() -> (s: &'static str)
    ensures
        s@ == vertex_source_spec(),
        s@.len() > 0,
{
    proof {
        reveal_strlit(
            "\n    #version 330 core\n    layout (location = 0) in vec3 position;\n    layout (location = 1) in vec3 color;\n    out vec3 ourColor;\n    void main() {\n        gl_Position = vec4(position.x, position.y, position.z, 1.0);\n        ourColor = color;\n    }\n",
        );
    }
    "\n    #version 330 core\n    layout (location = 0) in vec3 position;\n    layout (location = 1) in vec3 color;\n    out vec3 ourColor;\n    void main() {\n        gl_Position = vec4(position.x, position.y, position.z, 1.0);\n        ourColor = color;\n    }\n"
}

/// The fragment-stage source text; it is fixed and never empty.
pub fn fragment_shader_source() -> (s: &'static str)
    ensures
        s@ == fragment_source_spec(),
        s@.len() > 0,
{
    proof {
        reveal_strlit(
            "\n    #version 330 core\n    in vec3 ourColor;\n    out vec4 color;\n    void main() {\n        color = vec4(ourColor, 1.0f);\n    }\n",
        );
    }
    "\n    #version 330 core\n    in vec3 ourColor;\n    out vec4 color;\n    void main() {\n        color = vec4(ourColor, 1.0f);\n    }\n"
}

/// One compiled unit of the pipeline.
#[derive(Clone, Copy, PartialEq, Eq, Structural, Debug)]
pub enum StageKind {
    Vertex,
    Fragment,
}

/// The failures the build step can surface.
#[derive(Debug)]
pub enum BuildError {
    /// A stage failed to compile; fatal. Carries the stage and the
    /// decoded diagnostic text.
    ShaderCompile { kind: StageKind, log: String },
    /// The program failed to link; reported but not fatal. Carries the
    /// decoded diagnostic text.
    ProgramLink { log: String },
    /// The device's diagnostic bytes were not valid text; fatal.
    LogDecode,
}

/// The integer value the device reports for a true status flag.
pub const STATUS_TRUE: i32 = 1;

/// Whether a device-reported status flag means success.
pub open spec fn status_ok(status: i32) -> bool {
    status == STATUS_TRUE
}

/// Whether the given bytes are valid UTF-8; what `String::from_utf8`
/// accepts.
pub uninterp spec fn is_utf8(bytes: Seq<u8>) -> bool;

/// The text that valid UTF-8 bytes decode to.
pub uninterp spec fn utf8_chars(bytes: Seq<u8>) -> Seq<char>;

/// Relies on `String::from_utf8`: it returns `Ok` exactly when the bytes
/// are valid UTF-8, and then yields the text those bytes encode.
#[verifier::external_body]
fn utf8_decode(bytes: Vec<u8>) -> (r: Option<String>)
    ensures
        r is Some <==> is_utf8(bytes@),
        r matches Some(s) ==> s@ == utf8_chars(bytes@),
{
    match String::from_utf8(bytes) {
        Ok(s) => Some(s),
        Err(_) => None,
    }
}

/// Number of printable bytes in a diagnostic whose device-reported
/// length is `reported_len`: the report counts a trailing terminator
/// that is not part of the text.
pub fn printable_log_len(reported_len: i32) -> (n: usize)
    requires
        reported_len >= 1,
    ensures
        n == reported_len - 1,
{
    (reported_len - 1) as usize
}

/// A zeroed buffer sized to hold the printable part of a diagnostic
/// whose device-reported length is `reported_len`.
pub fn make_log_buffer(reported_len: i32) -> (buf: Vec<u8>)
    requires
        reported_len >= 1,
    ensures
        buf@.len() == reported_len - 1,
        forall|k: int| 0 <= k < buf@.len() ==> buf@[k] == 0,
{
    let target = printable_log_len(reported_len);
    let mut buf: Vec<u8> = Vec::new();
    let mut i: usize = 0;
    while i < target
        invariant
            i <= target,
            buf@.len() == i,
            forall|k: int| 0 <= k < buf@.len() ==> buf@[k] == 0,
        decreases target - i,
    {
        buf.push(0u8);
        i = i + 1;
    }
    buf
}

/// What a stage compile failure becomes, given the raw diagnostic bytes.
pub open spec fn stage_failure_matches(e: BuildError, k: StageKind, bytes: Seq<u8>) -> bool {
    if is_utf8(bytes) {
        e matches BuildError::ShaderCompile { kind, log } && kind == k && log@ == utf8_chars(bytes)
    } else {
        e is LogDecode
    }
}

/// What a link failure becomes, given the raw diagnostic bytes.
pub open spec fn link_failure_matches(e: BuildError, bytes: Seq<u8>) -> bool {
    if is_utf8(bytes) {
        e matches BuildError::ProgramLink { log } && log@ == utf8_chars(bytes)
    } else {
        e is LogDecode
    }
}

/// Classify a failed stage compile from its diagnostic bytes.
pub fn stage_failure(kind: StageKind, log_bytes: Vec<u8>) -> (e: BuildError)
    ensures
        stage_failure_matches(e, kind, log_bytes@),
{
    match utf8_decode(log_bytes) {
        Some(log) => BuildError::ShaderCompile { kind, log },
        None => BuildError::LogDecode,
    }
}

/// Classify a failed program link from its diagnostic bytes.
pub fn link_failure(log_bytes: Vec<u8>) -> (e: BuildError)
    ensures
        link_failure_matches(e, log_bytes@),
{
    match utf8_decode(log_bytes) {
        Some(log) => BuildError::ProgramLink { log },
        None => BuildError::LogDecode,
    }
}

/// Whether a build error terminates the process. A stage compile failure
/// and an undecodable log are fatal; a link failure is only reported.
pub fn is_fatal(e: &BuildError) -> (r: bool)
    ensures
        r == !(*e is ProgramLink),
{
    match e {
        BuildError::ShaderCompile { .. } => true,
        BuildError::ProgramLink { .. } => false,
        BuildError::LogDecode => true,
    }
}

/// Where the build stands. Stage and program handles are the opaque
/// identifiers the device returned.
#[derive(Debug)]
pub enum BuildPhase {
    /// Waiting for the vertex stage to compile.
    NeedVertex,
    /// The vertex stage compiled; waiting for the fragment stage.
    NeedFragment { vertex: u32 },
    /// Both stages compiled; waiting for the link report.
    NeedLink { vertex: u32, fragment: u32 },
    /// The link was attempted and both stage handles were released. The
    /// program handle is kept even when the link failed.
    Done { program: u32, link_ok: bool },
    /// A fatal failure; the build never reaches a program object. The
    /// failure itself travels in the accompanying action.
    Aborted,
}

/// What the driver must do next.
#[derive(Debug)]
pub enum BuildAction {
    /// Compile the named stage's fixed source and report the handle and
    /// compile status, with the diagnostic bytes on failure.
    CompileStage { kind: StageKind },
    /// Create a program, attach both stages, link, report the link
    /// status (with the diagnostic bytes on failure), then release both
    /// stage handles.
    LinkStages { vertex: u32, fragment: u32 },
    /// Fatal: print the failure and terminate before any further device
    /// work.
    FailBuild { error: BuildError },
    /// Print the link diagnostic, then proceed into the render loop with
    /// the (possibly non-functional) program.
    WarnAndProceed { error: BuildError },
    /// Proceed into the render loop; nothing to report.
    Proceed,
}

/// The device's report of the build action just performed.
#[derive(Debug)]
pub enum BuildEvent {
    /// A stage was compiled: its handle, its compile status, and — only
    /// when the status is not success — the retrieved diagnostic bytes.
    StageCompiled { handle: u32, status: i32, log_bytes: Option<Vec<u8>> },
    /// The program was linked: its handle, its link status, and — only
    /// when the status is not success — the retrieved diagnostic bytes.
    Linked { program: u32, status: i32, log_bytes: Option<Vec<u8>> },
}

/// Whether an event is one the phase is waiting for, with diagnostic
/// bytes present exactly when the status reports failure.
pub open spec fn event_fits(phase: BuildPhase, event: BuildEvent) -> bool {
    &&& match (phase, event) {
        (BuildPhase::NeedVertex, BuildEvent::StageCompiled { .. }) => true,
        (BuildPhase::NeedFragment { .. }, BuildEvent::StageCompiled { .. }) => true,
        (BuildPhase::NeedLink { .. }, BuildEvent::Linked { .. }) => true,
        _ => false,
    }
    &&& match event {
        BuildEvent::StageCompiled { status, log_bytes, .. } => !status_ok(status)
            <==> log_bytes is Some,
        BuildEvent::Linked { status, log_bytes, .. } => !status_ok(status) <==> log_bytes is Some,
    }
}

/// The build step's transition relation: from phase `pre`, the device
/// report `event` leads to phase `post` with `action` to perform.
pub open spec fn build_transition(
    pre: BuildPhase,
    event: BuildEvent,
    post: BuildPhase,
    action: BuildAction,
) -> bool {
    match (pre, event) {
        (BuildPhase::NeedVertex, BuildEvent::StageCompiled { handle, status, log_bytes }) => {
            if status_ok(status) {
                &&& post == BuildPhase::NeedFragment { vertex: handle }
                &&& action == BuildAction::CompileStage { kind: StageKind::Fragment }
            } else {
                &&& post is Aborted
                &&& action matches BuildAction::FailBuild { error } && stage_failure_matches(
                    error,
                    StageKind::Vertex,
                    log_bytes->Some_0@,
                )
            }
        },
        (
            BuildPhase::NeedFragment { vertex },
            BuildEvent::StageCompiled { handle, status, log_bytes },
        ) => {
            if status_ok(status) {
                &&& post == BuildPhase::NeedLink { vertex, fragment: handle }
                &&& action == BuildAction::LinkStages { vertex, fragment: handle }
            } else {
                &&& post is Aborted
                &&& action matches BuildAction::FailBuild { error } && stage_failure_matches(
                    error,
                    StageKind::Fragment,
                    log_bytes->Some_0@,
                )
            }
        },
        (BuildPhase::NeedLink { .. }, BuildEvent::Linked { program, status, log_bytes }) => {
            if status_ok(status) {
                &&& post == BuildPhase::Done { program, link_ok: true }
                &&& action is Proceed
            } else if is_utf8(log_bytes->Some_0@) {
                &&& post == BuildPhase::Done { program, link_ok: false }
                &&& action matches BuildAction::WarnAndProceed { error } && link_failure_matches(
                    error,
                    log_bytes->Some_0@,
                )
            } else {
                &&& post is Aborted
                &&& action matches BuildAction::FailBuild { error } && error is LogDecode
            }
        },
        _ => false,
    }
}

/// Law: when every device report is a success, the build runs straight
/// through — vertex stage, fragment stage, link — and ends in `Done`
/// with the reported program handle, a true link status, and no
/// diagnostic to print at any step.
pub proof fn lemma_clean_build_succeeds(
    v: BuildEvent,
    f: BuildEvent,
    l: BuildEvent,
    p1: BuildPhase,
    a1: BuildAction,
    p2: BuildPhase,
    a2: BuildAction,
    p3: BuildPhase,
    a3: BuildAction,
)
    requires
        v matches BuildEvent::StageCompiled { status, .. } && status_ok(status),
        f matches BuildEvent::StageCompiled { status, .. } && status_ok(status),
        l matches BuildEvent::Linked { status, .. } && status_ok(status),
        build_transition(BuildPhase::NeedVertex, v, p1, a1),
        build_transition(p1, f, p2, a2),
        build_transition(p2, l, p3, a3),
    ensures
        p3 == (BuildPhase::Done { program: l->Linked_program, link_ok: true }),
        (a1 !is FailBuild) && (a1 !is WarnAndProceed),
        (a2 !is FailBuild) && (a2 !is WarnAndProceed),
        a3 is Proceed,
{
}

/// Law: a failed stage compile is terminal. From either compiling
/// phase, a report whose status is not success leads to `Aborted` with
/// a fatal action carrying the stage's diagnostic; the build never
/// reaches the link or a program object.
pub proof fn lemma_compile_failure_aborts(
    pre: BuildPhase,
    event: BuildEvent,
    post: BuildPhase,
    action: BuildAction,
)
    requires
        (pre is NeedVertex) || (pre is NeedFragment),
        event matches BuildEvent::StageCompiled { status, .. } && !status_ok(status),
        build_transition(pre, event, post, action),
    ensures
        post is Aborted,
        action matches BuildAction::FailBuild { error } && stage_failure_matches(
            error,
            if pre is NeedVertex {
                StageKind::Vertex
            } else {
                StageKind::Fragment
            },
            event->StageCompiled_log_bytes->Some_0@,
        ),
{
}

/// Law: a failed link whose diagnostic decodes is not fatal. The build
/// still ends in `Done`, keeping the device's program handle with a
/// false link status, and the action both surfaces the diagnostic and
/// returns control to the driver.
pub proof fn lemma_link_failure_non_fatal(
    pre: BuildPhase,
    event: BuildEvent,
    post: BuildPhase,
    action: BuildAction,
)
    requires
        pre is NeedLink,
        event matches BuildEvent::Linked { status, log_bytes, .. } && !status_ok(status)
            && is_utf8(log_bytes->Some_0@),
        build_transition(pre, event, post, action),
    ensures
        post == (BuildPhase::Done { program: event->Linked_program, link_ok: false }),
        action matches BuildAction::WarnAndProceed { error } && link_failure_matches(
            error,
            event->Linked_log_bytes->Some_0@,
        ),
        !(action is FailBuild),
{
}

/// The build's starting point: no stage exists yet, and the driver must
/// compile the vertex stage first.
pub fn build_start() -> (r: (BuildPhase, BuildAction))
    ensures
        (r.0 is NeedVertex),
        r.1 == (BuildAction::CompileStage { kind: StageKind::Vertex }),
{
    (BuildPhase::NeedVertex, BuildAction::CompileStage { kind: StageKind::Vertex })
}

/// Advance the build step by one device report.
pub fn build_step(phase: BuildPhase, event: BuildEvent) -> (r: (BuildPhase, BuildAction))
    requires
        event_fits(phase, event),
    ensures
        build_transition(phase, event, r.0, r.1),
{
    match (phase, event) {
        (BuildPhase::NeedVertex, BuildEvent::StageCompiled { handle, status, log_bytes }) => {
            if status == STATUS_TRUE {
                (
                    BuildPhase::NeedFragment { vertex: handle },
                    BuildAction::CompileStage { kind: StageKind::Fragment },
                )
            } else {
                let bytes = log_bytes.unwrap();
                let error = stage_failure(StageKind::Vertex, bytes);
                (BuildPhase::Aborted, BuildAction::FailBuild { error })
            }
        },
        (
            BuildPhase::NeedFragment { vertex },
            BuildEvent::StageCompiled { handle, status, log_bytes },
        ) => {
            if status == STATUS_TRUE {
                (
                    BuildPhase::NeedLink { vertex, fragment: handle },
                    BuildAction::LinkStages { vertex, fragment: handle },
                )
            } else {
                let bytes = log_bytes.unwrap();
                let error = stage_failure(StageKind::Fragment, bytes);
                (BuildPhase::Aborted, BuildAction::FailBuild { error })
            }
        },
        (BuildPhase::NeedLink { .. }, BuildEvent::Linked { program, status, log_bytes }) => {
            if status == STATUS_TRUE {
                (BuildPhase::Done { program, link_ok: true }, BuildAction::Proceed)
            } else {
                let bytes = log_bytes.unwrap();
                let error = link_failure(bytes);
                match error {
                    BuildError::ProgramLink { log } => (
                        BuildPhase::Done { program, link_ok: false },
                        BuildAction::WarnAndProceed {
                            error: BuildError::ProgramLink { log },
                        },
                    ),
                    _ => (
                        BuildPhase::Aborted,
                        BuildAction::FailBuild { error: BuildError::LogDecode },
                    ),
                }
            }
        },
        // Unreachable: `event_fits` admits no other phase/event pairing.
        _ => (BuildPhase::NeedVertex, BuildAction::CompileStage { kind: StageKind::Vertex }),
    }
}

} // verus!
