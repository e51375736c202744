//! Driving the shader and program build machines through their runs.

use superbible7::ProgramBuild;
use superbible7::ProgramBuildAction;
use superbible7::ProgramBuildEvent;
use superbible7::ShaderBuild;
use superbible7::ShaderBuildAction;
use superbible7::ShaderBuildEvent;
use superbible7::ShaderEnum;
use superbible7::ShaderID;

/// Drives one shader build against a driver that compiles everything.
fn run_successful_compile(kind: ShaderEnum, id: u32) -> Vec<ShaderBuildAction> {
    let mut actions = Vec::new();
    let mut b = ShaderBuild::new(kind);
    actions.push(b.current_action());
    b.step(ShaderBuildEvent::ShaderCreated(id));
    actions.push(b.current_action());
    b.step(ShaderBuildEvent::SourceSet);
    actions.push(b.current_action());
    b.step(ShaderBuildEvent::CompileRan);
    actions.push(b.current_action());
    b.step(ShaderBuildEvent::CompileStatus(true));
    assert!(b.is_done());
    let shader = b.result().unwrap();
    assert!(shader.is_usable());
    assert_eq!(id, shader.id());
    actions
}

#[test]
fn each_shader_kind_compiles_to_a_usable_object() {
    let kinds = [
        (ShaderEnum::Compute, 0x91B9u32),
        (ShaderEnum::Vertex, 0x8B31),
        (ShaderEnum::TessControl, 0x8E88),
        (ShaderEnum::TessEval, 0x8E87),
        (ShaderEnum::Geometry, 0x8DD9),
        (ShaderEnum::Fragment, 0x8B30),
    ];
    for (i, (kind, kind_enum)) in kinds.iter().enumerate() {
        let id = (i + 1) as u32;
        let actions = run_successful_compile(*kind, id);
        assert_eq!(
            vec![
                ShaderBuildAction::CreateShader { kind_enum: *kind_enum },
                ShaderBuildAction::SetShaderSource { shader: id },
                ShaderBuildAction::CompileShader { shader: id },
                ShaderBuildAction::QueryCompileStatus { shader: id },
            ],
            actions
        );
        // A successful compile never touches the diagnostic log.
        assert!(!actions.iter().any(|a| matches!(a, ShaderBuildAction::FetchInfoLog { .. })));
    }
}

#[test]
fn failed_compile_fetches_the_log_and_deletes_the_object() {
    let mut b = ShaderBuild::new(ShaderEnum::Fragment);
    b.step(ShaderBuildEvent::ShaderCreated(9));
    b.step(ShaderBuildEvent::SourceSet);
    b.step(ShaderBuildEvent::CompileRan);
    b.step(ShaderBuildEvent::CompileStatus(false));

    // The driver reports the log length, terminator included.
    assert_eq!(ShaderBuildAction::QueryInfoLogLength { shader: 9 }, b.current_action());
    b.step(ShaderBuildEvent::InfoLogLength(16));

    // The buffer for the fetch is sized exactly to the reported length.
    assert_eq!(
        ShaderBuildAction::FetchInfoLog { shader: 9, buffer_len: 16 },
        b.current_action()
    );
    b.step(ShaderBuildEvent::InfoLogFetched(b"0:1: error: ;-(".to_vec()));

    // The useless object is deleted before the result is handed out.
    assert_eq!(ShaderBuildAction::DeleteShader { shader: 9 }, b.current_action());
    b.step(ShaderBuildEvent::ShaderDeleted);

    assert!(b.is_done());
    let log = b.result().unwrap_err();
    assert_eq!("0:1: error: ;-(", log);
    assert!(!log.is_empty());
}

#[test]
fn failed_compile_with_no_log_reports_an_empty_log() {
    let mut b = ShaderBuild::new(ShaderEnum::Vertex);
    b.step(ShaderBuildEvent::ShaderCreated(4));
    b.step(ShaderBuildEvent::SourceSet);
    b.step(ShaderBuildEvent::CompileRan);
    b.step(ShaderBuildEvent::CompileStatus(false));
    b.step(ShaderBuildEvent::InfoLogLength(0));
    assert_eq!(ShaderBuildAction::DeleteShader { shader: 4 }, b.current_action());
    b.step(ShaderBuildEvent::ShaderDeleted);
    assert_eq!("", b.result().unwrap_err());
}

#[test]
fn driver_refusing_a_shader_object_is_its_own_failure() {
    let mut b = ShaderBuild::new(ShaderEnum::Compute);
    b.step(ShaderBuildEvent::ShaderCreated(0));
    assert!(b.is_done());
    assert_eq!("Couldn't create a shader.", b.result().unwrap_err());
}

#[test]
fn linking_two_compiled_shaders_yields_a_usable_program() {
    let vertex = ShaderID::new(11).unwrap();
    let fragment = ShaderID::new(12).unwrap();
    let mut actions = Vec::new();
    let mut b = ProgramBuild::new(vec![vertex, fragment]);
    actions.push(b.current_action());
    b.step(ProgramBuildEvent::ProgramCreated(31));
    actions.push(b.current_action());
    b.step(ProgramBuildEvent::ShaderAttached);
    actions.push(b.current_action());
    b.step(ProgramBuildEvent::ShaderAttached);
    actions.push(b.current_action());
    b.step(ProgramBuildEvent::LinkRan);
    actions.push(b.current_action());
    b.step(ProgramBuildEvent::LinkStatus(true));
    assert!(b.is_done());
    assert_eq!(
        vec![
            ProgramBuildAction::CreateProgram,
            ProgramBuildAction::AttachShader { program: 31, shader: 11 },
            ProgramBuildAction::AttachShader { program: 31, shader: 12 },
            ProgramBuildAction::LinkProgram { program: 31 },
            ProgramBuildAction::QueryLinkStatus { program: 31 },
        ],
        actions
    );
    let program = b.result().unwrap();
    assert_eq!(31, program.get());
}

#[test]
fn failed_link_returns_the_log_and_deletes_only_the_program() {
    let vertex = ShaderID::new(21).unwrap();
    let mut b = ProgramBuild::new(vec![vertex]);
    b.step(ProgramBuildEvent::ProgramCreated(40));
    b.step(ProgramBuildEvent::ShaderAttached);
    b.step(ProgramBuildEvent::LinkRan);
    b.step(ProgramBuildEvent::LinkStatus(false));

    assert_eq!(ProgramBuildAction::QueryInfoLogLength { program: 40 }, b.current_action());
    b.step(ProgramBuildEvent::InfoLogLength(33));
    assert_eq!(
        ProgramBuildAction::FetchInfoLog { program: 40, buffer_len: 33 },
        b.current_action()
    );
    b.step(ProgramBuildEvent::InfoLogFetched(b"error: no fragment shader attached".to_vec()));

    // Only the program is deleted: the input shaders stay reusable.
    assert_eq!(ProgramBuildAction::DeleteProgram { program: 40 }, b.current_action());
    b.step(ProgramBuildEvent::ProgramDeleted);

    assert!(b.is_done());
    let log = b.result().unwrap_err();
    assert_eq!("error: no fragment shader attached", log);
    assert!(!log.is_empty());
}

#[test]
fn driver_refusing_a_program_object_is_its_own_failure() {
    let mut b = ProgramBuild::new(Vec::new());
    b.step(ProgramBuildEvent::ProgramCreated(0));
    assert!(b.is_done());
    assert_eq!("Couldn't create a program.", b.result().unwrap_err());
}

#[test]
fn linking_with_no_shaders_goes_straight_to_the_link() {
    let mut b = ProgramBuild::new(Vec::new());
    b.step(ProgramBuildEvent::ProgramCreated(50));
    assert_eq!(ProgramBuildAction::LinkProgram { program: 50 }, b.current_action());
}
