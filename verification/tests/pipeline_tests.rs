use triforces::pipeline::{
    compile_outcome, link_outcome, prepare_source, register_program, resolve_uniforms,
    type_size, type_size_known, validation_report, BuildReplies, CompileReply, LinkReply,
    ProgramLog, ShaderCompilationError, ShaderLog, StageKind, ValidateReply, MAX_SHADER_LENGTH,
};
use triforces::component::ShaderProgramHandle;

fn ok_compile(index: u32) -> CompileReply {
    CompileReply {
        ok: true,
        log: ShaderLog::new(index, String::new()),
    }
}

fn ok_link(index: u32) -> LinkReply {
    LinkReply {
        ok: true,
        log: ProgramLog::new(index, String::new()),
    }
}

fn ok_validate(index: u32) -> ValidateReply {
    ValidateReply {
        ok: true,
        log: ProgramLog::new(index, String::new()),
    }
}

fn names(list: &[&str]) -> Vec<String> {
    list.iter().map(|s| s.to_string()).collect()
}

#[test]
fn compile_success_yields_stage_handle() {
    let reply = ok_compile(7);
    let r = compile_outcome(StageKind::Vertex, &reply);
    assert_eq!(r.unwrap().get(), 7);
}

#[test]
fn compile_failure_names_stage_and_carries_log() {
    // A fragment stage alone cannot stand in for the vertex stage: the
    // vertex source has no main, the driver rejects it, and the error must
    // name the vertex stage with the driver's words kept verbatim.
    let fragment_source = "#version 330\nvoid main(){}";
    let driver_log = "0:1(1): error: vertex shader lacks `main'";
    let replies = BuildReplies {
        vertex: CompileReply {
            ok: false,
            log: ShaderLog::new(3, driver_log.to_string()),
        },
        fragment: CompileReply {
            ok: true,
            log: ShaderLog::new(4, String::new()),
        },
        link: ok_link(9),
        validate: ok_validate(9),
        uniform_locations: Vec::new(),
    };
    let (_prepared, truncated) = prepare_source(fragment_source.as_bytes());
    assert!(!truncated);
    let r = register_program(&names(&[]), &replies);
    match r {
        Err(ShaderCompilationError::CompileFailed(stage, log)) => {
            assert_eq!(stage, StageKind::Vertex);
            assert!(!log.is_empty());
            assert!(log.contains("vertex"));
            assert_eq!(log, driver_log);
        }
        other => panic!("expected CompileFailed for the vertex stage, got {:?}", other),
    }
}

#[test]
fn fragment_failure_comes_after_vertex_success() {
    let replies = BuildReplies {
        vertex: ok_compile(3),
        fragment: CompileReply {
            ok: false,
            log: ShaderLog::new(4, "fragment: undefined variable".to_string()),
        },
        link: ok_link(9),
        validate: ok_validate(9),
        uniform_locations: Vec::new(),
    };
    let r = register_program(&names(&[]), &replies);
    match r {
        Err(ShaderCompilationError::CompileFailed(stage, log)) => {
            assert_eq!(stage, StageKind::Fragment);
            assert_eq!(log, "fragment: undefined variable");
        }
        other => panic!("expected CompileFailed for the fragment stage, got {:?}", other),
    }
}

#[test]
fn link_failure_is_fatal_and_carries_program_log() {
    let replies = BuildReplies {
        vertex: ok_compile(3),
        fragment: ok_compile(4),
        link: LinkReply {
            ok: false,
            log: ProgramLog::new(9, "error: varying mismatch".to_string()),
        },
        validate: ok_validate(9),
        uniform_locations: Vec::new(),
    };
    let r = register_program(&names(&[]), &replies);
    match r {
        Err(ShaderCompilationError::LinkFailed(log)) => {
            assert_eq!(log, "error: varying mismatch");
        }
        other => panic!("expected LinkFailed, got {:?}", other),
    }
}

#[test]
fn link_outcome_frees_both_stages_on_success() {
    let v = compile_outcome(StageKind::Vertex, &ok_compile(3)).unwrap();
    let f = compile_outcome(StageKind::Fragment, &ok_compile(4)).unwrap();
    let (linked, freed) = link_outcome(v, f, &ok_link(9));
    assert_eq!(linked.unwrap().get(), 9);
    let freed_ids: Vec<u32> = freed.iter().map(|h| h.get()).collect();
    assert_eq!(freed_ids, vec![3, 4]);
}

#[test]
fn link_outcome_frees_nothing_on_failure() {
    let v = compile_outcome(StageKind::Vertex, &ok_compile(3)).unwrap();
    let f = compile_outcome(StageKind::Fragment, &ok_compile(4)).unwrap();
    let failed = LinkReply {
        ok: false,
        log: ProgramLog::new(9, "link error".to_string()),
    };
    let (linked, freed) = link_outcome(v, f, &failed);
    assert!(linked.is_err());
    assert!(freed.is_empty());
}

#[test]
fn validation_failure_is_a_warning_not_an_error() {
    // The policy asymmetry: link failure is fatal, validation failure is
    // only a report, and the program handle stays usable.
    let replies = BuildReplies {
        vertex: ok_compile(3),
        fragment: ok_compile(4),
        link: ok_link(9),
        validate: ValidateReply {
            ok: false,
            log: ProgramLog::new(9, "validation: no texture bound".to_string()),
        },
        uniform_locations: vec![0],
    };
    let r = register_program(&names(&["model_mat"]), &replies).unwrap();
    assert_eq!(r.program.handle.get(), 9);
    assert!(!r.validation.accepted);
    assert_eq!(r.validation.log, "validation: no texture bound");
    let report = validation_report(&ValidateReply {
        ok: true,
        log: ProgramLog::new(9, String::new()),
    });
    assert!(report.accepted);
}

#[test]
fn registered_program_resolves_every_requested_uniform() {
    let uniform_names = names(&["model_mat", "view_mat", "proj_mat"]);
    let replies = BuildReplies {
        vertex: ok_compile(3),
        fragment: ok_compile(4),
        link: ok_link(9),
        validate: ok_validate(9),
        uniform_locations: vec![0, 1, 2],
    };
    let r = register_program(&uniform_names, &replies).unwrap();
    assert_eq!(r.program.handle.get(), 9);
    for (i, name) in uniform_names.iter().enumerate() {
        let h = r.program.uniforms.get(name).expect("uniform must be present");
        assert_eq!(h.get(), i as i32);
        assert!(h.get() >= 0);
    }
    assert_eq!(r.freed_stages.len(), 2);
}

#[test]
fn querying_a_uniform_twice_returns_the_same_handle() {
    let uniform_names = names(&["model_mat", "view_mat", "proj_mat"]);
    let sp = resolve_uniforms(
        ShaderProgramHandle::new(9),
        &uniform_names,
        &vec![5, 6, 7],
    )
    .unwrap();
    let name = "model_mat".to_string();
    let first = sp.uniforms.get(&name).unwrap();
    let second = sp.uniforms.get(&name).unwrap();
    assert_eq!(first.get(), second.get());
    assert_eq!(first.get(), 5);
}

#[test]
fn missing_uniform_fails_with_the_first_absent_name() {
    let uniform_names = names(&["model_mat", "view_mat", "proj_mat"]);
    let replies = BuildReplies {
        vertex: ok_compile(3),
        fragment: ok_compile(4),
        link: ok_link(9),
        validate: ok_validate(9),
        uniform_locations: vec![0, -1, -1],
    };
    let r = register_program(&uniform_names, &replies);
    match r {
        Err(ShaderCompilationError::UniformNotFound(name)) => {
            assert_eq!(name, "view_mat");
        }
        other => panic!("expected UniformNotFound, got {:?}", other),
    }
}

#[test]
fn shader_not_found_is_the_callers_error_to_raise() {
    // The subsystem never fetches sources itself; the embedding program
    // maps a failed read to this variant and hands it on unchanged.
    let e = ShaderCompilationError::ShaderNotFound("triangle.vert.glsl".to_string());
    match e {
        ShaderCompilationError::ShaderNotFound(f) => assert_eq!(f, "triangle.vert.glsl"),
        other => panic!("unexpected {:?}", other),
    }
}

#[test]
fn error_messages_carry_the_payload_verbatim() {
    let e = ShaderCompilationError::CompileFailed(StageKind::Vertex, "0:1: bad token".to_string());
    assert_eq!(
        e.message(),
        "The vertex shader could not be compiled: 0:1: bad token"
    );
    let e = ShaderCompilationError::LinkFailed("varying mismatch".to_string());
    assert_eq!(
        e.message(),
        "The shader program could not be linked: varying mismatch"
    );
    let e = ShaderCompilationError::UniformNotFound("proj_mat".to_string());
    assert_eq!(
        e.message(),
        "The shader program does not expose the uniform: proj_mat"
    );
    let e = ShaderCompilationError::ShaderNotFound("a.vert.glsl".to_string());
    assert_eq!(
        e.message(),
        "Could not open the shader file for reading: a.vert.glsl"
    );
}

#[test]
fn glsl_type_sizes_match_their_component_counts() {
    // float, float vec3, float mat4: four bytes per component.
    assert!(type_size_known(0x1406));
    assert_eq!(type_size(0x1406), 4);
    assert_eq!(type_size(0x8B51), 12);
    assert_eq!(type_size(0x8B5C), 64);
    // bool vec4: one byte per component.
    assert_eq!(type_size(0x8B59), 4);
    // A sampler type is not a storage type the demo sizes.
    assert!(!type_size_known(0x8B5E));
}

#[test]
fn short_sources_pass_through_untouched() {
    let src = b"#version 330\nvoid main(){}";
    let (text, truncated) = prepare_source(src);
    assert!(!truncated);
    assert_eq!(text, src.to_vec());
}

#[test]
fn oversized_sources_are_truncated_with_a_warning() {
    let src = vec![b'a'; MAX_SHADER_LENGTH + 5];
    let (text, truncated) = prepare_source(&src);
    assert!(truncated);
    assert_eq!(text.len(), MAX_SHADER_LENGTH);
    assert_eq!(&text[..], &src[..MAX_SHADER_LENGTH]);
}
