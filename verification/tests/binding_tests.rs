use triforces::binding::{model_uniform_writes, shared_uniform_writes, BindingTable};
use triforces::component::{BufferHandle, EntityID, ShaderProgramHandle, Transform};
use triforces::pipeline::{
    resolve_uniforms, BuildReplies, CompileReply, LinkReply, ProgramLog, ShaderCompilationError,
    ShaderLog, ValidateReply,
};
use triforces::uniform::ShaderProgram;

fn names(list: &[&str]) -> Vec<String> {
    list.iter().map(|s| s.to_string()).collect()
}

fn program_with_uniforms(handle: u32, list: &[&str]) -> ShaderProgram {
    let locations: Vec<i32> = (0..list.len() as i32).collect();
    resolve_uniforms(ShaderProgramHandle::new(handle), &names(list), &locations).unwrap()
}

fn transform_of(seed: u32) -> Transform {
    let mut bits = [0u32; 16];
    for (i, b) in bits.iter_mut().enumerate() {
        *b = seed + i as u32;
    }
    Transform::new(bits)
}

fn bind_fully(table: &mut BindingTable, id: u32) {
    let e = EntityID::new(id);
    table.bind_program(e, program_with_uniforms(100 + id, &["model_mat", "view_mat"]));
    table.bind_texture(e, triforces::component::TextureHandle::new(200 + id));
    table.bind_buffers(e, vec![BufferHandle::new(300 + id, 400 + id)]);
    table.set_transform(e, transform_of(id));
}

#[test]
fn fully_bound_entities_each_yield_one_item() {
    let mut table = BindingTable::new();
    bind_fully(&mut table, 0);
    bind_fully(&mut table, 1);
    bind_fully(&mut table, 2);
    // A fourth entity misses its texture and must stay invisible.
    let partial = EntityID::new(3);
    table.bind_program(partial, program_with_uniforms(103, &["model_mat"]));
    table.bind_buffers(partial, vec![BufferHandle::new(303, 403)]);
    table.set_transform(partial, transform_of(3));

    let items = table.for_each_ready_entity();
    assert_eq!(items.len(), 3);
    for (i, item) in items.iter().enumerate() {
        let id = i as u32;
        assert_eq!(item.entity.get(), id);
        assert_eq!(item.program.handle.get(), 100 + id);
        assert_eq!(item.texture.get(), 200 + id);
        assert_eq!(item.buffers.len(), 1);
        assert_eq!(item.buffers[0], BufferHandle::new(300 + id, 400 + id));
        assert_eq!(item.transform.bits, transform_of(id).bits);
    }
}

#[test]
fn entity_without_texture_is_excluded_until_completed() {
    let mut table = BindingTable::new();
    let e = EntityID::new(5);
    table.bind_program(e, program_with_uniforms(105, &["model_mat"]));
    table.bind_buffers(e, vec![BufferHandle::new(305, 405)]);
    table.set_transform(e, transform_of(5));

    assert!(!table.is_ready(e));
    assert_eq!(table.for_each_ready_entity().len(), 0);

    table.bind_texture(e, triforces::component::TextureHandle::new(205));
    assert!(table.is_ready(e));
    let items = table.for_each_ready_entity();
    assert_eq!(items.len(), 1);
    assert_eq!(items[0].entity.get(), 5);
}

#[test]
fn the_walk_is_restartable_and_stable() {
    let mut table = BindingTable::new();
    bind_fully(&mut table, 2);
    bind_fully(&mut table, 0);
    bind_fully(&mut table, 7);
    let first: Vec<u32> = table.for_each_ready_entity().iter().map(|x| x.entity.get()).collect();
    let second: Vec<u32> = table.for_each_ready_entity().iter().map(|x| x.entity.get()).collect();
    assert_eq!(first, second);
    assert_eq!(first, vec![2, 0, 7]);
}

#[test]
fn set_transform_twice_keeps_only_the_latest() {
    let mut table = BindingTable::new();
    bind_fully(&mut table, 1);
    let e = EntityID::new(1);
    let first = transform_of(50);
    let second = transform_of(90);
    table.set_transform(e, first);
    table.set_transform(e, second);
    assert_eq!(table.transform(e).unwrap().bits, second.bits);
    let items = table.for_each_ready_entity();
    assert_eq!(items.len(), 1);
    assert_eq!(items[0].transform.bits, second.bits);
}

#[test]
fn rebinding_resources_is_last_write_wins() {
    let mut table = BindingTable::new();
    bind_fully(&mut table, 4);
    let e = EntityID::new(4);
    table.bind_texture(e, triforces::component::TextureHandle::new(999));
    assert_eq!(table.texture(e).unwrap().get(), 999);
    let items = table.for_each_ready_entity();
    assert_eq!(items.len(), 1);
    assert_eq!(items[0].texture.get(), 999);
}

#[test]
fn appended_buffers_join_the_existing_list() {
    let mut table = BindingTable::new();
    bind_fully(&mut table, 8);
    let e = EntityID::new(8);
    // A uniform-block buffer joins the attribute buffer after setup.
    table.append_buffer(e, BufferHandle::new(900, 0));
    let stored = table.buffers(e).unwrap();
    assert_eq!(
        *stored,
        vec![BufferHandle::new(308, 408), BufferHandle::new(900, 0)]
    );
}

fn failing_replies() -> BuildReplies {
    BuildReplies {
        vertex: CompileReply {
            ok: true,
            log: ShaderLog::new(3, String::new()),
        },
        fragment: CompileReply {
            ok: true,
            log: ShaderLog::new(4, String::new()),
        },
        link: LinkReply {
            ok: true,
            log: ProgramLog::new(9, String::new()),
        },
        validate: ValidateReply {
            ok: true,
            log: ProgramLog::new(9, String::new()),
        },
        uniform_locations: vec![0, -1],
    }
}

#[test]
fn failed_registration_leaves_the_table_untouched() {
    let mut table = BindingTable::new();
    let e = EntityID::new(6);
    let uniform_names = names(&["model_mat", "absent_mat"]);
    let r = table.install_program(e, &uniform_names, &failing_replies());
    match r {
        Err(ShaderCompilationError::UniformNotFound(name)) => {
            assert_eq!(name, "absent_mat");
        }
        other => panic!("expected UniformNotFound, got {:?}", other),
    }
    assert!(table.program(e).is_none());
    assert!(!table.is_ready(e));
    assert_eq!(table.for_each_ready_entity().len(), 0);
}

#[test]
fn successful_registration_binds_the_program() {
    let mut table = BindingTable::new();
    let e = EntityID::new(6);
    let uniform_names = names(&["model_mat", "view_mat"]);
    let mut replies = failing_replies();
    replies.uniform_locations = vec![0, 1];
    let r = table.install_program(e, &uniform_names, &replies).unwrap();
    assert_eq!(r.program.handle.get(), 9);
    let stored = table.program(e).expect("program must be bound");
    assert_eq!(stored.handle.get(), 9);
    let name = "view_mat".to_string();
    assert_eq!(stored.uniforms.get(&name).unwrap().get(), 1);
}

#[test]
fn frame_writes_use_the_resolved_locations() {
    let mut table = BindingTable::new();
    bind_fully(&mut table, 0);
    bind_fully(&mut table, 1);
    let items = table.for_each_ready_entity();

    let model = "model_mat".to_string();
    let writes = model_uniform_writes(&items, &model);
    assert_eq!(writes.len(), 2);
    for (i, w) in writes.iter().enumerate() {
        let id = i as u32;
        assert_eq!(w.program.get(), 100 + id);
        assert_eq!(w.location.get(), 0);
        assert_eq!(w.transform.bits, transform_of(id).bits);
    }

    let view = "view_mat".to_string();
    let camera = transform_of(77);
    let shared = shared_uniform_writes(&items, &view, camera);
    assert_eq!(shared.len(), 2);
    for (i, w) in shared.iter().enumerate() {
        let id = i as u32;
        assert_eq!(w.program.get(), 100 + id);
        assert_eq!(w.location.get(), 1);
        assert_eq!(w.transform.bits, camera.bits);
    }
}
