use triforces::component::{
    BufferHandle, EntityID, ShaderProgramHandle, ShaderStageHandle, ShaderUniformHandle,
    TextureHandle, Transform,
};
use triforces::uniform::{ShaderProgram, ShaderSource, UniformMap};

#[test]
fn handles_round_trip_their_raw_ids() {
    assert_eq!(ShaderStageHandle::new(11).get(), 11);
    assert_eq!(ShaderProgramHandle::new(12).get(), 12);
    assert_eq!(ShaderUniformHandle::new(-1).get(), -1);
    assert_eq!(TextureHandle::new(13).get(), 13);
    assert_eq!(EntityID::new(14).get(), 14);
    let b = BufferHandle::new(20, 21);
    assert_eq!(b.vbo, 20);
    assert_eq!(b.vao, 21);
}

#[test]
fn handles_of_equal_ids_are_equal() {
    assert_eq!(ShaderProgramHandle::new(5), ShaderProgramHandle::new(5));
    assert_ne!(ShaderUniformHandle::new(5).get(), ShaderUniformHandle::new(6).get());
}

#[test]
fn transforms_carry_their_bit_patterns() {
    let mut bits = [0u32; 16];
    bits[3] = 0xDEAD_BEEF;
    let t = Transform::new(bits);
    assert_eq!(t.bits, bits);
}

#[test]
fn shader_source_keeps_text_and_uniform_list() {
    let src = ShaderSource::new(
        "#version 330\nvoid main(){}".to_string(),
        vec!["model_mat".to_string(), "view_mat".to_string()],
    );
    assert_eq!(src.source(), "#version 330\nvoid main(){}");
    assert_eq!(src.names().len(), 2);
    assert_eq!(src.names()[0], "model_mat");
}

#[test]
fn a_new_program_has_no_uniforms_yet() {
    let sp = ShaderProgram::new(ShaderProgramHandle::new(9));
    assert_eq!(sp.handle.get(), 9);
    assert_eq!(sp.uniforms.len(), 0);
    assert!(sp.uniforms.get(&"model_mat".to_string()).is_none());
}

#[test]
fn uniform_map_binds_and_overwrites_by_name() {
    let mut um = UniformMap::new();
    um.insert("model_mat".to_string(), ShaderUniformHandle::new(0));
    um.insert("view_mat".to_string(), ShaderUniformHandle::new(1));
    assert_eq!(um.len(), 2);
    assert!(um.contains_name(&"view_mat".to_string()));
    assert!(!um.contains_name(&"proj_mat".to_string()));
    // A later bind for the same name wins without growing the table.
    um.insert("view_mat".to_string(), ShaderUniformHandle::new(7));
    assert_eq!(um.len(), 2);
    assert_eq!(um.get(&"view_mat".to_string()).unwrap().get(), 7);
    assert_eq!(um.lookup(&"model_mat".to_string()).get(), 0);
}

#[test]
fn duplicated_programs_answer_the_same_queries() {
    let mut sp = ShaderProgram::new(ShaderProgramHandle::new(9));
    sp.uniforms
        .insert("model_mat".to_string(), ShaderUniformHandle::new(3));
    let copy = sp.duplicate();
    assert_eq!(copy.handle.get(), 9);
    assert_eq!(copy.uniforms.get(&"model_mat".to_string()).unwrap().get(), 3);
    assert!(copy.uniforms.get(&"view_mat".to_string()).is_none());
}
