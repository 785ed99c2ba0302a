use triforces::config::{
    join_path, FileConfig, PathConfig, PlatformConfig, ProgramConfig, TargetOs,
};

#[test]
fn join_inserts_a_separator() {
    let r = join_path(&"data".to_string(), &"assets".to_string());
    assert_eq!(r, "data/assets");
}

#[test]
fn join_keeps_an_existing_separator() {
    let r = join_path(&"data/".to_string(), &"assets".to_string());
    assert_eq!(r, "data/assets");
}

#[test]
fn join_with_empty_left_side_is_the_right_side() {
    let r = join_path(&"".to_string(), &"assets".to_string());
    assert_eq!(r, "assets");
}

#[test]
fn an_absolute_right_side_replaces_the_left() {
    let r = join_path(&"data".to_string(), &"/opt/assets".to_string());
    assert_eq!(r, "/opt/assets");
}

fn sample_file_config() -> FileConfig {
    FileConfig::new(
        "gl.log".to_string(),
        "shaders".to_string(),
        "330".to_string(),
        "assets".to_string(),
        PlatformConfig::new("330".to_string(), "460".to_string(), "420".to_string()),
    )
}

#[test]
fn program_config_joins_onto_the_data_directory() {
    let paths = PathConfig::new(
        "/home/demo/.config".to_string(),
        "/home/demo/bin".to_string(),
        "/home/demo/data".to_string(),
    );
    let config = ProgramConfig::new(paths, sample_file_config());
    assert_eq!(config.config_home, "/home/demo/.config");
    assert_eq!(config.bin_dir, "/home/demo/bin");
    assert_eq!(config.data_dir, "/home/demo/data");
    assert_eq!(config.log_file, "/home/demo/data/gl.log");
    assert_eq!(config.shader_path, "/home/demo/data/shaders");
    assert_eq!(config.shader_version, "330");
    assert_eq!(config.asset_path, "/home/demo/data/assets");
}

#[test]
fn the_platform_section_overrides_the_shader_version() {
    let mut file_config = sample_file_config();
    file_config.apply_platform(TargetOs::Linux);
    assert_eq!(file_config.shader_version, "420");
    file_config.apply_platform(TargetOs::Windows);
    assert_eq!(file_config.shader_version, "460");
    file_config.apply_platform(TargetOs::MacOs);
    assert_eq!(file_config.shader_version, "330");
}

#[test]
fn shader_and_asset_files_resolve_under_their_directories() {
    let paths = PathConfig::new(
        "/c".to_string(),
        "/b".to_string(),
        "/d".to_string(),
    );
    let config = ProgramConfig::new(paths, sample_file_config());
    let shader = config.shader_file(&"triangle.vert.glsl".to_string());
    assert_eq!(shader, "/d/shaders/330/triangle.vert.glsl");
    let asset = config.asset_file(&"triangle.png".to_string());
    assert_eq!(asset, "/d/assets/triangle.png");
}
