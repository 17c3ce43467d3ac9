use gravylib::shader::{replace_dashes, RawShader, Shader, ShaderType};

#[test]
fn replace_dashes_touches_only_dashes() {
    assert_eq!(replace_dashes("my-shader-crate"), "my_shader_crate".to_string());
    assert_eq!(replace_dashes("no_dashes_here"), "no_dashes_here".to_string());
    assert_eq!(replace_dashes(""), "".to_string());
    assert_eq!(replace_dashes("---"), "___".to_string());
}

#[test]
fn registration_record_resolves_to_binary_path() {
    let raw = RawShader {
        shader_type: ShaderType::Pixel,
        crate_name: "example-shaders",
        crate_path: "/build/shaders",
        entry_point: "main_fs",
    };
    let shader = Shader::from_raw(&raw);
    assert_eq!(shader.shader_type, ShaderType::Pixel);
    assert_eq!(shader.bin_path, "/build/shaders/example_shaders.spv".to_string());
    assert_eq!(shader.entry_point, "main_fs".to_string());
}
