use glfw_app::context::GlContext;
use glfw_app::context::ResourceError;
use glfw_app::gl_component::GLComponent;
use glfw_app::shader::failed_stages;
use glfw_app::shader::Shader;
use glfw_app::shader::ShaderError;
use glfw_app::shader::ShaderStage;
use glfw_app::ShaderBuilder;

#[test]
fn split_two_sections() {
    let builder = ShaderBuilder::default()
        .with_shader_source("#shader vertex\nA\n#shader fragment\nB\n".to_string())
        .unwrap();
    let sources = builder.build().unwrap();
    assert_eq!(sources.vertex, "A\n");
    assert_eq!(sources.fragment, "B\n");
}

#[test]
fn split_keeps_line_order_and_terminates_lines() {
    let text = "#shader vertex\nv1\nv2\n#shader fragment\nf1\nf2\nf3\n";
    let sources =
        ShaderBuilder::default().with_shader_source(text.to_string()).unwrap().build().unwrap();
    assert_eq!(sources.vertex, "v1\nv2\n");
    assert_eq!(sources.fragment, "f1\nf2\nf3\n");
}

#[test]
fn split_adds_newline_to_unterminated_final_line() {
    let text = "#shader vertex\nA\n#shader fragment\nB";
    let sources =
        ShaderBuilder::default().with_shader_source(text.to_string()).unwrap().build().unwrap();
    assert_eq!(sources.vertex, "A\n");
    assert_eq!(sources.fragment, "B\n");
}

#[test]
fn split_strips_carriage_returns_before_line_feeds() {
    let text = "#shader vertex\r\nA\r\n#shader fragment\r\nB\r\n";
    let sources =
        ShaderBuilder::default().with_shader_source(text.to_string()).unwrap().build().unwrap();
    assert_eq!(sources.vertex, "A\n");
    assert_eq!(sources.fragment, "B\n");
}

#[test]
fn split_drops_lines_before_any_marker() {
    let text = "junk\n#shader vertex\nA\n#shader fragment\nB\n";
    let sources =
        ShaderBuilder::default().with_shader_source(text.to_string()).unwrap().build().unwrap();
    assert_eq!(sources.vertex, "A\n");
    assert_eq!(sources.fragment, "B\n");
}

#[test]
fn repeated_marker_resets_its_section() {
    let text = "#shader vertex\nL1\n#shader vertex\nL2\n#shader fragment\nF\n";
    let sources =
        ShaderBuilder::default().with_shader_source(text.to_string()).unwrap().build().unwrap();
    assert_eq!(sources.vertex, "L2\n");
    assert_eq!(sources.fragment, "F\n");
}

#[test]
fn repeated_fragment_marker_resets_only_the_fragment_section() {
    let text = "#shader vertex\nV\n#shader fragment\nF1\n#shader fragment\nF2\n";
    let sources =
        ShaderBuilder::default().with_shader_source(text.to_string()).unwrap().build().unwrap();
    assert_eq!(sources.vertex, "V\n");
    assert_eq!(sources.fragment, "F2\n");
}

#[test]
fn unrecognized_marker_keeps_current_section() {
    let text = "#shader vertex\nA\n#shader geometry\nB\n#shader fragment\nC\n";
    let sources =
        ShaderBuilder::default().with_shader_source(text.to_string()).unwrap().build().unwrap();
    assert_eq!(sources.vertex, "A\nB\n");
    assert_eq!(sources.fragment, "C\n");
}

#[test]
fn splitting_empty_text_sets_both_sections_empty() {
    let sources =
        ShaderBuilder::default().with_shader_source(String::new()).unwrap().build().unwrap();
    assert_eq!(sources.vertex, "");
    assert_eq!(sources.fragment, "");
}

#[test]
fn build_fails_without_any_section() {
    let r = ShaderBuilder::default().build();
    assert_eq!(r.err(), Some(ShaderError::MissingFragmentSource));
}

#[test]
fn build_fails_without_vertex_section() {
    let builder = ShaderBuilder::default().with_fragment("f".to_string()).unwrap();
    assert_eq!(builder.build().err(), Some(ShaderError::MissingVertexSource));
}

#[test]
fn build_fails_without_fragment_section() {
    let builder = ShaderBuilder::default().with_vertex("v".to_string()).unwrap();
    assert_eq!(builder.build().err(), Some(ShaderError::MissingFragmentSource));
}

#[test]
fn failed_stages_reports_in_stage_order() {
    assert_eq!(failed_stages(true, true, true), vec![]);
    assert_eq!(
        failed_stages(false, true, false),
        vec![ShaderStage::Fragment, ShaderStage::Program]
    );
    assert_eq!(
        failed_stages(false, false, false),
        vec![ShaderStage::Fragment, ShaderStage::Vertex, ShaderStage::Program]
    );
    assert_eq!(failed_stages(true, false, true), vec![ShaderStage::Vertex]);
}

#[test]
fn shader_wrapper_owns_nonzero_program_handle() {
    let mut ctx = GlContext::new();
    assert_eq!(Shader::new(&mut ctx, 0).err(), Some(ResourceError::ZeroHandle));
    let shader = Shader::new(&mut ctx, 9).unwrap();
    assert_eq!(shader.renderer_id(), 9);
    assert_eq!(Shader::new(&mut ctx, 9).err(), Some(ResourceError::HandleInUse));
}
