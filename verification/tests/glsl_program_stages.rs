use usd_hd_st::glsl_program::{CompileStatus, HdStGLSLProgram, HdStGLSLProgramBuilder};
use usd_hd_st::shader_code::ShaderStage;

#[test]
fn test_glsl_program_creation() {
    let program = HdStGLSLProgram::new(42);
    assert_eq!(program.get_id(), 42);
    assert_eq!(program.get_compile_status(), CompileStatus::NotCompiled);
    assert!(!program.is_valid());
}

#[test]
fn test_add_stage() {
    let mut program = HdStGLSLProgram::new(1);
    program.add_stage(ShaderStage::Vertex, "#version 450\nvoid main() {}".to_string());
    assert!(program.get_stage_source(ShaderStage::Vertex).is_some());
    assert!(program.get_stage_source(ShaderStage::Fragment).is_none());
}

#[test]
fn test_compile() {
    let mut program = HdStGLSLProgram::new(1);
    program.add_stage(ShaderStage::Vertex, "#version 450\nvoid main() {}".to_string());
    program.add_stage(
        ShaderStage::Fragment,
        "#version 450\nout vec4 color; void main() { color = vec4(1.0); }".to_string(),
    );
    assert!(program.compile());
    assert_eq!(program.get_compile_status(), CompileStatus::Success);
}

#[test]
fn test_link() {
    let mut program = HdStGLSLProgram::new(1);
    program.add_stage(ShaderStage::Vertex, "#version 450\nvoid main() {}".to_string());
    program.add_stage(ShaderStage::Fragment, "#version 450\nout vec4 color; void main() {}".to_string());
    assert!(program.compile());
    assert!(program.link());
    assert_eq!(program.get_link_status(), CompileStatus::Success);
    assert!(program.is_valid());
}

#[test]
fn test_validation() {
    let mut program = HdStGLSLProgram::new(1);
    program.add_stage(ShaderStage::Vertex, "#version 450\nvoid main() {}".to_string());
    assert!(program.compile());
    assert!(!program.link());
}

#[test]
fn test_uniform_locations() {
    let mut program = HdStGLSLProgram::new(1);
    let loc1 = program.get_uniform_location("color");
    assert!(loc1.is_some());
    let loc2 = program.get_uniform_location("color");
    assert_eq!(loc1, loc2);
}

#[test]
fn test_texture_units() {
    let mut program = HdStGLSLProgram::new(1);
    program.set_texture_unit("diffuseMap".to_string(), 0);
    assert_eq!(program.get_texture_unit("diffuseMap"), Some(0));
}

#[test]
fn test_builder() {
    let program = HdStGLSLProgramBuilder::new()
        .id(123)
        .vertex("#version 450\nvoid main() {}".to_string())
        .fragment("#version 450\nout vec4 color; void main() {}".to_string())
        .build();
    assert_eq!(program.get_id(), 123);
    assert!(program.get_stage_source(ShaderStage::Vertex).is_some());
    assert!(program.get_stage_source(ShaderStage::Fragment).is_some());
}

#[test]
fn test_get_stages() {
    let mut program = HdStGLSLProgram::new(1);
    program.add_stage(ShaderStage::Vertex, "#version 450\nvoid main() {}".to_string());
    program.add_stage(ShaderStage::Fragment, "#version 450\nout vec4 color; void main() {}".to_string());
    let stages = program.get_stages();
    assert_eq!(stages.len(), 2);
    assert!(stages.contains(&ShaderStage::Vertex));
    assert!(stages.contains(&ShaderStage::Fragment));
}

#[test]
fn blank_stage_fails_compile() {
    let mut program = HdStGLSLProgram::new(9);
    program.add_stage(ShaderStage::Vertex, "   \n\t".to_string());
    assert!(!program.compile());
    assert_eq!(program.get_compile_status(), CompileStatus::Failed);
    assert!(!program.get_error_log().is_empty());
    assert!(!program.link());
    assert!(!program.is_valid());
}

#[test]
fn distinct_uniforms_get_distinct_locations() {
    let mut program = HdStGLSLProgram::new(1);
    let a = program.get_uniform_location("a").unwrap();
    let b = program.get_uniform_location("b").unwrap();
    assert_ne!(a, b);
    assert_eq!(program.get_uniform_location("a"), Some(a));
    assert_eq!(program.get_texture_unit("unknown"), None);
    program.set_texture_unit("tex".to_string(), 3);
    program.set_texture_unit("tex".to_string(), 5);
    assert_eq!(program.get_texture_unit("tex"), Some(5));
}
