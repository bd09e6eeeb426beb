use usd_hd_st::glsl_program::CompileStatus;

#[test]
fn test_compile_status() {
    assert_eq!(CompileStatus::NotCompiled, CompileStatus::NotCompiled);
    assert_ne!(CompileStatus::Success, CompileStatus::Failed);
}
