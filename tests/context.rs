use terra_graphics_engine::context::{init_opengl_drawing, TContext, DEFAULT_SHADER};

#[test]
fn fresh_context_is_not_ready() {
    let ctx = TContext::init();
    assert!(!ctx.is_ready());
    assert!(!ctx.has_shader_program(&DEFAULT_SHADER.to_string()));
}

#[test]
fn registry_adds_and_replaces() {
    let mut ctx = TContext::init();
    assert!(!ctx.has_shader_program(&"a".to_string()));
    ctx.add_shader_program("a".to_string(), 3);
    ctx.add_shader_program("b".to_string(), 4);
    assert!(ctx.has_shader_program(&"a".to_string()));
    assert_eq!(ctx.get_shader_program("a".to_string()), 3);
    assert_eq!(ctx.get_shader_program("b".to_string()), 4);
    ctx.add_shader_program("a".to_string(), 9);
    assert_eq!(ctx.get_shader_program("a".to_string()), 9);
    assert_eq!(ctx.get_shader_program("b".to_string()), 4);
    assert!(!ctx.has_shader_program(&"c".to_string()));
}

#[test]
fn activation_uses_requested_program_every_time() {
    let mut ctx = TContext::init();
    ctx.add_shader_program("first".to_string(), 5);
    ctx.add_shader_program("second".to_string(), 6);
    assert_eq!(ctx.set_shader_program("first".to_string()), 5);
    assert_eq!(ctx.set_shader_program("second".to_string()), 6);
    assert_eq!(ctx.set_shader_program("first".to_string()), 5);
    // the active slot keeps the program that filled it first
    assert_eq!(ctx.get_glob_glprogam(), 5);
}

#[test]
fn setup_twice_keeps_vertex_objects() {
    let mut ctx = TContext::init();
    assert_eq!(init_opengl_drawing(&mut ctx, 1, 10, 20), 1);
    assert!(ctx.is_ready());
    assert_eq!(ctx.get_gl_parameters(), (10, 20, 1));
    assert_eq!(init_opengl_drawing(&mut ctx, 2, 11, 21), 2);
    assert_eq!(ctx.get_gl_parameters(), (10, 20, 1));
    assert_eq!(ctx.get_glob_vao(), 10);
    assert_eq!(ctx.get_glob_vbo(), 20);
    assert_eq!(ctx.get_shader_program("default-shader".to_string()), 2);
}

#[test]
fn active_program_alone_is_not_ready() {
    let mut ctx = TContext::init();
    ctx.add_shader_program("p".to_string(), 7);
    assert_eq!(ctx.set_shader_program("p".to_string()), 7);
    assert_eq!(ctx.get_glob_glprogam(), 7);
    assert!(!ctx.is_ready());
}
