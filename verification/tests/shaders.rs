use render_core::device::Command;
use render_core::kinds::ShaderType;
use render_core::shader::{shader_from_source, CompileReply, ComputeProgram, LinkReply, Program, Shader};

fn compiled(id: u32, kind: ShaderType) -> Shader {
    Shader::from_source(kind, CompileReply { shader: id, status: 1, log: String::new() }).unwrap()
}

fn linked(id: u32) -> Program {
    Program::from_shaders(LinkReply { program: id, status: 1, log: String::new() }).unwrap()
}

#[test]
fn source_is_passed_through_unchanged() {
    let source = "#version 430\n  void main() { }\t// trailing\n";
    assert_eq!(
        Shader::compile_command(source, ShaderType::Geometry),
        Command::CompileShader { kind: ShaderType::Geometry, source: source.to_string() }
    );
}

#[test]
fn failed_compile_gives_the_log_as_it_is() {
    let log = "0:3(1): error: syntax error, unexpected '}'\n";
    let reply = CompileReply { shader: 4, status: 0, log: log.to_string() };
    let error = Shader::from_source(ShaderType::Vertex, reply).unwrap_err();
    assert!(!error.is_empty());
    assert_eq!(error, log);
}

#[test]
fn compiled_shader_keeps_name_and_stage() {
    let s = compiled(12, ShaderType::Compute);
    assert_eq!(s.id(), 12);
    assert_eq!(s.kind(), ShaderType::Compute);
    let v = Shader::from_vertex_source(CompileReply { shader: 1, status: 1, log: String::new() }).unwrap();
    assert_eq!(v.kind(), ShaderType::Vertex);
    let f = Shader::from_frag_source(CompileReply { shader: 2, status: 1, log: "warning".to_string() }).unwrap();
    assert_eq!(f.kind(), ShaderType::Fragment);
    assert_eq!(f.id(), 2);
}

#[test]
fn any_status_but_zero_is_success() {
    assert_eq!(shader_from_source(CompileReply { shader: 3, status: -1, log: "x".to_string() }), Ok(3));
    assert_eq!(shader_from_source(CompileReply { shader: 3, status: 1, log: "x".to_string() }), Ok(3));
    assert_eq!(
        shader_from_source(CompileReply { shader: 3, status: 0, log: "x".to_string() }),
        Err("x".to_string())
    );
    assert_eq!(
        shader_from_source(CompileReply { shader: 3, status: 0, log: String::new() }),
        Err(String::new())
    );
}

#[test]
fn link_attaches_links_and_detaches_in_order() {
    let shaders = [compiled(5, ShaderType::Vertex), compiled(6, ShaderType::Fragment)];
    assert_eq!(
        Program::link_commands(9, &shaders),
        vec![
            Command::AttachShader { program: 9, shader: 5 },
            Command::AttachShader { program: 9, shader: 6 },
            Command::LinkProgram { program: 9 },
            Command::DetachShader { program: 9, shader: 5 },
            Command::DetachShader { program: 9, shader: 6 },
        ]
    );
    assert_eq!(Program::link_commands(9, &[]), vec![Command::LinkProgram { program: 9 }]);
}

#[test]
fn failed_link_gives_the_log_as_it_is() {
    let log = "error: linking with uncompiled/unspecialized shader";
    let error = Program::from_shaders(LinkReply { program: 9, status: 0, log: log.to_string() }).unwrap_err();
    assert_eq!(error, log);
}

#[test]
fn linked_vertex_and_fragment_pair_is_a_program() {
    let p = linked(9);
    assert_eq!(p.id(), 9);
    assert_eq!(p.set_used(), Command::UseProgram { id: 9 });
    assert_eq!(p.get_uniform_location("windowSize"), None);
}

#[test]
fn resolved_location_is_returned_from_the_cache() {
    let mut p = linked(2);
    assert_eq!(p.get_uniform_location("windowSize"), None);
    assert_eq!(p.record_uniform_location("windowSize", 3), 3);
    assert_eq!(p.get_uniform_location("windowSize"), Some(3));
    assert_eq!(p.get_uniform_location("windowSize"), Some(3));
    assert_eq!(p.get_uniform_location("windowsize"), None);
    assert_eq!(p.record_uniform_location("time", 0), 0);
    assert_eq!(p.get_uniform_location("windowSize"), Some(3));
    assert_eq!(p.get_uniform_location("time"), Some(0));
}

#[test]
fn missing_uniform_is_remembered_as_missing() {
    let mut p = linked(2);
    assert_eq!(p.record_uniform_location("absent", -1), -1);
    assert_eq!(p.get_uniform_location("absent"), Some(-1));
    assert_eq!(p.get_uniform_location("absent"), Some(-1));
}

#[test]
fn recorded_location_is_never_replaced() {
    let mut p = linked(2);
    assert_eq!(p.record_uniform_location("a", 4), 4);
    assert_eq!(p.record_uniform_location("a", 9), 4);
    assert_eq!(p.get_uniform_location("a"), Some(4));
    assert_eq!(p.record_uniform_location("", 1), 1);
    assert_eq!(p.get_uniform_location(""), Some(1));
}

#[test]
fn setters_activate_the_program_before_writing() {
    let mut p = linked(8);
    p.record_uniform_location("count", 2);
    p.record_uniform_location("scale", 5);
    assert_eq!(
        p.set_int("count", -7),
        Some(vec![Command::UseProgram { id: 8 }, Command::Uniform1i { location: 2, value: -7 }])
    );
    assert_eq!(
        p.set_float("scale", 1.5f32.to_bits()),
        Some(vec![Command::UseProgram { id: 8 }, Command::Uniform1f { location: 5, bits: 0x3FC0_0000 }])
    );
    assert_eq!(
        p.set_vec2("scale", (1.0f32.to_bits(), 2.0f32.to_bits())),
        Some(vec![
            Command::UseProgram { id: 8 },
            Command::Uniform2f { location: 5, x_bits: 0x3F80_0000, y_bits: 0x4000_0000 },
        ])
    );
    assert_eq!(
        p.set_vec3("scale", (0, 1, 2)),
        Some(vec![
            Command::UseProgram { id: 8 },
            Command::Uniform3f { location: 5, x_bits: 0, y_bits: 1, z_bits: 2 },
        ])
    );
}

#[test]
fn setters_write_nothing_before_the_location_is_known() {
    let p = linked(8);
    assert_eq!(p.set_int("count", 1), None);
    assert_eq!(p.set_float("count", 1), None);
    assert_eq!(p.set_vec2("count", (1, 2)), None);
    assert_eq!(p.set_vec3("count", (1, 2, 3)), None);
}

#[test]
fn dispatch_ends_with_a_barrier() {
    let shader = compiled(1, ShaderType::Compute);
    let c = ComputeProgram::from_source(&shader, LinkReply { program: 4, status: 1, log: String::new() }).unwrap();
    assert_eq!(
        c.execute(4, 1, 1),
        vec![
            Command::UseProgram { id: 4 },
            Command::DispatchCompute { x: 4, y: 1, z: 1 },
            Command::MemoryBarrierAll,
        ]
    );
    assert_eq!(c.set_used(), Command::UseProgram { id: 4 });
    assert_eq!(c.get_program().id(), 4);
}

#[test]
fn compute_program_reports_a_failed_link() {
    let shader = compiled(1, ShaderType::Compute);
    let r = ComputeProgram::from_source(&shader, LinkReply { program: 4, status: 0, log: "bad".to_string() });
    assert_eq!(r.unwrap_err(), "bad");
}

#[test]
fn compute_program_lends_its_program_for_uniforms() {
    let shader = compiled(1, ShaderType::Compute);
    let mut c = ComputeProgram::from_source(&shader, LinkReply { program: 4, status: 1, log: String::new() }).unwrap();
    c.get_program_mut().record_uniform_location("n", 6);
    assert_eq!(c.get_program().get_uniform_location("n"), Some(6));
}

#[test]
fn program_and_shader_are_deleted_once_each() {
    let mut shader = compiled(3, ShaderType::Vertex);
    let shaders = [compiled(4, ShaderType::Fragment)];
    let mut first = linked(10);
    let mut second = linked(11);
    assert_eq!(Program::link_commands(10, &shaders).len(), 3);
    assert_eq!(Program::link_commands(11, &shaders).len(), 3);
    assert_eq!(first.release(), Some(Command::DeleteProgram { id: 10 }));
    assert_eq!(first.release(), None);
    assert_eq!(second.release(), Some(Command::DeleteProgram { id: 11 }));
    assert_eq!(second.release(), None);
    assert_eq!(shader.release(), Some(Command::DeleteShader { id: 3 }));
    assert_eq!(shader.release(), None);
}

#[test]
fn stage_constants_are_the_devices() {
    assert_eq!(ShaderType::Vertex.raw(), 0x8B31);
    assert_eq!(ShaderType::Fragment.raw(), 0x8B30);
    assert_eq!(ShaderType::Compute.raw(), 0x91B9);
    assert_eq!(ShaderType::Geometry.raw(), 0x8DD9);
}
