use canvas_control::clock::Span;
use canvas_control::command::{Command, KnownAttribute, KnownUniform, Stage, UniformValue};
use canvas_control::shader::{
    AttributeHandle, CompileError, LinkError, LinkReport, ShaderProgram, UniformHandle,
};

fn text(s: &str) -> String {
    String::from(s)
}

fn names(list: &[&str]) -> Vec<String> {
    list.iter().map(|name| String::from(*name)).collect()
}

fn report(uniforms: &[&str], attributes: &[&str]) -> LinkReport {
    LinkReport {
        linked: true,
        log: String::new(),
        uniforms: names(uniforms),
        attributes: names(attributes),
    }
}

fn program(id: u64, uniforms: &[&str], attributes: &[&str]) -> ShaderProgram {
    match ShaderProgram::link(id, report(uniforms, attributes)) {
        Ok(program) => program,
        Err(error) => panic!("the program did not link: {:?}", error),
    }
}

#[test]
fn known_names_are_those_of_the_sources() {
    assert_eq!(KnownUniform::CanvasSize.name(), "canvasSize");
    assert_eq!(KnownUniform::Time.name(), "u_time");
    assert_eq!(KnownAttribute::Position.name(), "a_position");
}

#[test]
fn compile_succeeds_when_the_compiler_is_silent() {
    assert_eq!(ShaderProgram::compile(String::new(), String::new()), Ok(()));
}

#[test]
fn compile_reports_the_vertex_stage() {
    let result = ShaderProgram::compile(text("ERROR: 0:1: syntax error"), String::new());
    assert_eq!(result, Err(CompileError::Vertex(text("ERROR: 0:1: syntax error"))));
    let error = result.unwrap_err();
    assert_eq!(error.stage(), Stage::Vertex);
    assert_eq!(error.diagnostics(), "ERROR: 0:1: syntax error");
}

#[test]
fn compile_reports_the_fragment_stage() {
    let result = ShaderProgram::compile(String::new(), text("ERROR: 0:7: undeclared"));
    assert_eq!(result, Err(CompileError::Fragment(text("ERROR: 0:7: undeclared"))));
    let error = result.unwrap_err();
    assert_eq!(error.stage(), Stage::Fragment);
    assert_eq!(error.diagnostics(), "ERROR: 0:7: undeclared");
}

#[test]
fn compile_reports_the_vertex_stage_first_when_both_fail() {
    let result = ShaderProgram::compile(text("bad vertex"), text("bad fragment"));
    assert_eq!(result, Err(CompileError::Vertex(text("bad vertex"))));
}

#[test]
fn compile_takes_a_single_character_for_a_failure() {
    assert_eq!(
        ShaderProgram::compile(text(" "), String::new()),
        Err(CompileError::Vertex(text(" ")))
    );
    assert_eq!(
        ShaderProgram::compile(String::new(), text("\n")),
        Err(CompileError::Fragment(text("\n")))
    );
}

#[test]
fn link_fails_when_the_program_is_not_marked_linked() {
    let unlinked = LinkReport {
        linked: false,
        log: text("varying mismatch"),
        uniforms: names(&["u_time"]),
        attributes: names(&["a_position"]),
    };
    let result = ShaderProgram::link(3, unlinked);
    match result {
        Err(error) => assert_eq!(error, LinkError { log: text("varying mismatch") }),
        Ok(program) => panic!("linked after all: {:?}", program),
    }
}

#[test]
fn link_fails_without_a_word_from_the_linker_too() {
    let unlinked =
        LinkReport { linked: false, log: String::new(), uniforms: Vec::new(), attributes: Vec::new() };
    assert!(matches!(ShaderProgram::link(1, unlinked), Err(LinkError { log }) if log.is_empty()));
}

#[test]
fn link_succeeds_even_when_the_linker_warned() {
    let warned = LinkReport {
        linked: true,
        log: text("warning: unused varying"),
        uniforms: names(&["u_time"]),
        attributes: Vec::new(),
    };
    let program = ShaderProgram::link(8, warned).unwrap();
    assert_eq!(program.id(), 8);
    assert_eq!(program.resolve_uniform("u_time"), Some(UniformHandle { program: 8, slot: 0 }));
}

#[test]
fn resolve_uniform_finds_the_slot_of_the_name() {
    let program = program(5, &["canvasSize", "u_time", "u_sampler"], &["a_position"]);
    assert_eq!(program.resolve_uniform("canvasSize"), Some(UniformHandle { program: 5, slot: 0 }));
    assert_eq!(program.resolve_uniform("u_time"), Some(UniformHandle { program: 5, slot: 1 }));
    assert_eq!(program.resolve_uniform("u_sampler"), Some(UniformHandle { program: 5, slot: 2 }));
}

#[test]
fn resolve_uniform_of_an_absent_name_is_none() {
    let program = program(5, &["canvasSize", "u_time"], &["a_position"]);
    assert_eq!(program.resolve_uniform("u_mouse"), None);
    assert_eq!(program.resolve_uniform("a_position"), None);
    assert_eq!(program.resolve_uniform(""), None);
    assert_eq!(program.resolve_uniform("u_tim"), None);
    assert_eq!(program.resolve_uniform("u_time "), None);
    assert_eq!(program.resolve_uniform("U_TIME"), None);
    let bare = ShaderProgram::link(6, report(&[], &[])).unwrap();
    assert_eq!(bare.resolve_uniform("u_time"), None);
    assert_eq!(bare.resolve_attribute("a_position"), None);
}

#[test]
fn resolve_uniform_takes_the_first_of_equal_names() {
    let program = program(2, &["a", "b", "a", "b"], &[]);
    assert_eq!(program.resolve_uniform("a"), Some(UniformHandle { program: 2, slot: 0 }));
    assert_eq!(program.resolve_uniform("b"), Some(UniformHandle { program: 2, slot: 1 }));
}

#[test]
fn resolve_attribute_finds_the_slot_of_the_name() {
    let program = program(9, &["u_time"], &["a_normal", "a_position"]);
    assert_eq!(
        program.resolve_attribute("a_position"),
        Some(AttributeHandle { program: 9, slot: 1 })
    );
    assert_eq!(
        program.resolve_attribute("a_normal"),
        Some(AttributeHandle { program: 9, slot: 0 })
    );
    assert_eq!(program.resolve_attribute("u_time"), None);
    assert_eq!(program.resolve_attribute("a_colour"), None);
}

#[test]
fn activate_makes_the_program_current() {
    let program = program(11, &[], &[]);
    assert_eq!(program.activate(), Command::UseProgram { program: 11 });
}

#[test]
fn set_uniform_through_a_resolved_handle_sets_it() {
    let program = program(5, &["canvasSize", "u_time"], &[]);
    let time = program.resolve_uniform("u_time");
    let value = UniformValue::Time(Span { millis: 16 });
    assert_eq!(
        program.set_uniform(time, value),
        Some(Command::SetUniform { program: 5, slot: 1, value })
    );
    let size = program.resolve_uniform("canvasSize");
    let value = UniformValue::Size { width: 640, height: 480 };
    assert_eq!(
        program.set_uniform(size, value),
        Some(Command::SetUniform { program: 5, slot: 0, value })
    );
}

#[test]
fn set_uniform_through_an_absent_name_is_a_no_op() {
    let program = program(5, &["canvasSize"], &[]);
    let missing = program.resolve_uniform("u_time");
    assert_eq!(missing, None);
    for millis in [0, 16, 1_000, u64::MAX] {
        assert_eq!(program.set_uniform(missing, UniformValue::Time(Span { millis })), None);
    }
    assert_eq!(program.set_uniform(missing, UniformValue::Size { width: 1, height: 2 }), None);
}

#[test]
fn set_uniform_through_a_handle_of_another_program_is_a_no_op() {
    let old = program(5, &["canvasSize", "u_time"], &[]);
    let new = program(6, &["canvasSize", "u_time"], &[]);
    let handle = old.resolve_uniform("u_time");
    let value = UniformValue::Time(Span { millis: 1 });
    assert_eq!(new.set_uniform(handle, value), None);
    assert_eq!(
        new.set_uniform(new.resolve_uniform("u_time"), value),
        Some(Command::SetUniform { program: 6, slot: 1, value })
    );
}

#[test]
fn set_uniform_through_a_slot_that_the_program_lacks_is_a_no_op() {
    let program = program(5, &["canvasSize", "u_time"], &[]);
    let value = UniformValue::Time(Span { millis: 1 });
    assert_eq!(program.set_uniform(Some(UniformHandle { program: 5, slot: 2 }), value), None);
    assert_eq!(
        program.set_uniform(Some(UniformHandle { program: 5, slot: usize::MAX }), value),
        None
    );
}
