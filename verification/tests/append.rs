use std::collections::HashMap;

use anvil_tera::extensions::append::{append, append_rendered, Append, AppendError, TeraAppendExt};
use anvil_tera::render::{settle, RenderError};
use anvil_tera::Earth;
use tera::{Context, ErrorKind, Tera};

fn templates() -> Tera {
    let mut tera = Tera::default();
    tera.add_raw_template("test", "Appended content.").unwrap();
    tera.add_raw_template("test.txt", "Hello, {{ name }}!\n").unwrap();
    tera
}

/// Lets the engine render into a buffer of its own and hands the outcome on.
fn render_to(
    registry: &Tera,
    template: &str,
    context: &Context,
    writer: &mut Vec<u8>,
) -> Result<(), RenderError> {
    let mut scratch = Vec::new();
    let verdict = registry.render_to(template, context, &mut scratch);
    settle(scratch, verdict, writer)
}

struct TestTemplate<'a> {
    templates: &'a Tera,
}

impl Earth for TestTemplate<'_> {
    fn tera(&self, writer: &mut Vec<u8>) -> Result<(), RenderError> {
        render_to(self.templates, "test", &Context::new(), writer)
    }
}

struct TestFile<'a> {
    templates: &'a Tera,
    name: String,
}

impl Earth for TestFile<'_> {
    fn tera(&self, writer: &mut Vec<u8>) -> Result<(), RenderError> {
        let mut context = Context::new();
        context.insert("name", &self.name);
        render_to(self.templates, "test.txt", &context, writer)
    }
}

/// Its template asks for `name`, and its context never has one.
struct Nameless<'a> {
    templates: &'a Tera,
}

impl Earth for Nameless<'_> {
    fn tera(&self, writer: &mut Vec<u8>) -> Result<(), RenderError> {
        render_to(self.templates, "test.txt", &Context::new(), writer)
    }
}

/// Plays the caller's part on a directory held in memory: takes the file at
/// `path` out, lets the operation work on it, and puts back what is left.
fn forge<T: Earth>(
    operation: &Append<'_, T>,
    dir: &mut HashMap<String, Vec<u8>>,
    path: &str,
) -> Result<(), AppendError> {
    let mut target = dir.remove(path);
    let outcome = operation.forge(&mut target);
    if let Some(bytes) = target {
        dir.insert(path.to_string(), bytes);
    }
    outcome
}

#[test]
fn it_fails_if_file_does_not_exist() {
    let templates = templates();
    let mut dir = HashMap::new();
    let file_path = "my-temporary-note.txt";
    let result = forge(&append(&TestTemplate { templates: &templates }), &mut dir, file_path);
    assert!(result.is_err());
}

#[test]
fn it_appends_to_file() {
    let templates = templates();
    let mut dir = HashMap::new();
    let file_path = "my-temporary-note.txt";
    dir.insert(file_path.to_string(), b"Initial content.\n".to_vec());
    let result = forge(&append(&TestTemplate { templates: &templates }), &mut dir, file_path);
    assert!(result.is_ok());
    let content = String::from_utf8(dir[file_path].clone()).unwrap();
    assert_eq!(content, "Initial content.\nAppended content.")
}

#[test]
fn append_it_can_render_from_file() {
    let templates = templates();
    let mut dir = HashMap::new();
    let file_path = "my-temporary-note.txt";
    dir.insert(file_path.to_string(), b"Initial content.\n".to_vec());
    let result = forge(
        &append(&TestFile { templates: &templates, name: "World".to_string() }),
        &mut dir,
        file_path,
    );
    assert!(result.is_ok());
    let content = String::from_utf8(dir[file_path].clone()).unwrap();
    assert_eq!(content.trim(), "Initial content.\nHello, World!");
}

#[test]
fn appending_to_a_missing_file_creates_nothing() {
    let templates = templates();
    let mut dir = HashMap::new();
    let result = forge(&append(&TestTemplate { templates: &templates }), &mut dir, "absent.txt");
    assert!(matches!(result, Err(AppendError::Missing)));
    assert!(dir.is_empty());
}

#[test]
fn appending_puts_nothing_between_old_and_new() {
    let templates = templates();
    let earth = TestTemplate { templates: &templates };
    let operation = append(&earth);
    let mut target = Some(b"C".to_vec());
    operation.forge(&mut target).unwrap();
    assert_eq!(target, Some(b"CAppended content.".to_vec()));
    operation.forge(&mut target).unwrap();
    assert_eq!(target, Some(b"CAppended content.Appended content.".to_vec()));
}

#[test]
fn appending_to_an_empty_file_leaves_the_rendering() {
    let templates = templates();
    let mut target = Some(Vec::new());
    append(&TestTemplate { templates: &templates }).forge(&mut target).unwrap();
    assert_eq!(target, Some(b"Appended content.".to_vec()));
}

#[test]
fn a_failed_rendering_leaves_the_file_as_it_was() {
    let templates = templates();
    let mut target = Some(b"Initial content.\n".to_vec());
    let result = append(&Nameless { templates: &templates }).forge(&mut target);
    assert!(matches!(result, Err(AppendError::Template(_))));
    assert_eq!(target, Some(b"Initial content.\n".to_vec()));
}

#[test]
fn the_trait_builds_the_same_operation() {
    let templates = templates();
    let earth = TestTemplate { templates: &templates };
    let operation: Append<'_, TestTemplate<'_>> = TeraAppendExt::tera(&earth);
    assert!(std::ptr::eq(operation.template().0, &earth));
    assert!(std::ptr::eq(append(&earth).template().0, &earth));
    let mut target = Some(b"Initial content.\n".to_vec());
    operation.forge(&mut target).unwrap();
    assert_eq!(target, Some(b"Initial content.\nAppended content.".to_vec()));
}

#[test]
fn append_rendered_adds_the_text_at_the_end() {
    let mut target = Some(b"Initial content.\n".to_vec());
    let outcome = append_rendered(Ok(b"Appended content.".to_vec()), &mut target);
    assert!(outcome.is_ok());
    assert_eq!(target, Some(b"Initial content.\nAppended content.".to_vec()));
}

#[test]
fn append_rendered_needs_a_target() {
    let mut target = None;
    let outcome = append_rendered(Ok(b"Appended content.".to_vec()), &mut target);
    assert!(matches!(outcome, Err(AppendError::Missing)));
    assert_eq!(target, None);

    let cause = tera::Error::msg("no name");
    let outcome = append_rendered(Err(RenderError { cause }), &mut target);
    assert!(matches!(outcome, Err(AppendError::Missing)));
    assert_eq!(target, None);
}

#[test]
fn append_rendered_passes_the_failure_on() {
    let mut target = Some(b"Initial content.\n".to_vec());
    let cause = tera::Error::msg("no name");
    let outcome = append_rendered(Err(RenderError { cause }), &mut target);
    match outcome {
        Err(AppendError::Template(error)) => {
            assert!(matches!(error.cause.kind, ErrorKind::Msg(ref message) if message == "no name"))
        }
        other => panic!("expected the rendering's failure, got {:?}", other),
    }
    assert_eq!(target, Some(b"Initial content.\n".to_vec()));
}

#[test]
fn a_failed_append_reports_the_engines_own_failure() {
    let templates = templates();
    let mut target = Some(b"Initial content.\n".to_vec());
    let result = append(&Nameless { templates: &templates }).forge(&mut target);
    match result {
        Err(AppendError::Template(error)) => {
            let report = format!("{:?}", error.cause);
            assert!(matches!(error.cause.kind, ErrorKind::Msg(_)));
            assert!(report.contains("test.txt"));
        }
        other => panic!("expected the rendering's failure, got {:?}", other),
    }
    assert_eq!(target, Some(b"Initial content.\n".to_vec()));
}
