//! Lessons: what a lesson file holds, which files are lessons, and what a
//! lesson needs to be a good one.

use vstd::prelude::*;
use crate::error::ShellError;
use crate::paths::{extension_of, path_extension};
use crate::text::{ends_with, same_text, starts_with, texts};

verus! {

/// Who wrote a lesson.
#[derive(Debug, Clone)]
pub struct Author {
    pub name: String,
    pub email: Option<String>,
    pub url: Option<String>,
}

/// How hard a lesson is.
#[derive(Debug, Clone, Copy, PartialEq, Eq, Structural)]
pub enum Difficulty {
    Beginner,
    Intermediate,
    Advanced,
}

/// One example of input or output in a diagram.
#[derive(Debug, Clone)]
pub struct IoExample {
    pub label: String,
    pub value: String,
    pub description: Option<String>,
}

/// The inputs and outputs that a lesson shows as a diagram.
#[derive(Debug, Clone)]
pub struct IoDiagram {
    pub inputs: Vec<IoExample>,
    pub outputs: Vec<IoExample>,
}

/// What a lesson teaches and what it hands the student.
#[derive(Debug, Clone)]
pub struct LessonContent {
    /// The explanation, in Markdown.
    pub explanation: String,
    pub starter_code: Option<String>,
    /// The solution; never shown to the student.
    pub solution: Option<String>,
    pub io_diagram: Option<IoDiagram>,
    /// Hints, shown one after the other.
    pub hints: Vec<String>,
}

/// The limits a solution has to keep.
#[derive(Debug, Clone)]
pub struct Constraints {
    pub max_time_ms: Option<u64>,
    pub max_memory_bytes: Option<u64>,
    pub allowed_imports: Option<Vec<String>>,
    pub disallowed_imports: Option<Vec<String>>,
    pub required_symbols: Option<Vec<String>>,
    pub max_lines: Option<u32>,
}

/// How a lesson is graded automatically.
#[derive(Debug, Clone)]
pub struct AutoGradeConfig {
    pub enabled: bool,
    pub image: Option<String>,
    pub script: Option<String>,
}

/// A lesson as a list of lessons shows it.
#[derive(Debug, Clone)]
pub struct LessonSummary {
    pub id: String,
    pub title: String,
    pub description: String,
    pub language: String,
    pub difficulty: Difficulty,
    pub path: String,
}

/// What a check of a lesson file found.
#[derive(Debug, Clone)]
pub struct ValidationResult {
    pub valid: bool,
    pub errors: Vec<String>,
    pub warnings: Vec<String>,
}

/// The form a lesson file is written in.
#[derive(Debug, Clone, Copy, PartialEq, Eq, Structural)]
pub enum LessonFormat {
    Yaml,
    Json,
}

/// The form of the lesson file at a path: YAML where the extension is `yaml`
/// or `yml`, JSON in every other case.
pub open spec fn format_of(path: Seq<char>) -> LessonFormat {
    if extension_of(path) == Some("yaml"@) || extension_of(path) == Some("yml"@) {
        LessonFormat::Yaml
    } else {
        LessonFormat::Json
    }
}

/// The form of a lesson file with this extension, or without one.
pub fn format_for(extension: Option<String>) -> (format: LessonFormat)
    ensures
        format == (if extension matches Some(e) && (e@ == "yaml"@ || e@ == "yml"@) {
            LessonFormat::Yaml
        } else {
            LessonFormat::Json
        }),
{
    match extension {
        Some(e) => {
            if same_text(e.as_str(), "yaml") || same_text(e.as_str(), "yml") {
                LessonFormat::Yaml
            } else {
                LessonFormat::Json
            }
        },
        None => LessonFormat::Json,
    }
}

/// The form of the lesson file at a path.
pub fn lesson_format(path: &str) -> (format: LessonFormat)
    ensures
        format == format_of(path@),
{
    format_for(path_extension(path))
}

/// Whether a file name is that of a lesson: it begins with `lesson.` and
/// ends with `.yaml`, `.yml` or `.json`.
pub open spec fn names_lesson(name: Seq<char>) -> bool {
    "lesson."@.is_prefix_of(name) && (".yaml"@.is_suffix_of(name) || ".yml"@.is_suffix_of(name)
        || ".json"@.is_suffix_of(name))
}

/// Whether a file name is that of a lesson.
pub fn is_lesson_file(name: &str) -> (lesson: bool)
    ensures
        lesson == names_lesson(name@),
{
    starts_with(name, "lesson.") && (ends_with(name, ".yaml") || ends_with(name, ".yml")
        || ends_with(name, ".json"))
}

/// Why a lesson could not be loaded.
#[derive(Debug, Clone)]
pub enum LoadFailure {
    /// There is no file at the path.
    Missing,
    /// The file could not be read; the system's words.
    Unreadable(String),
    /// The file does not hold a lesson; the parser's words.
    Invalid(String),
}

/// The text of the error for a file that does not hold a lesson.
pub open spec fn invalid_lesson(format: LessonFormat, message: Seq<char>) -> Seq<char> {
    match format {
        LessonFormat::Yaml => "Invalid YAML: "@ + message,
        LessonFormat::Json => "Invalid JSON: "@ + message,
    }
}

/// The error that is reported where a lesson could not be loaded from a
/// path.
pub fn load_lesson(path: &str, failure: LoadFailure) -> (error: ShellError)
    ensures
        match failure {
            LoadFailure::Missing => error matches ShellError::Lesson(text) && text@
                == "Lesson file not found"@,
            LoadFailure::Unreadable(m) => error matches ShellError::Filesystem(text) && text@
                == m@,
            LoadFailure::Invalid(m) => error matches ShellError::Lesson(text) && text@
                == invalid_lesson(format_of(path@), m@),
        },
{
    match failure {
        LoadFailure::Missing => ShellError::Lesson("Lesson file not found".to_owned()),
        LoadFailure::Unreadable(m) => ShellError::Filesystem(m),
        LoadFailure::Invalid(m) => {
            let mut text = match lesson_format(path) {
                LessonFormat::Yaml => "Invalid YAML: ".to_owned(),
                LessonFormat::Json => "Invalid JSON: ".to_owned(),
            };
            text.append(m.as_str());
            ShellError::Lesson(text)
        },
    }
}

/// The error that is reported where a lesson could not be written out for
/// the file at a path; the words are the serializer's.
pub fn save_lesson(path: &str, message: String) -> (error: ShellError)
    ensures
        match format_of(path@) {
            LessonFormat::Yaml => error matches ShellError::Lesson(text) && text@
                == "Failed to serialize: "@ + message@,
            LessonFormat::Json => error matches ShellError::Serialization(text) && text@
                == message@,
        },
{
    match lesson_format(path) {
        LessonFormat::Yaml => {
            let mut text = "Failed to serialize: ".to_owned();
            text.append(message.as_str());
            ShellError::Lesson(text)
        },
        LessonFormat::Json => ShellError::Serialization(message),
    }
}

/// What a check of a lesson looks at.
#[derive(Debug, Clone)]
pub struct LessonOutline {
    /// The explanation of the lesson.
    pub explanation: String,
    /// The number of local tests, where the lesson is graded at all.
    pub local_tests: Option<usize>,
}

/// The warnings a lesson earns: one for an empty explanation, then one for
/// having no grading or for grading without local tests.
pub open spec fn warnings_of(outline: LessonOutline) -> Seq<Seq<char>> {
    let first: Seq<Seq<char>> = if outline.explanation@.len() == 0 {
        seq!["Lesson has no explanation"@]
    } else {
        Seq::empty()
    };
    match outline.local_tests {
        None => first.push("Lesson has no grading configuration"@),
        Some(count) => if count == 0 {
            first.push("Lesson has no local tests"@)
        } else {
            first
        },
    }
}

/// What a check of a lesson file comes to, given how loading it went. A
/// lesson that loads is valid, with the warnings it earns; one that does not
/// is invalid, with the error of loading it as the one error.
pub fn validate_lesson(loaded: Result<LessonOutline, ShellError>) -> (result: Result<
    ValidationResult,
    ShellError,
>)
    ensures
        result matches Ok(found) && (match loaded {
            Ok(outline) => found.valid && found.errors@.len() == 0 && texts(found.warnings@)
                == warnings_of(outline),
            Err(error) => !found.valid && texts(found.errors@) == seq![error.shown()]
                && found.warnings@.len() == 0,
        }),
{
    match loaded {
        Ok(outline) => {
            let mut warnings: Vec<String> = Vec::new();
            if outline.explanation.as_str().is_empty() {
                warnings.push("Lesson has no explanation".to_owned());
            }
            match outline.local_tests {
                None => {
                    warnings.push("Lesson has no grading configuration".to_owned());
                },
                Some(count) => {
                    if count == 0 {
                        warnings.push("Lesson has no local tests".to_owned());
                    }
                },
            }
            assert(texts(warnings@) =~= warnings_of(outline));
            Ok(ValidationResult { valid: true, errors: Vec::new(), warnings })
        },
        Err(error) => {
            let mut errors: Vec<String> = Vec::new();
            errors.push(error.to_string());
            assert(texts(errors@) =~= seq![error.shown()]);
            Ok(ValidationResult { valid: false, errors, warnings: Vec::new() })
        },
    }
}

} // verus!
