//! File operations as the backend allows them: every path is held to the
//! security policy before anything is done with it.

use std::sync::Arc;
use vstd::prelude::*;
use vstd::utf8::encode_utf8;
use crate::error::ShellError;
use crate::paths::{extension_of, file_name_of, path_extension, path_file_name};
use crate::security::{access_denied, file_too_large, SecurityPolicy};
use crate::text::{copy_list, same_text, texts};

verus! {

/// What is known of one file or directory.
#[derive(Debug, Clone)]
pub struct FileInfo {
    pub path: String,
    pub name: String,
    pub is_directory: bool,
    pub size: u64,
    /// Time of the last change as an RFC 3339 time.
    pub modified: Option<String>,
    pub extension: Option<String>,
}

impl FileInfo {
    /// What is known of the file or directory at a path: its name is the
    /// last component of the path, or empty where the path ends in none, and
    /// its extension is that of the path.
    pub fn of(path: &str, is_directory: bool, size: u64, modified: Option<String>) -> (info: Self)
        ensures
            info.path@ == path@,
            info.name@ == (match file_name_of(path@) {
                Some(name) => name,
                None => Seq::empty(),
            }),
            info.is_directory == is_directory,
            info.size == size,
            info.modified == modified,
            match info.extension {
                Some(e) => extension_of(path@) == Some(e@),
                None => extension_of(path@) is None,
            },
    {
        let name = match path_file_name(path) {
            Some(name) => name,
            None => String::new(),
        };
        FileInfo {
            path: path.to_owned(),
            name,
            is_directory,
            size,
            modified,
            extension: path_extension(path),
        }
    }
}

/// A directory and what is in it.
#[derive(Debug, Clone)]
pub struct DirectoryContents {
    pub path: String,
    pub entries: Vec<FileInfo>,
}

/// A file and the text it holds.
#[derive(Debug, Clone)]
pub struct FileContents {
    pub path: String,
    pub content: String,
    pub encoding: String,
}

impl FileContents {
    /// The contents of a file that was read as UTF-8.
    pub fn utf8(path: &str, content: String) -> (contents: Self)
        ensures
            contents.path@ == path@,
            contents.content@ == content@,
            contents.encoding@ == "utf-8"@,
    {
        FileContents { path: path.to_owned(), content, encoding: "utf-8".to_owned() }
    }
}

/// The file operations of the backend, under one security policy.
pub struct FileSystem {
    policy: Arc<SecurityPolicy>,
}

impl FileSystem {
    /// The policy the file system holds every path to.
    pub closed spec fn policy(&self) -> SecurityPolicy {
        *self.policy
    }

    /// A file system under a policy.
    pub fn new(policy: Arc<SecurityPolicy>) -> (fs: Self)
        ensures
            fs.policy() == *policy,
    {
        FileSystem { policy }
    }

    /// Refuses a path that the policy does not let touch. Every operation
    /// begins with this.
    pub fn validate(&self, path: &str, resolved: &str) -> (result: Result<(), ShellError>)
        ensures
            self.policy().allows(resolved@) ==> result is Ok,
            !self.policy().allows(resolved@) ==> (result matches Err(ShellError::Security(text))
                && text@ == access_denied(path@)),
    {
        self.policy.validate_path(path, resolved)
    }

    /// Whether a file of a size may be read: its path may be touched, and
    /// it is not larger than the policy allows.
    pub fn read_file(&self, path: &str, resolved: &str, size: u64) -> (result: Result<
        (),
        ShellError,
    >)
        ensures
            if !self.policy().allows(resolved@) {
                result matches Err(ShellError::Security(text)) && text@ == access_denied(path@)
            } else if size > self.policy().max_file_size {
                result matches Err(ShellError::Security(text)) && text@ == file_too_large(
                    size,
                    self.policy().max_file_size,
                )
            } else {
                result is Ok
            },
    {
        match self.policy.validate_path(path, resolved) {
            Ok(()) => {},
            Err(error) => {
                return Err(error);
            },
        }
        self.policy.check_file_size(size)
    }

    /// Whether what is at a path may be deleted: the path may be touched.
    pub fn delete_file(&self, path: &str, resolved: &str) -> (result: Result<(), ShellError>)
        ensures
            self.policy().allows(resolved@) ==> result is Ok,
            !self.policy().allows(resolved@) ==> (result matches Err(ShellError::Security(text))
                && text@ == access_denied(path@)),
    {
        self.policy.validate_path(path, resolved)
    }

    /// Whether a directory may be made at a path: the path may be touched.
    pub fn create_directory(&self, path: &str, resolved: &str) -> (result: Result<
        (),
        ShellError,
    >)
        ensures
            self.policy().allows(resolved@) ==> result is Ok,
            !self.policy().allows(resolved@) ==> (result matches Err(ShellError::Security(text))
                && text@ == access_denied(path@)),
    {
        self.policy.validate_path(path, resolved)
    }

    /// What is known of the file or directory at a path, given what the file
    /// system says of it; a path that may not be touched is refused instead.
    pub fn get_info(
        &self,
        path: &str,
        resolved: &str,
        is_directory: bool,
        size: u64,
        modified: Option<String>,
    ) -> (result: Result<FileInfo, ShellError>)
        ensures
            self.policy().allows(resolved@) ==> (result matches Ok(info) && info.path@ == path@
                && info.name@ == (match file_name_of(path@) {
                Some(name) => name,
                None => Seq::empty(),
            }) && info.is_directory == is_directory && info.size == size && info.modified
                == modified && (match info.extension {
                Some(e) => extension_of(path@) == Some(e@),
                None => extension_of(path@) is None,
            })),
            !self.policy().allows(resolved@) ==> (result matches Err(ShellError::Security(text))
                && text@ == access_denied(path@)),
    {
        match self.policy.validate_path(path, resolved) {
            Ok(()) => Ok(FileInfo::of(path, is_directory, size, modified)),
            Err(error) => Err(error),
        }
    }

    /// Whether text may be written to a path: the path may be touched, and
    /// the text, in bytes, is not larger than the policy allows.
    pub fn write_file(&self, path: &str, resolved: &str, content: &str) -> (result: Result<
        (),
        ShellError,
    >)
        requires
            encode_utf8(content@).len() <= usize::MAX,
        ensures
            if !self.policy().allows(resolved@) {
                result matches Err(ShellError::Security(text)) && text@ == access_denied(path@)
            } else if encode_utf8(content@).len() > self.policy().max_file_size {
                result matches Err(ShellError::Security(text)) && text@ == file_too_large(
                    encode_utf8(content@).len() as u64,
                    self.policy().max_file_size,
                )
            } else {
                result is Ok
            },
    {
        match self.policy.validate_path(path, resolved) {
            Ok(()) => {},
            Err(error) => {
                return Err(error);
            },
        }
        self.policy.check_file_size(content.len() as u64)
    }

    /// Whether a new file may be made at a path: the path may be touched and
    /// nothing is there yet.
    pub fn create_file(&self, path: &str, resolved: &str, present: bool) -> (result: Result<
        (),
        ShellError,
    >)
        ensures
            if !self.policy().allows(resolved@) {
                result matches Err(ShellError::Security(text)) && text@ == access_denied(path@)
            } else if present {
                result matches Err(ShellError::Filesystem(text)) && text@
                    == "File already exists"@
            } else {
                result is Ok
            },
    {
        match self.policy.validate_path(path, resolved) {
            Ok(()) => {},
            Err(error) => {
                return Err(error);
            },
        }
        if present {
            return Err(ShellError::Filesystem("File already exists".to_owned()));
        }
        Ok(())
    }

    /// Whether there is something at a path, given what the file system
    /// says; a path that may not be touched is refused instead.
    pub fn path_exists(&self, path: &str, resolved: &str, present: bool) -> (result: Result<
        bool,
        ShellError,
    >)
        ensures
            self.policy().allows(resolved@) ==> result == Ok::<bool, ShellError>(present),
            !self.policy().allows(resolved@) ==> (result matches Err(ShellError::Security(text))
                && text@ == access_denied(path@)),
    {
        match self.policy.validate_path(path, resolved) {
            Ok(()) => Ok(present),
            Err(error) => Err(error),
        }
    }

    /// Watches a directory for changes. Nothing is watched yet: this always
    /// succeeds and does nothing.
    pub fn watch_directory(&self, path: &str) -> (result: Result<(), ShellError>)
        ensures
            result is Ok,
    {
        Ok(())
    }
}

/// A project directory and what was found out about it.
#[derive(Debug, Clone)]
pub struct ProjectInfo {
    pub path: String,
    pub name: String,
    pub language: Option<String>,
    pub framework: Option<String>,
    pub has_lesson: bool,
    pub files: Vec<String>,
}

/// The language that a file name gives away, where it does.
pub open spec fn language_marked_by(file_name: Seq<char>) -> Option<Seq<char>> {
    if file_name == "package.json"@ {
        Some("javascript"@)
    } else if file_name == "Cargo.toml"@ {
        Some("rust"@)
    } else if file_name == "requirements.txt"@ || file_name == "pyproject.toml"@ || file_name
        == "setup.py"@ {
        Some("python"@)
    } else if file_name == "go.mod"@ {
        Some("go"@)
    } else if file_name == "pom.xml"@ || file_name == "build.gradle"@ {
        Some("java"@)
    } else {
        None
    }
}

/// Whether a file name is that of a lesson description.
pub open spec fn marks_lesson(file_name: Seq<char>) -> bool {
    file_name == "lesson.yaml"@ || file_name == "lesson.json"@
}

/// The language of a project with these files: the one given away by the
/// last file of the list that gives one away.
pub open spec fn language_of(files: Seq<Seq<char>>) -> Option<Seq<char>>
    decreases files.len(),
{
    if files.len() == 0 {
        None
    } else {
        match language_marked_by(files.last()) {
            Some(language) => Some(language),
            None => language_of(files.drop_last()),
        }
    }
}

/// Whether one of these files is a lesson description.
pub open spec fn holds_lesson(files: Seq<Seq<char>>) -> bool {
    exists|i: int| 0 <= i < files.len() && marks_lesson(#[trigger] files[i])
}

/// The language that a file name gives away, where it does.
pub fn marked_language(file_name: &str) -> (language: Option<String>)
    ensures
        match language {
            Some(l) => language_marked_by(file_name@) == Some(l@),
            None => language_marked_by(file_name@) is None,
        },
{
    if same_text(file_name, "package.json") {
        Some("javascript".to_owned())
    } else if same_text(file_name, "Cargo.toml") {
        Some("rust".to_owned())
    } else if same_text(file_name, "requirements.txt") || same_text(file_name, "pyproject.toml")
        || same_text(file_name, "setup.py") {
        Some("python".to_owned())
    } else if same_text(file_name, "go.mod") {
        Some("go".to_owned())
    } else if same_text(file_name, "pom.xml") || same_text(file_name, "build.gradle") {
        Some("java".to_owned())
    } else {
        None
    }
}

/// The name of the project in a directory: the last component of its path,
/// or `Untitled` where the path ends in none.
pub open spec fn project_name(path: Seq<char>) -> Seq<char> {
    match file_name_of(path) {
        Some(name) => name,
        None => "Untitled"@,
    }
}

impl ProjectInfo {
    /// Whether this is what the files of a directory say of the project in
    /// it.
    pub open spec fn describes(self, path: Seq<char>, file_names: Seq<Seq<char>>) -> bool {
        &&& self.path@ == path
        &&& self.name@ == project_name(path)
        &&& (match self.language {
            Some(l) => language_of(file_names) == Some(l@),
            None => language_of(file_names) is None,
        })
        &&& self.framework is None
        &&& self.has_lesson == holds_lesson(file_names)
        &&& texts(self.files@) == file_names
    }

    /// Finds out about the project in a directory from the names of the
    /// files in it: its name, its language, and whether it holds a lesson.
    pub fn detect(path: &str, file_names: &Vec<String>) -> (info: Self)
        ensures
            info.describes(path@, texts(file_names@)),
    {
        let name = match path_file_name(path) {
            Some(name) => name,
            None => "Untitled".to_owned(),
        };
        let mut language: Option<String> = None;
        let mut has_lesson = false;
        let mut i: usize = 0;
        while i < file_names.len()
            invariant
                i <= file_names@.len(),
                match language {
                    Some(l) => language_of(texts(file_names@).take(i as int)) == Some(l@),
                    None => language_of(texts(file_names@).take(i as int)) is None,
                },
                has_lesson == holds_lesson(texts(file_names@).take(i as int)),
            decreases file_names@.len() - i,
        {
            let file_name = file_names[i].as_str();
            let ghost before = texts(file_names@).take(i as int);
            let ghost after = texts(file_names@).take(i + 1);
            proof {
                assert(after.drop_last() =~= before);
                assert(after.last() == file_name@);
                if holds_lesson(before) {
                    let k = choose|k: int| 0 <= k < before.len() && marks_lesson(before[k]);
                    assert(marks_lesson(after[k]));
                }
                if holds_lesson(after) && !marks_lesson(file_name@) {
                    let k = choose|k: int| 0 <= k < after.len() && marks_lesson(after[k]);
                    assert(marks_lesson(before[k]));
                }
                if marks_lesson(file_name@) {
                    assert(marks_lesson(after[i as int]));
                }
            }
            match marked_language(file_name) {
                Some(l) => {
                    language = Some(l);
                },
                None => {},
            }
            if same_text(file_name, "lesson.yaml") || same_text(file_name, "lesson.json") {
                has_lesson = true;
            }
            i += 1;
        }
        assert(texts(file_names@).take(i as int) =~= texts(file_names@));
        ProjectInfo {
            path: path.to_owned(),
            name,
            language,
            framework: None,
            has_lesson,
            files: copy_list(file_names),
        }
    }
}

} // verus!
