//! The security boundaries of the backend: which paths may be touched, which
//! files may be run, and how large a file may be.

use vstd::prelude::*;
use crate::error::ShellError;
use crate::paths::{extension_of, joined, path_extension, path_join, path_starts_with, path_under};
use crate::text::{
    contains_text, decimal, decimal_text, lists, replace, replaced, texts, trim_start_matches,
    without_leading,
};

verus! {

/// Largest file the default policy lets through: 10 MiB.
pub const DEFAULT_MAX_FILE_SIZE: u64 = 10_485_760;

/// Largest number of files in a project under the default policy.
pub const DEFAULT_MAX_FILES_PER_PROJECT: u32 = 10_000;

/// How many random bytes go into a secure identifier.
pub const SECURE_ID_BYTES: usize = 16;

/// What the network may be used for.
#[derive(Debug, Clone)]
pub struct NetworkPolicy {
    /// Whether executions may use the network at all.
    pub allow_network: bool,
    pub allowed_hosts: Vec<String>,
    /// Hosts that are refused even where they are also allowed.
    pub blocked_hosts: Vec<String>,
}

/// What plugins may do.
#[derive(Debug, Clone)]
pub struct PluginPolicy {
    pub allow_plugins: bool,
    pub require_signatures: bool,
    pub trusted_publishers: Vec<String>,
}

/// The policy that every file operation and every execution is held to.
#[derive(Debug, Clone)]
pub struct SecurityPolicy {
    /// Directories under which files may be touched.
    pub allowed_paths: Vec<String>,
    /// Directories under which nothing may be touched, whatever is allowed.
    pub denied_paths: Vec<String>,
    /// Extensions of the files that may be run.
    pub executable_extensions: Vec<String>,
    /// Largest size of a file in bytes.
    pub max_file_size: u64,
    pub max_files_per_project: u32,
    pub network_policy: NetworkPolicy,
    pub plugin_policy: PluginPolicy,
}

/// Whether a path lies under one of the directories of a list.
pub open spec fn under_any(path: Seq<char>, directories: Seq<String>) -> bool {
    exists|i: int| 0 <= i < directories.len() && path_under(path, #[trigger] directories[i]@)
}

/// Whether a path lies under one of the directories of a list.
pub fn lies_under_any(path: &str, directories: &Vec<String>) -> (found: bool)
    ensures
        found == under_any(path@, directories@),
{
    let mut i: usize = 0;
    while i < directories.len()
        invariant
            i <= directories.len(),
            forall|k: int| 0 <= k < i ==> !path_under(path@, #[trigger] directories[k]@),
        decreases directories.len() - i,
    {
        if path_starts_with(path, directories[i].as_str()) {
            return true;
        }
        i += 1;
    }
    false
}

/// The text of the error for a path that may not be touched.
pub open spec fn access_denied(path: Seq<char>) -> Seq<char> {
    "Access denied: "@ + path
}

/// The text of the error for a file that is too large.
pub open spec fn file_too_large(size: u64, limit: u64) -> Seq<char> {
    "File too large: "@ + decimal(size as nat) + " bytes (max: "@ + decimal(limit as nat)
        + " bytes)"@
}

/// The directories the default policy refuses.
pub open spec fn default_denied() -> Seq<Seq<char>> {
    seq!["/etc"@, "/usr"@, "/bin"@, "/sbin"@, "/System"@, "/Library"@]
}

/// The extensions the default policy lets run.
pub open spec fn default_extensions() -> Seq<Seq<char>> {
    seq!["py"@, "js"@, "ts"@, "rb"@, "go"@, "rs"@, "java"@, "c"@, "cpp"@, "sh"@]
}

/// A directory of the user, or the current directory where there is none.
pub open spec fn directory_or_here(directory: Option<String>) -> Seq<char> {
    match directory {
        Some(d) => d@,
        None => "."@,
    }
}

/// `dirs::home_dir`: the user's home directory, where the system names one.
/// Nothing is claimed of it: it depends on the machine and the user.
#[verifier::external_body]
pub(crate) fn home_dir() -> Option<String> {
    match dirs::home_dir() {
        Some(p) => Some(p.to_string_lossy().into_owned()),
        None => None,
    }
}

/// `dirs::document_dir`: the user's documents directory, where the system
/// names one. Nothing is claimed of it.
#[verifier::external_body]
pub(crate) fn document_dir() -> Option<String> {
    match dirs::document_dir() {
        Some(p) => Some(p.to_string_lossy().into_owned()),
        None => None,
    }
}

/// `dirs::desktop_dir`: the user's desktop directory, where the system names
/// one. Nothing is claimed of it.
#[verifier::external_body]
pub(crate) fn desktop_dir() -> Option<String> {
    match dirs::desktop_dir() {
        Some(p) => Some(p.to_string_lossy().into_owned()),
        None => None,
    }
}

/// `dirs::download_dir`: the user's downloads directory, where the system
/// names one. Nothing is claimed of it.
#[verifier::external_body]
pub(crate) fn download_dir() -> Option<String> {
    match dirs::download_dir() {
        Some(p) => Some(p.to_string_lossy().into_owned()),
        None => None,
    }
}

/// A directory of the user, or the current directory where there is none.
fn or_here(directory: Option<String>) -> (path: String)
    ensures
        path@ == directory_or_here(directory),
{
    match directory {
        Some(d) => d,
        None => ".".to_owned(),
    }
}

impl SecurityPolicy {
    /// Whether the policy is the default one for a user with these
    /// directories.
    pub open spec fn is_default_for(
        self,
        home: Option<String>,
        documents: Option<String>,
        desktop: Option<String>,
        downloads: Option<String>,
    ) -> bool {
        &&& texts(self.allowed_paths@) == seq![
            directory_or_here(home),
            directory_or_here(documents),
            directory_or_here(desktop),
            directory_or_here(downloads),
        ]
        &&& texts(self.denied_paths@) == default_denied()
        &&& texts(self.executable_extensions@) == default_extensions()
        &&& self.max_file_size == DEFAULT_MAX_FILE_SIZE
        &&& self.max_files_per_project == DEFAULT_MAX_FILES_PER_PROJECT
        &&& !self.network_policy.allow_network
        &&& self.network_policy.allowed_hosts@.len() == 0
        &&& self.network_policy.blocked_hosts@.len() == 0
        &&& self.plugin_policy.allow_plugins
        &&& !self.plugin_policy.require_signatures
        &&& texts(self.plugin_policy.trusted_publishers@) == seq![
            "shell.dev"@,
        ]
    }

    /// The default policy for a user with these directories: files may be
    /// touched under the four directories (the current directory stands in
    /// for one that is missing) but never under the system directories;
    /// sources of ten languages may be run; files may have up to 10 MiB; no
    /// network; plugins without signatures.
    pub fn for_directories(
        home: Option<String>,
        documents: Option<String>,
        desktop: Option<String>,
        downloads: Option<String>,
    ) -> (policy: Self)
        ensures
            policy.is_default_for(home, documents, desktop, downloads),
    {
        let mut allowed_paths: Vec<String> = Vec::new();
        allowed_paths.push(or_here(home));
        allowed_paths.push(or_here(documents));
        allowed_paths.push(or_here(desktop));
        allowed_paths.push(or_here(downloads));
        let mut denied_paths: Vec<String> = Vec::new();
        denied_paths.push("/etc".to_owned());
        denied_paths.push("/usr".to_owned());
        denied_paths.push("/bin".to_owned());
        denied_paths.push("/sbin".to_owned());
        denied_paths.push("/System".to_owned());
        denied_paths.push("/Library".to_owned());
        let mut executable_extensions: Vec<String> = Vec::new();
        executable_extensions.push("py".to_owned());
        executable_extensions.push("js".to_owned());
        executable_extensions.push("ts".to_owned());
        executable_extensions.push("rb".to_owned());
        executable_extensions.push("go".to_owned());
        executable_extensions.push("rs".to_owned());
        executable_extensions.push("java".to_owned());
        executable_extensions.push("c".to_owned());
        executable_extensions.push("cpp".to_owned());
        executable_extensions.push("sh".to_owned());
        let mut trusted_publishers: Vec<String> = Vec::new();
        trusted_publishers.push("shell.dev".to_owned());
        let policy = SecurityPolicy {
            allowed_paths,
            denied_paths,
            executable_extensions,
            max_file_size: DEFAULT_MAX_FILE_SIZE,
            max_files_per_project: DEFAULT_MAX_FILES_PER_PROJECT,
            network_policy: NetworkPolicy {
                allow_network: false,
                allowed_hosts: Vec::new(),
                blocked_hosts: Vec::new(),
            },
            plugin_policy: PluginPolicy {
                allow_plugins: true,
                require_signatures: false,
                trusted_publishers,
            },
        };
        proof {
            assert(texts(policy.allowed_paths@) =~= seq![
                directory_or_here(home),
                directory_or_here(documents),
                directory_or_here(desktop),
                directory_or_here(downloads),
            ]);
            assert(texts(policy.denied_paths@) =~= default_denied());
            assert(texts(policy.executable_extensions@)
                =~= default_extensions());
            assert(texts(policy.plugin_policy.trusted_publishers@) =~= seq![
                "shell.dev"@,
            ]);
        }
        policy
    }

    /// Whether a path may be touched: it lies under none of the denied
    /// directories and under one of the allowed ones. The path is taken as
    /// the file system resolves it, or as it was given where it does not
    /// resolve.
    pub fn is_path_allowed(&self, resolved: &str) -> (allowed: bool)
        ensures
            allowed == self.allows(resolved@),
    {
        if lies_under_any(resolved, &self.denied_paths) {
            return false;
        }
        lies_under_any(resolved, &self.allowed_paths)
    }

    /// Whether a path may be touched.
    pub open spec fn allows(&self, resolved: Seq<char>) -> bool {
        !under_any(resolved, self.denied_paths@) && under_any(resolved, self.allowed_paths@)
    }

    /// Refuses a path that may not be touched. The path is judged as the
    /// file system resolves it and named in the error as it was given.
    pub fn validate_path(&self, path: &str, resolved: &str) -> (result: Result<(), ShellError>)
        ensures
            self.allows(resolved@) ==> result is Ok,
            !self.allows(resolved@) ==> (result matches Err(ShellError::Security(text)) && text@
                == access_denied(path@)),
    {
        if !self.is_path_allowed(resolved) {
            let mut text = "Access denied: ".to_owned();
            text.append(path);
            return Err(ShellError::Security(text));
        }
        Ok(())
    }

    /// Whether a file may be run.
    pub open spec fn lets_run(&self, path: Seq<char>, resolved: Seq<char>) -> bool {
        self.allows(resolved) && (extension_of(path) matches Some(e) && lists(
            self.executable_extensions@,
            e,
        ))
    }

    /// Whether a file may be run: its path may be touched, and the extension
    /// of the path as it was given is one of the executable ones.
    pub fn can_execute(&self, path: &str, resolved: &str) -> (runnable: bool)
        ensures
            runnable == self.lets_run(path@, resolved@),
    {
        if !self.is_path_allowed(resolved) {
            return false;
        }
        self.has_executable_extension(path_extension(path))
    }

    /// Whether an extension, where there is one, is among the executable
    /// ones.
    pub fn has_executable_extension(&self, extension: Option<String>) -> (listed: bool)
        ensures
            listed == (extension matches Some(e) && lists(self.executable_extensions@, e@)),
    {
        match extension {
            Some(e) => contains_text(&self.executable_extensions, e.as_str()),
            None => false,
        }
    }

    /// Refuses a size above the policy's limit.
    pub fn check_file_size(&self, size: u64) -> (result: Result<(), ShellError>)
        ensures
            size <= self.max_file_size ==> result is Ok,
            size > self.max_file_size ==> (result matches Err(ShellError::Security(text)) && text@
                == file_too_large(size, self.max_file_size)),
    {
        if size > self.max_file_size {
            let mut text = "File too large: ".to_owned();
            text.append(decimal_text(size).as_str());
            text.append(" bytes (max: ");
            text.append(decimal_text(self.max_file_size).as_str());
            text.append(" bytes)");
            return Err(ShellError::Security(text));
        }
        Ok(())
    }
}

impl Default for SecurityPolicy {
    /// The default policy for the user the process runs as.
    fn default() -> (policy: Self)
        ensures
            exists|
                home: Option<String>,
                documents: Option<String>,
                desktop: Option<String>,
                downloads: Option<String>,
            | #[trigger]
                policy.is_default_for(home, documents, desktop, downloads),
    {
        let home = home_dir();
        let documents = document_dir();
        let desktop = desktop_dir();
        let downloads = download_dir();
        SecurityPolicy::for_directories(home, documents, desktop, downloads)
    }
}

/// Keeps relative paths inside the directory they are relative to.
pub struct PathSanitizer;

/// A relative path made harmless: without the slashes and then the
/// backslashes at its start, and without any `..`.
pub open spec fn cleaned(relative: Seq<char>) -> Seq<char> {
    replaced(without_leading(without_leading(relative, '/'), '\\'), ".."@, ""@)
}

impl PathSanitizer {
    /// Makes a relative path harmless: takes the slashes and then the
    /// backslashes off its start and every `..` out of it.
    pub fn clean(relative: &str) -> (clean: String)
        ensures
            clean@ == cleaned(relative@),
    {
        proof {
            reveal_strlit("..");
        }
        let rest = trim_start_matches(trim_start_matches(relative, '/'), '\\');
        replace(rest, "..", "")
    }

    /// The path to resolve for a relative path under a base: the base with
    /// the cleaned path joined to it.
    pub fn candidate(base: &str, relative: &str) -> (path: String)
        ensures
            path@ == joined(base@, cleaned(relative@)),
    {
        let clean = PathSanitizer::clean(relative);
        path_join(base, clean.as_str())
    }

    /// Accepts a path only where it stays inside its base. Both are given as
    /// the file system resolves them, or not at all where they do not
    /// resolve: a path that does not resolve is invalid, so is a base that
    /// does not, and a path that resolves to a place outside the base is a
    /// traversal.
    pub fn sanitize(resolved: Option<String>, resolved_base: Option<String>) -> (result: Result<
        String,
        ShellError,
    >)
        ensures
            match (resolved, resolved_base) {
                (None, _) => result matches Err(ShellError::Security(text)) && text@
                    == "Invalid path"@,
                (Some(_), None) => result matches Err(ShellError::Security(text)) && text@
                    == "Invalid base path"@,
                (Some(path), Some(base)) => if path_under(path@, base@) {
                    result matches Ok(accepted) && accepted@ == path@
                } else {
                    result matches Err(ShellError::Security(text)) && text@
                        == "Path traversal detected"@
                },
            },
    {
        let path = match resolved {
            Some(path) => path,
            None => {
                return Err(ShellError::Security("Invalid path".to_owned()));
            },
        };
        let base = match resolved_base {
            Some(base) => base,
            None => {
                return Err(ShellError::Security("Invalid base path".to_owned()));
            },
        };
        if !path_starts_with(path.as_str(), base.as_str()) {
            return Err(ShellError::Security("Path traversal detected".to_owned()));
        }
        Ok(path)
    }
}

/// The text that URL-safe base64 without padding makes of a sequence of
/// bytes.
pub uninterp spec fn url_safe_base64(bytes: Seq<u8>) -> Seq<char>;

/// `ring::rand::SystemRandom::fill`: fills the buffer with random bytes of
/// the operating system and says whether it could. Of the bytes nothing is
/// claimed; the buffer keeps its length.
#[verifier::external_body]
pub(crate) fn fill_random(buffer: &mut Vec<u8>) -> (filled: bool)
    ensures
        final(buffer)@.len() == old(buffer)@.len(),
{
    ring::rand::SecureRandom::fill(&ring::rand::SystemRandom::new(), buffer.as_mut_slice()).is_ok()
}

/// `base64::Engine::encode` of the engine `URL_SAFE_NO_PAD`: the bytes in
/// base64 with the URL-safe alphabet and no padding. The result depends on
/// the bytes alone.
#[verifier::external_body]
pub(crate) fn encode_url_safe(bytes: &[u8]) -> (text: String)
    requires
        bytes@.len() <= 0x3000_0000,
    ensures
        text@ == url_safe_base64(bytes@),
{
    base64::Engine::encode(&base64::engine::general_purpose::URL_SAFE_NO_PAD, bytes)
}

/// The identifier that stands for sixteen bytes: their URL-safe base64.
pub fn secure_id_of(bytes: &Vec<u8>) -> (id: String)
    requires
        bytes@.len() == SECURE_ID_BYTES,
    ensures
        id@ == url_safe_base64(bytes@),
{
    encode_url_safe(bytes.as_slice())
}

/// A fresh identifier that cannot be guessed: sixteen random bytes of the
/// operating system in URL-safe base64. There is none where the operating
/// system gives no random bytes.
pub fn generate_secure_id() -> (id: Option<String>)
    ensures
        id matches Some(text) ==> exists|bytes: Seq<u8>|
            bytes.len() == SECURE_ID_BYTES && text@ == #[trigger] url_safe_base64(bytes),
{
    let mut bytes: Vec<u8> = Vec::new();
    while bytes.len() < SECURE_ID_BYTES
        invariant
            bytes@.len() <= SECURE_ID_BYTES,
        decreases SECURE_ID_BYTES - bytes@.len(),
    {
        bytes.push(0u8);
    }
    let filled = fill_random(&mut bytes);
    secure_id_from(filled, &bytes)
}

/// The identifier to hand out, given whether the operating system filled the
/// buffer and what the buffer then holds: the URL-safe base64 of the sixteen
/// bytes where it did, none where it did not.
pub fn secure_id_from(filled: bool, bytes: &Vec<u8>) -> (id: Option<String>)
    requires
        bytes@.len() == SECURE_ID_BYTES,
    ensures
        filled ==> (id matches Some(text) && text@ == url_safe_base64(bytes@)),
        !filled ==> id is None,
{
    if filled {
        Some(secure_id_of(bytes))
    } else {
        None
    }
}

} // verus!
