//! Language servers: which are known, which are installed, and how the one
//! for a language is started.

use vstd::prelude::*;
use crate::db::LspConfig;
use crate::error::ShellError;
use crate::services::{ServiceConfig, ServiceConfigView, ServiceType, ServiceTypeView};
use crate::text::{copy_list, same_text, texts};

verus! {

/// A language server and how to get it.
#[derive(Debug, Clone)]
pub struct LspServerInfo {
    pub language: String,
    pub name: String,
    pub command: String,
    pub args: Vec<String>,
    pub installed: bool,
    pub installation_instructions: Option<String>,
}

pub struct LspServerInfoView {
    pub language: Seq<char>,
    pub name: Seq<char>,
    pub command: Seq<char>,
    pub args: Seq<Seq<char>>,
    pub installed: bool,
    pub installation_instructions: Option<Seq<char>>,
}

impl View for LspServerInfo {
    type V = LspServerInfoView;

    open spec fn view(&self) -> LspServerInfoView {
        LspServerInfoView {
            language: self.language@,
            name: self.name@,
            command: self.command@,
            args: texts(self.args@),
            installed: self.installed,
            installation_instructions: match self.installation_instructions {
                Some(text) => Some(text@),
                None => None,
            },
        }
    }
}

/// The servers of a list, each with its strings as sequences of characters.
pub open spec fn server_views(list: Seq<LspServerInfo>) -> Seq<LspServerInfoView> {
    Seq::new(list.len(), |i: int| list[i]@)
}

/// A known server that is not marked as installed. It takes one argument or
/// none.
pub open spec fn known(
    language: Seq<char>,
    name: Seq<char>,
    command: Seq<char>,
    argument: Option<Seq<char>>,
    instructions: Seq<char>,
) -> LspServerInfoView {
    LspServerInfoView {
        language,
        name,
        command,
        args: match argument {
            Some(a) => seq![a],
            None => Seq::empty(),
        },
        installed: false,
        installation_instructions: Some(instructions),
    }
}

/// The language servers that are known, in the order of preference.
pub open spec fn known_servers() -> Seq<LspServerInfoView> {
    seq![
        known("python"@, "Pylsp"@, "pylsp"@, None, "pip install python-lsp-server"@),
        known(
            "python"@,
            "Pyright"@,
            "pyright-langserver"@,
            Some("--stdio"@),
            "npm install -g pyright"@,
        ),
        known(
            "javascript"@,
            "TypeScript Language Server"@,
            "typescript-language-server"@,
            Some("--stdio"@),
            "npm install -g typescript-language-server typescript"@,
        ),
        known(
            "typescript"@,
            "TypeScript Language Server"@,
            "typescript-language-server"@,
            Some("--stdio"@),
            "npm install -g typescript-language-server typescript"@,
        ),
        known(
            "rust"@,
            "rust-analyzer"@,
            "rust-analyzer"@,
            None,
            "rustup component add rust-analyzer"@,
        ),
        known("go"@, "gopls"@, "gopls"@, None, "go install golang.org/x/tools/gopls@latest"@),
        known(
            "java"@,
            "Eclipse JDT LS"@,
            "jdtls"@,
            None,
            "See https://github.com/eclipse/eclipse.jdt.ls"@,
        ),
        known("c"@, "clangd"@, "clangd"@, None, "Install LLVM/Clang"@),
        known("cpp"@, "clangd"@, "clangd"@, None, "Install LLVM/Clang"@),
        known("ruby"@, "Solargraph"@, "solargraph"@, Some("stdio"@), "gem install solargraph"@),
        known(
            "html"@,
            "vscode-html-language-server"@,
            "vscode-html-language-server"@,
            Some("--stdio"@),
            "npm install -g vscode-langservers-extracted"@,
        ),
        known(
            "css"@,
            "vscode-css-language-server"@,
            "vscode-css-language-server"@,
            Some("--stdio"@),
            "npm install -g vscode-langservers-extracted"@,
        ),
        known(
            "json"@,
            "vscode-json-language-server"@,
            "vscode-json-language-server"@,
            Some("--stdio"@),
            "npm install -g vscode-langservers-extracted"@,
        ),
    ]
}

/// A known server that is not marked as installed.
fn server(
    language: &str,
    name: &str,
    command: &str,
    argument: Option<&str>,
    instructions: &str,
) -> (info: LspServerInfo)
    ensures
        info@ == known(
            language@,
            name@,
            command@,
            match argument {
                Some(a) => Some(a@),
                None => None,
            },
            instructions@,
        ),
{
    let mut args: Vec<String> = Vec::new();
    match argument {
        Some(a) => {
            args.push(a.to_owned());
        },
        None => {},
    }
    let info = LspServerInfo {
        language: language.to_owned(),
        name: name.to_owned(),
        command: command.to_owned(),
        args,
        installed: false,
        installation_instructions: Some(instructions.to_owned()),
    };
    assert(info@.args =~= known(
        language@,
        name@,
        command@,
        match argument {
            Some(a) => Some(a@),
            None => None,
        },
        instructions@,
    ).args);
    info
}

/// The language servers that are known, in the order of preference, none of
/// them marked as installed.
pub fn get_known_servers() -> (list: Vec<LspServerInfo>)
    ensures
        server_views(list@) == known_servers(),
{
    let mut list: Vec<LspServerInfo> = Vec::new();
    list.push(server("python", "Pylsp", "pylsp", None, "pip install python-lsp-server"));
    list.push(
        server(
            "python",
            "Pyright",
            "pyright-langserver",
            Some("--stdio"),
            "npm install -g pyright",
        ),
    );
    list.push(
        server(
            "javascript",
            "TypeScript Language Server",
            "typescript-language-server",
            Some("--stdio"),
            "npm install -g typescript-language-server typescript",
        ),
    );
    list.push(
        server(
            "typescript",
            "TypeScript Language Server",
            "typescript-language-server",
            Some("--stdio"),
            "npm install -g typescript-language-server typescript",
        ),
    );
    list.push(
        server(
            "rust",
            "rust-analyzer",
            "rust-analyzer",
            None,
            "rustup component add rust-analyzer",
        ),
    );
    list.push(
        server("go", "gopls", "gopls", None, "go install golang.org/x/tools/gopls@latest"),
    );
    list.push(
        server(
            "java",
            "Eclipse JDT LS",
            "jdtls",
            None,
            "See https://github.com/eclipse/eclipse.jdt.ls",
        ),
    );
    list.push(server("c", "clangd", "clangd", None, "Install LLVM/Clang"));
    list.push(server("cpp", "clangd", "clangd", None, "Install LLVM/Clang"));
    list.push(server("ruby", "Solargraph", "solargraph", Some("stdio"), "gem install solargraph"));
    list.push(
        server(
            "html",
            "vscode-html-language-server",
            "vscode-html-language-server",
            Some("--stdio"),
            "npm install -g vscode-langservers-extracted",
        ),
    );
    list.push(
        server(
            "css",
            "vscode-css-language-server",
            "vscode-css-language-server",
            Some("--stdio"),
            "npm install -g vscode-langservers-extracted",
        ),
    );
    list.push(
        server(
            "json",
            "vscode-json-language-server",
            "vscode-json-language-server",
            Some("--stdio"),
            "npm install -g vscode-langservers-extracted",
        ),
    );
    assert(server_views(list@) =~= known_servers());
    list
}

/// Whether the command at a place of the list was found installed. Places
/// beyond the end of the list count as not installed.
pub open spec fn found_at(installed: Seq<bool>, i: int) -> bool {
    0 <= i < installed.len() && installed[i]
}

/// The known language servers, each marked as installed or not according to
/// what was found out about its command: the answers stand in the order of
/// the known servers.
pub fn get_available_servers(installed: &Vec<bool>) -> (list: Vec<LspServerInfo>)
    ensures
        list@.len() == known_servers().len(),
        forall|i: int|
            0 <= i < list@.len() ==> (#[trigger] list@[i])@ == (LspServerInfoView {
                installed: found_at(installed@, i),
                ..known_servers()[i]
            }),
{
    let mut list = get_known_servers();
    let ghost known = list@;
    let mut i: usize = 0;
    while i < list.len()
        invariant
            i <= list@.len(),
            list@.len() == known.len(),
            server_views(known) == known_servers(),
            forall|k: int|
                0 <= k < i ==> (#[trigger] list@[k])@ == (LspServerInfoView {
                    installed: found_at(installed@, k),
                    ..known_servers()[k]
                }),
            forall|k: int| i <= k < list@.len() ==> list@[k] == known[k],
        decreases list@.len() - i,
    {
        let found = i < installed.len() && installed[i];
        let entry = &list[i];
        let marked = LspServerInfo {
            language: entry.language.clone(),
            name: entry.name.clone(),
            command: entry.command.clone(),
            args: copy_list(&entry.args),
            installed: found,
            installation_instructions: match &entry.installation_instructions {
                Some(text) => Some(text.clone()),
                None => None,
            },
        };
        assert(known[i as int]@ == server_views(known)[i as int]);
        list.set(i, marked);
        i += 1;
    }
    list
}

/// The identifier of the service that runs the language server of a
/// language.
pub open spec fn service_id_of(language: Seq<char>) -> Seq<char> {
    "lsp-"@ + language
}

/// The identifier of the service that runs the language server of a
/// language.
pub fn service_id(language: &str) -> (id: String)
    ensures
        id@ == service_id_of(language@),
{
    let mut id = "lsp-".to_owned();
    id.append(language);
    id
}

/// The list of strings that a JSON text holds, where it holds one: what
/// `serde_json::from_str` reads from it as a `Vec<String>`.
pub uninterp spec fn json_string_list(json: Seq<char>) -> Option<Seq<Seq<char>>>;

/// `serde_json::from_str` for a `Vec<String>`: the strings of a JSON array
/// of strings, or nothing where the text is anything else. The answer
/// depends on the text alone.
#[verifier::external_body]
pub(crate) fn parse_string_list(json: &str) -> (list: Option<Vec<String>>)
    ensures
        match list {
            Some(l) => json_string_list(json@) == Some(texts(l@)),
            None => json_string_list(json@) is None,
        },
{
    match serde_json::from_str::<Vec<String>>(json) {
        Ok(l) => Some(l),
        Err(_) => None,
    }
}

/// The arguments of a server that the user configured, given what the JSON
/// text of the configuration holds: the strings it holds, or none where it
/// holds no list of strings.
pub fn arguments_from(parsed: Option<Vec<String>>) -> (args: Vec<String>)
    ensures
        texts(args@) == (match parsed {
            Some(l) => texts(l@),
            None => Seq::empty(),
        }),
{
    match parsed {
        Some(l) => l,
        None => {
            let args: Vec<String> = Vec::new();
            assert(texts(args@) =~= Seq::empty());
            args
        },
    }
}

/// The arguments that a configuration of the user gives its server.
pub open spec fn custom_arguments(args: Option<String>) -> Seq<Seq<char>> {
    match args {
        Some(json) => match json_string_list(json@) {
            Some(list) => list,
            None => Seq::empty(),
        },
        None => Seq::empty(),
    }
}

/// Whether a server of the list serves a language and, where that is asked
/// for, is installed.
pub open spec fn serves(server: LspServerInfo, language: Seq<char>, installed: bool) -> bool {
    server.language@ == language && (server.installed || !installed)
}

/// The first place at or after `from` whose server serves the language.
pub open spec fn first_serving(
    servers: Seq<LspServerInfo>,
    language: Seq<char>,
    installed: bool,
    from: int,
) -> Option<int>
    decreases servers.len() - from,
{
    if from < 0 || from >= servers.len() {
        None
    } else if serves(servers[from], language, installed) {
        Some(from)
    } else {
        first_serving(servers, language, installed, from + 1)
    }
}

/// The server to use for a language: the first that serves it and is
/// installed, or, where none is installed, the first that serves it.
pub open spec fn chosen(servers: Seq<LspServerInfo>, language: Seq<char>) -> Option<int> {
    match first_serving(servers, language, true, 0) {
        Some(i) => Some(i),
        None => first_serving(servers, language, false, 0),
    }
}

/// The first server of the list that serves a language.
fn find_serving(servers: &Vec<LspServerInfo>, language: &str, installed: bool) -> (found: Option<
    usize,
>)
    ensures
        match found {
            Some(i) => first_serving(servers@, language@, installed, 0) == Some(i as int) && i
                < servers@.len(),
            None => first_serving(servers@, language@, installed, 0) is None,
        },
{
    let mut i: usize = 0;
    while i < servers.len()
        invariant
            i <= servers@.len(),
            first_serving(servers@, language@, installed, 0) == first_serving(
                servers@,
                language@,
                installed,
                i as int,
            ),
        decreases servers@.len() - i,
    {
        if same_text(servers[i].language.as_str(), language) && (servers[i].installed
            || !installed) {
            return Some(i);
        }
        i += 1;
    }
    None
}

/// The text of the error for a language without a known server.
pub open spec fn no_server(language: Seq<char>) -> Seq<char> {
    "No LSP server found for: "@ + language
}

/// The text of the error for a server that is not installed.
pub open spec fn not_installed(server: LspServerInfoView) -> Seq<char> {
    "LSP server '"@ + server.name + "' not installed. "@ + (match server.installation_instructions {
        Some(text) => text,
        None => "Please install it manually."@,
    })
}

/// The service that runs a server for a language in a project.
pub open spec fn service_for(
    language: Seq<char>,
    project_path: Seq<char>,
    command: Seq<char>,
    args: Seq<Seq<char>>,
) -> ServiceConfigView {
    ServiceConfigView {
        id: service_id_of(language),
        service_type: ServiceTypeView::Lsp(language),
        command,
        args,
        working_dir: Some(project_path),
        env: Seq::empty(),
    }
}

/// The service that runs a server for a language in a project.
fn make_service(language: &str, project_path: &str, command: String, args: Vec<String>) -> (config:
    ServiceConfig)
    ensures
        config@ == service_for(language@, project_path@, command@, texts(args@)),
{
    let config = ServiceConfig {
        id: service_id(language),
        service_type: ServiceType::Lsp(language.to_owned()),
        command,
        args,
        working_dir: Some(project_path.to_owned()),
        env: Vec::new(),
    };
    assert(config@.env =~= Seq::empty());
    config
}

/// The service to start for a server that the user configured, given what
/// the JSON text of its arguments holds.
pub fn custom_service(
    language: &str,
    project_path: &str,
    config: LspConfig,
    parsed: Option<Vec<String>>,
) -> (service: ServiceConfig)
    ensures
        service@ == service_for(
            language@,
            project_path@,
            config.server_path@,
            match parsed {
                Some(l) => texts(l@),
                None => Seq::empty(),
            },
        ),
{
    let args = arguments_from(parsed);
    make_service(language, project_path, config.server_path, args)
}

/// The service to start for one of the known servers, or why there is none:
/// no server is known for the language, or the one that is has not been
/// installed. The servers come marked as installed or not.
pub fn known_service(language: &str, project_path: &str, servers: &Vec<LspServerInfo>) -> (result:
    Result<ServiceConfig, ShellError>)
    ensures
        match chosen(servers@, language@) {
            None => result matches Err(ShellError::Service(text)) && text@ == no_server(
                language@,
            ),
            Some(i) => if servers@[i].installed {
                result matches Ok(service) && service@ == service_for(
                    language@,
                    project_path@,
                    servers@[i].command@,
                    texts(servers@[i].args@),
                )
            } else {
                result matches Err(ShellError::Service(text)) && text@ == not_installed(
                    servers@[i]@,
                )
            },
        },
{
    let place = match find_serving(servers, language, true) {
        Some(i) => Some(i),
        None => find_serving(servers, language, false),
    };
    let i = match place {
        Some(i) => i,
        None => {
            let mut text = "No LSP server found for: ".to_owned();
            text.append(language);
            return Err(ShellError::Service(text));
        },
    };
    let server = &servers[i];
    if !server.installed {
        let mut text = "LSP server '".to_owned();
        text.append(server.name.as_str());
        text.append("' not installed. ");
        match &server.installation_instructions {
            Some(instructions) => {
                text.append(instructions.as_str());
            },
            None => {
                text.append("Please install it manually.");
            },
        }
        return Err(ShellError::Service(text));
    }
    Ok(
        make_service(
            language,
            project_path,
            server.command.clone(),
            copy_list(&server.args),
        ),
    )
}

/// The service to start as the language server of a language in a project.
/// A server that the user configured for the language goes before the known
/// ones; its arguments are read from the JSON text of the configuration.
pub fn start_language_server(
    language: &str,
    project_path: &str,
    custom: Option<LspConfig>,
    servers: &Vec<LspServerInfo>,
) -> (result: Result<ServiceConfig, ShellError>)
    ensures
        match custom {
            Some(config) => result matches Ok(service) && service@ == service_for(
                language@,
                project_path@,
                config.server_path@,
                custom_arguments(config.args),
            ),
            None => match chosen(servers@, language@) {
                None => result matches Err(ShellError::Service(text)) && text@ == no_server(
                    language@,
                ),
                Some(i) => if servers@[i].installed {
                    result matches Ok(service) && service@ == service_for(
                        language@,
                        project_path@,
                        servers@[i].command@,
                        texts(servers@[i].args@),
                    )
                } else {
                    result matches Err(ShellError::Service(text)) && text@ == not_installed(
                        servers@[i]@,
                    )
                },
            },
        },
{
    match custom {
        Some(config) => {
            let parsed = match &config.args {
                Some(json) => parse_string_list(json.as_str()),
                None => None,
            };
            Ok(custom_service(language, project_path, config, parsed))
        },
        None => known_service(language, project_path, servers),
    }
}

/// The identifier of the service to stop for a language.
pub fn stop_language_server(language: &str) -> (id: String)
    ensures
        id@ == service_id_of(language@),
{
    service_id(language)
}

} // verus!
