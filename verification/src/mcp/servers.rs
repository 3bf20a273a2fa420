//! The list of tool servers and what the commands do to it.
//!
//! The caller reads the list from its file, hands it over with the
//! command, and does what comes back: save the new list, print lines, or
//! ask the enabled servers for their tools.

use vstd::prelude::*;
use vstd::string::*;

use crate::cli::McpCommand;
use crate::cli::McpCommandView;
use crate::text::clone_strings;
use crate::text::debug_list;
use crate::text::debug_strings;
use crate::text::result_view;
use crate::text::sibling_tmp_name;
use crate::text::str_eq;
use crate::text::texts;
use crate::text::tmp_sibling;

verus! {

/// The name of the temporary file where the file of servers has no name of its own.
pub const FALLBACK_SERVERS_FILE: &'static str = "mcp_servers.json";

/// A tool server: a program that is started and spoken to over its
/// standard input and output.
#[derive(Debug, PartialEq, Eq)]
pub struct McpServerConfig {
    pub name: String,
    pub command: String,
    pub args: Vec<String>,
    pub enabled: bool,
}

/// A [`McpServerConfig`] with its texts as sequences of characters.
pub struct ServerView {
    pub name: Seq<char>,
    pub command: Seq<char>,
    pub args: Seq<Seq<char>>,
    pub enabled: bool,
}

impl View for McpServerConfig {
    type V = ServerView;

    open spec fn view(&self) -> ServerView {
        ServerView {
            name: self.name@,
            command: self.command@,
            args: texts(self.args@),
            enabled: self.enabled,
        }
    }
}

impl Clone for McpServerConfig {
    fn clone(&self) -> (r: McpServerConfig)
        ensures
            r@ == self@,
    {
        McpServerConfig {
            name: self.name.clone(),
            command: self.command.clone(),
            args: clone_strings(&self.args),
            enabled: self.enabled,
        }
    }
}

/// The servers of a list, in order.
pub open spec fn servers_view(servers: Seq<McpServerConfig>) -> Seq<ServerView> {
    Seq::new(servers.len(), |i: int| servers[i]@)
}

/// What the file of servers holds.
#[derive(Debug, PartialEq, Eq)]
pub struct McpServersFile {
    pub servers: Vec<McpServerConfig>,
}

impl View for McpServersFile {
    type V = Seq<ServerView>;

    open spec fn view(&self) -> Seq<ServerView> {
        servers_view(self.servers@)
    }
}

impl Default for McpServersFile {
    fn default() -> (r: McpServersFile)
        ensures
            r@ == Seq::<ServerView>::empty(),
    {
        let file = McpServersFile { servers: Vec::new() };
        assert(file@ =~= Seq::<ServerView>::empty());
        file
    }
}

/// Why a command on the list of servers failed.
#[derive(Debug, PartialEq, Eq)]
pub enum McpError {
    /// There is a server of this name already.
    AlreadyExists { name: String },
    /// There is no server of this name.
    NoSuchServer { name: String },
    /// The file of servers is there and could not be read.
    Read { path: String, detail: String },
    /// The file of servers does not hold a list of servers.
    Parse { path: String, detail: String },
}

/// A [`McpError`] with its texts as sequences of characters.
pub enum McpErrorView {
    AlreadyExists { name: Seq<char> },
    NoSuchServer { name: Seq<char> },
    Read { path: Seq<char>, detail: Seq<char> },
    Parse { path: Seq<char>, detail: Seq<char> },
}

impl View for McpError {
    type V = McpErrorView;

    open spec fn view(&self) -> McpErrorView {
        match *self {
            McpError::AlreadyExists { name } => McpErrorView::AlreadyExists { name: name@ },
            McpError::NoSuchServer { name } => McpErrorView::NoSuchServer { name: name@ },
            McpError::Read { path, detail } => McpErrorView::Read { path: path@, detail: detail@ },
            McpError::Parse { path, detail } => McpErrorView::Parse {
                path: path@,
                detail: detail@,
            },
        }
    }
}

impl McpErrorView {
    /// The sentence that tells the user of this failure.
    pub open spec fn message(self) -> Seq<char> {
        match self {
            McpErrorView::AlreadyExists { name } => "server already exists: "@ + name,
            McpErrorView::NoSuchServer { name } => "no such server: "@ + name,
            McpErrorView::Read { path, detail } => "failed to read MCP servers file: "@ + path
                + ": "@ + detail,
            McpErrorView::Parse { path, detail } => "failed to parse JSON: "@ + path + ": "@
                + detail,
        }
    }
}

impl McpError {
    /// The sentence that tells the user of this failure.
    pub fn message(&self) -> (r: String)
        ensures
            r@ == self@.message(),
    {
        match self {
            McpError::AlreadyExists { name } => {
                let mut out = String::from_str("server already exists: ");
                out.append(name.as_str());
                out
            },
            McpError::NoSuchServer { name } => {
                let mut out = String::from_str("no such server: ");
                out.append(name.as_str());
                out
            },
            McpError::Read { path, detail } => {
                let mut out = String::from_str("failed to read MCP servers file: ");
                out.append(path.as_str());
                out.append(": ");
                out.append(detail.as_str());
                out
            },
            McpError::Parse { path, detail } => {
                let mut out = String::from_str("failed to parse JSON: ");
                out.append(path.as_str());
                out.append(": ");
                out.append(detail.as_str());
                out
            },
        }
    }
}

/// What the caller is to do after a command.
#[derive(Debug, PartialEq, Eq)]
pub enum McpOutcome {
    /// Save this list in place of the old one.
    Save(McpServersFile),
    /// Print these lines.
    Print(Vec<String>),
    /// Ask each of these servers for its tools, and print them.
    ListTools(Vec<McpServerConfig>),
}

/// A [`McpOutcome`] with its texts as sequences of characters.
pub enum McpOutcomeView {
    Save(Seq<ServerView>),
    Print(Seq<Seq<char>>),
    ListTools(Seq<ServerView>),
}

impl View for McpOutcome {
    type V = McpOutcomeView;

    open spec fn view(&self) -> McpOutcomeView {
        match *self {
            McpOutcome::Save(file) => McpOutcomeView::Save(file@),
            McpOutcome::Print(lines) => McpOutcomeView::Print(texts(lines@)),
            McpOutcome::ListTools(servers) => McpOutcomeView::ListTools(servers_view(servers@)),
        }
    }
}

/// Whether a list holds a server of the given name.
pub open spec fn has_server(servers: Seq<ServerView>, name: Seq<char>) -> bool {
    exists|i: int| 0 <= i < servers.len() && (#[trigger] servers[i]).name == name
}

/// The list without the servers of the given name, the others in their order.
pub open spec fn without_server(servers: Seq<ServerView>, name: Seq<char>) -> Seq<ServerView>
    decreases servers.len(),
{
    if servers.len() == 0 {
        servers
    } else if servers.last().name == name {
        without_server(servers.drop_last(), name)
    } else {
        without_server(servers.drop_last(), name).push(servers.last())
    }
}

/// The enabled servers of a list, in their order.
pub open spec fn enabled_servers(servers: Seq<ServerView>) -> Seq<ServerView>
    decreases servers.len(),
{
    if servers.len() == 0 {
        servers
    } else if servers.last().enabled {
        enabled_servers(servers.drop_last()).push(servers.last())
    } else {
        enabled_servers(servers.drop_last())
    }
}

/// The list with every server of the given name enabled, or disabled.
pub open spec fn with_enabled(servers: Seq<ServerView>, name: Seq<char>, enabled: bool) -> Seq<
    ServerView,
> {
    Seq::new(
        servers.len(),
        |i: int|
            if servers[i].name == name {
                ServerView { enabled, ..servers[i] }
            } else {
                servers[i]
            },
    )
}

/// The line that shows a server in the list of servers.
pub open spec fn server_line(server: ServerView) -> Seq<char> {
    (if server.enabled {
        "enabled"@
    } else {
        "disabled"@
    }) + "\t"@ + server.name + "\t"@ + server.command + " "@ + debug_list(server.args)
}

/// The lines that show a list of servers.
pub open spec fn server_lines(servers: Seq<ServerView>) -> Seq<Seq<char>> {
    if servers.len() == 0 {
        seq!["(no MCP servers configured)"@]
    } else {
        Seq::new(servers.len(), |i: int| server_line(servers[i]))
    }
}

/// What a command does to a list of servers.
pub open spec fn mcp_result(cmd: McpCommandView, servers: Seq<ServerView>) -> Result<
    McpOutcomeView,
    McpErrorView,
> {
    match cmd {
        McpCommandView::Add { name, command, args } => if has_server(servers, name) {
            Err(McpErrorView::AlreadyExists { name })
        } else {
            Ok(McpOutcomeView::Save(servers.push(ServerView { name, command, args, enabled: true })))
        },
        McpCommandView::List => Ok(McpOutcomeView::Print(server_lines(servers))),
        McpCommandView::Remove { name } => if has_server(servers, name) {
            Ok(McpOutcomeView::Save(without_server(servers, name)))
        } else {
            Err(McpErrorView::NoSuchServer { name })
        },
        McpCommandView::Enable { name } => if has_server(servers, name) {
            Ok(McpOutcomeView::Save(with_enabled(servers, name, true)))
        } else {
            Err(McpErrorView::NoSuchServer { name })
        },
        McpCommandView::Disable { name } => if has_server(servers, name) {
            Ok(McpOutcomeView::Save(with_enabled(servers, name, false)))
        } else {
            Err(McpErrorView::NoSuchServer { name })
        },
        McpCommandView::Tools => if enabled_servers(servers).len() == 0 {
            Ok(McpOutcomeView::Print(seq!["(no enabled MCP servers)"@]))
        } else {
            Ok(McpOutcomeView::ListTools(enabled_servers(servers)))
        },
    }
}

/// Whether the list holds a server of the given name.
pub fn contains_server(servers: &Vec<McpServerConfig>, name: &str) -> (r: bool)
    ensures
        r == has_server(servers_view(servers@), name@),
{
    let mut i: usize = 0;
    while i < servers.len()
        invariant
            i <= servers@.len(),
            forall|j: int| 0 <= j < i ==> (#[trigger] servers_view(servers@)[j]).name != name@,
        decreases servers@.len() - i,
    {
        if str_eq(servers[i].name.as_str(), name) {
            assert(servers_view(servers@)[i as int].name == name@);
            return true;
        }
        i += 1;
    }
    false
}

/// The list without the servers of the given name.
pub fn remove_server(servers: &Vec<McpServerConfig>, name: &str) -> (r: Vec<McpServerConfig>)
    ensures
        servers_view(r@) == without_server(servers_view(servers@), name@),
{
    let mut kept: Vec<McpServerConfig> = Vec::new();
    let mut i: usize = 0;
    assert(servers_view(servers@).take(0) =~= Seq::<ServerView>::empty());
    assert(servers_view(kept@) =~= Seq::<ServerView>::empty());
    while i < servers.len()
        invariant
            i <= servers@.len(),
            servers_view(kept@) == without_server(servers_view(servers@).take(i as int), name@),
        decreases servers@.len() - i,
    {
        let ghost before = servers_view(kept@);
        assert(servers_view(servers@).take(i as int + 1).drop_last() =~= servers_view(
            servers@,
        ).take(i as int));
        if !str_eq(servers[i].name.as_str(), name) {
            kept.push(servers[i].clone());
            assert(servers_view(kept@) =~= before.push(servers_view(servers@)[i as int]));
        }
        i += 1;
    }
    assert(servers_view(servers@).take(servers@.len() as int) =~= servers_view(servers@));
    kept
}

/// The list with every server of the given name enabled, or disabled.
pub fn set_enabled(servers: &Vec<McpServerConfig>, name: &str, enabled: bool) -> (r: Vec<
    McpServerConfig,
>)
    ensures
        servers_view(r@) == with_enabled(servers_view(servers@), name@, enabled),
{
    let mut out: Vec<McpServerConfig> = Vec::new();
    let mut i: usize = 0;
    while i < servers.len()
        invariant
            i <= servers@.len(),
            out@.len() == i,
            forall|j: int|
                0 <= j < i ==> (#[trigger] out@[j])@ == with_enabled(
                    servers_view(servers@),
                    name@,
                    enabled,
                )[j],
        decreases servers@.len() - i,
    {
        let mut server = servers[i].clone();
        if str_eq(server.name.as_str(), name) {
            server.enabled = enabled;
        }
        out.push(server);
        i += 1;
    }
    assert(servers_view(out@) =~= with_enabled(servers_view(servers@), name@, enabled));
    out
}

/// The enabled servers of the list.
pub fn enabled_only(servers: &Vec<McpServerConfig>) -> (r: Vec<McpServerConfig>)
    ensures
        servers_view(r@) == enabled_servers(servers_view(servers@)),
{
    let mut kept: Vec<McpServerConfig> = Vec::new();
    let mut i: usize = 0;
    assert(servers_view(servers@).take(0) =~= Seq::<ServerView>::empty());
    assert(servers_view(kept@) =~= Seq::<ServerView>::empty());
    while i < servers.len()
        invariant
            i <= servers@.len(),
            servers_view(kept@) == enabled_servers(servers_view(servers@).take(i as int)),
        decreases servers@.len() - i,
    {
        let ghost before = servers_view(kept@);
        assert(servers_view(servers@).take(i as int + 1).drop_last() =~= servers_view(
            servers@,
        ).take(i as int));
        if servers[i].enabled {
            kept.push(servers[i].clone());
            assert(servers_view(kept@) =~= before.push(servers_view(servers@)[i as int]));
        }
        i += 1;
    }
    assert(servers_view(servers@).take(servers@.len() as int) =~= servers_view(servers@));
    kept
}

/// The lines that show the list: whether a server is enabled, its name,
/// and how it is started.
pub fn list_lines(servers: &Vec<McpServerConfig>) -> (r: Vec<String>)
    ensures
        texts(r@) == server_lines(servers_view(servers@)),
{
    let mut lines: Vec<String> = Vec::new();
    if servers.len() == 0 {
        lines.push(String::from_str("(no MCP servers configured)"));
        assert(texts(lines@) =~= server_lines(servers_view(servers@)));
        return lines;
    }
    let mut i: usize = 0;
    while i < servers.len()
        invariant
            i <= servers@.len(),
            lines@.len() == i,
            forall|j: int|
                0 <= j < i ==> (#[trigger] lines@[j])@ == server_line(servers_view(servers@)[j]),
        decreases servers@.len() - i,
    {
        let server = &servers[i];
        let mut line = String::from_str(
            if server.enabled {
                "enabled"
            } else {
                "disabled"
            },
        );
        line.append("\t");
        line.append(server.name.as_str());
        line.append("\t");
        line.append(server.command.as_str());
        line.append(" ");
        let args = debug_strings(&server.args);
        line.append(args.as_str());
        lines.push(line);
        i += 1;
    }
    assert(texts(lines@) =~= server_lines(servers_view(servers@)));
    lines
}

/// Carries out a command on the list of servers.
///
/// A server is added enabled, and only under a name that is not taken.
/// To remove, enable or disable a server there must be one of that name.
pub fn cmd_mcp(cmd: McpCommand, file: McpServersFile) -> (r: Result<McpOutcome, McpError>)
    ensures
        result_view(r) == mcp_result(cmd@, file@),
{
    let mut servers = file.servers;
    match cmd {
        McpCommand::Add { name, command, args } => {
            if contains_server(&servers, name.as_str()) {
                return Err(McpError::AlreadyExists { name });
            }
            let ghost before = servers_view(servers@);
            let server = McpServerConfig { name, command, args, enabled: true };
            servers.push(server);
            assert(servers_view(servers@) =~= before.push(server@));
            Ok(McpOutcome::Save(McpServersFile { servers }))
        },
        McpCommand::List => Ok(McpOutcome::Print(list_lines(&servers))),
        McpCommand::Remove { name } => {
            if !contains_server(&servers, name.as_str()) {
                return Err(McpError::NoSuchServer { name });
            }
            Ok(McpOutcome::Save(McpServersFile { servers: remove_server(&servers, name.as_str()) }))
        },
        McpCommand::Enable { name } => {
            if !contains_server(&servers, name.as_str()) {
                return Err(McpError::NoSuchServer { name });
            }
            Ok(
                McpOutcome::Save(
                    McpServersFile { servers: set_enabled(&servers, name.as_str(), true) },
                ),
            )
        },
        McpCommand::Disable { name } => {
            if !contains_server(&servers, name.as_str()) {
                return Err(McpError::NoSuchServer { name });
            }
            Ok(
                McpOutcome::Save(
                    McpServersFile { servers: set_enabled(&servers, name.as_str(), false) },
                ),
            )
        },
        McpCommand::Tools => {
            let enabled = enabled_only(&servers);
            if enabled.len() == 0 {
                let mut lines: Vec<String> = Vec::new();
                lines.push(String::from_str("(no enabled MCP servers)"));
                assert(texts(lines@) =~= seq!["(no enabled MCP servers)"@]);
                Ok(McpOutcome::Print(lines))
            } else {
                Ok(McpOutcome::ListTools(enabled))
            }
        },
    }
}

/// What a read of the file of servers gave.
#[derive(Debug, PartialEq, Eq)]
pub enum ServersFile {
    /// There is no such file.
    Missing,
    /// The file could not be read, for the reason given.
    Unreadable(String),
    /// The file does not hold a list of servers, for the reason given.
    Malformed(String),
    /// The file holds this list.
    Found(McpServersFile),
}

/// A [`ServersFile`] with its texts as sequences of characters.
pub enum ServersFileView {
    Missing,
    Unreadable(Seq<char>),
    Malformed(Seq<char>),
    Found(Seq<ServerView>),
}

impl View for ServersFile {
    type V = ServersFileView;

    open spec fn view(&self) -> ServersFileView {
        match *self {
            ServersFile::Missing => ServersFileView::Missing,
            ServersFile::Unreadable(detail) => ServersFileView::Unreadable(detail@),
            ServersFile::Malformed(detail) => ServersFileView::Malformed(detail@),
            ServersFile::Found(file) => ServersFileView::Found(file@),
        }
    }
}

/// What a read of the file of servers at `path` amounts to: a file that
/// is not there is an empty list.
pub open spec fn servers_loaded(path: Seq<char>, read: ServersFileView) -> Result<
    Seq<ServerView>,
    McpErrorView,
> {
    match read {
        ServersFileView::Missing => Ok(Seq::empty()),
        ServersFileView::Unreadable(detail) => Err(McpErrorView::Read { path, detail }),
        ServersFileView::Malformed(detail) => Err(McpErrorView::Parse { path, detail }),
        ServersFileView::Found(servers) => Ok(servers),
    }
}

/// Says what a read of the file of servers at `path` amounts to.
pub fn load_from(path: &str, read: ServersFile) -> (r: Result<McpServersFile, McpError>)
    ensures
        result_view(r) == servers_loaded(path@, read@),
{
    match read {
        ServersFile::Missing => Ok(McpServersFile::default()),
        ServersFile::Unreadable(detail) => Err(
            McpError::Read { path: String::from_str(path), detail },
        ),
        ServersFile::Malformed(detail) => Err(
            McpError::Parse { path: String::from_str(path), detail },
        ),
        ServersFile::Found(file) => Ok(file),
    }
}

/// The name of the temporary file that is written, and then renamed over
/// the file of servers named `file_name`.
pub fn save_to(file_name: Option<&str>) -> (r: String)
    ensures
        r@ == sibling_tmp_name(
            match file_name {
                Some(name) => Some(name@),
                None => None,
            },
            FALLBACK_SERVERS_FILE@,
        ),
{
    tmp_sibling(file_name, FALLBACK_SERVERS_FILE)
}

/// Removing a name leaves no server of that name, keeps every other
/// server, and adds none.
pub proof fn lemma_remove_removes(servers: Seq<ServerView>, name: Seq<char>)
    ensures
        !has_server(without_server(servers, name), name),
        without_server(servers, name).len() <= servers.len(),
        has_server(servers, name) ==> without_server(servers, name).len() < servers.len(),
        forall|other: Seq<char>|
            other != name ==> (has_server(without_server(servers, name), other) <==> has_server(
                servers,
                other,
            )),
    decreases servers.len(),
{
    if servers.len() > 0 {
        let init = servers.drop_last();
        let last = servers.last();
        lemma_remove_removes(init, name);
        let kept = without_server(init, name);
        if last.name == name {
            assert forall|other: Seq<char>| other != name implies (has_server(kept, other)
                <==> has_server(servers, other)) by {
                if has_server(servers, other) {
                    let i = choose|i: int| 0 <= i < servers.len() && servers[i].name == other;
                    assert(init[i].name == other);
                }
                if has_server(init, other) {
                    let i = choose|i: int| 0 <= i < init.len() && init[i].name == other;
                    assert(servers[i].name == other);
                }
            }
        } else {
            let out = kept.push(last);
            assert(!has_server(out, name)) by {
                if has_server(out, name) {
                    let i = choose|i: int| 0 <= i < out.len() && out[i].name == name;
                    if i < kept.len() {
                        assert(kept[i].name == name);
                    }
                }
            }
            assert forall|other: Seq<char>| other != name implies (has_server(out, other)
                <==> has_server(servers, other)) by {
                if has_server(servers, other) {
                    let i = choose|i: int| 0 <= i < servers.len() && servers[i].name == other;
                    if i < init.len() {
                        assert(init[i].name == other);
                        assert(has_server(init, other));
                        assert(has_server(kept, other));
                        let j = choose|j: int| 0 <= j < kept.len() && kept[j].name == other;
                        assert(out[j].name == other);
                    } else {
                        assert(out[kept.len() as int].name == other);
                    }
                }
                if has_server(out, other) {
                    let i = choose|i: int| 0 <= i < out.len() && out[i].name == other;
                    if i < kept.len() {
                        assert(kept[i].name == other);
                        assert(has_server(kept, other));
                        assert(has_server(init, other));
                        let j = choose|j: int| 0 <= j < init.len() && init[j].name == other;
                        assert(servers[j].name == other);
                    } else {
                        assert(servers[servers.len() - 1].name == other);
                    }
                }
            }
            if has_server(servers, name) {
                let i = choose|i: int| 0 <= i < servers.len() && servers[i].name == name;
                assert(init[i].name == name);
            }
        }
    }
}

/// Whether no two servers of a list have the same name.
pub open spec fn names_unique(servers: Seq<ServerView>) -> bool {
    forall|i: int, j: int|
        0 <= i < j < servers.len() ==> (#[trigger] servers[i]).name != (#[trigger] servers[j]).name
}

/// Adding keeps names apart: a list without two servers of one name has
/// none after a server was added, and then holds the new server.
pub proof fn lemma_add_keeps_names_unique(
    servers: Seq<ServerView>,
    name: Seq<char>,
    command: Seq<char>,
    args: Seq<Seq<char>>,
)
    requires
        names_unique(servers),
    ensures
        mcp_result(McpCommandView::Add { name, command, args }, servers) matches Ok(
            McpOutcomeView::Save(saved),
        ) ==> names_unique(saved) && has_server(saved, name) && saved.len() == servers.len() + 1,
{
    if !has_server(servers, name) {
        let saved = servers.push(ServerView { name, command, args, enabled: true });
        assert(saved[servers.len() as int].name == name);
        assert forall|i: int, j: int| 0 <= i < j < saved.len() implies (#[trigger] saved[i]).name
            != (#[trigger] saved[j]).name by {
            if j == servers.len() {
                assert(servers[i].name != name);
            } else {
                assert(servers[i].name != servers[j].name);
            }
        }
    }
}

/// Enabling or disabling changes nothing but that flag, and only of the
/// servers of the given name.
pub proof fn lemma_enabling_changes_flag_only(
    servers: Seq<ServerView>,
    name: Seq<char>,
    enabled: bool,
)
    ensures
        with_enabled(servers, name, enabled).len() == servers.len(),
        forall|i: int|
            0 <= i < servers.len() ==> {
                let after = #[trigger] with_enabled(servers, name, enabled)[i];
                &&& after.name == servers[i].name
                &&& after.command == servers[i].command
                &&& after.args == servers[i].args
                &&& after.enabled == if servers[i].name == name {
                    enabled
                } else {
                    servers[i].enabled
                }
            },
{
}

} // verus!
