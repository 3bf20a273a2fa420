//! The tools that the servers offer, gathered in one register.

use serde_json::Value;
use vstd::prelude::*;
use vstd::string::*;

use crate::list::into_queue;
use crate::text::opt_text;
use crate::text::texts;

verus! {

/// A JSON value, `serde_json::Value`. Nothing of its inside is known
/// here: it is carried along as it came.
#[verifier::external_type_specification]
#[verifier::external_body]
pub struct ExJsonValue(serde_json::Value);

/// A tool as a server describes it. The schema of its input is carried
/// along as it came.
#[derive(Debug, PartialEq, Eq)]
pub struct McpTool {
    pub name: String,
    pub description: Option<String>,
    pub input_schema: Value,
}

/// A tool together with the server that offers it.
#[derive(Debug, PartialEq, Eq)]
pub struct RegisteredTool {
    pub server: String,
    pub name: String,
    pub description: Option<String>,
    pub input_schema: Value,
}

/// A [`McpTool`] with its texts as sequences of characters.
pub struct McpToolView {
    pub name: Seq<char>,
    pub description: Option<Seq<char>>,
    pub input_schema: Value,
}

/// A [`RegisteredTool`] with its texts as sequences of characters.
pub struct RegisteredToolView {
    pub server: Seq<char>,
    pub name: Seq<char>,
    pub description: Option<Seq<char>>,
    pub input_schema: Value,
}

impl View for McpTool {
    type V = McpToolView;

    open spec fn view(&self) -> McpToolView {
        McpToolView {
            name: self.name@,
            description: opt_text(self.description),
            input_schema: self.input_schema,
        }
    }
}

impl View for RegisteredTool {
    type V = RegisteredToolView;

    open spec fn view(&self) -> RegisteredToolView {
        RegisteredToolView {
            server: self.server@,
            name: self.name@,
            description: opt_text(self.description),
            input_schema: self.input_schema,
        }
    }
}

/// The tools of a list, in order.
pub open spec fn tools_view(tools: Seq<McpTool>) -> Seq<McpToolView> {
    Seq::new(tools.len(), |i: int| tools[i]@)
}

/// The registered tools of a list, in order.
pub open spec fn registered_view(tools: Seq<RegisteredTool>) -> Seq<RegisteredToolView> {
    Seq::new(tools.len(), |i: int| tools[i]@)
}

/// A tool as the register holds it for the server `server`.
pub open spec fn registered(server: Seq<char>, tool: McpToolView) -> RegisteredToolView {
    RegisteredToolView {
        server,
        name: tool.name,
        description: tool.description,
        input_schema: tool.input_schema,
    }
}

/// The tools of one server as the register holds them, in the server's order.
pub open spec fn registered_all(server: Seq<char>, tools: Seq<McpToolView>) -> Seq<
    RegisteredToolView,
> {
    Seq::new(tools.len(), |i: int| registered(server, tools[i]))
}

/// The line that shows a registered tool: its server, its name, and its
/// description, if it has one.
pub open spec fn tool_line(tool: RegisteredToolView) -> Seq<char> {
    tool.server + "\t"@ + tool.name + "\t"@ + match tool.description {
        Some(text) => text,
        None => Seq::empty(),
    }
}

/// The tools of all servers asked so far, in the order in which they were registered.
#[derive(Debug, PartialEq, Eq)]
pub struct ToolRegistry {
    tools: Vec<RegisteredTool>,
}

impl View for ToolRegistry {
    type V = Seq<RegisteredToolView>;

    closed spec fn view(&self) -> Seq<RegisteredToolView> {
        registered_view(self.tools@)
    }
}

impl Default for ToolRegistry {
    fn default() -> (r: ToolRegistry)
        ensures
            r@ == Seq::<RegisteredToolView>::empty(),
    {
        let registry = ToolRegistry { tools: Vec::new() };
        assert(registry@ =~= Seq::<RegisteredToolView>::empty());
        registry
    }
}

impl ToolRegistry {
    /// Adds the tools of one server behind those that are registered.
    pub fn register_server_tools(&mut self, server: &str, tools: Vec<McpTool>)
        ensures
            final(self)@ == old(self)@ + registered_all(server@, tools_view(tools@)),
    {
        let ghost all = tools_view(tools@);
        let ghost given = tools@;
        let mut queue = into_queue(tools);
        let ghost mut done: int = 0;
        assert(registered_view(self.tools@) =~= old(self)@ + registered_all(server@, all).take(0));
        loop
            invariant
                0 <= done,
                done + queue@.len() == given.len(),
                all == tools_view(given),
                queue@ == given.subrange(done, given.len() as int),
                registered_view(self.tools@) == old(self)@ + registered_all(server@, all).take(
                    done,
                ),
            ensures
                done == given.len(),
            decreases queue@.len(),
        {
            let ghost before = registered_view(self.tools@);
            let ghost waiting = queue@;
            match queue.pop_front() {
                Some(tool) => {
                    assert(tool == given[done]);
                    let entry = RegisteredTool {
                        server: String::from_str(server),
                        name: tool.name,
                        description: tool.description,
                        input_schema: tool.input_schema,
                    };
                    assert(entry@ == registered(server@, all[done]));
                    self.tools.push(entry);
                    assert(registered_view(self.tools@) =~= before.push(entry@));
                    assert(registered_all(server@, all).take(done + 1) =~= registered_all(
                        server@,
                        all,
                    ).take(done).push(entry@));
                    assert(queue@ =~= given.subrange(done + 1, given.len() as int));
                    proof {
                        done = done + 1;
                    }
                },
                None => {
                    break ;
                },
            }
        }
        assert(registered_all(server@, all).take(given.len() as int) =~= registered_all(
            server@,
            all,
        ));
    }

    /// The registered tools, in the order in which they were registered.
    pub fn list(&self) -> (r: &[RegisteredTool])
        ensures
            registered_view(r@) == self@,
    {
        self.tools.as_slice()
    }

    /// The lines that show the registered tools.
    pub fn lines(&self) -> (r: Vec<String>)
        ensures
            texts(r@) == Seq::new(self@.len(), |i: int| tool_line(self@[i])),
    {
        let mut lines: Vec<String> = Vec::new();
        let mut i: usize = 0;
        while i < self.tools.len()
            invariant
                i <= self.tools@.len(),
                lines@.len() == i,
                forall|j: int|
                    0 <= j < i ==> (#[trigger] lines@[j])@ == tool_line(
                        registered_view(self.tools@)[j],
                    ),
            decreases self.tools@.len() - i,
        {
            let tool = &self.tools[i];
            let mut line = tool.server.clone();
            line.append("\t");
            line.append(tool.name.as_str());
            line.append("\t");
            match &tool.description {
                Some(text) => {
                    line.append(text.as_str());
                },
                None => {
                    assert(line@ + Seq::<char>::empty() =~= line@);
                },
            }
            lines.push(line);
            i += 1;
        }
        assert(texts(lines@) =~= Seq::new(self@.len(), |i: int| tool_line(self@[i])));
        lines
    }
}

/// Registering never drops or reorders what is there: the register
/// only grows at its end, by as many tools as the server offers.
pub proof fn lemma_register_appends(
    held: Seq<RegisteredToolView>,
    server: Seq<char>,
    tools: Seq<McpToolView>,
)
    ensures
        (held + registered_all(server, tools)).len() == held.len() + tools.len(),
        forall|i: int| 0 <= i < held.len() ==> (held + registered_all(server, tools))[i] == held[i],
        forall|i: int|
            0 <= i < tools.len() ==> (#[trigger] (held + registered_all(server, tools))[held.len()
                + i]).server == server,
{
}

} // verus!
