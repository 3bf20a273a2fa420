//! Where configuration and state live.
//!
//! The caller reads the environment and makes the directories; which
//! directory it is to be is decided here.

use vstd::prelude::*;
use vstd::string::*;

use crate::text::clone_strings;
use crate::text::opt_text;
use crate::text::texts;

verus! {

/// The name of the token file in the state directory.
pub const GOOGLE_TOKEN_FILE: &'static str = "google_oauth_token.json";

/// The name of the file of tool servers in the state directory.
pub const MCP_SERVERS_FILE: &'static str = "mcp_servers.json";

/// A place in the file system: a directory taken from the environment,
/// and the names to go down from there, one after another.
#[derive(Debug, PartialEq, Eq)]
pub struct Location {
    pub base: String,
    pub below: Vec<String>,
}

/// A [`Location`] with its texts as sequences of characters.
pub struct LocationView {
    pub base: Seq<char>,
    pub below: Seq<Seq<char>>,
}

impl View for Location {
    type V = LocationView;

    open spec fn view(&self) -> LocationView {
        LocationView { base: self.base@, below: texts(self.below@) }
    }
}

impl Clone for Location {
    fn clone(&self) -> (r: Location)
        ensures
            r@ == self@,
    {
        Location { base: self.base.clone(), below: clone_strings(&self.below) }
    }
}

/// Why no directory could be named.
#[derive(Clone, Copy, Debug, PartialEq, Eq, Structural)]
pub enum PathError {
    /// The environment names no home directory.
    HomeNotSet,
}

impl PathError {
    /// The sentence that tells the user of this failure.
    pub fn message(&self) -> (r: &'static str)
        ensures
            r@ == "HOME is not set"@,
    {
        "HOME is not set"
    }
}

/// The directory of one kind of files: under the program's own home if
/// the environment names one, else under the directory that the
/// environment names for files of this kind, else under the user's home.
pub open spec fn dir_chosen(
    own_home: Option<Seq<char>>,
    own_name: Seq<char>,
    kind_home: Option<Seq<char>>,
    home: Option<Seq<char>>,
    home_below: Seq<Seq<char>>,
) -> Result<LocationView, PathError> {
    match own_home {
        Some(base) => Ok(LocationView { base, below: seq![own_name] }),
        None => match kind_home {
            Some(base) => Ok(LocationView { base, below: seq!["gemini"@] }),
            None => match home {
                Some(base) => Ok(LocationView { base, below: home_below }),
                None => Err(PathError::HomeNotSet),
            },
        },
    }
}

/// Where the configuration lives, given `GEMINI_HOME`, `XDG_CONFIG_HOME` and `HOME`.
pub open spec fn config_location(
    gemini_home: Option<Seq<char>>,
    xdg_config_home: Option<Seq<char>>,
    home: Option<Seq<char>>,
) -> Result<LocationView, PathError> {
    dir_chosen(gemini_home, "config"@, xdg_config_home, home, seq![".config"@, "gemini"@])
}

/// Where the state lives, given `GEMINI_HOME`, `XDG_STATE_HOME` and `HOME`.
pub open spec fn state_location(
    gemini_home: Option<Seq<char>>,
    xdg_state_home: Option<Seq<char>>,
    home: Option<Seq<char>>,
) -> Result<LocationView, PathError> {
    dir_chosen(gemini_home, "state"@, xdg_state_home, home, seq![".local"@, "state"@, "gemini"@])
}

/// What the functions of this module return, with texts as sequences of characters.
pub open spec fn location_view(r: Result<Location, PathError>) -> Result<LocationView, PathError> {
    match r {
        Ok(location) => Ok(location@),
        Err(e) => Err(e),
    }
}

/// The directory of the configuration, from the values of `GEMINI_HOME`,
/// `XDG_CONFIG_HOME` and `HOME`.
pub fn config_dir(
    gemini_home: Option<String>,
    xdg_config_home: Option<String>,
    home: Option<String>,
) -> (r: Result<Location, PathError>)
    ensures
        location_view(r) == config_location(
            opt_text(gemini_home),
            opt_text(xdg_config_home),
            opt_text(home),
        ),
{
    let mut below: Vec<String> = Vec::new();
    match gemini_home {
        Some(base) => {
            below.push(String::from_str("config"));
            assert(texts(below@) =~= seq!["config"@]);
            Ok(Location { base, below })
        },
        None => match xdg_config_home {
            Some(base) => {
                below.push(String::from_str("gemini"));
                assert(texts(below@) =~= seq!["gemini"@]);
                Ok(Location { base, below })
            },
            None => match home {
                Some(base) => {
                    below.push(String::from_str(".config"));
                    below.push(String::from_str("gemini"));
                    assert(texts(below@) =~= seq![".config"@, "gemini"@]);
                    Ok(Location { base, below })
                },
                None => Err(PathError::HomeNotSet),
            },
        },
    }
}

/// The directory of the state, from the values of `GEMINI_HOME`,
/// `XDG_STATE_HOME` and `HOME`.
pub fn state_dir(
    gemini_home: Option<String>,
    xdg_state_home: Option<String>,
    home: Option<String>,
) -> (r: Result<Location, PathError>)
    ensures
        location_view(r) == state_location(
            opt_text(gemini_home),
            opt_text(xdg_state_home),
            opt_text(home),
        ),
{
    let mut below: Vec<String> = Vec::new();
    match gemini_home {
        Some(base) => {
            below.push(String::from_str("state"));
            assert(texts(below@) =~= seq!["state"@]);
            Ok(Location { base, below })
        },
        None => match xdg_state_home {
            Some(base) => {
                below.push(String::from_str("gemini"));
                assert(texts(below@) =~= seq!["gemini"@]);
                Ok(Location { base, below })
            },
            None => match home {
                Some(base) => {
                    below.push(String::from_str(".local"));
                    below.push(String::from_str("state"));
                    below.push(String::from_str("gemini"));
                    assert(texts(below@) =~= seq![".local"@, "state"@, "gemini"@]);
                    Ok(Location { base, below })
                },
                None => Err(PathError::HomeNotSet),
            },
        },
    }
}

/// The file named `name` in the directory `dir`.
pub fn file_in(dir: Location, name: &str) -> (r: Location)
    ensures
        r@.base == dir@.base,
        r@.below == dir@.below.push(name@),
{
    let Location { base, mut below } = dir;
    let ghost before = texts(below@);
    below.push(String::from_str(name));
    assert(texts(below@) =~= before.push(name@));
    Location { base, below }
}

/// The token file, in the state directory `state`.
pub fn google_token_path(state: Location) -> (r: Location)
    ensures
        r@.base == state@.base,
        r@.below == state@.below.push(GOOGLE_TOKEN_FILE@),
{
    file_in(state, GOOGLE_TOKEN_FILE)
}

/// The file of tool servers, in the state directory `state`.
pub fn mcp_servers_path(state: Location) -> (r: Location)
    ensures
        r@.base == state@.base,
        r@.below == state@.below.push(MCP_SERVERS_FILE@),
{
    file_in(state, MCP_SERVERS_FILE)
}

/// The program's own home, where the environment names one, wins over
/// everything else; and a directory is found whenever any of the three
/// variables is set.
pub proof fn lemma_own_home_wins(
    gemini_home: Seq<char>,
    kind_home: Option<Seq<char>>,
    home: Option<Seq<char>>,
)
    ensures
        config_location(Some(gemini_home), kind_home, home) is Ok,
        config_location(Some(gemini_home), kind_home, home)->Ok_0 == (LocationView {
            base: gemini_home,
            below: seq!["config"@],
        }),
        state_location(Some(gemini_home), kind_home, home) is Ok,
        state_location(Some(gemini_home), kind_home, home)->Ok_0 == (LocationView {
            base: gemini_home,
            below: seq!["state"@],
        }),
{
}

/// No directory can be named exactly when the environment sets none of
/// the three variables.
pub proof fn lemma_home_needed(
    gemini_home: Option<Seq<char>>,
    kind_home: Option<Seq<char>>,
    home: Option<Seq<char>>,
)
    ensures
        config_location(gemini_home, kind_home, home) is Err <==> (gemini_home is None
            && kind_home is None && home is None),
        state_location(gemini_home, kind_home, home) is Err <==> (gemini_home is None
            && kind_home is None && home is None),
{
}

} // verus!
