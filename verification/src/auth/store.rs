//! The token file: what a read of it amounts to, and how it is replaced
//! without ever being seen half-written.
//!
//! The caller touches the disk and turns bytes into a token and back.

use vstd::prelude::*;
use vstd::string::*;

use crate::auth::token::OAuthToken;
use crate::auth::token::OAuthTokenView;
use crate::text::sibling_tmp_name;
use crate::text::tmp_sibling;

verus! {

/// The name of the temporary file where the token file has no name of its own.
pub const FALLBACK_TOKEN_FILE: &'static str = "token.json";

/// What a read of the token file gave.
#[derive(Debug, PartialEq, Eq)]
pub enum TokenFile {
    /// There is no such file.
    Missing,
    /// The file could not be read, for the reason given.
    Unreadable(String),
    /// The file does not hold a token, for the reason given.
    Malformed(String),
    /// The file holds this token.
    Found(OAuthToken),
}

/// A [`TokenFile`] with its texts as sequences of characters.
pub enum TokenFileView {
    Missing,
    Unreadable(Seq<char>),
    Malformed(Seq<char>),
    Found(OAuthTokenView),
}

impl View for TokenFile {
    type V = TokenFileView;

    open spec fn view(&self) -> TokenFileView {
        match *self {
            TokenFile::Missing => TokenFileView::Missing,
            TokenFile::Unreadable(detail) => TokenFileView::Unreadable(detail@),
            TokenFile::Malformed(detail) => TokenFileView::Malformed(detail@),
            TokenFile::Found(token) => TokenFileView::Found(token@),
        }
    }
}

/// The steps that replace the token file, in the order in which they are taken.
#[derive(Clone, Copy, Debug, PartialEq, Eq, Structural)]
pub enum SaveStep {
    /// Make sure that the directory of the file exists.
    CreateDir,
    /// Encode the token.
    Encode,
    /// Write the encoded token to the temporary sibling of the file.
    WriteTemp,
    /// Rename the temporary sibling over the file.
    Rename,
}

/// A failure of the token store.
#[derive(Debug, PartialEq, Eq)]
pub enum StoreError {
    /// The token file is there and could not be read.
    Read { path: String, detail: String },
    /// The token file does not hold a token.
    Parse { detail: String },
    /// A step of replacing the token file failed; `path` is what the step worked on.
    Save { step: SaveStep, path: String, detail: String },
}

/// A [`StoreError`] with its texts as sequences of characters.
pub enum StoreErrorView {
    Read { path: Seq<char>, detail: Seq<char> },
    Parse { detail: Seq<char> },
    Save { step: SaveStep, path: Seq<char>, detail: Seq<char> },
}

impl View for StoreError {
    type V = StoreErrorView;

    open spec fn view(&self) -> StoreErrorView {
        match *self {
            StoreError::Read { path, detail } => StoreErrorView::Read {
                path: path@,
                detail: detail@,
            },
            StoreError::Parse { detail } => StoreErrorView::Parse { detail: detail@ },
            StoreError::Save { step, path, detail } => StoreErrorView::Save {
                step,
                path: path@,
                detail: detail@,
            },
        }
    }
}

impl SaveStep {
    /// How a failure of this step is announced.
    pub open spec fn failure_context(self) -> Seq<char> {
        match self {
            SaveStep::CreateDir => "failed to create token directory: "@,
            SaveStep::Encode => "failed to serialize token"@,
            SaveStep::WriteTemp => "failed to write temp token: "@,
            SaveStep::Rename => "failed to move token into place: "@,
        }
    }

    /// The step that follows this one, if it is not the last.
    pub open spec fn following(self) -> Option<SaveStep> {
        match self {
            SaveStep::CreateDir => Some(SaveStep::Encode),
            SaveStep::Encode => Some(SaveStep::WriteTemp),
            SaveStep::WriteTemp => Some(SaveStep::Rename),
            SaveStep::Rename => None,
        }
    }

    /// The place of the step in the order of steps, from zero.
    pub open spec fn rank(self) -> nat {
        match self {
            SaveStep::CreateDir => 0,
            SaveStep::Encode => 1,
            SaveStep::WriteTemp => 2,
            SaveStep::Rename => 3,
        }
    }

    /// The step to take after this one has succeeded; `None` after the last.
    pub fn next(self) -> (r: Option<SaveStep>)
        ensures
            r == self.following(),
    {
        match self {
            SaveStep::CreateDir => Some(SaveStep::Encode),
            SaveStep::Encode => Some(SaveStep::WriteTemp),
            SaveStep::WriteTemp => Some(SaveStep::Rename),
            SaveStep::Rename => None,
        }
    }
}

impl StoreErrorView {
    /// The sentence that tells the user of this failure.
    pub open spec fn message(self) -> Seq<char> {
        match self {
            StoreErrorView::Read { path, detail } => "failed to read token: "@ + path + ": "@
                + detail,
            StoreErrorView::Parse { detail } => "failed to parse token JSON: "@ + detail,
            StoreErrorView::Save { step, path, detail } => step.failure_context() + path + ": "@
                + detail,
        }
    }
}

impl StoreError {
    /// The sentence that tells the user of this failure.
    pub fn message(&self) -> (r: String)
        ensures
            r@ == self@.message(),
    {
        match self {
            StoreError::Read { path, detail } => {
                let mut out = String::from_str("failed to read token: ");
                out.append(path.as_str());
                out.append(": ");
                out.append(detail.as_str());
                out
            },
            StoreError::Parse { detail } => {
                let mut out = String::from_str("failed to parse token JSON: ");
                out.append(detail.as_str());
                out
            },
            StoreError::Save { step, path, detail } => {
                let mut out = String::from_str(
                    match step {
                        SaveStep::CreateDir => "failed to create token directory: ",
                        SaveStep::Encode => "failed to serialize token",
                        SaveStep::WriteTemp => "failed to write temp token: ",
                        SaveStep::Rename => "failed to move token into place: ",
                    },
                );
                out.append(path.as_str());
                out.append(": ");
                out.append(detail.as_str());
                out
            },
        }
    }
}

/// What a read of the token file at `path` amounts to: no token where
/// there is no file, the token where the file holds one, and a failure
/// in every other case.
pub open spec fn loaded(path: Seq<char>, read: TokenFileView) -> Result<
    Option<OAuthTokenView>,
    StoreErrorView,
> {
    match read {
        TokenFileView::Missing => Ok(None),
        TokenFileView::Unreadable(detail) => Err(StoreErrorView::Read { path, detail }),
        TokenFileView::Malformed(detail) => Err(StoreErrorView::Parse { detail }),
        TokenFileView::Found(token) => Ok(Some(token)),
    }
}

/// What [`load_token`] returns, with its texts as sequences of characters.
pub open spec fn load_view(r: Result<Option<OAuthToken>, StoreError>) -> Result<
    Option<OAuthTokenView>,
    StoreErrorView,
> {
    match r {
        Ok(Some(token)) => Ok(Some(token@)),
        Ok(None) => Ok(None),
        Err(e) => Err(e@),
    }
}

/// Says what a read of the token file at `path` amounts to. A file that
/// is not there is no failure: there is no token yet.
pub fn load_token(path: &str, read: TokenFile) -> (r: Result<Option<OAuthToken>, StoreError>)
    ensures
        load_view(r) == loaded(path@, read@),
{
    match read {
        TokenFile::Missing => Ok(None),
        TokenFile::Unreadable(detail) => Err(
            StoreError::Read { path: String::from_str(path), detail },
        ),
        TokenFile::Malformed(detail) => Err(StoreError::Parse { detail }),
        TokenFile::Found(token) => Ok(Some(token)),
    }
}

/// The name of the temporary sibling of a file with the given name.
pub open spec fn tmp_name(file_name: Option<Seq<char>>) -> Seq<char> {
    sibling_tmp_name(file_name, FALLBACK_TOKEN_FILE@)
}

/// The name of the temporary file that is written before it takes the
/// place of the file named `file_name`: that name with `.tmp` behind it.
/// Both files lie in the same directory.
pub fn tmp_path(file_name: Option<&str>) -> (r: String)
    ensures
        r@ == tmp_name(
            match file_name {
                Some(name) => Some(name@),
                None => None,
            },
        ),
{
    tmp_sibling(file_name, FALLBACK_TOKEN_FILE)
}

/// How the token file is replaced.
#[derive(Debug, PartialEq, Eq)]
pub struct SavePlan {
    /// The directory to create if it is not there.
    pub dir: String,
    /// The name of the temporary file, in the directory of the token file.
    pub tmp_name: String,
    /// The first step to take. The others follow by [`SaveStep::next`].
    pub first: SaveStep,
}

/// Plans the replacement of the token file, given the directory that
/// holds it and its name, where the path has them.
///
/// The token is written to a temporary file beside the token file, which
/// is then renamed over it: a reader sees the old file or the new one,
/// and a failure on the way leaves the old file as it was.
pub fn save_token_atomic(parent: Option<String>, file_name: Option<&str>) -> (r: SavePlan)
    ensures
        r.dir@ == match parent {
            Some(dir) => dir@,
            None => "."@,
        },
        r.tmp_name@ == tmp_name(
            match file_name {
                Some(name) => Some(name@),
                None => None,
            },
        ),
        r.first == SaveStep::CreateDir,
{
    let dir = match parent {
        Some(dir) => dir,
        None => String::from_str("."),
    };
    SavePlan { dir, tmp_name: tmp_path(file_name), first: SaveStep::CreateDir }
}

/// The failure of a step of the replacement, on the path that it worked on.
pub fn save_failed(step: SaveStep, path: &str, detail: String) -> (r: StoreError)
    ensures
        r@ == (StoreErrorView::Save { step, path: path@, detail: detail@ }),
{
    StoreError::Save { step, path: String::from_str(path), detail }
}

/// A token file that is not there is no failure and no token; one that
/// holds a token gives that token, unchanged.
pub proof fn lemma_missing_file_is_no_token(path: Seq<char>, token: OAuthTokenView)
    ensures
        loaded(path, TokenFileView::Missing) is Ok,
        loaded(path, TokenFileView::Missing)->Ok_0 is None,
        loaded(path, TokenFileView::Found(token)) is Ok,
        loaded(path, TokenFileView::Found(token))->Ok_0 == Some(token),
{
}

/// The steps come in one order: the directory is there before the
/// temporary file is written, and the rename is the last step, after
/// the whole token has been written.
pub proof fn lemma_rename_comes_last(step: SaveStep)
    ensures
        step.following() matches Some(next) ==> next.rank() == step.rank() + 1,
        step.following() is None <==> step == SaveStep::Rename,
        SaveStep::CreateDir.rank() < SaveStep::WriteTemp.rank() < SaveStep::Rename.rank(),
{
}

} // verus!
