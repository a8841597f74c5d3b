//! The commands the processor executes against the key-value backend, and the
//! replies their callers receive.
use vstd::prelude::*;

use crate::encoder::{encode, key_of};

verus! {

/// A failure reported by the key-value backend, handed on verbatim.
pub struct BackendError {
    pub message: String,
}

/// A write of `value` under `key`, overwriting what was there.
pub struct PutCommand {
    pub key: String,
    pub value: String,
}

/// A read of `key`.
pub struct GetCommand {
    pub key: String,
}

/// A unit of work for the processor.
pub enum Command {
    Put(PutCommand),
    Get(GetCommand),
}

/// Which command a reply answers.
#[derive(Clone, Copy, PartialEq, Eq, Debug)]
pub enum CommandKind {
    Put,
    Get,
}

/// A command as values.
pub ghost enum CommandModel {
    Put { key: Seq<char>, value: Seq<char> },
    Get { key: Seq<char> },
}

impl View for Command {
    type V = CommandModel;

    open spec fn view(&self) -> CommandModel {
        match self {
            Command::Put(p) => CommandModel::Put { key: p.key@, value: p.value@ },
            Command::Get(g) => CommandModel::Get { key: g.key@ },
        }
    }
}

pub open spec fn kind_of(c: CommandModel) -> CommandKind {
    match c {
        CommandModel::Put { .. } => CommandKind::Put,
        CommandModel::Get { .. } => CommandKind::Get,
    }
}

/// The backend's answer to a command: the value it returned, if any, or its
/// failure.
pub type BackendReply = Result<Option<String>, BackendError>;

pub open spec fn backend_reply_view(b: BackendReply) -> Result<Option<Seq<char>>, Seq<char>> {
    match b {
        Ok(Some(v)) => Ok(Some(v@)),
        Ok(None) => Ok(None),
        Err(e) => Err(e.message@),
    }
}

/// What the caller of a command receives.
pub enum Reply {
    /// A write took effect.
    Stored,
    /// A read found this value.
    Found(String),
    /// A read found no mapping for its key: an outcome, not an error.
    NotFound,
    /// The backend failed the command.
    Failed(BackendError),
}

pub ghost enum ReplyModel {
    Stored,
    Found(Seq<char>),
    NotFound,
    Failed(Seq<char>),
}

impl View for Reply {
    type V = ReplyModel;

    open spec fn view(&self) -> ReplyModel {
        match self {
            Reply::Stored => ReplyModel::Stored,
            Reply::Found(v) => ReplyModel::Found(v@),
            Reply::NotFound => ReplyModel::NotFound,
            Reply::Failed(e) => ReplyModel::Failed(e.message@),
        }
    }
}

/// The reply to a command of `kind` that the backend answered with `b`: a
/// failure stays a failure; a write that succeeded is stored, whatever the
/// backend returned with it; a read gives the value found, or not-found.
pub open spec fn reply_model(kind: CommandKind, b: Result<Option<Seq<char>>, Seq<char>>) -> ReplyModel {
    match b {
        Err(m) => ReplyModel::Failed(m),
        Ok(v) => match kind {
            CommandKind::Put => ReplyModel::Stored,
            CommandKind::Get => match v {
                Some(s) => ReplyModel::Found(s),
                None => ReplyModel::NotFound,
            },
        },
    }
}

/// Maps the backend's answer to a command of `kind` to the caller's reply.
pub fn reply_for(kind: CommandKind, b: BackendReply) -> (r: Reply)
    ensures
        r@ == reply_model(kind, backend_reply_view(b)),
{
    match b {
        Err(e) => Reply::Failed(e),
        Ok(v) => match kind {
            CommandKind::Put => Reply::Stored,
            CommandKind::Get => match v {
                Some(s) => Reply::Found(s),
                None => Reply::NotFound,
            },
        },
    }
}

impl Command {
    pub fn kind(&self) -> (r: CommandKind)
        ensures
            r == kind_of(self@),
    {
        match self {
            Command::Put(_) => CommandKind::Put,
            Command::Get(_) => CommandKind::Get,
        }
    }
}

/// The write that a submission of `url` issues: the URL under its key.
pub open spec fn submit_model(url: Seq<char>) -> CommandModel {
    CommandModel::Put { key: key_of(url), value: url }
}

/// The read that a resolution of `key` issues.
pub open spec fn resolve_model(key: Seq<char>) -> CommandModel {
    CommandModel::Get { key }
}

impl PutCommand {
    /// The write for a submitted URL: the URL under its key.
    pub fn for_url(url: &str) -> (r: PutCommand)
        ensures
            (Command::Put(r))@ == submit_model(url@),
    {
        PutCommand { key: encode(url), value: url.to_owned() }
    }
}

impl GetCommand {
    /// The read for a key given by a caller.
    pub fn for_key(key: &str) -> (r: GetCommand)
        ensures
            (Command::Get(r))@ == resolve_model(key@),
    {
        GetCommand { key: key.to_owned() }
    }
}

} // verus!
