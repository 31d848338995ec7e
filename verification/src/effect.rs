//! What the manager asks of the host, and what the host answers.
//!
//! The procedures of the manager perform no I/O. Each names the next effect it
//! needs, and goes on with the reply that whoever performs the effect hands back.

use vstd::prelude::*;

use crate::api::CurlOutput;
use crate::error::{Failure, OsError, OsResult};
use crate::json;
use crate::json::Json;
use crate::vm::{VmConfig, VmConfigView};

verus! {

/// Something to be done on the host. The reply is `Done`, unless another one is
/// named, or `Failed`.
#[derive(Debug)]
pub enum Effect {
    /// Find out whether anything exists at `path`. Reply: `Yes`, or else `No`.
    Exists { path: String },
    /// Create the directory at `path` and its missing parents.
    CreateDirAll { path: String },
    /// Remove the file at `path`.
    RemoveFile { path: String },
    /// Remove the directory at `path` with everything in it.
    RemoveDirAll { path: String },
    /// Copy the file `from` to the file `to`.
    Copy { from: String, to: String },
    /// Create or truncate the file at `path`, and set its length without writing to it.
    CreateSparse { path: String, size_bytes: u64 },
    /// Write `contents` to the file at `path`.
    Write { path: String, contents: String },
    /// Write a VM configuration as JSON to the file at `path`.
    WriteConfig { path: String, config: VmConfig },
    /// Read a VM configuration from the JSON file at `path`. Reply: `Config`.
    ReadConfig { path: String },
    /// Read the `vm-config.json` of each directory in `dir`. Reply: `Configs`,
    /// with the text of each that can be read.
    ReadConfigs { dir: String },
    /// Compute the content address of the file at `path`. Reply: `ContentId`.
    ContentId { path: String },
    /// Lock the file at `path`, which is created if it is missing. The lock is
    /// held as long as [`crate::create::Creation::holds_lock`] says, and given up
    /// when the creation ends.
    LockIndex { path: String },
    /// Run `ip` with these arguments.
    Ip { argv: Vec<String> },
    /// Start `program` with these arguments, without waiting for it. Reply:
    /// `Started` or `SpawnFailed`.
    Spawn { program: String, argv: Vec<String> },
    /// Send a PUT request to the API at `socket`, with the arguments that
    /// [`crate::api::api_put_args`] makes. Reply: `Output`.
    Put { socket: String, path: String, body: serde_json::Value },
    /// Read a monotonic clock. Reply: `Time`.
    Clock,
    /// Wait.
    Sleep { millis: u64 },
    /// Kill a process.
    Kill { pid: u32 },
}

/// What an effect asks for.
pub enum EffectView {
    Exists { path: Seq<char> },
    CreateDirAll { path: Seq<char> },
    RemoveFile { path: Seq<char> },
    RemoveDirAll { path: Seq<char> },
    Copy { from: Seq<char>, to: Seq<char> },
    CreateSparse { path: Seq<char>, size_bytes: u64 },
    Write { path: Seq<char>, contents: Seq<char> },
    WriteConfig { path: Seq<char>, config: VmConfigView },
    ReadConfig { path: Seq<char> },
    ReadConfigs { dir: Seq<char> },
    ContentId { path: Seq<char> },
    LockIndex { path: Seq<char> },
    Ip { argv: Seq<Seq<char>> },
    Spawn { program: Seq<char>, argv: Seq<Seq<char>> },
    Put { socket: Seq<char>, path: Seq<char>, body: Json },
    Clock,
    Sleep { millis: u64 },
    Kill { pid: u32 },
}

impl View for Effect {
    type V = EffectView;

    open spec fn view(&self) -> EffectView {
        match *self {
            Effect::Exists { path } => EffectView::Exists { path: path@ },
            Effect::CreateDirAll { path } => EffectView::CreateDirAll { path: path@ },
            Effect::RemoveFile { path } => EffectView::RemoveFile { path: path@ },
            Effect::RemoveDirAll { path } => EffectView::RemoveDirAll { path: path@ },
            Effect::Copy { from, to } => EffectView::Copy { from: from@, to: to@ },
            Effect::CreateSparse { path, size_bytes } => EffectView::CreateSparse {
                path: path@,
                size_bytes,
            },
            Effect::Write { path, contents } => EffectView::Write {
                path: path@,
                contents: contents@,
            },
            Effect::WriteConfig { path, config } => EffectView::WriteConfig {
                path: path@,
                config: config@,
            },
            Effect::ReadConfig { path } => EffectView::ReadConfig { path: path@ },
            Effect::ReadConfigs { dir } => EffectView::ReadConfigs { dir: dir@ },
            Effect::ContentId { path } => EffectView::ContentId { path: path@ },
            Effect::LockIndex { path } => EffectView::LockIndex { path: path@ },
            Effect::Ip { argv } => EffectView::Ip { argv: argv.deep_view() },
            Effect::Spawn { program, argv } => EffectView::Spawn {
                program: program@,
                argv: argv.deep_view(),
            },
            Effect::Put { socket, path, body } => EffectView::Put {
                socket: socket@,
                path: path@,
                body: json::json_of(body),
            },
            Effect::Clock => EffectView::Clock,
            Effect::Sleep { millis } => EffectView::Sleep { millis },
            Effect::Kill { pid } => EffectView::Kill { pid },
        }
    }
}

/// What an optional effect asks for.
pub open spec fn asked(effect: Option<Effect>) -> Option<EffectView> {
    match effect {
        Some(effect) => Some(effect@),
        None => None,
    }
}

/// What a row of effects asks for.
pub open spec fn asked_all(effects: Seq<Effect>) -> Seq<EffectView> {
    effects.map_values(|effect: Effect| effect@)
}

/// What came of an effect.
#[derive(Debug)]
pub enum Reply {
    Done,
    Yes,
    No,
    Started { pid: Option<u32> },
    /// A program could not be started, for the reason given.
    SpawnFailed(String),
    /// The reading of a monotonic clock, from any origin.
    Time { nanos: u64 },
    Output(CurlOutput),
    Configs(Vec<String>),
    Config(VmConfig),
    ContentId(String),
    Failed(OsError),
}

/// The error for a reply that does not answer what was asked.
pub open spec fn unexpected_reply() -> Failure {
    Failure::Storage("unexpected reply from the host"@)
}

impl Reply {
    /// The error of a reply that is not the one hoped for: the error that the
    /// effect came to, where it failed.
    pub open spec fn misfit(self) -> Failure {
        match self {
            Reply::Failed(e) => e@,
            _ => unexpected_reply(),
        }
    }

    /// The error of a reply that is not the one hoped for.
    pub fn refuse(self) -> (r: OsError)
        ensures
            r@ == self.misfit(),
    {
        match self {
            Reply::Failed(e) => e,
            _ => OsError::Storage("unexpected reply from the host".to_string()),
        }
    }

    /// The error that an effect came to, unless it is done.
    pub open spec fn fault(self) -> Option<Failure> {
        match self {
            Reply::Done => None,
            _ => Some(self.misfit()),
        }
    }

    /// The error that an effect came to, unless it is done.
    pub fn done(self) -> (r: OsResult<()>)
        ensures
            match r {
                Ok(_) => self.fault() is None,
                Err(e) => self.fault() == Some(e@),
            },
    {
        match self {
            Reply::Done => Ok(()),
            other => Err(other.refuse()),
        }
    }

    /// Was the answer yes?
    pub fn is_yes(&self) -> (r: bool)
        ensures
            r == (*self is Yes),
    {
        match self {
            Reply::Yes => true,
            _ => false,
        }
    }
}

/// An effect that was to be done is done only if the host says so. What the host
/// says of a failure is what is reported.
pub proof fn law_only_done_is_done(reply: Reply)
    ensures
        reply.fault() is None <==> reply is Done,
        reply matches Reply::Failed(e) ==> reply.fault() == Some(e@) && reply.misfit() == e@,
        !(reply is Failed) ==> reply.misfit() == Failure::Storage(
            "unexpected reply from the host"@,
        ),
        !(reply is Done) ==> reply.fault() == Some(reply.misfit()),
{
}

} // verus!
