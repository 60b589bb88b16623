//! The container orchestrator: what the node container is started with, and the
//! decisions of its lifecycle (create, start, attach, relay output, delete).
use vstd::prelude::*;
use vstd::string::StringExecFns;
use crate::chain::Chain;
use crate::error::SetupError;
use crate::text::{decimal, decimal_text, join, joined, views};

verus! {

/// What a node container is created with.
pub struct ContainerSpec {
    pub name: String,
    pub image: String,
    pub command: Vec<String>,
    pub user: String,
    pub volumes: Vec<String>,
}

/// The container name of a run for chain `chain`, or for an unnamed node.
pub open spec fn container_name_of(chain: Option<Seq<char>>) -> Seq<char> {
    "starsign-"@ + match chain {
        Some(c) => c,
        None => "node"@,
    }
}

/// The node's start command, given its seed peers.
pub open spec fn start_command_of(seeds: Seq<Seq<char>>) -> Seq<Seq<char>> {
    seq!["start"@, "--p2p.seeds"@, joined(seeds, ","@)]
}

/// The run-as identity `uid:gid`.
pub open spec fn user_of(uid: u32, gid: u32) -> Seq<char> {
    decimal(uid as nat) + ":"@ + decimal(gid as nat)
}

/// The bind mount of the working directory `host_dir` at `/<chain_name>`.
pub open spec fn volume_of(host_dir: Seq<char>, chain_name: Seq<char>) -> Seq<char> {
    host_dir + ":/"@ + chain_name
}

/// What the node container of a run is created with: named after `chain`, from
/// `image` where given, else the profile's image, started with the profile's seeds,
/// run as `uid:gid`, with `host_dir` mounted at the profile's name.
pub fn container_spec(
    chain: Option<&str>,
    profile: &Chain,
    image: Option<String>,
    uid: u32,
    gid: u32,
    host_dir: &str,
) -> (r: ContainerSpec)
    ensures
        r.name@ == container_name_of(
            match chain {
                Some(c) => Some(c@),
                None => None,
            },
        ),
        r.image@ == match image {
            Some(i) => i@,
            None => profile.docker_image@,
        },
        views(r.command@) == start_command_of(views(profile.seeds@)),
        r.user@ == user_of(uid, gid),
        views(r.volumes@) == seq![volume_of(host_dir@, profile.name@)],
{
    let mut name = String::from_str("starsign-");
    match chain {
        Some(c) => name.append(c),
        None => name.append("node"),
    }
    let image = match image {
        Some(i) => i,
        None => profile.docker_image.clone(),
    };
    let command = vec![
        String::from_str("start"),
        String::from_str("--p2p.seeds"),
        join(&profile.seeds, ","),
    ];
    let mut user = decimal_text(uid);
    user.append(":");
    let gid_text = decimal_text(gid);
    user.append(gid_text.as_str());
    let mut volume = String::from_str(host_dir);
    volume.append(":/");
    volume.append(profile.name.as_str());
    let volumes = vec![volume];
    assert(views(command@) =~= start_command_of(views(profile.seeds@)));
    assert(views(volumes@) =~= seq![volume_of(host_dir@, profile.name@)]);
    ContainerSpec { name, image, command, user, volumes }
}

/// The text of a byte chunk where it is UTF-8.
pub uninterp spec fn utf8_text(bytes: Seq<u8>) -> Option<Seq<char>>;

/// Relies on std::str::from_utf8: the text of the bytes, or none where they are
/// not UTF-8.
#[verifier::external_body]
fn decode_utf8(bytes: &[u8]) -> (r: Option<String>)
    ensures
        match utf8_text(bytes@) {
            Some(t) => r matches Some(s) && s@ == t,
            None => r is None,
        },
{
    std::str::from_utf8(bytes).ok().map(|s| s.to_string())
}

/// `s` without its trailing whitespace.
pub uninterp spec fn trimmed_end(s: Seq<char>) -> Seq<char>;

/// Relies on str::trim_end: the string with trailing whitespace removed, which is a
/// prefix of it.
#[verifier::external_body]
fn trim_end(s: &str) -> (r: String)
    ensures
        r@ == trimmed_end(s@),
        r@.len() <= s@.len(),
        r@ == s@.subrange(0, r@.len() as int),
{
    s.trim_end().to_string()
}

/// The log line of output `text` of container `name`.
pub open spec fn log_line_of(name: Seq<char>, text: Seq<char>) -> Seq<char> {
    "["@ + name + "] "@ + trimmed_end(text)
}

/// The text of an output chunk: its UTF-8 text, or nothing where it is not UTF-8.
pub open spec fn chunk_text_of(bytes: Seq<u8>) -> Seq<char> {
    match utf8_text(bytes) {
        Some(t) => t,
        None => Seq::empty(),
    }
}

/// The log line for a decoded output chunk `text` of container `name`.
pub fn output_line(name: &str, text: Option<String>) -> (r: String)
    ensures
        r@ == log_line_of(
            name@,
            match text {
                Some(t) => t@,
                None => Seq::empty(),
            },
        ),
{
    let t = match text {
        Some(t) => t,
        None => String::new(),
    };
    let mut line = String::from_str("[");
    line.append(name);
    line.append("] ");
    let trimmed = trim_end(t.as_str());
    line.append(trimmed.as_str());
    line
}

/// The log line for the output chunk `bytes` of container `name`.
pub fn log_tty(name: &str, bytes: &[u8]) -> (r: String)
    ensures
        r@ == log_line_of(name@, chunk_text_of(bytes@)),
{
    output_line(name, decode_utf8(bytes))
}

/// Where a container run stands.
#[derive(PartialEq, Eq, Structural, Clone, Copy, Debug)]
pub enum RunPhase {
    Creating,
    Starting,
    Attaching,
    Streaming,
    Deleting,
    Finished,
}

/// What the container runtime reported for the last action.
pub enum RunEvent {
    /// The action succeeded.
    Done,
    /// The action failed, with the runtime's message.
    Failed(String),
    /// The output stream yielded a chunk.
    Output(Vec<u8>),
    /// Reading a chunk of the output stream failed, with the runtime's message.
    ReadFailed(String),
    /// The output stream is exhausted.
    StreamEnded,
}

/// What to do next.
pub enum RunAction {
    /// Create the container.
    Create,
    /// Start it.
    Start,
    /// Attach to its combined output stream.
    Attach,
    /// Read the next chunk of the output stream.
    ReadNext,
    /// Log this line at the informational level, then read the next chunk.
    Relay(String),
    /// Log this error, then read the next chunk.
    Report(String),
    /// Delete the container.
    Delete,
    /// The run is over, with this outcome.
    Finish(Result<(), SetupError>),
}

/// The phase that follows `p` on event `e`.
pub open spec fn next_phase(p: RunPhase, e: RunEvent) -> RunPhase {
    match p {
        RunPhase::Creating => if e is Done {
            RunPhase::Starting
        } else {
            RunPhase::Finished
        },
        RunPhase::Starting => if e is Done {
            RunPhase::Attaching
        } else {
            RunPhase::Finished
        },
        RunPhase::Attaching => if e is Done {
            RunPhase::Streaming
        } else {
            RunPhase::Finished
        },
        RunPhase::Streaming => if e is StreamEnded {
            RunPhase::Deleting
        } else {
            RunPhase::Streaming
        },
        _ => RunPhase::Finished,
    }
}

/// The runtime's message carried by a failure event.
pub open spec fn failure_text(e: RunEvent) -> Option<Seq<char>> {
    match e {
        RunEvent::Failed(m) => Some(m@),
        RunEvent::ReadFailed(m) => Some(m@),
        _ => None,
    }
}

/// The action that goes with moving from phase `p` on event `e`.
pub open spec fn action_fits(p: RunPhase, e: RunEvent, name: Seq<char>, a: RunAction) -> bool {
    match p {
        RunPhase::Creating | RunPhase::Starting | RunPhase::Attaching => if e is Done {
            match p {
                RunPhase::Creating => a is Start,
                RunPhase::Starting => a is Attach,
                _ => a is ReadNext,
            }
        } else {
            a matches RunAction::Finish(Err(SetupError::Container(m))) && (failure_text(e) matches Some(
                f,
            ) ==> m@ == f)
        },
        RunPhase::Streaming => match e {
            RunEvent::Output(b) => a matches RunAction::Relay(l) && l@ == log_line_of(
                name,
                chunk_text_of(b@),
            ),
            RunEvent::Failed(m) => a matches RunAction::Report(l) && l@ == m@,
            RunEvent::ReadFailed(m) => a matches RunAction::Report(l) && l@ == m@,
            RunEvent::StreamEnded => a is Delete,
            RunEvent::Done => a is ReadNext,
        },
        _ => match e {
            RunEvent::Done => a matches RunAction::Finish(Ok(())),
            _ => a matches RunAction::Finish(Err(SetupError::Container(m))) && (failure_text(e) matches Some(
                f,
            ) ==> m@ == f),
        },
    }
}

/// One container run: its name and where its lifecycle stands.
pub struct ContainerRun {
    pub name: String,
    pub phase: RunPhase,
}

fn container_failure(e: RunEvent) -> (r: SetupError)
    ensures
        r matches SetupError::Container(m) && (failure_text(e) matches Some(f) ==> m@ == f),
{
    match e {
        RunEvent::Failed(m) => SetupError::Container(m),
        RunEvent::ReadFailed(m) => SetupError::Container(m),
        _ => SetupError::Container(String::from_str("unexpected container runtime event")),
    }
}

impl ContainerRun {
    /// A run of container `name`, and its first action: create the container.
    pub fn new(name: String) -> (r: (ContainerRun, RunAction))
        ensures
            r.0.name@ == name@,
            r.0.phase == RunPhase::Creating,
            r.1 is Create,
    {
        (ContainerRun { name, phase: RunPhase::Creating }, RunAction::Create)
    }

    /// Moves the run on by the runtime's report `e` of the last action, and gives
    /// the next action. Output chunks are relayed and read errors reported without
    /// ending the stream; once the stream ends the container is deleted, and the
    /// run finishes with the outcome of that delete.
    pub fn step(&mut self, e: RunEvent) -> (a: RunAction)
        requires
            old(self).phase != RunPhase::Finished,
        ensures
            final(self).name == old(self).name,
            final(self).phase == next_phase(old(self).phase, e),
            action_fits(old(self).phase, e, old(self).name@, a),
    {
        match self.phase {
            RunPhase::Creating | RunPhase::Starting | RunPhase::Attaching => {
                if let RunEvent::Done = e {
                    let (p, a) = match self.phase {
                        RunPhase::Creating => (RunPhase::Starting, RunAction::Start),
                        RunPhase::Starting => (RunPhase::Attaching, RunAction::Attach),
                        _ => (RunPhase::Streaming, RunAction::ReadNext),
                    };
                    self.phase = p;
                    a
                } else {
                    self.phase = RunPhase::Finished;
                    RunAction::Finish(Err(container_failure(e)))
                }
            },
            RunPhase::Streaming => match e {
                RunEvent::Output(b) => RunAction::Relay(log_tty(self.name.as_str(), b.as_slice())),
                RunEvent::Failed(m) => RunAction::Report(m),
                RunEvent::ReadFailed(m) => RunAction::Report(m),
                RunEvent::StreamEnded => {
                    self.phase = RunPhase::Deleting;
                    RunAction::Delete
                },
                RunEvent::Done => RunAction::ReadNext,
            },
            _ => {
                self.phase = RunPhase::Finished;
                match e {
                    RunEvent::Done => RunAction::Finish(Ok(())),
                    _ => RunAction::Finish(Err(container_failure(e))),
                }
            },
        }
    }
}

/// Once its output stream has begun, a run ends only through deleting the
/// container: streaming goes on until the stream ends, the end of the stream
/// always leads to the delete, and the delete always finishes the run.
pub proof fn law_stream_end_leads_to_delete(e: RunEvent)
    ensures
        next_phase(RunPhase::Streaming, e) == RunPhase::Streaming || next_phase(
            RunPhase::Streaming,
            e,
        ) == RunPhase::Deleting,
        (next_phase(RunPhase::Streaming, e) == RunPhase::Deleting) == (e is StreamEnded),
        e is StreamEnded ==> forall|name: Seq<char>, a: RunAction| #[trigger]
            action_fits(RunPhase::Streaming, e, name, a) ==> a is Delete,
        next_phase(RunPhase::Deleting, e) == RunPhase::Finished,
{
}

} // verus!
