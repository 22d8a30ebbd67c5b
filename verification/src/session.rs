//! The consumer loop: the observer's side of a monitoring session.
//!
//! An [`App`] owns the receiving end of the channel on which envelopes
//! arrive, the event log they are appended to, and the session's two status
//! flags. One poll takes at most one envelope. `Load` and `Unload` move the
//! flags; every other envelope is appended to the log, in the order of
//! arrival. Once `Unload` has been seen the session is over and whatever
//! still arrives is ignored.
//!
//! The channel is unbounded and a poll never waits: a producer is never held
//! back, and a poll that finds nothing is an ordinary outcome, not an error.

use vstd::prelude::*;
use std::sync::mpsc::{Receiver, Sender, TryRecvError};
use crate::attach::{attach_argument, composed_argument};
use crate::event::{AgentMessage, MessageView};
use crate::policy::{Config, ConfigView};

verus! {

/// The receiving end of a `std::sync::mpsc` channel. Nothing is known of
/// what it holds.
#[verifier::external_type_specification]
#[verifier::external_body]
#[verifier::reject_recursive_types(T)]
pub struct ExReceiver<T>(Receiver<T>);

/// The sending end of a `std::sync::mpsc` channel. Nothing is known of what
/// it holds.
#[verifier::external_type_specification]
#[verifier::external_body]
#[verifier::reject_recursive_types(T)]
pub struct ExSender<T>(Sender<T>);

/// What one look at the channel found.
#[derive(Debug, PartialEq, Eq)]
pub enum Polled {
    /// An envelope had arrived.
    Message(AgentMessage),
    /// Nothing has arrived since the last look.
    Empty,
    /// Nothing has arrived and nothing can: every sender is gone.
    Disconnected,
}

/// Model of a [`Polled`].
pub enum PolledView {
    Message(MessageView),
    Empty,
    Disconnected,
}

impl View for Polled {
    type V = PolledView;

    open spec fn view(&self) -> PolledView {
        match self {
            Polled::Message(msg) => PolledView::Message(msg@),
            Polled::Empty => PolledView::Empty,
            Polled::Disconnected => PolledView::Disconnected,
        }
    }
}

/// What one poll changed: the envelope appended to the log, if one was, and
/// the status flags after the poll.
#[derive(Debug, PartialEq, Eq)]
pub struct SessionDelta {
    pub entry: Option<AgentMessage>,
    pub running: bool,
    pub finished: bool,
}

/// Model of a [`SessionDelta`].
pub struct DeltaView {
    pub entry: Option<MessageView>,
    pub running: bool,
    pub finished: bool,
}

impl View for SessionDelta {
    type V = DeltaView;

    open spec fn view(&self) -> DeltaView {
        DeltaView {
            entry: self.entry.deep_view(),
            running: self.running,
            finished: self.finished,
        }
    }
}

/// Why a session cannot go on.
#[derive(Debug, Clone, Copy, PartialEq, Eq, Structural)]
pub enum SessionFault {
    /// The channel broke before `Unload` arrived.
    Disconnected,
}

/// How far a session has come. The two status flags that the observer shows
/// are read off it, so they are never set both.
#[derive(Debug, Clone, Copy, PartialEq, Eq, Structural)]
pub enum Status {
    /// The hook layer has not reported in.
    Idle,
    /// `Load` has been seen and `Unload` has not.
    Running,
    /// `Unload` has been seen.
    Finished,
}

impl Status {
    /// The flag "running": set by `Load`, cleared by `Unload`.
    pub open spec fn running(self) -> bool {
        self is Running
    }

    /// The flag "finished": set by `Unload`.
    pub open spec fn finished(self) -> bool {
        self is Finished
    }
}

/// Model of an [`App`]: the event log, the status, the captured output of
/// the monitored program, and what the session was set up with.
pub struct SessionView {
    pub log: Seq<MessageView>,
    pub status: Status,
    pub launched: bool,
    pub stdout: Seq<Seq<char>>,
    pub stderr: Seq<Seq<char>>,
    pub config: ConfigView,
    pub config_arg: Seq<char>,
}

impl SessionView {
    /// The flag "running".
    pub open spec fn running(self) -> bool {
        self.status.running()
    }

    /// The flag "finished".
    pub open spec fn finished(self) -> bool {
        self.status.finished()
    }

    /// The session after an envelope has arrived.
    pub open spec fn received(self, msg: MessageView) -> SessionView {
        if self.finished() {
            self
        } else {
            match msg {
                MessageView::Load => SessionView { status: Status::Running, ..self },
                MessageView::Unload => SessionView { status: Status::Finished, ..self },
                _ => SessionView { log: self.log.push(msg), ..self },
            }
        }
    }

    /// The session after one poll.
    pub open spec fn polled(self, found: PolledView) -> SessionView {
        match found {
            PolledView::Message(msg) => self.received(msg),
            PolledView::Empty => self,
            PolledView::Disconnected => self,
        }
    }

    /// What one poll reports. Without a new envelope there is no delta; a
    /// broken channel is a fault unless the session is over.
    pub open spec fn report(self, found: PolledView) -> Result<Option<DeltaView>, SessionFault> {
        match found {
            PolledView::Empty => Ok(None),
            PolledView::Disconnected => if self.finished() {
                Ok(None)
            } else {
                Err(SessionFault::Disconnected)
            },
            PolledView::Message(msg) => if self.finished() {
                Ok(None)
            } else {
                Ok(
                    Some(
                        DeltaView {
                            entry: if msg.is_logged() {
                                Some(msg)
                            } else {
                                None
                            },
                            running: self.received(msg).running(),
                            finished: self.received(msg).finished(),
                        },
                    ),
                )
            },
        }
    }

    /// The session after a run of envelopes, taken one by one.
    pub open spec fn replayed(self, messages: Seq<MessageView>) -> SessionView
        decreases messages.len(),
    {
        if messages.len() == 0 {
            self
        } else {
            self.received(messages[0]).replayed(messages.drop_first())
        }
    }
}

/// The flag that makes the runtime load the hook layer, up to the attach
/// argument.
pub open spec fn agent_flag_prefix() -> Seq<char> {
    "-agentpath:target/debug/libaida.so="@
}

/// The command line that launches the monitored program: the flag that loads
/// the hook layer with its attach argument, then the program.
pub open spec fn launch_arguments(config: ConfigView, server_name: Seq<char>, config_arg: Seq<char>)
    -> Seq<Seq<char>> {
    seq![
        agent_flag_prefix() + composed_argument(server_name, config_arg),
        "-jar"@,
        config.jar,
    ]
}

/// The receiving end of the channel that a sending end feeds.
///
/// A channel has one receiving end, and every sending end belongs to one
/// channel for as long as it lives.
pub uninterp spec fn receiver_of(tx: Sender<AgentMessage>) -> Receiver<AgentMessage>;

/// The two ends of the channel on which a session's envelopes arrive. They
/// are the two halves of one channel.
struct Channel {
    tx: Sender<AgentMessage>,
    rx: Receiver<AgentMessage>,
}

impl Channel {
    #[verifier::type_invariant]
    spec fn halves_of_one_channel(self) -> bool {
        receiver_of(self.tx) == self.rx
    }
}

/// The observer's state for one monitored program.
pub struct App {
    channel: Channel,
    config: Config,
    config_arg: String,
    stdout: Vec<String>,
    stderr: Vec<String>,
    events: Vec<AgentMessage>,
    launched: bool,
    status: Status,
}

/// Opens a channel for envelopes.
///
/// Stands for `std::sync::mpsc::channel`, which returns the sending and the
/// receiving half of one new channel: what is sent on the first becomes
/// available on the second.
#[verifier::external_body]
fn open_channel() -> (ends: (Sender<AgentMessage>, Receiver<AgentMessage>))
    ensures
        receiver_of(ends.0) == ends.1,
{
    std::sync::mpsc::channel()
}

/// Looks at the channel without waiting.
///
/// Stands for `Receiver::try_recv`. What it finds depends on what the
/// senders have done, so nothing is claimed of it.
#[verifier::external_body]
fn poll_channel(rx: &Receiver<AgentMessage>) -> (found: Polled) {
    match rx.try_recv() {
        Ok(msg) => Polled::Message(msg),
        Err(TryRecvError::Empty) => Polled::Empty,
        Err(TryRecvError::Disconnected) => Polled::Disconnected,
    }
}

/// Makes another sending end for the same channel.
///
/// Stands for `Sender::clone`: the clone sends to the channel that the
/// sending end it was made from sends to.
#[verifier::external_body]
fn clone_sender(tx: &Sender<AgentMessage>) -> (copy: Sender<AgentMessage>)
    ensures
        receiver_of(copy) == receiver_of(*tx),
{
    tx.clone()
}

impl View for App {
    type V = SessionView;

    closed spec fn view(&self) -> SessionView {
        SessionView {
            log: self.events.deep_view(),
            status: self.status,
            launched: self.launched,
            stdout: self.stdout.deep_view(),
            stderr: self.stderr.deep_view(),
            config: self.config@,
            config_arg: self.config_arg@,
        }
    }
}

impl App {
    /// A session that has not started: the log is empty and neither flag is
    /// set.
    pub fn new(config: Config, config_arg: String) -> (app: App)
        ensures
            app@ == (SessionView {
                log: Seq::empty(),
                status: Status::Idle,
                launched: false,
                stdout: Seq::empty(),
                stderr: Seq::empty(),
                config: config@,
                config_arg: config_arg@,
            }),
    {
        let (tx, rx) = open_channel();
        let app = App {
            channel: Channel { tx, rx },
            config,
            config_arg,
            stdout: Vec::new(),
            stderr: Vec::new(),
            events: Vec::new(),
            launched: false,
            status: Status::Idle,
        };
        proof {
            assert(app.events.deep_view() =~= Seq::empty());
            assert(app.stdout.deep_view() =~= Seq::empty());
            assert(app.stderr.deep_view() =~= Seq::empty());
        }
        app
    }

    /// The receiving end that [`App::receive_agent_msg`] polls. No method
    /// of the session exchanges it.
    pub closed spec fn inlet(&self) -> Receiver<AgentMessage> {
        self.channel.rx
    }

    /// A sending end of the channel that [`App::receive_agent_msg`] polls:
    /// what is sent on it is what the polls find.
    pub fn sender(&self) -> (tx: Sender<AgentMessage>)
        ensures
            receiver_of(tx) == self.inlet(),
    {
        proof {
            use_type_invariant(&self.channel);
        }
        clone_sender(&self.channel.tx)
    }

    /// The event log, oldest envelope first.
    pub fn events(&self) -> (log: &Vec<AgentMessage>)
        ensures
            log.deep_view() == self@.log,
    {
        &self.events
    }

    /// Whether the hook layer has attached and not yet gone away.
    pub fn running(&self) -> (running: bool)
        ensures
            running == self@.running(),
    {
        match self.status {
            Status::Running => true,
            _ => false,
        }
    }

    /// Whether `Unload` has been seen.
    pub fn finished(&self) -> (finished: bool)
        ensures
            finished == self@.finished(),
    {
        match self.status {
            Status::Finished => true,
            _ => false,
        }
    }

    /// The lines that the monitored program wrote to its standard output.
    pub fn stdout(&self) -> (lines: &Vec<String>)
        ensures
            lines.deep_view() == self@.stdout,
    {
        &self.stdout
    }

    /// The lines that the monitored program wrote to its standard error.
    pub fn stderr(&self) -> (lines: &Vec<String>)
        ensures
            lines.deep_view() == self@.stderr,
    {
        &self.stderr
    }

    /// The policy the session was set up with.
    pub fn config(&self) -> (config: &Config)
        ensures
            config@ == self@.config,
    {
        &self.config
    }

    /// Whether the monitored program is still to be launched: it was not
    /// launched before, and no session is under way or over.
    pub fn needs_command(&self) -> (needed: bool)
        ensures
            needed == (!self@.launched && self@.status is Idle),
    {
        match self.status {
            Status::Idle => !self.launched,
            _ => false,
        }
    }

    /// Starts a session and gives the command line that launches the
    /// monitored program. The log and the captured output start empty and
    /// both flags are cleared.
    ///
    /// `server_name` is the rendezvous address that the hook layer is to
    /// connect to.
    pub fn run_command(&mut self, server_name: &str) -> (arguments: Vec<String>)
        ensures
            final(self).inlet() == old(self).inlet(),
            final(self)@ == (SessionView {
                log: Seq::empty(),
                status: Status::Idle,
                launched: true,
                stdout: Seq::empty(),
                stderr: Seq::empty(),
                ..old(self)@
            }),
            arguments.deep_view() == launch_arguments(
                old(self)@.config,
                server_name@,
                old(self)@.config_arg,
            ),
    {
        self.events = Vec::new();
        self.stdout = Vec::new();
        self.stderr = Vec::new();
        self.status = Status::Idle;
        self.launched = true;
        let mut flag = String::from_str("-agentpath:target/debug/libaida.so=");
        let argument = attach_argument(server_name, self.config_arg.as_str());
        flag.append(argument.as_str());
        let mut arguments: Vec<String> = Vec::new();
        arguments.push(flag);
        arguments.push(String::from_str("-jar"));
        arguments.push(self.config.jar.clone());
        proof {
            assert(self.events.deep_view() =~= Seq::empty());
            assert(self.stdout.deep_view() =~= Seq::empty());
            assert(self.stderr.deep_view() =~= Seq::empty());
            assert(arguments.deep_view() =~= launch_arguments(
                old(self)@.config,
                server_name@,
                old(self)@.config_arg,
            ));
        }
        arguments
    }

    /// Records a line that the monitored program wrote to its standard
    /// output.
    pub fn push_stdout(&mut self, line: String)
        ensures
            final(self).inlet() == old(self).inlet(),
            final(self)@ == (SessionView { stdout: old(self)@.stdout.push(line@), ..old(self)@ }),
    {
        self.stdout.push(line);
        proof {
            assert(self.stdout.deep_view() =~= old(self).stdout.deep_view().push(line@));
        }
    }

    /// Records a line that the monitored program wrote to its standard
    /// error.
    pub fn push_stderr(&mut self, line: String)
        ensures
            final(self).inlet() == old(self).inlet(),
            final(self)@ == (SessionView { stderr: old(self)@.stderr.push(line@), ..old(self)@ }),
    {
        self.stderr.push(line);
        proof {
            assert(self.stderr.deep_view() =~= old(self).stderr.deep_view().push(line@));
        }
    }

    /// Takes in what one look at the channel found.
    ///
    /// A new envelope moves the session as [`SessionView::received`] says and
    /// is reported as a delta. Without one, nothing changes and there is no
    /// delta. A channel that broke before `Unload` is a fault, and the
    /// session is left as it was.
    pub fn absorb(&mut self, found: Polled) -> (report: Result<Option<SessionDelta>, SessionFault>)
        ensures
            final(self).inlet() == old(self).inlet(),
            final(self)@ == old(self)@.polled(found@),
            match report {
                Ok(Some(delta)) => Ok(Some(delta@)),
                Ok(None) => Ok(None),
                Err(fault) => Err(fault),
            } == old(self)@.report(found@),
    {
        match found {
            Polled::Empty => Ok(None),
            Polled::Disconnected => {
                if self.finished() {
                    Ok(None)
                } else {
                    Err(SessionFault::Disconnected)
                }
            },
            Polled::Message(msg) => {
                if self.finished() {
                    return Ok(None);
                }
                let entry = match msg {
                    AgentMessage::Load => {
                        self.status = Status::Running;
                        None
                    },
                    AgentMessage::Unload => {
                        self.status = Status::Finished;
                        None
                    },
                    other => {
                        let copy = other.clone();
                        self.events.push(other);
                        proof {
                            assert(self.events.deep_view() =~= old(self).events.deep_view().push(
                                other@,
                            ));
                        }
                        Some(copy)
                    },
                };
                Ok(
                    Some(
                        SessionDelta {
                            entry,
                            running: self.running(),
                            finished: self.finished(),
                        },
                    ),
                )
            },
        }
    }

    /// Polls the channel once, without waiting, and takes in what was found.
    ///
    /// What is found depends on the senders. Whatever it is, the session
    /// moves and reports as [`App::absorb`] does for it; in particular a poll
    /// that reports no delta has changed nothing.
    pub fn receive_agent_msg(&mut self) -> (report: Result<Option<SessionDelta>, SessionFault>)
        ensures
            final(self).inlet() == old(self).inlet(),
            exists|found: PolledView|
                {
                    &&& final(self)@ == #[trigger] old(self)@.polled(found)
                    &&& match report {
                        Ok(Some(delta)) => Ok(Some(delta@)),
                        Ok(None) => Ok(None),
                        Err(fault) => Err(fault),
                    } == old(self)@.report(found)
                },
            report matches Ok(None) ==> final(self)@ == old(self)@,
            report is Err ==> final(self)@ == old(self)@,
    {
        let found = poll_channel(&self.channel.rx);
        let ghost seen = found@;
        let report = self.absorb(found);
        proof {
            assert(final(self)@ == old(self)@.polled(seen));
        }
        report
    }
}

} // verus!
