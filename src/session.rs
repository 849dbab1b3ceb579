//! The operations of the control connection as state machines.
//!
//! An `Exchange` decides; the caller performs. Each call of `step` hands
//! back the outcome of the last action (an `Event`) and receives the next
//! `Action`, until the action is `Finish`. Transport failures are the
//! caller's: they end the operation where they happen.
use vstd::prelude::*;
use crate::command::{Command, command_line, encodable};
use crate::error::FtpError;
use crate::passive::{PassiveAddress, PasvStep, pasv_step, pasv_valid, pasv_host, pasv_port};
use crate::reply::{Response, is_success, expect_greeting, expect_success};

verus! {

/// What an exchange does.
#[derive(Debug, Clone, PartialEq, Eq)]
pub enum Op {
    /// Reads the server's greeting.
    Connect,
    /// `USER`, then `PASS`.
    Login(String, String),
    Mkdir(String),
    ChangeDir(String),
    /// Lists a path and reports whether the listing names anything.
    Exists(String),
    /// Lists a directory (or the current one) as raw text.
    List(Option<String>),
    /// Best-effort removal: the reply is read but not judged.
    Delete(String),
    /// Stores the exchange's payload at a path.
    Put(String),
}

/// Where an exchange stands.
#[derive(Debug, Clone, Copy, PartialEq, Eq, Structural)]
pub enum Stage {
    Start,
    Greeting,
    /// Waiting for the reply to `USER`.
    User,
    /// Waiting for the reply to `PASS`.
    Pass,
    /// Waiting for the reply to the operation's only command.
    Reply,
    /// Put: stale replies are being drained before the pre-clean `DELE`.
    Cleaning,
    /// Put: `DELE` sent, its reply line skipped.
    PreClean,
    /// Put: waiting for the reply to `TYPE I`.
    Binary,
    /// Stale replies are being drained before `PASV`.
    Draining,
    /// Waiting for the `227` reply.
    Passive,
    /// The data connection is being opened.
    Connecting,
    /// List: waiting for the reply to `CWD`.
    Cwd,
    /// List: `LIST` sent.
    ListSent,
    /// Exists: waiting for the reply to `LIST`.
    Listing,
    /// Exists: the line after the `LIST` reply is being skipped.
    ProbeLine,
    /// Waiting for what the data connection carried.
    Data,
    /// Put: `STOR` sent and the payload being written.
    Upload,
    /// Put: waiting for the transfer's final reply.
    Completion,
    Finished,
}

/// What an operation yields.
#[derive(Debug, Clone, PartialEq, Eq)]
pub enum Outcome {
    Done,
    Exists(bool),
    Listing(String),
}

/// What the caller is asked to do next.
#[derive(Debug, PartialEq, Eq)]
pub enum Action {
    /// Discard replies that were sent but never read.
    Drain,
    /// Send a command line, then read one reply (answer: `Reply`).
    Request(String),
    /// Send a command line, then read one line and ignore it (answer: `Done`).
    Notify(String),
    /// Send a command line (answer: `Done`).
    Send(String),
    /// Read one reply (answer: `Reply`).
    ReadReply,
    /// Read one line and ignore it (answer: `Done`).
    SkipLine,
    /// Open the data connection (answer: `Done`).
    OpenData(PassiveAddress),
    /// Read at most two bytes from the data connection (answer: `Count`).
    ReadProbe,
    /// Read the data connection to its end as text (answer: `Text`).
    ReadAll,
    /// Send the command line, write the bytes to the data connection and
    /// close it (answer: `Done`).
    Store(String, Vec<u8>),
    /// The operation is over.
    Finish(Result<Outcome, FtpError>),
}

/// The outcome of the last action.
#[derive(Debug, Clone, PartialEq, Eq)]
pub enum Event {
    Done,
    Reply(Response),
    Count(usize),
    Text(String),
}

/// One operation in progress.
#[derive(Debug)]
pub struct Exchange {
    pub op: Op,
    pub stage: Stage,
    /// The bytes a `Put` stores; handed out with `Action::Store`.
    pub payload: Vec<u8>,
    /// A `CWD` of this exchange was accepted: the connection's working
    /// directory changed.
    pub entered: bool,
}

/// `r` sends `c` and reads its reply; a command that cannot be encoded
/// ends the operation instead.
pub open spec fn requests(r: Action, c: Command) -> bool {
    if encodable(c) {
        exists|l: String| r == Action::Request(l) && l@ == command_line(c)
    } else {
        r == Action::Finish(Err(FtpError::InvalidArgument))
    }
}

pub open spec fn fails(r: Action, e: FtpError) -> bool {
    r == Action::Finish(Err(e))
}

pub open spec fn succeeds(r: Action, o: Outcome) -> bool {
    r == Action::Finish(Ok(o))
}

/// What the reply to a judged command leads to: on success, `next`.
pub open spec fn judged(resp: Response, r: Action, next: bool) -> bool {
    if is_success(resp.code as nat) {
        next
    } else {
        fails(r, FtpError::UnexpectedStatus(resp.code))
    }
}

/// The stage after a request of `c`: `next`, unless `c` could not be sent.
pub open spec fn after_request(c: Command, next: Stage) -> Stage {
    if encodable(c) { next } else { Stage::Finished }
}

/// Stages that wait for a bare `Done`.
pub open spec fn awaits_done(s: Stage) -> bool {
    s == Stage::Cleaning || s == Stage::PreClean || s == Stage::Draining || s == Stage::Connecting
        || s == Stage::ListSent || s == Stage::ProbeLine || s == Stage::Upload
}

fn finish(stage: &mut Stage, res: Result<Outcome, FtpError>) -> (r: Action)
    ensures
        *final(stage) == Stage::Finished,
        r == Action::Finish(res),
{
    *stage = Stage::Finished;
    Action::Finish(res)
}

fn request(stage: &mut Stage, next: Stage, c: Command) -> (r: Action)
    requires
        next != Stage::Finished,
    ensures
        requests(r, c),
        *final(stage) == if encodable(c) { next } else { Stage::Finished },
{
    match c.encode() {
        Ok(l) => {
            *stage = next;
            Action::Request(l)
        },
        Err(e) => finish(stage, Err(e)),
    }
}

impl Exchange {
    pub fn new(op: Op) -> (r: Exchange)
        ensures
            r.op == op,
            r.stage == Stage::Start,
            r.payload@.len() == 0,
            !r.entered,
    {
        Exchange { op, stage: Stage::Start, payload: Vec::new(), entered: false }
    }

    pub fn connect() -> (r: Exchange)
        ensures
            r.op == Op::Connect,
            r.stage == Stage::Start,
            !r.entered,
    {
        Exchange::new(Op::Connect)
    }

    pub fn login(user: String, pass: String) -> (r: Exchange)
        ensures
            r.op == Op::Login(user, pass),
            r.stage == Stage::Start,
            !r.entered,
    {
        Exchange::new(Op::Login(user, pass))
    }

    pub fn mkdir(path: String) -> (r: Exchange)
        ensures
            r.op == Op::Mkdir(path),
            r.stage == Stage::Start,
            !r.entered,
    {
        Exchange::new(Op::Mkdir(path))
    }

    pub fn change_dir(path: String) -> (r: Exchange)
        ensures
            r.op == Op::ChangeDir(path),
            r.stage == Stage::Start,
            !r.entered,
    {
        Exchange::new(Op::ChangeDir(path))
    }

    pub fn file_exists(path: String) -> (r: Exchange)
        ensures
            r.op == Op::Exists(path),
            r.stage == Stage::Start,
            !r.entered,
    {
        Exchange::new(Op::Exists(path))
    }

    pub fn ls(dir: Option<String>) -> (r: Exchange)
        ensures
            r.op == Op::List(dir),
            r.stage == Stage::Start,
            !r.entered,
    {
        Exchange::new(Op::List(dir))
    }

    pub fn rm(path: String) -> (r: Exchange)
        ensures
            r.op == Op::Delete(path),
            r.stage == Stage::Start,
            !r.entered,
    {
        Exchange::new(Op::Delete(path))
    }

    pub fn put(path: String, file: Vec<u8>) -> (r: Exchange)
        ensures
            r.op == Op::Put(path),
            r.stage == Stage::Start,
            r.payload == file,
            !r.entered,
    {
        Exchange { op: Op::Put(path), stage: Stage::Start, payload: file, entered: false }
    }

    pub fn is_finished(&self) -> (r: bool)
        ensures
            r == (self.stage == Stage::Finished),
    {
        self.stage == Stage::Finished
    }

    /// Takes the outcome of the last action and decides the next one.
    pub fn step(&mut self, ev: Event) -> (r: Action)
        ensures
            final(self).op == old(self).op,
            // the payload is kept until `STOR` hands it out
            !(r is Store) ==> final(self).payload == old(self).payload,
            (r is Finish) <==> final(self).stage == Stage::Finished,
            // a working-directory change is noted once its CWD is accepted
            final(self).entered == (old(self).entered || (match ev {
                Event::Reply(resp) => is_success(resp.code as nat) && (old(self).stage == Stage::Cwd || (
                old(self).stage == Stage::Reply && old(self).op is ChangeDir)),
                _ => false,
            })),
            old(self).stage == Stage::Finished ==> fails(r, FtpError::OutOfSequence),
            // the first action of each operation
            old(self).stage == Stage::Start ==> match old(self).op {
                Op::Connect => r == Action::ReadReply,
                Op::Login(u, _) => requests(r, Command::User(u)),
                Op::Mkdir(p) => requests(r, Command::Mkd(p)),
                Op::ChangeDir(p) => requests(r, Command::Cwd(p)),
                Op::Delete(p) => requests(r, Command::Dele(p)),
                Op::Exists(_) => r == Action::Drain,
                Op::List(_) => r == Action::Drain,
                Op::Put(_) => r == Action::Drain,
            },
            // the greeting must be 220
            old(self).stage == Stage::Greeting ==> match ev {
                Event::Reply(resp) => if resp.code == 220 {
                    succeeds(r, Outcome::Done)
                } else {
                    fails(r, FtpError::UnexpectedStatus(resp.code))
                },
                _ => fails(r, FtpError::OutOfSequence),
            },
            // login fails fast on the first rejection
            old(self).stage == Stage::User ==> match (ev, old(self).op) {
                (Event::Reply(resp), Op::Login(_, p)) => judged(resp, r, requests(r, Command::Pass(p))),
                _ => fails(r, FtpError::OutOfSequence),
            },
            old(self).stage == Stage::Pass ==> match ev {
                Event::Reply(resp) => judged(resp, r, succeeds(r, Outcome::Done)),
                _ => fails(r, FtpError::OutOfSequence),
            },
            // single commands: judged, except the best-effort delete
            old(self).stage == Stage::Reply ==> match ev {
                Event::Reply(resp) => match old(self).op {
                    Op::Delete(_) => succeeds(r, Outcome::Done),
                    _ => judged(resp, r, succeeds(r, Outcome::Done)),
                },
                _ => fails(r, FtpError::OutOfSequence),
            },
            // put: DELE before TYPE I, whose reply must be a success
            old(self).stage == Stage::Cleaning && ev == Event::Done ==> match old(self).op {
                Op::Put(p) => if encodable(Command::Dele(p)) {
                    exists|l: String| r == Action::Notify(l) && l@ == command_line(Command::Dele(p))
                } else {
                    fails(r, FtpError::InvalidArgument)
                },
                _ => fails(r, FtpError::OutOfSequence),
            },
            old(self).stage == Stage::PreClean && ev == Event::Done ==> requests(r, Command::TypeImage),
            old(self).stage == Stage::Binary ==> match ev {
                Event::Reply(resp) => judged(resp, r, r == Action::Drain),
                _ => fails(r, FtpError::OutOfSequence),
            },
            old(self).stage == Stage::Draining && ev == Event::Done ==> requests(r, Command::Pasv),
            // passive mode: wait for 227, skip other 2xx lines
            old(self).stage == Stage::Passive ==> match ev {
                Event::Reply(resp) => if resp.code == 227 {
                    if pasv_valid(resp.text@) {
                        exists|a: PassiveAddress|
                            r == Action::OpenData(a) && a.host@ == pasv_host(resp.text@) && a.port as nat
                                == pasv_port(resp.text@)
                    } else {
                        fails(r, FtpError::ParseFail)
                    }
                } else if 200 <= resp.code <= 299 {
                    r == Action::ReadReply
                } else {
                    fails(r, FtpError::UnexpectedStatus(resp.code))
                },
                _ => fails(r, FtpError::OutOfSequence),
            },
            // exists: a failed LIST means absent; else more than one byte means present
            old(self).stage == Stage::Listing ==> match ev {
                Event::Reply(resp) => if is_success(resp.code as nat) {
                    r == Action::SkipLine
                } else {
                    succeeds(r, Outcome::Exists(false))
                },
                _ => fails(r, FtpError::OutOfSequence),
            },
            old(self).stage == Stage::Data ==> match (ev, old(self).op) {
                (Event::Count(n), Op::Exists(_)) => succeeds(r, Outcome::Exists(n > 1)),
                (Event::Text(t), Op::List(_)) => succeeds(r, Outcome::Listing(t)),
                _ => fails(r, FtpError::OutOfSequence),
            },
            // list: a CWD must succeed before LIST
            old(self).stage == Stage::Cwd ==> match ev {
                Event::Reply(resp) => judged(
                    resp,
                    r,
                    exists|l: String| r == Action::Send(l) && l@ == command_line(Command::List(None)),
                ),
                _ => fails(r, FtpError::OutOfSequence),
            },
            // put: STOR hands out the payload
            old(self).stage == Stage::Connecting && ev == Event::Done ==> match old(self).op {
                Op::Put(p) => if encodable(Command::Stor(p)) {
                    exists|l: String|
                        r == Action::Store(l, old(self).payload) && l@ == command_line(Command::Stor(p))
                } else {
                    fails(r, FtpError::InvalidArgument)
                },
                Op::Exists(p) => requests(r, Command::List(Some(p))),
                Op::List(Some(d)) => requests(r, Command::Cwd(d)),
                Op::List(None) => exists|l: String|
                    r == Action::Send(l) && l@ == command_line(Command::List(None)),
                _ => fails(r, FtpError::OutOfSequence),
            },
            old(self).stage == Stage::Upload && ev == Event::Done ==> r == Action::ReadReply,
            old(self).stage == Stage::ListSent && ev == Event::Done ==> r == Action::ReadAll,
            old(self).stage == Stage::ProbeLine && ev == Event::Done ==> r == Action::ReadProbe,
            awaits_done(old(self).stage) && ev != Event::Done ==> fails(r, FtpError::OutOfSequence),
            // where each transition leads
            old(self).stage == Stage::Start ==> final(self).stage == match old(self).op {
                Op::Connect => Stage::Greeting,
                Op::Login(u, _) => after_request(Command::User(u), Stage::User),
                Op::Mkdir(p) => after_request(Command::Mkd(p), Stage::Reply),
                Op::ChangeDir(p) => after_request(Command::Cwd(p), Stage::Reply),
                Op::Delete(p) => after_request(Command::Dele(p), Stage::Reply),
                Op::Exists(_) => Stage::Draining,
                Op::List(_) => Stage::Draining,
                Op::Put(_) => Stage::Cleaning,
            },
            old(self).stage == Stage::User && r is Request ==> final(self).stage == Stage::Pass,
            old(self).stage == Stage::Cleaning && r is Notify ==> final(self).stage == Stage::PreClean,
            old(self).stage == Stage::PreClean && r is Request ==> final(self).stage == Stage::Binary,
            old(self).stage == Stage::Binary && r is Drain ==> final(self).stage == Stage::Draining,
            old(self).stage == Stage::Draining && r is Request ==> final(self).stage == Stage::Passive,
            old(self).stage == Stage::Passive && r is ReadReply ==> final(self).stage == Stage::Passive,
            old(self).stage == Stage::Passive && r is OpenData ==> final(self).stage == Stage::Connecting,
            old(self).stage == Stage::Connecting && !(r is Finish) ==> final(self).stage == match old(self).op {
                Op::Exists(_) => Stage::Listing,
                Op::List(Some(_)) => Stage::Cwd,
                Op::List(None) => Stage::ListSent,
                _ => Stage::Upload,
            },
            old(self).stage == Stage::Cwd && r is Send ==> final(self).stage == Stage::ListSent,
            old(self).stage == Stage::ListSent && r is ReadAll ==> final(self).stage == Stage::Data,
            old(self).stage == Stage::Listing && r is SkipLine ==> final(self).stage == Stage::ProbeLine,
            old(self).stage == Stage::ProbeLine && r is ReadProbe ==> final(self).stage == Stage::Data,
            old(self).stage == Stage::Upload && r is ReadReply ==> final(self).stage == Stage::Completion,
            old(self).stage == Stage::Completion && r is ReadReply ==> final(self).stage == Stage::Completion,
            // put: a preliminary 150 is followed by the final reply, which must be 2xx
            old(self).stage == Stage::Completion ==> match ev {
                Event::Reply(resp) => if resp.code == 150 {
                    r == Action::ReadReply
                } else if 200 <= resp.code <= 299 {
                    succeeds(r, Outcome::Done)
                } else {
                    fails(r, FtpError::UnexpectedStatus(resp.code))
                },
                _ => fails(r, FtpError::OutOfSequence),
            },
    {
        let stage = self.stage;
        match stage {
            Stage::Start => match &self.op {
                Op::Connect => {
                    self.stage = Stage::Greeting;
                    Action::ReadReply
                },
                Op::Login(u, _) => request(&mut self.stage, Stage::User, Command::User(u.clone())),
                Op::Mkdir(p) => request(&mut self.stage, Stage::Reply, Command::Mkd(p.clone())),
                Op::ChangeDir(p) => request(&mut self.stage, Stage::Reply, Command::Cwd(p.clone())),
                Op::Delete(p) => request(&mut self.stage, Stage::Reply, Command::Dele(p.clone())),
                Op::Exists(_) | Op::List(_) => {
                    self.stage = Stage::Draining;
                    Action::Drain
                },
                Op::Put(_) => {
                    self.stage = Stage::Cleaning;
                    Action::Drain
                },
            },
            Stage::Greeting => match ev {
                Event::Reply(resp) => match expect_greeting(resp.code) {
                    Ok(()) => finish(&mut self.stage, Ok(Outcome::Done)),
                    Err(e) => finish(&mut self.stage, Err(e)),
                },
                _ => finish(&mut self.stage, Err(FtpError::OutOfSequence)),
            },
            Stage::User => match (ev, &self.op) {
                (Event::Reply(resp), Op::Login(_, p)) => match expect_success(resp.code) {
                    Ok(()) => request(&mut self.stage, Stage::Pass, Command::Pass(p.clone())),
                    Err(e) => finish(&mut self.stage, Err(e)),
                },
                _ => finish(&mut self.stage, Err(FtpError::OutOfSequence)),
            },
            Stage::Pass => match ev {
                Event::Reply(resp) => match expect_success(resp.code) {
                    Ok(()) => finish(&mut self.stage, Ok(Outcome::Done)),
                    Err(e) => finish(&mut self.stage, Err(e)),
                },
                _ => finish(&mut self.stage, Err(FtpError::OutOfSequence)),
            },
            Stage::Reply => match ev {
                Event::Reply(resp) => {
                    let best_effort = match &self.op {
                        Op::Delete(_) => true,
                        _ => false,
                    };
                    let changes_dir = match &self.op {
                        Op::ChangeDir(_) => true,
                        _ => false,
                    };
                    if best_effort {
                        finish(&mut self.stage, Ok(Outcome::Done))
                    } else {
                        match expect_success(resp.code) {
                            Ok(()) => {
                                if changes_dir {
                                    self.entered = true;
                                }
                                finish(&mut self.stage, Ok(Outcome::Done))
                            },
                            Err(e) => finish(&mut self.stage, Err(e)),
                        }
                    }
                },
                _ => finish(&mut self.stage, Err(FtpError::OutOfSequence)),
            },
            Stage::Cleaning => match (ev, &self.op) {
                (Event::Done, Op::Put(p)) => match Command::Dele(p.clone()).encode() {
                    Ok(l) => {
                        self.stage = Stage::PreClean;
                        Action::Notify(l)
                    },
                    Err(e) => finish(&mut self.stage, Err(e)),
                },
                _ => finish(&mut self.stage, Err(FtpError::OutOfSequence)),
            },
            Stage::PreClean => match ev {
                Event::Done => request(&mut self.stage, Stage::Binary, Command::TypeImage),
                _ => finish(&mut self.stage, Err(FtpError::OutOfSequence)),
            },
            Stage::Binary => match ev {
                Event::Reply(resp) => match expect_success(resp.code) {
                    Ok(()) => {
                        self.stage = Stage::Draining;
                        Action::Drain
                    },
                    Err(e) => finish(&mut self.stage, Err(e)),
                },
                _ => finish(&mut self.stage, Err(FtpError::OutOfSequence)),
            },
            Stage::Draining => match ev {
                Event::Done => request(&mut self.stage, Stage::Passive, Command::Pasv),
                _ => finish(&mut self.stage, Err(FtpError::OutOfSequence)),
            },
            Stage::Passive => match ev {
                Event::Reply(resp) => match pasv_step(&resp) {
                    PasvStep::Ready(a) => {
                        self.stage = Stage::Connecting;
                        Action::OpenData(a)
                    },
                    PasvStep::Skip => Action::ReadReply,
                    PasvStep::Failed(e) => finish(&mut self.stage, Err(e)),
                },
                _ => finish(&mut self.stage, Err(FtpError::OutOfSequence)),
            },
            Stage::Connecting => match ev {
                Event::Done => match &self.op {
                    Op::Put(p) => match Command::Stor(p.clone()).encode() {
                        Ok(l) => {
                            let mut data: Vec<u8> = Vec::new();
                            std::mem::swap(&mut data, &mut self.payload);
                            self.stage = Stage::Upload;
                            Action::Store(l, data)
                        },
                        Err(e) => finish(&mut self.stage, Err(e)),
                    },
                    Op::Exists(p) => request(&mut self.stage, Stage::Listing, Command::List(Some(p.clone()))),
                    Op::List(Some(d)) => request(&mut self.stage, Stage::Cwd, Command::Cwd(d.clone())),
                    Op::List(None) => match Command::List(None).encode() {
                        Ok(l) => {
                            self.stage = Stage::ListSent;
                            Action::Send(l)
                        },
                        Err(e) => finish(&mut self.stage, Err(e)),
                    },
                    _ => finish(&mut self.stage, Err(FtpError::OutOfSequence)),
                },
                _ => finish(&mut self.stage, Err(FtpError::OutOfSequence)),
            },
            Stage::Cwd => match ev {
                Event::Reply(resp) => match expect_success(resp.code) {
                    Ok(()) => {
                        self.entered = true;
                        match Command::List(None).encode() {
                        Ok(l) => {
                            self.stage = Stage::ListSent;
                            Action::Send(l)
                        },
                            Err(e) => finish(&mut self.stage, Err(e)),
                        }
                    },
                    Err(e) => finish(&mut self.stage, Err(e)),
                },
                _ => finish(&mut self.stage, Err(FtpError::OutOfSequence)),
            },
            Stage::ListSent => match ev {
                Event::Done => {
                    self.stage = Stage::Data;
                    Action::ReadAll
                },
                _ => finish(&mut self.stage, Err(FtpError::OutOfSequence)),
            },
            Stage::Listing => match ev {
                Event::Reply(resp) => if expect_success(resp.code).is_ok() {
                    self.stage = Stage::ProbeLine;
                    Action::SkipLine
                } else {
                    finish(&mut self.stage, Ok(Outcome::Exists(false)))
                },
                _ => finish(&mut self.stage, Err(FtpError::OutOfSequence)),
            },
            Stage::ProbeLine => match ev {
                Event::Done => {
                    self.stage = Stage::Data;
                    Action::ReadProbe
                },
                _ => finish(&mut self.stage, Err(FtpError::OutOfSequence)),
            },
            Stage::Data => match (ev, &self.op) {
                (Event::Count(n), Op::Exists(_)) => finish(&mut self.stage, Ok(Outcome::Exists(n > 1))),
                (Event::Text(t), Op::List(_)) => finish(&mut self.stage, Ok(Outcome::Listing(t))),
                _ => finish(&mut self.stage, Err(FtpError::OutOfSequence)),
            },
            Stage::Upload => match ev {
                Event::Done => {
                    self.stage = Stage::Completion;
                    Action::ReadReply
                },
                _ => finish(&mut self.stage, Err(FtpError::OutOfSequence)),
            },
            Stage::Completion => match ev {
                Event::Reply(resp) => if resp.code == 150 {
                    Action::ReadReply
                } else if 200 <= resp.code && resp.code <= 299 {
                    finish(&mut self.stage, Ok(Outcome::Done))
                } else {
                    finish(&mut self.stage, Err(FtpError::UnexpectedStatus(resp.code)))
                },
                _ => finish(&mut self.stage, Err(FtpError::OutOfSequence)),
            },
            Stage::Finished => Action::Finish(Err(FtpError::OutOfSequence)),
        }
    }
}

/// The directory an operation enters with `CWD`, if it enters one.
pub open spec fn entered_dir(op: Op) -> Option<String> {
    match op {
        Op::ChangeDir(p) => Some(p),
        Op::List(Some(d)) => Some(d),
        _ => None,
    }
}

/// What the server keeps for one control connection that this client has
/// changed: the `CWD` arguments it accepted, in order. Paths that are not
/// absolute are taken relative to the directory they leave the connection in.
#[derive(Debug)]
pub struct Connection {
    pub entered: Vec<String>,
}

impl Connection {
    pub fn new() -> (r: Connection)
        ensures
            r.entered@.len() == 0,
    {
        Connection { entered: Vec::new() }
    }

    /// Notes the working-directory change of a finished exchange.
    pub fn record(&mut self, ex: &Exchange)
        ensures
            final(self).entered@ == if ex.entered && entered_dir(ex.op) is Some {
                old(self).entered@.push(entered_dir(ex.op)->Some_0)
            } else {
                old(self).entered@
            },
    {
        if ex.entered {
            match &ex.op {
                Op::ChangeDir(p) => self.entered.push(p.clone()),
                Op::List(Some(d)) => self.entered.push(d.clone()),
                _ => {},
            }
        }
    }
}

} // verus!
