//! The line protocol spoken with a chess engine, without the pipes.
//!
//! An [`Engine`] decides what is said to the engine process and what its
//! answers mean; it never touches the process. Whoever owns the process
//! carries out the [`Step`]s that the session queues, in order, reads a line
//! whenever the session awaits one, and hands it to [`Engine::receive`].
//!
//! A session is `Spawned` until the engine's greeting has been read, is
//! `Initialised` once `uciok` has come, `Ready` after every `readyok`, and
//! `Busy` between `go` and `bestmove`. A failure of the pipes poisons it for
//! good.
//!
//! What is sent is sent as it is given, with a line feed after it. A line
//! from the engine is `readyok` or `uciok` where it reads so without the
//! blanks around it; every other line is kept as it came, but for the line
//! feed at its end.

use crate::decimal::{decimal_text, push_decimal};
use crate::text::{
    chars_of, is_prefix, join, line_views, push_joined, same_text, split_words, starts_with,
    string_of, strip_line_feed, texts, trim, trim_text, without_line_feed, words,
};
use vstd::prelude::*;
use vstd::string::StringExecFns;

verus! {

/// The search time of a session that has not been given another.
pub const DEFAULT_TIME: u32 = 100;

/// How long to let the engine work on a raw command before asking whether
/// it is ready.
pub const SETTLE_TIME: u32 = 100;

/// What can go wrong with an engine.
#[derive(Debug, PartialEq, Eq)]
pub enum EngineError {
    /// The engine could not be started.
    Spawn,
    /// Writing to the engine or reading from it failed; the text says what
    /// went wrong.
    Io(String),
    /// The engine does not know the option of this name.
    UnknownOption(String),
}

impl EngineError {
    /// The message of the error.
    pub open spec fn text(&self) -> Seq<char> {
        match self {
            EngineError::Spawn => "Engine could not be created !"@,
            EngineError::Io(detail) => "IO error: "@ + detail@,
            EngineError::UnknownOption(option) => ("No such option: '"@ + option@).push('\''),
        }
    }

    /// The kind of the error in a few words.
    pub open spec fn kind_text(&self) -> Seq<char> {
        match self {
            EngineError::Spawn => "Engine could not be created"@,
            EngineError::Io(detail) => detail@,
            EngineError::UnknownOption(_) => "Unknown option"@,
        }
    }

    /// The message of the error, for a reader.
    pub fn to_string(&self) -> (message: String)
        ensures
            message@ == self.text(),
    {
        match self {
            EngineError::Spawn => "Engine could not be created !".to_owned(),
            EngineError::Io(detail) => {
                let mut message = "IO error: ".to_owned();
                message.append(detail.as_str());
                message
            },
            EngineError::UnknownOption(option) => {
                let mut message = "No such option: '".to_owned();
                message.append(option.as_str());
                message.push('\'');
                message
            },
        }
    }

    /// The kind of the error in a few words.
    pub fn description(&self) -> (words: String)
        ensures
            words@ == self.kind_text(),
    {
        match self {
            EngineError::Spawn => "Engine could not be created".to_owned(),
            EngineError::Io(detail) => detail.clone(),
            EngineError::UnknownOption(_) => "Unknown option".to_owned(),
        }
    }
}

/// Something for the owner of the process to do.
#[derive(Debug, PartialEq, Eq)]
pub enum Step {
    /// Start the executable at this path, its input and output as pipes.
    Spawn(String),
    /// Write this text to the engine.
    Send(String),
    /// Wait so many milliseconds.
    Pause(u32),
    /// Close the engine's input and wait for it to exit.
    Close,
}

/// A step as plain values.
pub enum StepView {
    Spawn(Seq<char>),
    Send(Seq<char>),
    Pause(u32),
    Close,
}

impl View for Step {
    type V = StepView;

    open spec fn view(&self) -> StepView {
        match self {
            Step::Spawn(path) => StepView::Spawn(path@),
            Step::Send(text) => StepView::Send(text@),
            Step::Pause(ms) => StepView::Pause(*ms),
            Step::Close => StepView::Close,
        }
    }
}

/// The views of a list of steps.
pub open spec fn step_views(steps: Seq<Step>) -> Seq<StepView> {
    Seq::new(steps.len(), |i: int| steps[i]@)
}

/// Where a session stands.
#[derive(Clone, Copy, Debug, PartialEq, Eq, Structural)]
pub enum Phase {
    /// Nothing has been read from the engine yet.
    Spawned,
    /// The greeting has been read and `uci` sent.
    Greeted,
    /// The engine has answered `uciok`.
    Initialised,
    /// The engine has answered `readyok` and nothing is awaited.
    Ready,
    /// A search is running.
    Busy,
    /// An option or a raw command has been sent and `readyok` is awaited.
    Syncing,
    /// The pipes have failed.
    Poisoned,
    /// The session has been stopped.
    Stopped,
}

/// What the `readyok` awaited will complete.
#[derive(Clone, Copy, Debug, PartialEq, Eq, Structural)]
pub enum Purpose {
    SetOption,
    Command,
}

/// What a line from the engine meant to the session.
#[derive(Clone, Copy, Debug, PartialEq, Eq, Structural)]
pub enum Reply {
    /// More lines are awaited.
    Pending,
    /// No line was awaited; the line is dropped.
    Idle,
    /// The session has become ready for the first time.
    Started,
    /// The search is over; [`Engine::answer`] is the move.
    BestMove,
    /// The option was set.
    OptionSet,
    /// The engine objected to the option; [`Engine::answer`] is what it
    /// said.
    OptionUnknown,
    /// The raw command is done; [`Engine::answer`] is what the engine said.
    Output,
    /// The session is poisoned.
    Failed,
}

/// The line that sets the position and the moves played from it.
pub open spec fn position_line(fen: Seq<char>, moves: Seq<Seq<char>>) -> Seq<char> {
    ("position fen "@ + fen + " moves "@ + join(moves, ' ')).push('\n')
}

/// The line that plays moves from the start position.
pub open spec fn startpos_line(moves: Seq<Seq<char>>) -> Seq<char> {
    ("position startpos moves "@ + join(moves, ' ')).push('\n')
}

/// The line that starts a search of `ms` milliseconds.
pub open spec fn go_line(ms: u32) -> Seq<char> {
    ("go movetime "@ + decimal_text(ms as nat)).push('\n')
}

/// The line that sets an option.
pub open spec fn option_line(name: Seq<char>, value: Seq<char>) -> Seq<char> {
    ("setoption name "@ + name + " value "@ + value).push('\n')
}

/// The line of a raw command: the command as it is given, and a line feed.
pub open spec fn raw_line(cmd: Seq<char>) -> Seq<char> {
    cmd.push('\n')
}

/// What is wrong with a session that has been stopped.
pub open spec fn stopped_text() -> Seq<char> {
    "the session has been stopped"@
}

/// What is wrong with a `bestmove` line that names no move.
pub open spec fn no_move_text() -> Seq<char> {
    "the engine named no best move"@
}

/// The record of the position before the first move of a game.
pub open spec fn start_position() -> Seq<char> {
    "rnbqkbnr/pppppppp/8/8/8/8/PPPPPPPP/RNBQKBNR w KQkq - 0 1"@
}

/// A session as plain values.
pub struct EngineView {
    /// The path of the executable.
    pub path: Seq<char>,
    /// The search time in milliseconds.
    pub movetime: u32,
    /// The record of the position last given to the engine.
    pub position: Seq<char>,
    pub phase: Phase,
    pub purpose: Purpose,
    /// The name of the option being set.
    pub option: Seq<char>,
    /// The steps not yet handed out, in the order in which they were queued.
    pub outbox: Seq<StepView>,
    /// The lines read since `isready` was last sent.
    pub collected: Seq<Seq<char>>,
    /// What the engine answered last.
    pub answer: Seq<char>,
    /// What went wrong, once the session takes no more commands.
    pub failure: Seq<char>,
}

impl EngineView {
    /// A session that has not been started.
    pub open spec fn created(path: Seq<char>) -> EngineView {
        EngineView {
            path,
            movetime: DEFAULT_TIME,
            position: Seq::<char>::empty(),
            phase: Phase::Spawned,
            purpose: Purpose::Command,
            option: Seq::<char>::empty(),
            outbox: seq![StepView::Spawn(path)],
            collected: Seq::<Seq<char>>::empty(),
            answer: Seq::<char>::empty(),
            failure: Seq::<char>::empty(),
        }
    }

    /// The session takes no more commands.
    pub open spec fn dead(self) -> bool {
        self.phase == Phase::Poisoned || self.phase == Phase::Stopped
    }

    /// The session takes a command: it is ready, or dead and will refuse.
    pub open spec fn idle(self) -> bool {
        self.phase == Phase::Ready || self.dead()
    }

    /// The session awaits a line from the engine.
    pub open spec fn awaits_line(self) -> bool {
        self.phase == Phase::Spawned || self.phase == Phase::Greeted || self.phase
            == Phase::Initialised || self.phase == Phase::Busy || self.phase == Phase::Syncing
    }

    /// The session with one more text to send.
    pub open spec fn sending(self, text: Seq<char>) -> EngineView {
        EngineView { outbox: self.outbox.push(StepView::Send(text)), ..self }
    }

    /// After `set_position` with moves: the line is queued and the position
    /// remembered; a dead session stays as it is.
    pub open spec fn with_position(self, fen: Seq<char>, moves: Seq<Seq<char>>) -> EngineView {
        if self.dead() {
            self
        } else {
            EngineView { position: fen, ..self.sending(position_line(fen, moves)) }
        }
    }

    /// After `make_moves`.
    pub open spec fn with_moves(self, moves: Seq<Seq<char>>) -> EngineView {
        if self.dead() {
            self
        } else {
            EngineView { position: start_position(), ..self.sending(startpos_line(moves)) }
        }
    }

    /// After `bestmove`: the search is started.
    pub open spec fn searching(self) -> EngineView {
        if self.dead() {
            self
        } else {
            EngineView { phase: Phase::Busy, ..self.sending(go_line(self.movetime)) }
        }
    }

    /// After `set_option`: the option is sent, then `isready`.
    pub open spec fn setting(self, name: Seq<char>, value: Seq<char>) -> EngineView {
        if self.dead() {
            self
        } else {
            EngineView {
                phase: Phase::Syncing,
                purpose: Purpose::SetOption,
                option: name,
                collected: Seq::<Seq<char>>::empty(),
                ..self.sending(option_line(name, value)).sending("isready\n"@)
            }
        }
    }

    /// After `command`: the command is sent and, a pause later, `isready`.
    pub open spec fn asking(self, cmd: Seq<char>) -> EngineView {
        if self.dead() {
            self
        } else {
            EngineView {
                phase: Phase::Syncing,
                purpose: Purpose::Command,
                collected: Seq::<Seq<char>>::empty(),
                outbox: self.outbox.push(StepView::Send(raw_line(cmd))).push(
                    StepView::Pause(SETTLE_TIME),
                ).push(StepView::Send("isready\n"@)),
                ..self
            }
        }
    }

    /// After `stop`.
    pub open spec fn stopped(self) -> EngineView {
        if self.phase == Phase::Stopped {
            self
        } else {
            EngineView {
                phase: Phase::Stopped,
                outbox: self.outbox.push(StepView::Close),
                failure: stopped_text(),
                ..self
            }
        }
    }

    /// After a failure: poisoned, with nothing left to do, and `reason`
    /// remembered.
    pub open spec fn failed(self, reason: Seq<char>) -> EngineView {
        if self.phase == Phase::Stopped {
            self
        } else {
            EngineView {
                phase: Phase::Poisoned,
                outbox: Seq::<StepView>::empty(),
                failure: reason,
                ..self
            }
        }
    }

    /// What the engine said between `isready` and `readyok`: its lines, each
    /// without its line feed, with one line feed between neighbours.
    pub open spec fn said(self) -> Seq<char> {
        join(self.collected, '\n')
    }

    /// The session after a line from the engine. A line is `readyok` or
    /// `uciok` where it reads so without the blanks around it; any other line
    /// is kept as it came, but for its line feed.
    pub open spec fn received(self, line: Seq<char>) -> EngineView {
        let word = trim(line);
        let kept = without_line_feed(line);
        match self.phase {
            Phase::Spawned => EngineView {
                phase: Phase::Greeted,
                collected: Seq::<Seq<char>>::empty(),
                outbox: self.outbox.push(StepView::Send("uci\n"@)).push(
                    StepView::Pause(SETTLE_TIME),
                ).push(StepView::Send("isready\n"@)),
                ..self
            },
            Phase::Greeted | Phase::Initialised => if word == "readyok"@ {
                EngineView { phase: Phase::Ready, answer: self.said(), ..self }
            } else if word == "uciok"@ {
                EngineView {
                    phase: Phase::Initialised,
                    collected: self.collected.push(kept),
                    ..self
                }
            } else {
                EngineView { collected: self.collected.push(kept), ..self }
            },
            Phase::Syncing => if word == "readyok"@ {
                EngineView { phase: Phase::Ready, answer: self.said(), ..self }
            } else {
                EngineView { collected: self.collected.push(kept), ..self }
            },
            Phase::Busy => if is_prefix("bestmove"@, line) {
                if words(line).len() >= 2 {
                    EngineView { phase: Phase::Ready, answer: words(line)[1], ..self }
                } else {
                    self.failed(no_move_text())
                }
            } else {
                self
            },
            _ => self,
        }
    }

    /// What a line from the engine means.
    pub open spec fn reply_to(self, line: Seq<char>) -> Reply {
        let word = trim(line);
        match self.phase {
            Phase::Spawned => Reply::Pending,
            Phase::Greeted | Phase::Initialised => if word == "readyok"@ {
                Reply::Started
            } else {
                Reply::Pending
            },
            Phase::Syncing => if word == "readyok"@ {
                match self.purpose {
                    Purpose::Command => Reply::Output,
                    Purpose::SetOption => if self.said().len() == 0 {
                        Reply::OptionSet
                    } else {
                        Reply::OptionUnknown
                    },
                }
            } else {
                Reply::Pending
            },
            Phase::Busy => if is_prefix("bestmove"@, line) {
                if words(line).len() >= 2 {
                    Reply::BestMove
                } else {
                    Reply::Failed
                }
            } else {
                Reply::Pending
            },
            Phase::Ready => Reply::Idle,
            _ => Reply::Failed,
        }
    }
}

/// The session after each of the positions has been set in turn.
pub open spec fn after_positions(e: EngineView, fens: Seq<Seq<char>>) -> EngineView
    decreases fens.len(),
{
    if fens.len() == 0 {
        e
    } else {
        after_positions(e, fens.drop_last()).with_position(
            fens.last(),
            Seq::<Seq<char>>::empty(),
        )
    }
}

/// The lines that set each of the positions.
pub open spec fn position_steps(fens: Seq<Seq<char>>) -> Seq<StepView> {
    Seq::new(fens.len(), |i: int| StepView::Send(position_line(fens[i], Seq::<Seq<char>>::empty())))
}

/// Commands keep their order: after any number of positions have been set,
/// the outbox holds what it held before and then one line for each position,
/// in the order given, and the session remembers the last.
pub proof fn law_positions_in_order(e: EngineView, fens: Seq<Seq<char>>)
    requires
        e.phase == Phase::Ready,
    ensures
        after_positions(e, fens).outbox == e.outbox + position_steps(fens),
        after_positions(e, fens).phase == Phase::Ready,
        fens.len() > 0 ==> after_positions(e, fens).position == fens.last(),
    decreases fens.len(),
{
    if fens.len() == 0 {
        assert(e.outbox + position_steps(fens) =~= e.outbox);
    } else {
        law_positions_in_order(e, fens.drop_last());
        assert(after_positions(e, fens).outbox =~= e.outbox + position_steps(fens));
    }
}

/// Gathers the bytes that come from the engine into lines.
pub struct LineReader {
    pending: Vec<char>,
}

impl View for LineReader {
    type V = Seq<char>;

    closed spec fn view(&self) -> Seq<char> {
        self.pending@
    }
}

impl LineReader {
    /// A reader that holds nothing.
    pub fn new() -> (r: LineReader)
        ensures
            r@ == Seq::<char>::empty(),
    {
        LineReader { pending: Vec::new() }
    }

    /// Takes one byte. A line feed completes the line, which is handed out
    /// with the line feed at its end; any other byte is kept as the
    /// character of its number.
    pub fn push(&mut self, byte: u8) -> (line: Option<String>)
        ensures
            match line {
                Some(text) => byte == 10 && text@ == old(self)@.push('\n') && final(self)@
                    == Seq::<char>::empty(),
                None => byte != 10 && final(self)@ == old(self)@.push(byte as char),
            },
    {
        self.pending.push(byte as char);
        if byte == 10 {
            let text = string_of(&self.pending);
            self.pending = Vec::new();
            Some(text)
        } else {
            None
        }
    }
}

/// A session with an engine.
pub struct Engine {
    path: String,
    movetime: u32,
    position: String,
    phase: Phase,
    purpose: Purpose,
    option: String,
    outbox: Vec<Step>,
    collected: Vec<Vec<char>>,
    answer: String,
    failure: String,
}

impl View for Engine {
    type V = EngineView;

    closed spec fn view(&self) -> EngineView {
        EngineView {
            path: self.path@,
            movetime: self.movetime,
            position: self.position@,
            phase: self.phase,
            purpose: self.purpose,
            option: self.option@,
            outbox: step_views(self.outbox@),
            collected: texts(self.collected@),
            answer: self.answer@,
            failure: self.failure@,
        }
    }
}

/// Appends the moves, one space between neighbours, to `out`.
fn push_moves(out: &mut String, moves: &Vec<String>)
    ensures
        final(out)@ == old(out)@ + join(line_views(moves@), ' '),
{
    let ghost all = line_views(moves@);
    let mut i: usize = 0;
    assert(all.take(0) =~= Seq::<Seq<char>>::empty());
    assert(old(out)@ + Seq::<char>::empty() =~= old(out)@);
    while i < moves.len()
        invariant
            i <= moves.len(),
            all == line_views(moves@),
            out@ == old(out)@ + join(all.take(i as int), ' '),
        decreases moves.len() - i,
    {
        let ghost before = join(all.take(i as int), ' ');
        if i > 0 {
            out.push(' ');
        }
        out.append(moves[i].as_str());
        proof {
            let now = all.take(i + 1);
            assert(now.drop_last() =~= all.take(i as int));
            assert(now.last() == moves@[i as int]@);
            if i == 0 {
                assert(now[0] == moves@[0]@);
                assert(out@ =~= old(out)@ + join(now, ' '));
            } else {
                assert(out@ =~= old(out)@ + (before.push(' ') + moves@[i as int]@));
            }
        }
        i += 1;
    }
    assert(all.take(moves.len() as int) =~= all);
}

impl Engine {
    /// A session for the executable at `path`. The first step it queues
    /// is to start that executable.
    pub fn new(path: &str) -> (e: Engine)
        ensures
            e@ == EngineView::created(path@),
    {
        let mut outbox: Vec<Step> = Vec::new();
        outbox.push(Step::Spawn(path.to_owned()));
        let e = Engine {
            path: path.to_owned(),
            movetime: DEFAULT_TIME,
            position: String::new(),
            phase: Phase::Spawned,
            purpose: Purpose::Command,
            option: String::new(),
            outbox,
            collected: Vec::new(),
            answer: String::new(),
            failure: String::new(),
        };
        assert(e@.outbox =~= seq![StepView::Spawn(path@)]);
        assert(e@.collected =~= Seq::<Seq<char>>::empty());
        e
    }

    /// The same session with another search time, in milliseconds.
    pub fn movetime(self, new_movetime: u32) -> (e: Engine)
        ensures
            e@ == (EngineView { movetime: new_movetime, ..self@ }),
    {
        let mut e = self;
        e.movetime = new_movetime;
        e
    }

    /// Where the session stands.
    pub fn phase(&self) -> (p: Phase)
        ensures
            p == self@.phase,
    {
        self.phase
    }

    /// Whether the session takes a command now.
    pub fn is_idle(&self) -> (r: bool)
        ensures
            r == self@.idle(),
    {
        self.phase == Phase::Ready || self.phase == Phase::Poisoned || self.phase
            == Phase::Stopped
    }

    /// Whether the session awaits a line from the engine.
    pub fn awaits_line(&self) -> (r: bool)
        ensures
            r == self@.awaits_line(),
    {
        self.phase == Phase::Spawned || self.phase == Phase::Greeted || self.phase
            == Phase::Initialised || self.phase == Phase::Busy || self.phase == Phase::Syncing
    }

    /// The record of the position last given to the engine.
    pub fn position(&self) -> (fen: &str)
        ensures
            fen@ == self@.position,
    {
        self.position.as_str()
    }

    /// What the engine answered last: the best move, or what it said to a
    /// raw command or an option.
    pub fn answer(&self) -> (text: &str)
        ensures
            text@ == self@.answer,
    {
        self.answer.as_str()
    }

    /// What went wrong, once the session takes no more commands.
    pub fn failure(&self) -> (text: &str)
        ensures
            text@ == self@.failure,
    {
        self.failure.as_str()
    }

    /// Hands out the steps queued so far, in the order in which they were
    /// queued, and empties the queue.
    pub fn take_steps(&mut self) -> (steps: Vec<Step>)
        ensures
            step_views(steps@) == old(self)@.outbox,
            steps@.len() == old(self)@.outbox.len(),
            forall|i: int| 0 <= i < steps@.len() ==> (#[trigger] steps@[i])@ == old(self)@.outbox[i],
            final(self)@ == (EngineView { outbox: Seq::<StepView>::empty(), ..old(self)@ }),
    {
        let mut steps: Vec<Step> = Vec::new();
        std::mem::swap(&mut steps, &mut self.outbox);
        assert(step_views(self.outbox@) =~= Seq::<StepView>::empty());
        steps
    }

    /// Queues a text to send.
    fn send(&mut self, text: String)
        ensures
            final(self)@ == old(self)@.sending(text@),
    {
        let ghost before = step_views(self.outbox@);
        self.outbox.push(Step::Send(text));
        assert(step_views(self.outbox@) =~= before.push(StepView::Send(text@)));
    }

    /// Queues a pause.
    fn pause(&mut self, ms: u32)
        ensures
            final(self)@ == (EngineView {
                outbox: old(self)@.outbox.push(StepView::Pause(ms)),
                ..old(self)@
            }),
    {
        let ghost before = step_views(self.outbox@);
        self.outbox.push(Step::Pause(ms));
        assert(step_views(self.outbox@) =~= before.push(StepView::Pause(ms)));
    }

    /// Forgets the lines collected.
    fn forget(&mut self)
        ensures
            final(self)@ == (EngineView {
                collected: Seq::<Seq<char>>::empty(),
                ..old(self)@
            }),
    {
        self.collected = Vec::new();
        assert(texts(self.collected@) =~= Seq::<Seq<char>>::empty());
    }

    /// Has the engine play `moves` from the start position.
    pub fn make_moves(&mut self, moves: &Vec<String>) -> (r: Result<(), EngineError>)
        requires
            old(self)@.idle(),
        ensures
            final(self)@ == old(self)@.with_moves(line_views(moves@)),
            r is Err == old(self)@.dead(),
            r matches Err(e) ==> e matches EngineError::Io(detail) && detail@ == old(self)@.failure,
    {
        if self.phase != Phase::Ready {
            return Err(EngineError::Io(self.failure.clone()));
        }
        let mut line = "position startpos moves ".to_owned();
        push_moves(&mut line, moves);
        line.push('\n');
        self.send(line);
        self.position = "rnbqkbnr/pppppppp/8/8/8/8/PPPPPPPP/RNBQKBNR w KQkq - 0 1".to_owned();
        Ok(())
    }

    /// Gives the engine the position of the record `fen`.
    pub fn set_position(&mut self, fen: &str) -> (r: Result<(), EngineError>)
        requires
            old(self)@.idle(),
        ensures
            final(self)@ == old(self)@.with_position(fen@, Seq::<Seq<char>>::empty()),
            r is Err == old(self)@.dead(),
            r matches Err(e) ==> e matches EngineError::Io(detail) && detail@ == old(self)@.failure,
    {
        let moves: Vec<String> = Vec::new();
        assert(line_views(moves@) =~= Seq::<Seq<char>>::empty());
        self.make_moves_from_position(fen, &moves)
    }

    /// Gives the engine the position of the record `fen` and has it play
    /// `moves` from there.
    pub fn make_moves_from_position(&mut self, fen: &str, moves: &Vec<String>) -> (r: Result<
        (),
        EngineError,
    >)
        requires
            old(self)@.idle(),
        ensures
            final(self)@ == old(self)@.with_position(fen@, line_views(moves@)),
            r is Err == old(self)@.dead(),
            r matches Err(e) ==> e matches EngineError::Io(detail) && detail@ == old(self)@.failure,
    {
        if self.phase != Phase::Ready {
            return Err(EngineError::Io(self.failure.clone()));
        }
        let mut line = "position fen ".to_owned();
        line.append(fen);
        line.append(" moves ");
        push_moves(&mut line, moves);
        line.push('\n');
        self.send(line);
        self.position = fen.to_owned();
        Ok(())
    }

    /// Starts a search for the best move in the position given. The move
    /// comes with the [`Reply::BestMove`] of a later line.
    pub fn bestmove(&mut self) -> (r: Result<(), EngineError>)
        requires
            old(self)@.idle(),
        ensures
            final(self)@ == old(self)@.searching(),
            r is Err == old(self)@.dead(),
            r matches Err(e) ==> e matches EngineError::Io(detail) && detail@ == old(self)@.failure,
    {
        if self.phase != Phase::Ready {
            return Err(EngineError::Io(self.failure.clone()));
        }
        let mut line = "go movetime ".to_owned();
        push_decimal(&mut line, self.movetime);
        line.push('\n');
        self.send(line);
        self.phase = Phase::Busy;
        Ok(())
    }

    /// Sets an option of the engine. Whether the engine took it comes with
    /// the reply to a later line.
    pub fn set_option(&mut self, name: &str, value: &str) -> (r: Result<(), EngineError>)
        requires
            old(self)@.idle(),
        ensures
            final(self)@ == old(self)@.setting(name@, value@),
            r is Err == old(self)@.dead(),
            r matches Err(e) ==> e matches EngineError::Io(detail) && detail@ == old(self)@.failure,
    {
        if self.phase != Phase::Ready {
            return Err(EngineError::Io(self.failure.clone()));
        }
        let mut line = "setoption name ".to_owned();
        line.append(name);
        line.append(" value ");
        line.append(value);
        line.push('\n');
        self.send(line);
        self.send("isready\n".to_owned());
        self.forget();
        self.phase = Phase::Syncing;
        self.purpose = Purpose::SetOption;
        self.option = name.to_owned();
        Ok(())
    }

    /// Sends a raw command. What the engine says to it comes with the
    /// [`Reply::Output`] of a later line.
    pub fn command(&mut self, cmd: &str) -> (r: Result<(), EngineError>)
        requires
            old(self)@.idle(),
        ensures
            final(self)@ == old(self)@.asking(cmd@),
            r is Err == old(self)@.dead(),
            r matches Err(e) ==> e matches EngineError::Io(detail) && detail@ == old(self)@.failure,
    {
        if self.phase != Phase::Ready {
            return Err(EngineError::Io(self.failure.clone()));
        }
        let mut line = cmd.to_owned();
        line.push('\n');
        self.send(line);
        self.pause(SETTLE_TIME);
        self.send("isready\n".to_owned());
        self.forget();
        self.phase = Phase::Syncing;
        self.purpose = Purpose::Command;
        Ok(())
    }

    /// Ends the session: the engine's input is to be closed.
    pub fn stop(&mut self)
        ensures
            final(self)@ == old(self)@.stopped(),
    {
        if self.phase != Phase::Stopped {
            let ghost before = step_views(self.outbox@);
            self.outbox.push(Step::Close);
            assert(step_views(self.outbox@) =~= before.push(StepView::Close));
            self.phase = Phase::Stopped;
            self.failure = "the session has been stopped".to_owned();
        }
    }

    /// A step could not be carried out, or no line could be read, for the
    /// `reason` given: the session is poisoned. Gives the error to report.
    pub fn fail(&mut self, reason: &str) -> (e: EngineError)
        ensures
            final(self)@ == old(self)@.failed(reason@),
            match e {
                EngineError::Spawn => old(self)@.phase == Phase::Spawned,
                EngineError::Io(detail) => old(self)@.phase != Phase::Spawned && detail@
                    == reason@,
                EngineError::UnknownOption(_) => false,
            },
    {
        let spawning = self.phase == Phase::Spawned;
        if self.phase != Phase::Stopped {
            self.phase = Phase::Poisoned;
            self.outbox = Vec::new();
            self.failure = reason.to_owned();
            assert(step_views(self.outbox@) =~= Seq::<StepView>::empty());
        }
        if spawning {
            EngineError::Spawn
        } else {
            EngineError::Io(reason.to_owned())
        }
    }

    /// What the engine said between `isready` and `readyok`, the lines
    /// joined by line feeds.
    fn said(&self) -> (text: String)
        ensures
            text@ == self@.said(),
    {
        let mut text = String::new();
        push_joined(&mut text, &self.collected, '\n');
        assert(Seq::<char>::empty() + self@.said() =~= self@.said());
        text
    }

    /// Keeps a line that came before `readyok`.
    fn collect(&mut self, word: Vec<char>)
        ensures
            final(self)@ == (EngineView {
                collected: old(self)@.collected.push(word@),
                ..old(self)@
            }),
    {
        let ghost before = texts(self.collected@);
        self.collected.push(word);
        assert(texts(self.collected@) =~= before.push(word@));
    }

    /// Takes a line that the engine has written and says what it meant.
    pub fn receive(&mut self, line: &str) -> (reply: Reply)
        ensures
            final(self)@ == old(self)@.received(line@),
            reply == old(self)@.reply_to(line@),
    {
        let chars = chars_of(line);
        let word = trim_text(&chars);
        let kept = strip_line_feed(&chars);
        let readyok = chars_of("readyok");
        match self.phase {
            Phase::Spawned => {
                self.send("uci\n".to_owned());
                self.pause(SETTLE_TIME);
                self.send("isready\n".to_owned());
                self.forget();
                self.phase = Phase::Greeted;
                Reply::Pending
            },
            Phase::Greeted | Phase::Initialised => {
                if same_text(&word, &readyok) {
                    self.answer = self.said();
                    self.phase = Phase::Ready;
                    Reply::Started
                } else {
                    let uciok = chars_of("uciok");
                    if same_text(&word, &uciok) {
                        self.phase = Phase::Initialised;
                    }
                    self.collect(kept);
                    Reply::Pending
                }
            },
            Phase::Syncing => {
                if same_text(&word, &readyok) {
                    let said = self.said();
                    let quiet = said.as_str().is_empty();
                    self.answer = said;
                    self.phase = Phase::Ready;
                    match self.purpose {
                        Purpose::Command => Reply::Output,
                        Purpose::SetOption => if quiet {
                            Reply::OptionSet
                        } else {
                            Reply::OptionUnknown
                        },
                    }
                } else {
                    self.collect(kept);
                    Reply::Pending
                }
            },
            Phase::Busy => {
                let bestmove = chars_of("bestmove");
                if starts_with(&chars, &bestmove) {
                    let parts = split_words(&chars);
                    if parts.len() >= 2 {
                        self.answer = string_of(&parts[1]);
                        self.phase = Phase::Ready;
                        Reply::BestMove
                    } else {
                        self.phase = Phase::Poisoned;
                        self.outbox = Vec::new();
                        self.failure = "the engine named no best move".to_owned();
                        assert(step_views(self.outbox@) =~= Seq::<StepView>::empty());
                        Reply::Failed
                    }
                } else {
                    Reply::Pending
                }
            },
            Phase::Ready => Reply::Idle,
            _ => Reply::Failed,
        }
    }

    /// The outcome of setting an option, once the reply has come: the error
    /// names the option where the engine objected.
    pub fn option_result(&self, reply: Reply) -> (r: Result<(), EngineError>)
        ensures
            match r {
                Ok(_) => reply == Reply::OptionSet,
                Err(EngineError::UnknownOption(name)) => reply == Reply::OptionUnknown && name@
                    == self@.option,
                Err(EngineError::Io(detail)) => reply != Reply::OptionSet && reply
                    != Reply::OptionUnknown && detail@ == self@.failure,
                Err(EngineError::Spawn) => false,
            },
    {
        match reply {
            Reply::OptionSet => Ok(()),
            Reply::OptionUnknown => Err(EngineError::UnknownOption(self.option.clone())),
            _ => Err(EngineError::Io(self.failure.clone())),
        }
    }
}

} // verus!
