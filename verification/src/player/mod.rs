//! The playback controller: at most one decode-feed task at a time, and the
//! order in which the previous one is cancelled, the sink is cleared and the
//! next one is started.
//!
//! The controller decides and does nothing else. Each operation returns what
//! has to be done to the sink and to the tasks; whoever owns them carries the
//! commands out in the order given.

use vstd::prelude::*;
use crate::text::{decimal, decimal_of, joined};

pub mod pipeline;

verus! {

/// How a stream is asked for: some servers turn away clients that do not
/// name a browser.
pub const USER_AGENT: &'static str =
    "Mozilla/5.0 (Macintosh; Intel Mac OS X 10_15_7) AppleWebKit/537.36";

/// How the request for a stream ended.
#[derive(Debug, PartialEq, Eq)]
pub enum Fetch {
    /// No answer: the connection could not be made or broke.
    Refused { reason: String },
    /// The server answered with this HTTP status.
    Answered { status: u16 },
}

pub ghost enum FetchView {
    Refused { reason: Seq<char> },
    Answered { status: u16 },
}

impl View for Fetch {
    type V = FetchView;

    open spec fn view(&self) -> FetchView {
        match self {
            Fetch::Refused { reason } => FetchView::Refused { reason: reason@ },
            Fetch::Answered { status } => FetchView::Answered { status: *status },
        }
    }
}

impl FetchView {
    /// A stream is there exactly where the server answered with a status from 200 to 299.
    pub open spec fn delivers(self) -> bool {
        self matches FetchView::Answered { status } && 200 <= status <= 299
    }

    /// Why no stream is there: the reason given, or the status as `HTTP` and its number.
    pub open spec fn failure(self) -> Seq<char> {
        match self {
            FetchView::Refused { reason } => reason,
            FetchView::Answered { status } => "HTTP "@ + decimal(status as nat),
        }
    }
}

impl Fetch {
    /// Whether the request delivered a stream.
    pub fn delivers(&self) -> (delivers: bool)
        ensures
            delivers == self@.delivers(),
    {
        match self {
            Fetch::Refused { .. } => false,
            Fetch::Answered { status } => 200 <= *status && *status <= 299,
        }
    }

    /// Why the request delivered no stream, for a status line.
    pub fn failure(&self) -> (text: String)
        ensures
            text@ == self@.failure(),
    {
        match self {
            Fetch::Refused { reason } => reason.clone(),
            Fetch::Answered { status } => {
                let number = decimal_of(*status as usize);
                joined("HTTP ", number.as_str())
            },
        }
    }
}

/// One thing to do to the sink or to the tasks.
#[derive(Debug, PartialEq, Eq)]
pub enum PlayerCommand {
    /// Ask the decode-feed task `task` to stop; it appends nothing once it has seen this.
    Cancel { task: u64 },
    /// Halt playback and drop what is queued.
    StopSink,
    /// Drop what is queued; the sink is paused afterwards.
    ClearSink,
    /// Silence the output; what is queued stays.
    PauseSink,
    /// Let the output sound again; what is queued stays.
    PlaySink,
    /// Request the stream at `url`, then report how that ended.
    Open { url: String },
    /// Run the decode-feed pipeline on the stream just opened, as task `task`.
    Feed { task: u64 },
}

pub ghost enum PlayerCommandView {
    Cancel { task: u64 },
    StopSink,
    ClearSink,
    PauseSink,
    PlaySink,
    Open { url: Seq<char> },
    Feed { task: u64 },
}

impl View for PlayerCommand {
    type V = PlayerCommandView;

    open spec fn view(&self) -> PlayerCommandView {
        match self {
            PlayerCommand::Cancel { task } => PlayerCommandView::Cancel { task: *task },
            PlayerCommand::StopSink => PlayerCommandView::StopSink,
            PlayerCommand::ClearSink => PlayerCommandView::ClearSink,
            PlayerCommand::PauseSink => PlayerCommandView::PauseSink,
            PlayerCommand::PlaySink => PlayerCommandView::PlaySink,
            PlayerCommand::Open { url } => PlayerCommandView::Open { url: url@ },
            PlayerCommand::Feed { task } => PlayerCommandView::Feed { task: *task },
        }
    }
}

impl Clone for PlayerCommand {
    fn clone(&self) -> (copy: Self)
        ensures
            copy@ == self@,
    {
        match self {
            PlayerCommand::Cancel { task } => PlayerCommand::Cancel { task: *task },
            PlayerCommand::StopSink => PlayerCommand::StopSink,
            PlayerCommand::ClearSink => PlayerCommand::ClearSink,
            PlayerCommand::PauseSink => PlayerCommand::PauseSink,
            PlayerCommand::PlaySink => PlayerCommand::PlaySink,
            PlayerCommand::Open { url } => PlayerCommand::Open { url: url.clone() },
            PlayerCommand::Feed { task } => PlayerCommand::Feed { task: *task },
        }
    }
}

/// The views of a list of commands, in order.
pub open spec fn command_views(commands: Seq<PlayerCommand>) -> Seq<PlayerCommandView> {
    commands.map_values(|c: PlayerCommand| c@)
}

/// The controller: idle, or active with the one task that feeds the sink.
#[derive(Debug)]
pub struct AudioPlayer {
    current: Option<u64>,
    next: u64,
}

pub ghost struct PlayerView {
    /// The running decode-feed task, where the controller is active.
    pub current: Option<u64>,
    /// The number that the next task gets.
    pub next: u64,
}

/// The task number after `task`; it starts over behind the largest.
pub open spec fn following(task: u64) -> u64 {
    if task == u64::MAX {
        0
    } else {
        (task + 1) as u64
    }
}

impl PlayerView {
    pub open spec fn is_active(self) -> bool {
        self.current is Some
    }

    /// The number of the running task is the one before the next.
    pub open spec fn valid(self) -> bool {
        self.current matches Some(task) ==> self.next == following(task)
    }

    /// What ends the current stream: the cancellation of its task, where one
    /// runs, and only then the halt and the clearing of the sink.
    pub open spec fn halt_commands(self) -> Seq<PlayerCommandView> {
        let sink = seq![PlayerCommandView::StopSink, PlayerCommandView::ClearSink];
        match self.current {
            Some(task) => seq![PlayerCommandView::Cancel { task }] + sink,
            None => sink,
        }
    }

    /// The controller once the current stream has ended.
    pub open spec fn halted(self) -> PlayerView {
        PlayerView { current: None, next: self.next }
    }

    /// What a play request asks for: the end of the current stream, then the
    /// request for the new one.
    pub open spec fn play_commands(self, url: Seq<char>) -> Seq<PlayerCommandView> {
        self.halt_commands().push(PlayerCommandView::Open { url })
    }

    /// What follows the answer to a stream request: nothing where no stream
    /// was delivered; else the start of a new task, behind the end of a
    /// stream that still runs.
    pub open spec fn opened_commands(self, fetch: FetchView) -> Seq<PlayerCommandView> {
        if !fetch.delivers() {
            Seq::empty()
        } else {
            let feed = PlayerCommandView::Feed { task: self.next };
            if self.is_active() {
                self.halt_commands().push(feed)
            } else {
                seq![feed]
            }
        }
    }

    /// The controller after the answer to a stream request: as before where
    /// no stream was delivered, else active with the new task.
    pub open spec fn opened(self, fetch: FetchView) -> PlayerView {
        if !fetch.delivers() {
            self
        } else {
            PlayerView { current: Some(self.next), next: following(self.next) }
        }
    }
}

impl View for AudioPlayer {
    type V = PlayerView;

    closed spec fn view(&self) -> PlayerView {
        PlayerView { current: self.current, next: self.next }
    }
}

impl Clone for AudioPlayer {
    fn clone(&self) -> (copy: Self)
        ensures
            copy@ == self@,
    {
        proof {
            use_type_invariant(self);
        }
        AudioPlayer { current: self.current, next: self.next }
    }
}

impl AudioPlayer {
    #[verifier::type_invariant]
    pub open spec fn well_formed(self) -> bool {
        self@.valid()
    }

    /// An idle controller.
    pub fn new() -> (player: Self)
        ensures
            player@ == PlayerView::start(),
    {
        AudioPlayer { current: None, next: 0 }
    }

    /// Whether a decode-feed task runs.
    pub fn is_active(&self) -> (active: bool)
        ensures
            active == self@.is_active(),
    {
        self.current.is_some()
    }

    /// The running decode-feed task, where there is one.
    pub fn current_task(&self) -> (task: Option<u64>)
        ensures
            task == self@.current,
    {
        self.current
    }

    fn halt(&mut self) -> (commands: Vec<PlayerCommand>)
        ensures
            command_views(commands@) == old(self)@.halt_commands(),
            final(self)@ == old(self)@.halted(),
    {
        let mut commands: Vec<PlayerCommand> = Vec::new();
        if let Some(task) = self.current {
            commands.push(PlayerCommand::Cancel { task });
        }
        commands.push(PlayerCommand::StopSink);
        commands.push(PlayerCommand::ClearSink);
        self.current = None;
        assert(command_views(commands@) =~= old(self)@.halt_commands());
        commands
    }

    /// Ends the current stream and asks for the one at `url`. The controller
    /// is idle until the answer to that request is reported.
    pub fn play_url(&mut self, url: String) -> (commands: Vec<PlayerCommand>)
        ensures
            command_views(commands@) == old(self)@.play_commands(url@),
            final(self)@ == old(self)@.halted(),
    {
        let mut commands = self.halt();
        let ghost halt = commands@;
        commands.push(PlayerCommand::Open { url });
        assert(command_views(commands@) =~= command_views(halt).push(
            PlayerCommandView::Open { url: url@ },
        ));
        commands
    }

    /// Takes the answer to a stream request. Where a stream was delivered, a
    /// new task is to feed it to the sink and the controller is active with
    /// that task; where none was, nothing changes.
    pub fn stream_opened(&mut self, fetch: &Fetch) -> (commands: Vec<PlayerCommand>)
        ensures
            command_views(commands@) == old(self)@.opened_commands(fetch@),
            final(self)@ == old(self)@.opened(fetch@),
    {
        if fetch.delivers() {
            let mut commands = if self.current.is_some() {
                self.halt()
            } else {
                Vec::new()
            };
            let ghost halt = commands@;
            let task = self.next;
            commands.push(PlayerCommand::Feed { task });
            let next = if task == u64::MAX {
                0
            } else {
                task + 1
            };
            *self = AudioPlayer { current: Some(task), next };
            assert(command_views(commands@) =~= command_views(halt).push(
                PlayerCommandView::Feed { task },
            ));
            assert(command_views(commands@) =~= old(self)@.opened_commands(fetch@));
            commands
        } else {
            let commands: Vec<PlayerCommand> = Vec::new();
            assert(command_views(commands@) =~= old(self)@.opened_commands(fetch@));
            commands
        }
    }

    /// Silences the output. The task, where one runs, goes on feeding.
    pub fn pause(&self) -> (commands: Vec<PlayerCommand>)
        ensures
            command_views(commands@) == seq![PlayerCommandView::PauseSink],
    {
        let mut commands: Vec<PlayerCommand> = Vec::new();
        commands.push(PlayerCommand::PauseSink);
        assert(command_views(commands@) =~= seq![PlayerCommandView::PauseSink]);
        commands
    }

    /// Lets the output sound again.
    pub fn resume(&self) -> (commands: Vec<PlayerCommand>)
        ensures
            command_views(commands@) == seq![PlayerCommandView::PlaySink],
    {
        let mut commands: Vec<PlayerCommand> = Vec::new();
        commands.push(PlayerCommand::PlaySink);
        assert(command_views(commands@) =~= seq![PlayerCommandView::PlaySink]);
        commands
    }

    /// Ends the current stream: the controller is idle afterwards.
    pub fn stop(&mut self) -> (commands: Vec<PlayerCommand>)
        ensures
            command_views(commands@) == old(self)@.halt_commands(),
            final(self)@ == old(self)@.halted(),
    {
        self.halt()
    }

    /// Whether the output is paused, given what the sink said of itself; a
    /// sink that could not be asked counts as not paused.
    pub fn is_paused(&self, sink: Option<bool>) -> (paused: bool)
        ensures
            paused == (sink == Some(true)),
    {
        match sink {
            Some(paused) => paused,
            None => false,
        }
    }
}

/// What the commands act on: the decode-feed tasks that run, and the sink.
pub ghost struct Stage {
    /// The tasks that were started and have not been cancelled.
    pub running: Set<u64>,
    /// For each segment in the sink's queue, in order, the task that appended it.
    pub queued: Seq<u64>,
    pub paused: bool,
}

impl Stage {
    /// The stage after `command` was carried out.
    pub open spec fn perform(self, command: PlayerCommandView) -> Stage {
        match command {
            PlayerCommandView::Cancel { task } => Stage {
                running: self.running.remove(task),
                ..self
            },
            PlayerCommandView::StopSink => Stage { queued: Seq::empty(), ..self },
            PlayerCommandView::ClearSink => Stage { queued: Seq::empty(), paused: true, ..self },
            PlayerCommandView::PauseSink => Stage { paused: true, ..self },
            PlayerCommandView::PlaySink => Stage { paused: false, ..self },
            PlayerCommandView::Open { url } => self,
            PlayerCommandView::Feed { task } => Stage {
                running: self.running.insert(task),
                ..self
            },
        }
    }

    /// The stage after `commands` were carried out in their order.
    pub open spec fn perform_all(self, commands: Seq<PlayerCommandView>) -> Stage
        decreases commands.len(),
    {
        if commands.len() == 0 {
            self
        } else {
            self.perform_all(commands.drop_last()).perform(commands.last())
        }
    }

    /// The stage after `task` offered a decoded segment to the sink: the sink
    /// takes it from a running task, and a cancelled task appends nothing.
    pub open spec fn append(self, task: u64) -> Stage {
        if self.running.contains(task) {
            Stage { queued: self.queued.push(task), ..self }
        } else {
            self
        }
    }

    /// Whether the stage is as the controller takes it to be: the running
    /// tasks are the controller's current task and no other, and whatever
    /// is queued came from that task.
    pub open spec fn in_step(self, player: PlayerView) -> bool {
        &&& self.running == match player.current {
            Some(task) => set![task],
            None => Set::<u64>::empty(),
        }
        &&& forall|i: int| 0 <= i < self.queued.len() ==> player.current == Some(self.queued[i])
    }
}

proof fn lemma_perform_push(stage: Stage, commands: Seq<PlayerCommandView>, last: PlayerCommandView)
    ensures
        stage.perform_all(commands.push(last)) == stage.perform_all(commands).perform(last),
{
    assert(commands.push(last).drop_last() =~= commands);
}

proof fn lemma_perform_halt(stage: Stage, player: PlayerView)
    requires
        stage.in_step(player),
    ensures
        stage.perform_all(player.halt_commands()) == (Stage {
            running: Set::<u64>::empty(),
            queued: Seq::<u64>::empty(),
            paused: true,
        }),
{
    let none = Seq::<PlayerCommandView>::empty();
    assert(stage.perform_all(none) == stage);
    match player.current {
        Some(task) => {
            let cancel = PlayerCommandView::Cancel { task };
            lemma_perform_push(stage, none, cancel);
            lemma_perform_push(stage, none.push(cancel), PlayerCommandView::StopSink);
            lemma_perform_push(
                stage,
                none.push(cancel).push(PlayerCommandView::StopSink),
                PlayerCommandView::ClearSink,
            );
            assert(player.halt_commands() =~= none.push(cancel).push(
                PlayerCommandView::StopSink,
            ).push(PlayerCommandView::ClearSink));
            assert(set![task].remove(task) =~= Set::<u64>::empty());
        },
        None => {
            lemma_perform_push(stage, none, PlayerCommandView::StopSink);
            lemma_perform_push(
                stage,
                none.push(PlayerCommandView::StopSink),
                PlayerCommandView::ClearSink,
            );
            assert(player.halt_commands() =~= none.push(PlayerCommandView::StopSink).push(
                PlayerCommandView::ClearSink,
            ));
        },
    }
}

/// A stop leaves no task running and nothing queued, and the stage in
/// step with the idle controller.
pub proof fn law_stop_leaves_none(stage: Stage, player: PlayerView)
    requires
        stage.in_step(player),
    ensures
        ({
            let after = stage.perform_all(player.halt_commands());
            &&& after.running == Set::<u64>::empty()
            &&& after.queued.len() == 0
            &&& after.in_step(player.halted())
        }),
{
    lemma_perform_halt(stage, player);
}

/// A play request first ends what runs: when the new stream is asked for, no
/// task runs and nothing is queued, whatever ran before.
pub proof fn law_play_ends_previous(stage: Stage, player: PlayerView, url: Seq<char>)
    requires
        stage.in_step(player),
    ensures
        ({
            let after = stage.perform_all(player.play_commands(url));
            &&& after.running == Set::<u64>::empty()
            &&& after.queued.len() == 0
            &&& after.in_step(player.halted())
        }),
{
    lemma_perform_halt(stage, player);
    lemma_perform_push(stage, player.halt_commands(), PlayerCommandView::Open { url });
}

/// The answer to a stream request leaves at most one task running: the new
/// one where a stream was delivered, else what ran before.
pub proof fn law_opened_keeps_one(stage: Stage, player: PlayerView, fetch: FetchView)
    requires
        stage.in_step(player),
        player.valid(),
    ensures
        ({
            let after = stage.perform_all(player.opened_commands(fetch));
            &&& after.in_step(player.opened(fetch))
            &&& player.opened(fetch).valid()
            &&& after.running.finite()
            &&& after.running.len() <= 1
            &&& fetch.delivers() ==> after.running == set![player.next]
            &&& fetch.delivers() ==> after.running.len() == 1
            &&& !player.is_active() ==> after.queued == stage.queued
        }),
{
    let none = Seq::<PlayerCommandView>::empty();
    assert(stage.perform_all(none) == stage);
    assert(Set::<u64>::empty().len() == 0);
    assert forall|task: u64| (#[trigger] set![task]).finite() && set![task].len() == 1 by {
        assert(set![task] =~= Set::<u64>::empty().insert(task));
    }
    if fetch.delivers() {
        let feed = PlayerCommandView::Feed { task: player.next };
        assert(Set::<u64>::empty().insert(player.next) =~= set![player.next]);
        if player.is_active() {
            lemma_perform_halt(stage, player);
            lemma_perform_push(stage, player.halt_commands(), feed);
        } else {
            lemma_perform_push(stage, none, feed);
            assert(player.opened_commands(fetch) =~= none.push(feed));
        }
    }
}

/// Pausing and resuming touch neither the tasks nor the queue.
pub proof fn law_pause_resume_keep_tasks(stage: Stage, player: PlayerView)
    requires
        stage.in_step(player),
    ensures
        stage.perform(PlayerCommandView::PauseSink).in_step(player),
        stage.perform(PlayerCommandView::PlaySink).in_step(player),
        stage.perform(PlayerCommandView::PauseSink).queued == stage.queued,
        stage.perform(PlayerCommandView::PlaySink).queued == stage.queued,
{
}

/// A segment from the current task keeps the stage in step; one from any
/// other task leaves the stage as it was.
pub proof fn law_append_only_from_current(stage: Stage, player: PlayerView, task: u64)
    requires
        stage.in_step(player),
    ensures
        stage.append(task).in_step(player),
        player.current != Some(task) ==> stage.append(task) == stage,
{
}

/// Switching stations: with task `a` feeding the sink, a play request whose
/// stream is delivered leaves exactly one task running, the new one; it is
/// not `a`, nothing that `a` appended is queued any more, and whatever `a`
/// still offers is not taken.
pub proof fn law_switch_leaves_one(
    stage: Stage,
    player: PlayerView,
    a: u64,
    url: Seq<char>,
    fetch: FetchView,
)
    requires
        stage.in_step(player),
        player.valid(),
        player.current == Some(a),
        fetch.delivers(),
    ensures
        ({
            let asked = stage.perform_all(player.play_commands(url));
            let idle = player.halted();
            let after = asked.perform_all(idle.opened_commands(fetch));
            let b = player.next;
            &&& idle.opened(fetch).current == Some(b)
            &&& b != a
            &&& after.running == set![b]
            &&& after.running.len() == 1
            &&& after.queued.len() == 0
            &&& after.append(a) == after
            &&& after.in_step(idle.opened(fetch))
        }),
{
    law_play_ends_previous(stage, player, url);
    let asked = stage.perform_all(player.play_commands(url));
    law_opened_keeps_one(asked, player.halted(), fetch);
}

/// One thing that happens to the controller and its stage.
pub ghost enum Step {
    /// A play request for the stream at `url`.
    Play { url: Seq<char> },
    /// The answer to a stream request.
    Opened { fetch: FetchView },
    Stop,
    Pause,
    Resume,
    /// The decode-feed task `task`, running or cancelled, offers a segment to the sink.
    Append { task: u64 },
}

impl PlayerView {
    /// An idle controller that has started no task yet.
    pub open spec fn start() -> PlayerView {
        PlayerView { current: None, next: 0 }
    }

    /// The controller after `step`.
    pub open spec fn after(self, step: Step) -> PlayerView {
        match step {
            Step::Play { url } => self.halted(),
            Step::Opened { fetch } => self.opened(fetch),
            Step::Stop => self.halted(),
            _ => self,
        }
    }

    /// The commands that the controller gives for `step`.
    pub open spec fn commands_for(self, step: Step) -> Seq<PlayerCommandView> {
        match step {
            Step::Play { url } => self.play_commands(url),
            Step::Opened { fetch } => self.opened_commands(fetch),
            Step::Stop => self.halt_commands(),
            Step::Pause => seq![PlayerCommandView::PauseSink],
            Step::Resume => seq![PlayerCommandView::PlaySink],
            Step::Append { task } => Seq::empty(),
        }
    }
}

impl Stage {
    /// A stage on which nothing runs and nothing is queued.
    pub open spec fn start() -> Stage {
        Stage { running: Set::empty(), queued: Seq::empty(), paused: false }
    }

    /// The stage after `step`, for which the controller `player` gave its commands.
    pub open spec fn after(self, player: PlayerView, step: Step) -> Stage {
        match step {
            Step::Append { task } => self.append(task),
            _ => self.perform_all(player.commands_for(step)),
        }
    }
}

/// The controller and the stage after `steps`, begun with an idle controller
/// and an empty stage.
pub open spec fn reached(steps: Seq<Step>) -> (PlayerView, Stage)
    decreases steps.len(),
{
    if steps.len() == 0 {
        (PlayerView::start(), Stage::start())
    } else {
        let (player, stage) = reached(steps.drop_last());
        (player.after(steps.last()), stage.after(player, steps.last()))
    }
}

/// Whatever is asked of the controller, in whatever order, and whatever the
/// tasks offer in between: at most one decode-feed task runs, it is the one
/// that the controller holds, and whatever is queued came from it.
pub proof fn law_at_most_one_task(steps: Seq<Step>)
    ensures
        ({
            let (player, stage) = reached(steps);
            &&& player.valid()
            &&& stage.in_step(player)
            &&& stage.running.finite()
            &&& stage.running.len() <= 1
            &&& stage.running.len() == 1 <==> player.is_active()
        }),
    decreases steps.len(),
{
    assert(Set::<u64>::empty().len() == 0);
    assert forall|task: u64| (#[trigger] set![task]).finite() && set![task].len() == 1 by {
        assert(set![task] =~= Set::<u64>::empty().insert(task));
    }
    if steps.len() > 0 {
        law_at_most_one_task(steps.drop_last());
        let (player, stage) = reached(steps.drop_last());
        match steps.last() {
            Step::Play { url } => law_play_ends_previous(stage, player, url),
            Step::Opened { fetch } => law_opened_keeps_one(stage, player, fetch),
            Step::Stop => law_stop_leaves_none(stage, player),
            Step::Pause => {
                let none = Seq::<PlayerCommandView>::empty();
                assert(stage.perform_all(none) == stage);
                lemma_perform_push(stage, none, PlayerCommandView::PauseSink);
                assert(seq![PlayerCommandView::PauseSink] =~= none.push(
                    PlayerCommandView::PauseSink,
                ));
            },
            Step::Resume => {
                let none = Seq::<PlayerCommandView>::empty();
                assert(stage.perform_all(none) == stage);
                lemma_perform_push(stage, none, PlayerCommandView::PlaySink);
                assert(seq![PlayerCommandView::PlaySink] =~= none.push(
                    PlayerCommandView::PlaySink,
                ));
            },
            Step::Append { task } => {},
        }
    }
}

} // verus!
