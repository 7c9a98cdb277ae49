//! The playback controller: the queue of pending tracks, the track that is
//! sounding, the pause flag and the transport clock.
//!
//! The controller decides; it does not touch the output sink. Each operation
//! returns the command that its caller must carry out on the sink, and the
//! caller reports back what the sink cannot tell by itself: whether it has
//! run empty, and whether a file could be started.

use crate::clock::{ClockModel, TransportClock};
use crate::devices::Devices;
use crate::library::rotated;
use crate::text::{clock_text, padded_clock_text, seconds_to_formatted_time};
use crate::track::{shown_seconds, AudioFile};
use std::collections::VecDeque;
use vstd::prelude::*;

verus! {

/// What the caller has to do to the output sink.
pub enum SinkCommand {
    /// Leave the sink as it is.
    Nothing,
    /// Pause the sink.
    Pause,
    /// Let a paused sink sound again.
    Resume,
    /// Stop at once and drop what is buffered.
    Stop,
    /// Let the sink sound again if `resume` is set, stop what it holds, then
    /// decode the file at `path` and hand it to the sink.
    Start { path: String, resume: bool },
}

/// The mathematical value of a sink command.
pub enum CommandModel {
    Nothing,
    Pause,
    Resume,
    Stop,
    Start { path: Seq<char>, resume: bool },
}

impl View for SinkCommand {
    type V = CommandModel;

    open spec fn view(&self) -> CommandModel {
        match *self {
            SinkCommand::Nothing => CommandModel::Nothing,
            SinkCommand::Pause => CommandModel::Pause,
            SinkCommand::Resume => CommandModel::Resume,
            SinkCommand::Stop => CommandModel::Stop,
            SinkCommand::Start { path, resume } => CommandModel::Start { path: path@, resume },
        }
    }
}

/// How an attempt to start a file ended.
#[derive(Clone, Copy, PartialEq, Eq, Structural, Debug)]
pub enum PlayOutcome {
    /// The file was decoded and handed to the sink.
    Started,
    /// The file could not be opened.
    CannotOpen,
    /// The decoder rejected what the file holds.
    CannotDecode,
}

/// A track could not be started. It is no longer the current track.
pub struct PlaybackFailed {
    /// The track that was to be started, if there was one.
    pub track: Option<AudioFile>,
    /// `CannotOpen` or `CannotDecode`.
    pub cause: PlayOutcome,
}

/// The mathematical state of a controller.
pub struct PlayerModel {
    /// The device registry that the controller was made with.
    pub devices: Devices,
    /// Tracks that have not started yet, next one first.
    pub queue: Seq<AudioFile>,
    /// The track believed to be sounding.
    pub current: Option<AudioFile>,
    /// The pause flag.
    pub paused: bool,
    /// The transport clock of the current track.
    pub clock: ClockModel,
}

impl PlayerModel {
    /// A controller with nothing queued and nothing playing.
    pub open spec fn idle(self) -> bool {
        self.current is None && self.queue.len() == 0
    }

    /// The pause flag and the clock agree, and the clock holds valid readings.
    pub open spec fn wf(self) -> bool {
        &&& self.paused == self.clock.is_paused()
        &&& self.clock.wf()
    }

    /// Advance: the head of the queue becomes the current track, on a fresh
    /// clock and unpaused. With an empty queue nothing changes.
    pub open spec fn advanced(self, now: int) -> PlayerModel {
        if self.queue.len() > 0 {
            PlayerModel {
                queue: self.queue.skip(1),
                current: Some(self.queue[0]),
                paused: false,
                clock: ClockModel::fresh(now),
                ..self
            }
        } else {
            self
        }
    }

    /// The command that goes with an advance.
    pub open spec fn advance_command(self) -> CommandModel {
        if self.queue.len() > 0 {
            CommandModel::Start { path: self.queue[0]@.path, resume: self.paused }
        } else {
            CommandModel::Nothing
        }
    }

    /// The queue with `tracks` behind it.
    pub open spec fn extended(self, tracks: Seq<AudioFile>) -> PlayerModel {
        PlayerModel { queue: self.queue + tracks, ..self }
    }

    /// Enqueue: `tracks` go to the tail in their order; a controller that
    /// plays nothing then advances at once.
    pub open spec fn enqueued(self, tracks: Seq<AudioFile>, now: int) -> PlayerModel {
        if self.current is None {
            self.extended(tracks).advanced(now)
        } else {
            self.extended(tracks)
        }
    }

    /// The command that goes with an enqueue.
    pub open spec fn enqueue_command(self, tracks: Seq<AudioFile>) -> CommandModel {
        if self.current is None {
            self.extended(tracks).advance_command()
        } else {
            CommandModel::Nothing
        }
    }

    /// Clear and stop: no queue and no current track.
    pub open spec fn cleared(self) -> PlayerModel {
        PlayerModel { queue: Seq::empty(), current: None, ..self }
    }

    /// Poll: an empty sink with no current track advances; an empty sink with
    /// a current track means that the track has finished, and only clears it.
    pub open spec fn polled(self, sink_empty: bool, now: int) -> PlayerModel {
        if !sink_empty {
            self
        } else if self.current is None {
            self.advanced(now)
        } else {
            PlayerModel { current: None, ..self }
        }
    }

    /// The command that goes with a poll.
    pub open spec fn poll_command(self, sink_empty: bool) -> CommandModel {
        if sink_empty && self.current is None {
            self.advance_command()
        } else {
            CommandModel::Nothing
        }
    }

    /// Toggle pause: the flag flips and the clock toggles with it.
    pub open spec fn pause_toggled(self, now: int) -> PlayerModel {
        PlayerModel { paused: !self.paused, clock: self.clock.toggled(now), ..self }
    }

    /// The command that goes with a pause toggle.
    pub open spec fn pause_command(self) -> CommandModel {
        if self.paused {
            CommandModel::Resume
        } else {
            CommandModel::Pause
        }
    }

    /// The state once an attempt to start the current track has ended.
    pub open spec fn settled(self, outcome: PlayOutcome) -> PlayerModel {
        if outcome == PlayOutcome::Started {
            self
        } else {
            PlayerModel { current: None, ..self }
        }
    }

    /// Whole seconds of playback at `now`: zero when nothing is playing.
    pub open spec fn elapsed_seconds(self, now: int) -> int {
        if self.current is None {
            0
        } else {
            self.clock.elapsed_at(now) / 1000
        }
    }

    /// The seconds of playback as the player reports them: no more than the
    /// largest count that it can hold.
    pub open spec fn reported_seconds(self, now: int) -> int {
        if self.elapsed_seconds(now) <= usize::MAX {
            self.elapsed_seconds(now)
        } else {
            usize::MAX as int
        }
    }

    /// The line that tells what comes next.
    pub open spec fn up_next_text(self) -> Seq<char> {
        if self.queue.len() > 0 {
            self.queue[0]@.title + " by "@ + self.queue[0]@.artist
        } else {
            "Nothing"@
        }
    }

    /// The label of the progress bar at `now`: artist, title, playback time
    /// and length of the current track, between marks that tell a paused
    /// player from a playing one.
    pub open spec fn progress_text(self, now: int) -> Seq<char> {
        match self.current {
            Some(track) => (if self.paused {
                "⋫ "@
            } else {
                "► "@
            }) + track@.artist + " - "@ + track@.title + " - "@ + padded_clock_text(
                self.reported_seconds(now) as nat,
            ) + " / "@ + clock_text(shown_seconds(track@.duration)) + (if self.paused {
                " ⋪"@
            } else {
                " ◄"@
            }),
            None => "Nothing Playing"@,
        }
    }
}

/// The playback controller.
pub struct AudioInterface {
    pub devices: Devices,
    queue: VecDeque<AudioFile>,
    currently_playing: Option<AudioFile>,
    pause: bool,
    track: TransportClock,
}

impl View for AudioInterface {
    type V = PlayerModel;

    closed spec fn view(&self) -> PlayerModel {
        PlayerModel {
            devices: self.devices,
            queue: self.queue@,
            current: self.currently_playing,
            paused: self.pause,
            clock: self.track@,
        }
    }
}

impl AudioInterface {
    /// An idle controller for the devices of `devices`, its clock started at
    /// `now`.
    pub fn new(devices: Devices, now: u64) -> (made: AudioInterface)
        ensures
            made@.wf(),
            made@.idle(),
            !made@.paused,
            made@.clock == ClockModel::fresh(now as int),
            made@.devices == devices,
    {
        AudioInterface {
            devices,
            queue: VecDeque::new(),
            currently_playing: None,
            pause: false,
            track: TransportClock::new(now),
        }
    }

    pub fn get_paused(&self) -> (paused: bool)
        ensures
            paused == self@.paused,
    {
        self.pause
    }

    pub fn get_currently_playing(&self) -> (current: &Option<AudioFile>)
        ensures
            *current == self@.current,
    {
        &self.currently_playing
    }

    /// The track that plays next, without taking it off the queue.
    pub fn get_next(&self) -> (next: Option<&AudioFile>)
        ensures
            self@.queue.len() == 0 ==> next is None,
            self@.queue.len() > 0 ==> next == Some(&self@.queue[0]),
    {
        if self.queue.len() > 0 {
            Some(&self.queue[0])
        } else {
            None
        }
    }

    /// How many tracks wait in the queue.
    pub fn queue_len(&self) -> (len: usize)
        ensures
            len == self@.queue.len(),
    {
        self.queue.len()
    }

    /// Flips the pause flag and toggles the clock with it. The command is
    /// `Pause` where the controller is paused afterwards, else `Resume`.
    pub fn toggle_pause(&mut self, now: u64) -> (command: SinkCommand)
        requires
            old(self)@.wf(),
        ensures
            final(self)@ == old(self)@.pause_toggled(now as int),
            final(self)@.wf(),
            command@ == old(self)@.pause_command(),
    {
        self.track.toggle(now);
        self.pause = !self.pause;
        if self.pause {
            SinkCommand::Pause
        } else {
            SinkCommand::Resume
        }
    }

    /// Takes the head of the queue as the current track and asks for it to
    /// be started. The caller reports how that went to `finish_play`.
    pub fn play_next(&mut self, now: u64) -> (command: SinkCommand)
        requires
            old(self)@.wf(),
        ensures
            final(self)@ == old(self)@.advanced(now as int),
            final(self)@.wf(),
            command@ == old(self)@.advance_command(),
    {
        match self.queue.pop_front() {
            Some(next) => {
                let path = next.get_path().clone();
                let resume = self.pause;
                self.currently_playing = Some(next);
                self.track.reset(now);
                self.pause = false;
                SinkCommand::Start { path, resume }
            },
            None => SinkCommand::Nothing,
        }
    }

    /// Moves every track of `new_queue` to the tail of the queue, in order,
    /// and advances at once if nothing is playing.
    pub fn append_to_queue(&mut self, new_queue: &mut Vec<AudioFile>, now: u64) -> (command:
        SinkCommand)
        requires
            old(self)@.wf(),
        ensures
            final(self)@ == old(self)@.enqueued(old(new_queue)@, now as int),
            final(self)@.wf(),
            final(new_queue)@.len() == 0,
            command@ == old(self)@.enqueue_command(old(new_queue)@),
    {
        let mut i: usize = 0;
        let ghost tracks = new_queue@;
        while i < new_queue.len()
            invariant
                i <= tracks.len(),
                new_queue@ == tracks,
                self.queue@ == old(self).queue@ + tracks.take(i as int),
                self.currently_playing == old(self).currently_playing,
                self.pause == old(self).pause,
                self.track == old(self).track,
                self.devices == old(self).devices,
            decreases tracks.len() - i,
        {
            self.queue.push_back(new_queue[i].clone());
            proof {
                assert(tracks.take(i + 1) =~= tracks.take(i as int).push(tracks[i as int]));
            }
            i += 1;
        }
        assert(tracks.take(i as int) =~= tracks);
        new_queue.clear();
        if self.currently_playing.is_none() {
            self.play_next(now)
        } else {
            SinkCommand::Nothing
        }
    }

    /// Empties the queue and forgets the current track. The command is `Stop`.
    pub fn hard_clear_queue(&mut self) -> (command: SinkCommand)
        requires
            old(self)@.wf(),
        ensures
            final(self)@ == old(self)@.cleared(),
            final(self)@.wf(),
            command@ == CommandModel::Stop,
    {
        self.queue.clear();
        self.currently_playing = None;
        SinkCommand::Stop
    }

    /// One tick. `sink_empty` is what the sink reports at this moment.
    pub fn handle_queue(&mut self, sink_empty: bool, now: u64) -> (command: SinkCommand)
        requires
            old(self)@.wf(),
        ensures
            final(self)@ == old(self)@.polled(sink_empty, now as int),
            final(self)@.wf(),
            command@ == old(self)@.poll_command(sink_empty),
    {
        if sink_empty && self.currently_playing.is_none() {
            self.play_next(now)
        } else if sink_empty {
            self.currently_playing = None;
            SinkCommand::Nothing
        } else {
            SinkCommand::Nothing
        }
    }

    /// Takes note of how the attempt to start the current track ended. After
    /// a failure the track is no longer current, and is handed back in the
    /// error. The queue is untouched either way.
    pub fn finish_play(&mut self, outcome: PlayOutcome) -> (settled: Result<(), PlaybackFailed>)
        requires
            old(self)@.wf(),
        ensures
            final(self)@ == old(self)@.settled(outcome),
            final(self)@.wf(),
            settled is Ok <==> outcome == PlayOutcome::Started,
            settled matches Err(failure) ==> failure.track == old(self)@.current && failure.cause
                == outcome,
    {
        match outcome {
            PlayOutcome::Started => Ok(()),
            _ => {
                let track = self.currently_playing.take();
                Err(PlaybackFailed { track, cause: outcome })
            },
        }
    }

    /// The line that tells what comes next: title and artist of the head of
    /// the queue, or `Nothing`.
    pub fn up_next_label(&self) -> (label: String)
        ensures
            label@ == self@.up_next_text(),
    {
        match self.get_next() {
            Some(next) => {
                let mut label = next.get_title().clone();
                label.append(" by ");
                label.append(next.get_artist().as_str());
                label
            },
            None => String::from_str("Nothing"),
        }
    }

    /// The label of the progress bar at `now`.
    pub fn progress_label(&self, now: u64) -> (label: String)
        ensures
            label@ == self@.progress_text(now as int),
    {
        let elapsed = seconds_to_formatted_time(self.get_sink_length(now));
        match &self.currently_playing {
            Some(track) => {
                let mut label = String::from_str(
                    if self.pause {
                        "⋫ "
                    } else {
                        "► "
                    },
                );
                label.append(track.get_artist().as_str());
                label.append(" - ");
                label.append(track.get_title().as_str());
                label.append(" - ");
                label.append(elapsed.as_str());
                label.append(" / ");
                label.append(track.get_duration().as_str());
                label.append(
                    if self.pause {
                        " ⋪"
                    } else {
                        " ◄"
                    },
                );
                label
            },
            None => String::from_str("Nothing Playing"),
        }
    }

    /// Whole seconds of playback at `now`; zero when nothing is playing.
    pub fn get_sink_length(&self, now: u64) -> (seconds: usize)
        ensures
            seconds as int == self@.reported_seconds(now as int),
    {
        if self.currently_playing.is_none() {
            0
        } else {
            let whole: u64 = self.track.elapsed(now) / 1000;
            if whole > usize::MAX as u64 {
                usize::MAX
            } else {
                whole as usize
            }
        }
    }
}


/// Every operation keeps the pause flag and the clock in agreement.
pub proof fn lemma_flag_and_clock_agree(
    state: PlayerModel,
    tracks: Seq<AudioFile>,
    sink_empty: bool,
    outcome: PlayOutcome,
    now: int,
)
    requires
        state.wf(),
        0 <= now <= u64::MAX,
    ensures
        state.pause_toggled(now).wf(),
        state.advanced(now).wf(),
        state.enqueued(tracks, now).wf(),
        state.cleared().wf(),
        state.polled(sink_empty, now).wf(),
        state.settled(outcome).wf(),
{
    crate::clock::lemma_toggle_keeps_reading(state.clock, now);
}

/// Enqueueing no track on an idle controller leaves it idle, and asks
/// nothing of the sink.
pub proof fn lemma_enqueue_nothing_stays_idle(state: PlayerModel, now: int)
    requires
        state.idle(),
    ensures
        state.enqueued(Seq::empty(), now) == state,
        state.enqueue_command(Seq::empty()) == CommandModel::Nothing,
{
    assert(state.queue + Seq::<AudioFile>::empty() =~= state.queue);
}

/// Enqueueing tracks on an idle controller starts the first of them at
/// once: it is the current track, the others wait in their order, and the
/// sink is asked to start the first one's file.
pub proof fn lemma_enqueue_starts_idle_player(state: PlayerModel, tracks: Seq<AudioFile>, now: int)
    requires
        state.idle(),
        tracks.len() > 0,
    ensures
        state.enqueued(tracks, now).current == Some(tracks[0]),
        state.enqueued(tracks, now).queue == tracks.skip(1),
        !state.enqueued(tracks, now).paused,
        state.enqueue_command(tracks) == (CommandModel::Start {
            path: tracks[0]@.path,
            resume: state.paused,
        }),
{
    assert(state.queue + tracks =~= tracks);
}

/// Enqueueing while a track plays only lengthens the queue.
pub proof fn lemma_enqueue_while_playing(state: PlayerModel, tracks: Seq<AudioFile>, now: int)
    requires
        state.current is Some,
    ensures
        state.enqueued(tracks, now).current == state.current,
        state.enqueued(tracks, now).queue == state.queue + tracks,
        state.enqueue_command(tracks) == CommandModel::Nothing,
{
}

/// After clear-and-stop, a poll finds nothing to play, whatever the state
/// was before and whatever the sink reports.
pub proof fn lemma_clear_then_poll_is_idle(state: PlayerModel, sink_empty: bool, now: int)
    ensures
        state.cleared().polled(sink_empty, now).idle(),
        state.cleared().poll_command(sink_empty) == CommandModel::Nothing,
{
}

/// Natural completion takes two ticks. When the sink has run empty under a
/// current track, the first poll only clears the track and leaves the queue
/// alone; the second poll starts the head of the queue.
pub proof fn lemma_completion_takes_two_ticks(state: PlayerModel, first: int, second: int)
    requires
        state.current is Some,
        state.queue.len() > 0,
    ensures
        state.polled(true, first).current is None,
        state.polled(true, first).queue == state.queue,
        state.poll_command(true) == CommandModel::Nothing,
        state.polled(true, first).polled(true, second).current == Some(state.queue[0]),
        state.polled(true, first).polled(true, second).queue == state.queue.skip(1),
        state.polled(true, first).poll_command(true) == (CommandModel::Start {
            path: state.queue[0]@.path,
            resume: state.paused,
        }),
{
}

/// A track that could not be started does not stay current, and costs the
/// queue no more than that track: the next poll on an empty sink goes on
/// with the track behind it.
pub proof fn lemma_failed_start_leaves_queue_drainable(
    state: PlayerModel,
    outcome: PlayOutcome,
    now: int,
    later: int,
)
    requires
        state.queue.len() > 0,
        outcome != PlayOutcome::Started,
    ensures
        state.advanced(now).settled(outcome).current is None,
        state.advanced(now).settled(outcome).queue == state.queue.skip(1),
        state.advanced(now).settled(outcome).polled(true, later) == state.advanced(now).settled(
            outcome,
        ).advanced(later),
        state.queue.len() > 1 ==> state.advanced(now).settled(outcome).polled(true, later).current
            == Some(state.queue[1]),
{
}

/// Clearing the queue and enqueueing the library rotated to a chosen track
/// plays that track and queues every other one behind it, those before it
/// last.
pub proof fn lemma_play_from(state: PlayerModel, library: Seq<AudioFile>, start: int, now: int)
    requires
        0 <= start < library.len(),
    ensures
        state.cleared().enqueued(rotated(library, start), now).current == Some(library[start]),
        state.cleared().enqueued(rotated(library, start), now).queue == library.skip(start + 1)
            + library.take(start),
{
    let order = rotated(library, start);
    assert(Seq::<AudioFile>::empty() + order =~= order);
    assert(order.skip(1) =~= library.skip(start + 1) + library.take(start));
}

/// While a track plays, the seconds shown never go back as long as the
/// controller is only read, and stand still while it is paused.
pub proof fn lemma_shown_seconds_follow_clock(state: PlayerModel, earlier: int, later: int)
    requires
        state.wf(),
        earlier <= later,
        state.clock.pause_start matches Some(p) ==> p <= earlier,
    ensures
        state.elapsed_seconds(earlier) <= state.elapsed_seconds(later),
        state.paused ==> state.elapsed_seconds(earlier) == state.elapsed_seconds(later),
{
    if state.paused {
        crate::clock::lemma_paused_is_frozen(state.clock, earlier);
        crate::clock::lemma_paused_is_frozen(state.clock, later);
    } else {
        crate::clock::lemma_running_never_decreases(state.clock, earlier, later);
    }
}

} // verus!
