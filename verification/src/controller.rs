use vstd::prelude::*;
use crate::error::{spec_payload, spec_pipeboom_message, spec_recoverable, spec_same_kind, PipeBoomError};
use crate::models::{PlayerState, Song, SongDetails};
use crate::presence::{build_presence, presence_matches, PresencePayload};

verus! {

/// The control signals the Controller consumes, one at a time, in arrival
/// order. `GetStatus` is answered through `on_get_status`.
#[derive(Debug, Clone, Copy, PartialEq, Eq, Structural)]
pub enum Control {
    Start,
    Stop,
    Shutdown,
    GetStatus,
}

/// One lifecycle event as the Controller processes it. A `Start` signal
/// received while already running makes no new attempt and appears here as a
/// `StartAttempt` whose outcome cannot matter.
pub enum LifecycleEvent {
    StartAttempt { ok: bool },
    Stop,
    Shutdown,
    FatalStop,
}

/// How one lifecycle event moves the running flag: a start attempt leaves a
/// running controller running and starts a stopped one exactly when it
/// succeeded; every stop event stops it.
pub open spec fn lifecycle_step(running: bool, e: LifecycleEvent) -> bool {
    match e {
        LifecycleEvent::StartAttempt { ok } => running || ok,
        LifecycleEvent::Stop => false,
        LifecycleEvent::Shutdown => false,
        LifecycleEvent::FatalStop => false,
    }
}

/// The running flag after a sequence of lifecycle events, starting stopped.
pub open spec fn running_after(es: Seq<LifecycleEvent>) -> bool
    decreases es.len(),
{
    if es.len() == 0 {
        false
    } else {
        lifecycle_step(running_after(es.drop_last()), es.last())
    }
}

/// Appending one event folds it onto the running flag.
pub proof fn lemma_running_after_push(es: Seq<LifecycleEvent>, e: LifecycleEvent)
    ensures
        running_after(es.push(e)) == lifecycle_step(running_after(es), e),
{
    assert(es.push(e).drop_last() =~= es);
    assert(es.push(e).last() == e);
}

/// A successful start attempt stands at position `i` of the history.
pub open spec fn successful_start_at(es: Seq<LifecycleEvent>, i: int) -> bool {
    0 <= i < es.len() && es[i] == (LifecycleEvent::StartAttempt { ok: true })
}

/// No `Stop`, `Shutdown` or internal fatal stop follows position `i`.
pub open spec fn no_stop_after(es: Seq<LifecycleEvent>, i: int) -> bool {
    forall|j: int|
        i < j < es.len() ==> !((#[trigger] es[j]) is Stop || es[j] is Shutdown
            || es[j] is FatalStop)
}

/// For every sequence of lifecycle events, the controller runs exactly when
/// some successful start attempt is not yet followed by any `Stop`,
/// `Shutdown` or internal fatal stop.
pub proof fn lemma_lifecycle_running(es: Seq<LifecycleEvent>)
    ensures
        running_after(es) <==> exists|i: int|
            #[trigger] successful_start_at(es, i) && no_stop_after(es, i),
    decreases es.len(),
{
    if es.len() == 0 {
    } else {
        let prev = es.drop_last();
        let e = es.last();
        let n = es.len() as int;
        lemma_lifecycle_running(prev);
        match e {
            LifecycleEvent::Stop | LifecycleEvent::Shutdown | LifecycleEvent::FatalStop => {
                assert(!running_after(es));
                assert forall|i: int| #![trigger successful_start_at(es, i)] !(
                successful_start_at(es, i) && no_stop_after(es, i)) by {
                    if successful_start_at(es, i) && no_stop_after(es, i) {
                        if i == n - 1 {
                            assert(es[i] == e);
                        } else {
                            assert(!(es[n - 1] is Stop || es[n - 1] is Shutdown || es[n
                                - 1] is FatalStop));
                        }
                    }
                }
            },
            LifecycleEvent::StartAttempt { ok } => {
                if ok {
                    assert(successful_start_at(es, n - 1) && no_stop_after(es, n - 1));
                    assert(running_after(es));
                } else {
                    // The new event neither starts nor stops anything, so both
                    // sides agree with the shorter history.
                    assert forall|i: int| #![trigger successful_start_at(es, i)] (
                    successful_start_at(es, i) && no_stop_after(es, i)) implies (
                    successful_start_at(prev, i) && no_stop_after(prev, i)) by {
                        assert(es[i] != e);
                        assert(i < n - 1);
                        assert(prev[i] == es[i]);
                        assert forall|j: int| i < j < prev.len() implies !((#[trigger] prev[j]) is Stop
                            || prev[j] is Shutdown || prev[j] is FatalStop) by {
                            assert(prev[j] == es[j]);
                            assert(!(es[j] is Stop || es[j] is Shutdown || es[j] is FatalStop));
                        }
                    }
                    assert forall|i: int| #![trigger successful_start_at(prev, i)] (
                    successful_start_at(prev, i) && no_stop_after(prev, i)) implies (
                    successful_start_at(es, i) && no_stop_after(es, i)) by {
                        assert(es[i] == prev[i]);
                        assert forall|j: int| i < j < es.len() implies !((#[trigger] es[j]) is Stop
                            || es[j] is Shutdown || es[j] is FatalStop) by {
                            if j < n - 1 {
                                assert(es[j] == prev[j]);
                                assert(!(prev[j] is Stop || prev[j] is Shutdown
                                    || prev[j] is FatalStop));
                            } else {
                                assert(es[j] == e);
                            }
                        }
                    }
                    assert(running_after(es) == running_after(prev));
                    if exists|i: int| #[trigger] successful_start_at(es, i) && no_stop_after(es, i) {
                        let i = choose|i: int|
                            #[trigger] successful_start_at(es, i) && no_stop_after(es, i);
                        assert(successful_start_at(prev, i) && no_stop_after(prev, i));
                    }
                    if exists|i: int| #[trigger] successful_start_at(prev, i) && no_stop_after(
                        prev,
                        i,
                    ) {
                        let i = choose|i: int|
                            #[trigger] successful_start_at(prev, i) && no_stop_after(prev, i);
                        assert(successful_start_at(es, i) && no_stop_after(es, i));
                    }
                }
            },
        }
    }
}

/// A start attempt on a running controller changes nothing, and stopping an
/// already stopped controller is a no-op: the lifecycle fold is idempotent
/// on both.
pub proof fn lemma_lifecycle_idempotent(ok: bool)
    ensures
        lifecycle_step(true, LifecycleEvent::StartAttempt { ok }) == true,
        lifecycle_step(false, LifecycleEvent::Stop) == false,
        lifecycle_step(lifecycle_step(false, LifecycleEvent::Stop), LifecycleEvent::Stop)
            == lifecycle_step(false, LifecycleEvent::Stop),
{
}

/// What one steady-cycle tick calls for, given what the adapters reported.
#[derive(Debug, Clone, PartialEq)]
pub enum CycleAction {
    /// The presence target application is gone: stop this run.
    StopDiscordClosed,
    /// The media player is gone: stop this run.
    StopMusicClosed,
    /// A fatal error: stop this run.
    StopFatal(PipeBoomError),
    /// A recoverable error: log it and skip this cycle, staying running.
    SkipRecoverable(PipeBoomError),
    /// Push this presence payload.
    Push(PresencePayload),
    /// Clear the presence.
    Clear,
}

/// The message reported when the presence target's liveness check fails.
pub open spec fn spec_discord_check_fail(e: &PipeBoomError) -> Seq<char> {
    "Failed to check Discord status: "@ + spec_pipeboom_message(e)
}

/// The message reported when the media player's liveness check fails.
pub open spec fn spec_music_check_fail(app: Seq<char>, e: &PipeBoomError) -> Seq<char> {
    "Failed to check "@ + app + " status: "@ + spec_pipeboom_message(e)
}

/// The message reported when the player-state query fails.
pub open spec fn spec_player_state_fail(e: &PipeBoomError) -> Seq<char> {
    "Failed to get player state: "@ + spec_pipeboom_message(e)
}

/// The message reported when the current-song query fails.
pub open spec fn spec_song_fail(e: &PipeBoomError) -> Seq<char> {
    "Failed to get current song: "@ + spec_pipeboom_message(e)
}

/// The polling state machine that owns the presence bridge's lifecycle: a
/// running flag and (the presence of) the connection handle. The handle
/// itself lives with the caller that performs the connection work; this
/// state decides, the caller acts. The ghost history records every
/// lifecycle event processed, and well-formedness ties the running flag to
/// that whole history.
pub struct Controller {
    pub app_name: String,
    pub poll_interval_secs: u64,
    pub is_running: bool,
    pub has_client: bool,
    pub history: Ghost<Seq<LifecycleEvent>>,
}

impl Controller {
    /// The connection handle stands exactly while the controller runs, and
    /// the running flag is the fold of the lifecycle history: true exactly
    /// when the most recent effective lifecycle event was a successful
    /// start not yet followed by a stop.
    pub open spec fn wf(&self) -> bool {
        &&& self.is_running == self.has_client
        &&& self.is_running == running_after(self.history@)
    }

    /// A controller starts its life stopped, with no connection and an
    /// empty history.
    pub fn new(app_name: String, poll_interval_secs: u64) -> (r: Controller)
        ensures
            r.wf(),
            !r.is_running,
            !r.has_client,
            r.history@ == Seq::<LifecycleEvent>::empty(),
            r.app_name@ == app_name@,
            r.poll_interval_secs == poll_interval_secs,
    {
        Controller {
            app_name,
            poll_interval_secs,
            is_running: false,
            has_client: false,
            history: Ghost(Seq::empty()),
        }
    }

    /// Whether a `Start` signal calls for any work: only when stopped. A
    /// `Start` received while running is a no-op and triggers no new
    /// connection attempt.
    pub fn start_needs_attempt(&self) -> (r: bool)
        ensures
            r == !self.is_running,
    {
        !self.is_running
    }

    /// Records the outcome of a start attempt: the controller runs, and
    /// holds the connection, exactly when the attempt succeeded.
    pub fn complete_start(&mut self, connect_ok: bool)
        requires
            !old(self).is_running,
            old(self).wf(),
        ensures
            final(self).wf(),
            final(self).history@ == old(self).history@.push(
                LifecycleEvent::StartAttempt { ok: connect_ok },
            ),
            final(self).is_running == lifecycle_step(
                old(self).is_running,
                LifecycleEvent::StartAttempt { ok: connect_ok },
            ),
            final(self).is_running == connect_ok,
            final(self).has_client == connect_ok,
            final(self).app_name == old(self).app_name,
            final(self).poll_interval_secs == old(self).poll_interval_secs,
    {
        self.is_running = connect_ok;
        self.has_client = connect_ok;
        proof {
            let e = LifecycleEvent::StartAttempt { ok: connect_ok };
            lemma_running_after_push(old(self).history@, e);
        }
        self.history = Ghost(self.history@.push(LifecycleEvent::StartAttempt { ok: connect_ok }));
    }

    /// Processes a `Stop`: a no-op when already stopped; otherwise the
    /// controller stops and the caller must tear the connection down (clear
    /// the presence best-effort, then close).
    pub fn on_stop(&mut self) -> (teardown: bool)
        requires
            old(self).wf(),
        ensures
            final(self).wf(),
            !final(self).is_running,
            !final(self).has_client,
            final(self).history@ == old(self).history@.push(LifecycleEvent::Stop),
            final(self).is_running == lifecycle_step(old(self).is_running, LifecycleEvent::Stop),
            teardown == old(self).is_running,
            final(self).app_name == old(self).app_name,
            final(self).poll_interval_secs == old(self).poll_interval_secs,
    {
        proof {
            lemma_running_after_push(old(self).history@, LifecycleEvent::Stop);
        }
        self.history = Ghost(self.history@.push(LifecycleEvent::Stop));
        if self.is_running {
            self.is_running = false;
            self.has_client = false;
            true
        } else {
            false
        }
    }

    /// Processes a `Shutdown`: the same teardown as `Stop`; the caller then
    /// ends the controller's loop.
    pub fn on_shutdown(&mut self) -> (teardown: bool)
        requires
            old(self).wf(),
        ensures
            final(self).wf(),
            !final(self).is_running,
            !final(self).has_client,
            final(self).history@ == old(self).history@.push(LifecycleEvent::Shutdown),
            final(self).is_running == lifecycle_step(
                old(self).is_running,
                LifecycleEvent::Shutdown,
            ),
            teardown == old(self).is_running,
            final(self).app_name == old(self).app_name,
            final(self).poll_interval_secs == old(self).poll_interval_secs,
    {
        proof {
            lemma_running_after_push(old(self).history@, LifecycleEvent::Shutdown);
        }
        self.history = Ghost(self.history@.push(LifecycleEvent::Shutdown));
        let teardown = self.is_running;
        self.is_running = false;
        self.has_client = false;
        teardown
    }

    /// Answers a `GetStatus` signal: a pure read that never fails.
    pub fn on_get_status(&self) -> (r: bool)
        ensures
            r == self.is_running,
    {
        self.is_running
    }

    /// Classifies an error from a steady-cycle tick: a recoverable one is
    /// only logged and the controller stays as it was; any other stops this
    /// run, and the caller must tear the connection down when one stood.
    pub fn on_cycle_error(&mut self, e: &PipeBoomError) -> (teardown: bool)
        requires
            old(self).wf(),
        ensures
            final(self).wf(),
            spec_recoverable(e) ==> *final(self) == *old(self) && !teardown,
            !spec_recoverable(e) ==> !final(self).is_running && !final(self).has_client
                && teardown == old(self).is_running && final(self).history@ == old(
                self,
            ).history@.push(LifecycleEvent::FatalStop) && final(self).is_running
                == lifecycle_step(old(self).is_running, LifecycleEvent::FatalStop),
            final(self).app_name == old(self).app_name,
            final(self).poll_interval_secs == old(self).poll_interval_secs,
    {
        if e.is_recoverable() {
            false
        } else {
            proof {
                lemma_running_after_push(old(self).history@, LifecycleEvent::FatalStop);
            }
            self.history = Ghost(self.history@.push(LifecycleEvent::FatalStop));
            let teardown = self.is_running;
            self.is_running = false;
            self.has_client = false;
            teardown
        }
    }

    /// One round of waiting for the applications before a start: both
    /// liveness checks must succeed, and the wait ends when both report
    /// open. A failed check aborts the start attempt.
    pub fn wait_apps_check(
        &self,
        discord_open: &Result<bool, PipeBoomError>,
        music_open: &Result<bool, PipeBoomError>,
    ) -> (r: Result<bool, PipeBoomError>)
        ensures
            discord_open matches Err(e) ==> (r matches Err(PipeBoomError::Internal(m)) && m@
                == "Failed to check if Discord is open: "@ + spec_pipeboom_message(e)),
            discord_open matches Ok(d) ==> (music_open matches Err(e) ==> (r matches Err(
                PipeBoomError::Internal(m),
            ) && m@ == "Failed to check if "@ + self.app_name@ + " is open: "@
                + spec_pipeboom_message(e))),
            discord_open matches Ok(d) ==> (music_open matches Ok(m2) ==> r == Ok::<
                bool,
                PipeBoomError,
            >(*d && *m2)),
    {
        match discord_open {
            Err(e) => {
                let mut m = String::from_str("Failed to check if Discord is open: ");
                m.append(e.message().as_str());
                Err(PipeBoomError::Internal(m))
            },
            Ok(d) => {
                match music_open {
                    Err(e) => {
                        let mut m = String::from_str("Failed to check if ");
                        m.append(self.app_name.as_str());
                        m.append(" is open: ");
                        m.append(e.message().as_str());
                        Err(PipeBoomError::Internal(m))
                    },
                    Ok(m2) => Ok(*d && *m2),
                }
            },
        }
    }

    /// Steps 1 and 2 of the steady cycle: what the two liveness checks call
    /// for. Nothing (continue the cycle) exactly when both applications
    /// report open. A failed check of a recoverable kind (player, presence,
    /// network) only skips this cycle; any other failure is fatal. A closed
    /// presence target stops without clearing first, a closed player stops
    /// after clearing.
    pub fn cycle_check_apps(
        &self,
        discord_open: &Result<bool, PipeBoomError>,
        music_open: &Result<bool, PipeBoomError>,
    ) -> (r: Option<CycleAction>)
        ensures
            (r is None) <==> (discord_open matches Ok(true) && music_open matches Ok(true)),
            discord_open matches Err(e) ==> (spec_recoverable(e) ==> (r matches Some(
                CycleAction::SkipRecoverable(f),
            ) && spec_same_kind(&f, e) && spec_payload(&f) == spec_discord_check_fail(e))),
            discord_open matches Err(e) ==> (!spec_recoverable(e) ==> (r matches Some(
                CycleAction::StopFatal(PipeBoomError::Internal(m)),
            ) && m@ == spec_discord_check_fail(e))),
            discord_open matches Ok(b) && *b == false ==> r matches Some(CycleAction::StopDiscordClosed),
            discord_open matches Ok(b) ==> (*b ==> (music_open matches Err(e) ==> (
            spec_recoverable(e) ==> (r matches Some(CycleAction::SkipRecoverable(f))
                && spec_same_kind(&f, e) && spec_payload(&f) == spec_music_check_fail(
                self.app_name@,
                e,
            ))))),
            discord_open matches Ok(b) ==> (*b ==> (music_open matches Err(e) ==> (
            !spec_recoverable(e) ==> (r matches Some(
                CycleAction::StopFatal(PipeBoomError::Internal(m)),
            ) && m@ == spec_music_check_fail(self.app_name@, e))))),
            discord_open matches Ok(b) ==> (*b ==> (music_open matches Ok(mb) ==> (*mb == false
                ==> r matches Some(CycleAction::StopMusicClosed)))),
    {
        match discord_open {
            Err(e) => {
                let mut m = String::from_str("Failed to check Discord status: ");
                m.append(e.message().as_str());
                if e.is_recoverable() {
                    Some(CycleAction::SkipRecoverable(e.with_message(m)))
                } else {
                    Some(CycleAction::StopFatal(PipeBoomError::Internal(m)))
                }
            },
            Ok(b) => {
                if !*b {
                    Some(CycleAction::StopDiscordClosed)
                } else {
                    match music_open {
                        Err(e) => {
                            let mut m = String::from_str("Failed to check ");
                            m.append(self.app_name.as_str());
                            m.append(" status: ");
                            m.append(e.message().as_str());
                            if e.is_recoverable() {
                                Some(CycleAction::SkipRecoverable(e.with_message(m)))
                            } else {
                                Some(CycleAction::StopFatal(PipeBoomError::Internal(m)))
                            }
                        },
                        Ok(mb) => {
                            if !*mb {
                                Some(CycleAction::StopMusicClosed)
                            } else {
                                None
                            }
                        },
                    }
                }
            },
        }
    }

    /// Step 3's first half: what the player-state query calls for. Nothing
    /// (fetch the current song) exactly when the player reports `Playing`.
    /// A failed query of a recoverable kind only skips this cycle; any
    /// other failure is fatal. Any state besides `Playing` clears the
    /// presence.
    pub fn cycle_playback_action(&self, state: &Result<PlayerState, PipeBoomError>) -> (r: Option<
        CycleAction,
    >)
        ensures
            (r is None) <==> state matches Ok(PlayerState::Playing),
            state matches Err(e) ==> (spec_recoverable(e) ==> (r matches Some(
                CycleAction::SkipRecoverable(f),
            ) && spec_same_kind(&f, e) && spec_payload(&f) == spec_player_state_fail(e))),
            state matches Err(e) ==> (!spec_recoverable(e) ==> (r matches Some(
                CycleAction::StopFatal(PipeBoomError::Internal(m)),
            ) && m@ == spec_player_state_fail(e))),
            state matches Ok(st) && st != PlayerState::Playing ==> r matches Some(
                CycleAction::Clear,
            ),
    {
        match state {
            Err(e) => {
                let mut m = String::from_str("Failed to get player state: ");
                m.append(e.message().as_str());
                if e.is_recoverable() {
                    Some(CycleAction::SkipRecoverable(e.with_message(m)))
                } else {
                    Some(CycleAction::StopFatal(PipeBoomError::Internal(m)))
                }
            },
            Ok(st) => {
                match st {
                    PlayerState::Playing => None,
                    _ => Some(CycleAction::Clear),
                }
            },
        }
    }

    /// Step 3's second half: what the current-song query calls for. Nothing
    /// (resolve the song's details) exactly when a song came back. A failed
    /// query of a recoverable kind only skips this cycle; any other failure
    /// is fatal. A playing player without song metadata clears the
    /// presence.
    pub fn cycle_song_action(&self, song: &Result<Option<Song>, PipeBoomError>) -> (r: Option<
        CycleAction,
    >)
        ensures
            (r is None) <==> (song matches Ok(s) && s is Some),
            song matches Err(e) ==> (spec_recoverable(e) ==> (r matches Some(
                CycleAction::SkipRecoverable(f),
            ) && spec_same_kind(&f, e) && spec_payload(&f) == spec_song_fail(e))),
            song matches Err(e) ==> (!spec_recoverable(e) ==> (r matches Some(
                CycleAction::StopFatal(PipeBoomError::Internal(m)),
            ) && m@ == spec_song_fail(e))),
            song matches Ok(s) && s is None ==> r matches Some(CycleAction::Clear),
    {
        match song {
            Err(e) => {
                let mut m = String::from_str("Failed to get current song: ");
                m.append(e.message().as_str());
                if e.is_recoverable() {
                    Some(CycleAction::SkipRecoverable(e.with_message(m)))
                } else {
                    Some(CycleAction::StopFatal(PipeBoomError::Internal(m)))
                }
            },
            Ok(s) => {
                match s {
                    Some(_) => None,
                    None => Some(CycleAction::Clear),
                }
            },
        }
    }

    /// Step 3's last part: what the details lookup calls for. A resolved
    /// lookup pushes the presence built from the song, its details and the
    /// wall clock; a failed one is skipped when recoverable and fatal
    /// otherwise.
    pub fn cycle_details_action(
        &self,
        song: &Song,
        details: &Result<SongDetails, PipeBoomError>,
        now: u64,
    ) -> (r: CycleAction)
        ensures
            details matches Ok(d) ==> (r matches CycleAction::Push(p) && presence_matches(
                &p,
                song,
                d,
                now,
            )),
            details matches Err(e) ==> (spec_recoverable(e) ==> (r matches CycleAction::SkipRecoverable(
                f,
            ) && f == *e)),
            details matches Err(e) ==> (!spec_recoverable(e) ==> (r matches CycleAction::StopFatal(
                f,
            ) && f == *e)),
    {
        match details {
            Ok(d) => CycleAction::Push(build_presence(song, d, now)),
            Err(e) => {
                if e.is_recoverable() {
                    CycleAction::SkipRecoverable(e.clone())
                } else {
                    CycleAction::StopFatal(e.clone())
                }
            },
        }
    }
}

} // verus!
