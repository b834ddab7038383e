use vstd::prelude::*;

use crate::config::AlbumArtEffect;

verus! {

/// Whether the player is playing, paused or stopped.
#[derive(Debug, Clone, Copy, PartialEq, Eq, Structural)]
pub enum PlaybackState {
    Play,
    Pause,
    Stop,
}

/// What the pane reads from the application and from the album-art display at
/// the moment it decides.
#[derive(Debug, Clone, Copy, PartialEq, Eq, Structural)]
pub struct PaneEnv {
    /// The configured album-art effect.
    pub effect: AlbumArtEffect,
    /// Whether the player is playing, paused or stopped.
    pub playback: PlaybackState,
    /// Whether the display draws through the Kitty graphics protocol.
    pub kitty_backend: bool,
    /// Whether the display holds album art for the current song.
    pub has_current_art: bool,
    /// Whether that album art is an animation.
    pub current_art_animated: bool,
}

/// The user-interface events that the pane reacts to; `Other` stands for the rest.
#[derive(Debug, Clone, Copy, PartialEq, Eq, Structural)]
pub enum PaneEvent {
    SongChanged,
    Reconnected,
    Displayed,
    Hidden,
    ModalOpened,
    ModalClosed,
    ConfigChanged,
    PlaybackStateChanged,
    AlbumArtRotationTick,
    Exit,
    ImageEncoded,
    ImageEncodeFailed,
    Other,
}

/// What a finished query brought: album art (with or without image data) or
/// something the pane does not handle.
#[derive(Debug, Clone, Copy, PartialEq, Eq, Structural)]
pub enum QueryResult {
    AlbumArt { found: bool },
    Unrelated,
}

/// How the last requested action went.
#[derive(Debug, Clone, Copy, PartialEq, Eq, Structural)]
pub enum Outcome {
    /// The action was carried out.
    Succeeded,
    /// The action failed; the handler stops and reports that error.
    Failed,
    /// The album-art fetch found nothing to ask for.
    NotFetched,
}

/// An input of the pane: the start of one of its handlers, or the outcome of the
/// action it asked for last.
#[derive(Debug, Clone, Copy, PartialEq, Eq, Structural)]
pub enum PaneInput {
    /// A user-interface event, and whether the pane is visible.
    Event { event: PaneEvent, visible: bool },
    /// A finished query, and whether the pane is visible.
    QueryFinished { result: QueryResult, visible: bool },
    /// The pane's area changed.
    Resize,
    /// The pane is about to be shown.
    BeforeShow,
    /// The pane was hidden.
    Hide,
    /// The outcome of the last action.
    Completed(Outcome),
}

/// Work that only the application can do, asked for by the pane.
#[derive(Debug, Clone, Copy, PartialEq, Eq, Structural)]
pub enum PaneAction {
    /// Show the current album art as it is.
    ShowCurrent,
    /// Show the current album art turned by the rotation angle.
    ShowRotatedCurrent,
    /// Show the default album art as it is.
    ShowDefault,
    /// Show the default album art turned by the rotation angle.
    ShowDefaultRotated,
    /// Show the image data of the finished query.
    Show,
    /// Show the image data of the finished query turned by the rotation angle.
    ShowRotated,
    /// Take the album art off the screen.
    HideArt,
    /// Release what the display holds.
    Cleanup,
    /// Put the encoded image on the screen.
    Display,
    /// Tell the display that encoding the image failed.
    ReportEncodeFailure,
    /// Ask for the album art of the current song.
    FetchAlbumArt,
    /// Give the display the pane's new area.
    SetSize,
    /// Schedule rotation ticks.
    StartRotation,
    /// Set the rotation angle back to zero.
    ResetAngle,
    /// Turn the rotation angle by one frame.
    AdvanceAngle,
}

/// What the pane does next: ask for an action, or end the handler.
#[derive(Debug, Clone, Copy, PartialEq, Eq, Structural)]
pub enum PaneStep {
    Perform(PaneAction),
    Finished,
}

/// What remains of the running handler once the requested action has succeeded.
#[derive(Debug, Clone, Copy, PartialEq, Eq, Structural)]
pub enum Pending {
    /// No handler is running.
    Idle,
    /// The handler ends.
    Finish,
    /// Start or stop rotation as the current state calls for, then end.
    SyncThenFinish { visible: bool },
    /// Mark the modal as open, then end.
    OpenModal,
    /// Show the default frame if nothing was fetched, then start or stop rotation.
    AfterFetch,
    /// Show the current frame if there is one, then start or stop rotation.
    AfterResize,
    /// Ask for the album art, as before showing the pane.
    FetchArt,
    /// Show the current album art turned by the new angle, then end.
    ShowTurned,
    /// Mark rotation as running, then end.
    RotationStarted,
}

/// The state of the album-art pane as the decisions see it.
#[derive(Debug, Clone, Copy, PartialEq, Eq, Structural)]
pub struct PaneModel {
    /// A modal window covers the pane.
    pub modal_open: bool,
    /// A song change arrived while a modal was open.
    pub fetch_needed: bool,
    /// Rotation ticks are scheduled.
    pub rotating: bool,
    /// What remains of the running handler.
    pub pending: Pending,
}

/// The decision state of the album-art pane. The application holds the display,
/// the scheduled rotation task and the rotation angle, and performs the actions
/// that `step` asks for.
#[derive(Debug)]
pub struct AlbumArtPane {
    modal_open: bool,
    fetch_needed: bool,
    rotating: bool,
    pending: Pending,
}

impl View for AlbumArtPane {
    type V = PaneModel;

    closed spec fn view(&self) -> PaneModel {
        PaneModel {
            modal_open: self.modal_open,
            fetch_needed: self.fetch_needed,
            rotating: self.rotating,
            pending: self.pending,
        }
    }
}

/// Rotation applies to whatever is shown: the pane is visible and uncovered, the
/// effect is `Rotate`, the display speaks the Kitty protocol and the player plays.
pub open spec fn rotation_mode(m: PaneModel, visible: bool, env: PaneEnv) -> bool {
    &&& visible
    &&& !m.modal_open
    &&& env.effect == AlbumArtEffect::Rotate
    &&& env.kitty_backend
    &&& env.playback == PlaybackState::Play
}

/// The current album art turns: rotation applies, and there is current album art
/// that is not itself an animation.
pub open spec fn rotates_current(m: PaneModel, visible: bool, env: PaneEnv) -> bool {
    &&& rotation_mode(m, visible, env)
    &&& env.has_current_art
    &&& !env.current_art_animated
}

/// The model with nothing pending.
pub open spec fn idle(m: PaneModel) -> PaneModel {
    PaneModel { pending: Pending::Idle, ..m }
}

/// The model with rotation stopped.
pub open spec fn stopped(m: PaneModel) -> PaneModel {
    PaneModel { rotating: false, ..m }
}

/// The model with `p` pending.
pub open spec fn awaiting(m: PaneModel, p: Pending) -> PaneModel {
    PaneModel { pending: p, ..m }
}

/// End the handler.
pub open spec fn finish(m: PaneModel) -> (PaneModel, PaneStep) {
    (idle(m), PaneStep::Finished)
}

/// Ask for `a`, with `then` to follow.
pub open spec fn perform(m: PaneModel, a: PaneAction, then: Pending) -> (PaneModel, PaneStep) {
    (awaiting(m, then), PaneStep::Perform(a))
}

/// Show the current frame, turned when the current album art rotates.
pub open spec fn show_current_frame(m: PaneModel, visible: bool, env: PaneEnv, then: Pending) -> (
    PaneModel,
    PaneStep,
) {
    perform(
        m,
        if rotates_current(m, visible, env) {
            PaneAction::ShowRotatedCurrent
        } else {
            PaneAction::ShowCurrent
        },
        then,
    )
}

/// Show the default frame, turned when rotation applies.
pub open spec fn show_default_frame(m: PaneModel, visible: bool, env: PaneEnv, then: Pending) -> (
    PaneModel,
    PaneStep,
) {
    perform(
        m,
        if rotation_mode(m, visible, env) {
            PaneAction::ShowDefaultRotated
        } else {
            PaneAction::ShowDefault
        },
        then,
    )
}

/// Start rotation when the current album art rotates and rotation is not running
/// yet; stop it when the current album art does not rotate; then end.
pub open spec fn sync_rotation(m: PaneModel, visible: bool, env: PaneEnv) -> (PaneModel, PaneStep) {
    if rotates_current(m, visible, env) {
        if m.rotating {
            finish(m)
        } else {
            perform(m, PaneAction::StartRotation, Pending::RotationStarted)
        }
    } else {
        finish(stopped(m))
    }
}

/// What the pane does on `input`, in state `m`, reading `env`.
pub open spec fn next(m: PaneModel, input: PaneInput, env: PaneEnv) -> (PaneModel, PaneStep) {
    match input {
        PaneInput::Completed(outcome) => {
            if m.pending == Pending::Idle {
                (m, PaneStep::Finished)
            } else if outcome == Outcome::Failed {
                finish(m)
            } else {
                match m.pending {
                    Pending::SyncThenFinish { visible } => sync_rotation(m, visible, env),
                    Pending::OpenModal => finish(PaneModel { modal_open: true, ..m }),
                    Pending::AfterFetch => if outcome == Outcome::NotFetched {
                        show_default_frame(m, true, env, Pending::SyncThenFinish { visible: true })
                    } else {
                        sync_rotation(m, true, env)
                    },
                    Pending::AfterResize => if env.has_current_art {
                        show_current_frame(m, true, env, Pending::SyncThenFinish { visible: true })
                    } else {
                        sync_rotation(m, true, env)
                    },
                    Pending::FetchArt => perform(m, PaneAction::FetchAlbumArt, Pending::AfterFetch),
                    Pending::ShowTurned => perform(m, PaneAction::ShowRotatedCurrent, Pending::Finish),
                    Pending::RotationStarted => finish(PaneModel { rotating: true, ..m }),
                    _ => finish(m),
                }
            }
        },
        PaneInput::Hide => perform(stopped(m), PaneAction::HideArt, Pending::Finish),
        PaneInput::Resize => if m.modal_open {
            finish(m)
        } else {
            perform(m, PaneAction::SetSize, Pending::AfterResize)
        },
        PaneInput::BeforeShow => perform(m, PaneAction::FetchAlbumArt, Pending::AfterFetch),
        PaneInput::QueryFinished { result, visible } => if !visible || m.modal_open {
            finish(m)
        } else {
            match result {
                QueryResult::AlbumArt { found } => if found {
                    perform(
                        m,
                        if rotation_mode(m, visible, env) {
                            PaneAction::ShowRotated
                        } else {
                            PaneAction::Show
                        },
                        Pending::SyncThenFinish { visible },
                    )
                } else {
                    show_default_frame(m, visible, env, Pending::SyncThenFinish { visible })
                },
                QueryResult::Unrelated => sync_rotation(m, visible, env),
            }
        },
        PaneInput::Event { event, visible } => match event {
            PaneEvent::SongChanged if visible => if m.modal_open {
                perform(
                    PaneModel { fetch_needed: true, ..stopped(m) },
                    PaneAction::ResetAngle,
                    Pending::Finish,
                )
            } else {
                perform(stopped(m), PaneAction::ResetAngle, Pending::FetchArt)
            },
            PaneEvent::Reconnected if visible => if m.modal_open {
                finish(PaneModel { fetch_needed: true, ..stopped(m) })
            } else {
                perform(stopped(m), PaneAction::FetchAlbumArt, Pending::AfterFetch)
            },
            PaneEvent::Displayed if visible => if !m.modal_open {
                show_current_frame(m, visible, env, Pending::SyncThenFinish { visible })
            } else {
                finish(m)
            },
            PaneEvent::Hidden if visible => finish(stopped(m)),
            PaneEvent::ModalOpened if visible => if !m.modal_open {
                perform(stopped(m), PaneAction::HideArt, Pending::OpenModal)
            } else {
                finish(m)
            },
            PaneEvent::ModalClosed if visible => if m.fetch_needed {
                perform(
                    PaneModel { modal_open: false, fetch_needed: false, ..m },
                    PaneAction::FetchAlbumArt,
                    Pending::AfterFetch,
                )
            } else {
                show_current_frame(
                    PaneModel { modal_open: false, ..m },
                    visible,
                    env,
                    Pending::SyncThenFinish { visible },
                )
            },
            PaneEvent::ConfigChanged => if visible && !m.modal_open {
                show_current_frame(m, visible, env, Pending::SyncThenFinish { visible })
            } else {
                finish(stopped(m))
            },
            PaneEvent::PlaybackStateChanged if visible => if env.playback == PlaybackState::Play {
                show_current_frame(m, visible, env, Pending::SyncThenFinish { visible })
            } else {
                finish(stopped(m))
            },
            PaneEvent::AlbumArtRotationTick if visible => if rotates_current(m, visible, env) {
                perform(m, PaneAction::AdvanceAngle, Pending::ShowTurned)
            } else {
                finish(stopped(m))
            },
            PaneEvent::Exit => perform(stopped(m), PaneAction::Cleanup, Pending::Finish),
            PaneEvent::ImageEncoded => perform(m, PaneAction::Display, Pending::Finish),
            PaneEvent::ImageEncodeFailed => perform(
                m,
                PaneAction::ReportEncodeFailure,
                Pending::Finish,
            ),
            _ => finish(m),
        },
    }
}

/// The pane's state is consistent: no rotation runs under a modal window, a song
/// change is only owed while a modal is open, rotation is only marked running
/// for an uncovered pane, and a modal is only marked open with rotation stopped.
pub open spec fn wf(m: PaneModel) -> bool {
    &&& m.modal_open ==> !m.rotating
    &&& m.fetch_needed ==> m.modal_open
    &&& m.pending == Pending::RotationStarted ==> !m.modal_open
    &&& m.pending == Pending::OpenModal ==> !m.rotating
}

/// The work that remains of a handler, by what is pending.
pub open spec fn pending_work(p: Pending) -> nat {
    match p {
        Pending::Idle => 0,
        Pending::Finish => 1,
        Pending::RotationStarted => 1,
        Pending::OpenModal => 1,
        Pending::SyncThenFinish { .. } => 2,
        Pending::ShowTurned => 2,
        Pending::AfterFetch => 3,
        Pending::AfterResize => 3,
        Pending::FetchArt => 4,
    }
}

/// A new pane is consistent, and every step keeps the pane consistent: in
/// particular, rotation never runs while a modal window covers the pane.
pub proof fn lemma_step_keeps_wf(m: PaneModel, input: PaneInput, env: PaneEnv)
    requires
        wf(m),
    ensures
        wf(next(m, input, env).0),
        wf(PaneModel { modal_open: false, fetch_needed: false, rotating: false, pending: Pending::Idle }),
{
}

/// Rotation is asked to start only when the current album art rotates (the pane
/// is visible and uncovered, the effect is `Rotate`, the display speaks the Kitty
/// protocol, the player plays, and the current album art is not an animation) and
/// rotation is not running yet; and rotation only becomes running when that
/// request has been carried out.
pub proof fn lemma_rotation_starts_only_when_it_applies(m: PaneModel, input: PaneInput, env: PaneEnv)
    ensures
        next(m, input, env).1 == PaneStep::Perform(PaneAction::StartRotation) ==> {
            &&& rotates_current(m, true, env)
            &&& !m.rotating
            &&& next(m, input, env).0.pending == Pending::RotationStarted
        },
        !m.rotating && next(m, input, env).0.rotating ==> {
            &&& m.pending == Pending::RotationStarted
            &&& input is Completed
            &&& input != PaneInput::Completed(Outcome::Failed)
        },
{
}

/// Pausing or stopping playback while the pane is visible stops rotation at once
/// and ends the handler without further work.
pub proof fn lemma_pause_stops_rotation(m: PaneModel, env: PaneEnv)
    requires
        env.playback != PlaybackState::Play,
    ensures
        next(m, PaneInput::Event { event: PaneEvent::PlaybackStateChanged, visible: true }, env)
            == (idle(stopped(m)), PaneStep::Finished),
{
}

/// Hiding the pane, the `Hidden` and `Exit` events, and a modal window opening over
/// a visible pane all stop rotation.
pub proof fn lemma_rotation_stops_when_art_goes_away(m: PaneModel, visible: bool, env: PaneEnv)
    ensures
        !next(m, PaneInput::Hide, env).0.rotating,
        !next(m, PaneInput::Event { event: PaneEvent::Hidden, visible: true }, env).0.rotating,
        !next(m, PaneInput::Event { event: PaneEvent::Exit, visible }, env).0.rotating,
        wf(m) ==> !next(
            m,
            PaneInput::Event { event: PaneEvent::ModalOpened, visible: true },
            env,
        ).0.rotating,
{
}

/// The rotation angle is set back to zero exactly when the song changes while the
/// pane is visible: that is the first thing asked for then, and nothing else asks
/// for it.
pub proof fn lemma_angle_resets_only_on_song_change(m: PaneModel, input: PaneInput, env: PaneEnv)
    ensures
        next(m, PaneInput::Event { event: PaneEvent::SongChanged, visible: true }, env).1
            == PaneStep::Perform(PaneAction::ResetAngle),
        next(m, input, env).1 == PaneStep::Perform(PaneAction::ResetAngle) ==> input
            == (PaneInput::Event { event: PaneEvent::SongChanged, visible: true }),
{
}

/// The angle is turned only on a rotation tick of a visible pane whose current
/// album art rotates; the turned art is shown right after.
pub proof fn lemma_angle_turns_only_while_rotating(m: PaneModel, input: PaneInput, env: PaneEnv)
    ensures
        next(m, input, env).1 == PaneStep::Perform(PaneAction::AdvanceAngle) ==> {
            &&& input == (PaneInput::Event { event: PaneEvent::AlbumArtRotationTick, visible: true })
            &&& rotates_current(m, true, env)
            &&& next(m, input, env).0.pending == Pending::ShowTurned
        },
{
}

/// A pane that is not visible ignores every event that concerns what it shows;
/// a configuration change then only stops rotation.
pub proof fn lemma_invisible_pane_ignores_events(m: PaneModel, event: PaneEvent, env: PaneEnv)
    requires
        event != PaneEvent::ConfigChanged,
        event != PaneEvent::Exit,
        event != PaneEvent::ImageEncoded,
        event != PaneEvent::ImageEncodeFailed,
    ensures
        next(m, PaneInput::Event { event, visible: false }, env) == finish(m),
        next(m, PaneInput::Event { event: PaneEvent::ConfigChanged, visible: false }, env)
            == finish(stopped(m)),
        next(m, PaneInput::QueryFinished { result: QueryResult::AlbumArt { found: true }, visible: false }, env)
            == finish(m),
{
}

/// A failed action ends the running handler and changes nothing else.
pub proof fn lemma_failure_ends_handler(m: PaneModel, env: PaneEnv)
    requires
        m.pending != Pending::Idle,
    ensures
        next(m, PaneInput::Completed(Outcome::Failed), env) == (idle(m), PaneStep::Finished),
{
}

/// Every handler runs to its end: each carried-out action leaves strictly less
/// pending work, and a handler with nothing pending asks for nothing.
pub proof fn lemma_handlers_end(m: PaneModel, outcome: Outcome, env: PaneEnv)
    ensures
        m.pending != Pending::Idle ==> pending_work(
            next(m, PaneInput::Completed(outcome), env).0.pending,
        ) < pending_work(m.pending),
        next(m, PaneInput::Completed(outcome), env).1 == PaneStep::Finished <==> next(
            m,
            PaneInput::Completed(outcome),
            env,
        ).0.pending == Pending::Idle,
{
}

/// While a modal window is open, a song change is remembered instead of fetched,
/// and closing the modal fetches it.
pub proof fn lemma_song_change_under_modal_is_fetched_on_close(m: PaneModel, env: PaneEnv)
    requires
        m.modal_open,
    ensures
        next(m, PaneInput::Event { event: PaneEvent::Reconnected, visible: true }, env).0.fetch_needed,
        next(m, PaneInput::Event { event: PaneEvent::Reconnected, visible: true }, env).1
            == PaneStep::Finished,
        next(m, PaneInput::Event { event: PaneEvent::SongChanged, visible: true }, env).0.fetch_needed,
        next(m, PaneInput::Event { event: PaneEvent::SongChanged, visible: true }, env).0.pending
            == Pending::Finish,
        m.fetch_needed ==> next(m, PaneInput::Event { event: PaneEvent::ModalClosed, visible: true }, env)
            == perform(
            PaneModel { modal_open: false, fetch_needed: false, ..m },
            PaneAction::FetchAlbumArt,
            Pending::AfterFetch,
        ),
{
}

/// The time between two rotation frames at `fps` frames per second, in milliseconds.
pub fn rotation_interval_ms(fps: u8) -> (r: u64)
    requires
        fps > 0,
    ensures
        r == 1000int / (fps as int),
{
    1000 / (fps as u64)
}

impl AlbumArtPane {
    /// A pane with no modal open, no fetch owed, rotation not running and no handler running.
    pub fn new() -> (r: Self)
        ensures
            r@ == (PaneModel {
                modal_open: false,
                fetch_needed: false,
                rotating: false,
                pending: Pending::Idle,
            }),
    {
        AlbumArtPane { modal_open: false, fetch_needed: false, rotating: false, pending: Pending::Idle }
    }

    /// Whether a modal window covers the pane.
    pub fn is_modal_open(&self) -> (r: bool)
        ensures
            r == self@.modal_open,
    {
        self.modal_open
    }

    /// Whether a song change is waiting for the modal to close.
    pub fn is_fetch_needed(&self) -> (r: bool)
        ensures
            r == self@.fetch_needed,
    {
        self.fetch_needed
    }

    /// Whether rotation ticks are scheduled.
    pub fn is_rotating(&self) -> (r: bool)
        ensures
            r == self@.rotating,
    {
        self.rotating
    }

    /// What remains of the running handler.
    pub fn pending(&self) -> (r: Pending)
        ensures
            r == self@.pending,
    {
        self.pending
    }

    /// Whether rotation applies to whatever is shown.
    pub fn rotation_mode_enabled(&self, visible: bool, env: &PaneEnv) -> (r: bool)
        ensures
            r == rotation_mode(self@, visible, *env),
    {
        visible && !self.modal_open && env.effect == AlbumArtEffect::Rotate && env.kitty_backend
            && env.playback == PlaybackState::Play
    }

    /// Whether the current album art turns.
    pub fn should_rotate_current(&self, visible: bool, env: &PaneEnv) -> (r: bool)
        ensures
            r == rotates_current(self@, visible, *env),
    {
        self.rotation_mode_enabled(visible, env) && env.has_current_art
            && !env.current_art_animated
    }

    fn finish(&mut self) -> (r: PaneStep)
        ensures
            (final(self)@, r) == finish(old(self)@),
    {
        self.pending = Pending::Idle;
        PaneStep::Finished
    }

    fn perform(&mut self, action: PaneAction, then: Pending) -> (r: PaneStep)
        ensures
            (final(self)@, r) == perform(old(self)@, action, then),
    {
        self.pending = then;
        PaneStep::Perform(action)
    }

    fn stop_rotation(&mut self)
        ensures
            final(self)@ == stopped(old(self)@),
    {
        self.rotating = false;
    }

    fn show_current_frame(&mut self, visible: bool, env: &PaneEnv, then: Pending) -> (r: PaneStep)
        ensures
            (final(self)@, r) == show_current_frame(old(self)@, visible, *env, then),
    {
        if self.should_rotate_current(visible, env) {
            self.perform(PaneAction::ShowRotatedCurrent, then)
        } else {
            self.perform(PaneAction::ShowCurrent, then)
        }
    }

    fn show_default_frame(&mut self, visible: bool, env: &PaneEnv, then: Pending) -> (r: PaneStep)
        ensures
            (final(self)@, r) == show_default_frame(old(self)@, visible, *env, then),
    {
        if self.rotation_mode_enabled(visible, env) {
            self.perform(PaneAction::ShowDefaultRotated, then)
        } else {
            self.perform(PaneAction::ShowDefault, then)
        }
    }

    fn start_rotation(&mut self, env: &PaneEnv) -> (r: PaneStep)
        ensures
            (final(self)@, r) == (if old(self)@.rotating || !rotates_current(old(self)@, true, *env) {
                finish(old(self)@)
            } else {
                perform(old(self)@, PaneAction::StartRotation, Pending::RotationStarted)
            }),
    {
        if self.rotating || !self.should_rotate_current(true, env) {
            return self.finish();
        }
        self.perform(PaneAction::StartRotation, Pending::RotationStarted)
    }

    fn sync_rotation(&mut self, visible: bool, env: &PaneEnv) -> (r: PaneStep)
        ensures
            (final(self)@, r) == sync_rotation(old(self)@, visible, *env),
    {
        if self.should_rotate_current(visible, env) {
            self.start_rotation(env)
        } else {
            self.stop_rotation();
            self.finish()
        }
    }

    /// Continues the running handler after its last action: on failure the handler
    /// ends; otherwise what was pending is done.
    pub fn resume(&mut self, outcome: Outcome, env: &PaneEnv) -> (r: PaneStep)
        ensures
            (final(self)@, r) == next(old(self)@, PaneInput::Completed(outcome), *env),
    {
        if self.pending == Pending::Idle {
            return PaneStep::Finished;
        }
        if outcome == Outcome::Failed {
            return self.finish();
        }
        match self.pending {
            Pending::SyncThenFinish { visible } => self.sync_rotation(visible, env),
            Pending::OpenModal => {
                self.modal_open = true;
                self.finish()
            },
            Pending::AfterFetch => {
                if outcome == Outcome::NotFetched {
                    self.show_default_frame(true, env, Pending::SyncThenFinish { visible: true })
                } else {
                    self.sync_rotation(true, env)
                }
            },
            Pending::AfterResize => {
                if env.has_current_art {
                    self.show_current_frame(true, env, Pending::SyncThenFinish { visible: true })
                } else {
                    self.sync_rotation(true, env)
                }
            },
            Pending::FetchArt => self.before_show(),
            Pending::ShowTurned => self.perform(PaneAction::ShowRotatedCurrent, Pending::Finish),
            Pending::RotationStarted => {
                self.rotating = true;
                self.finish()
            },
            _ => self.finish(),
        }
    }

    /// The pane was hidden: rotation stops and the album art is taken off the screen.
    pub fn on_hide(&mut self) -> (r: PaneStep)
        ensures
            (final(self)@, r) == perform(stopped(old(self)@), PaneAction::HideArt, Pending::Finish),
    {
        self.stop_rotation();
        self.perform(PaneAction::HideArt, Pending::Finish)
    }

    /// The pane's area changed: unless a modal covers it, the display gets the new
    /// area, the current frame is drawn again and rotation follows the state.
    pub fn resize(&mut self) -> (r: PaneStep)
        ensures
            (final(self)@, r) == (if old(self)@.modal_open {
                finish(old(self)@)
            } else {
                perform(old(self)@, PaneAction::SetSize, Pending::AfterResize)
            }),
    {
        if self.modal_open {
            return self.finish();
        }
        self.perform(PaneAction::SetSize, Pending::AfterResize)
    }

    /// The pane is about to be shown: the album art of the current song is asked for.
    pub fn before_show(&mut self) -> (r: PaneStep)
        ensures
            (final(self)@, r) == perform(old(self)@, PaneAction::FetchAlbumArt, Pending::AfterFetch),
    {
        self.perform(PaneAction::FetchAlbumArt, Pending::AfterFetch)
    }

    /// A query finished: album art is shown (turned when rotation applies), or the
    /// default frame when the query found none; then rotation follows the state.
    pub fn on_query_finished(&mut self, result: QueryResult, visible: bool, env: &PaneEnv) -> (r:
        PaneStep)
        ensures
            (final(self)@, r) == next(
                old(self)@,
                PaneInput::QueryFinished { result, visible },
                *env,
            ),
    {
        if !visible || self.modal_open {
            return self.finish();
        }
        match result {
            QueryResult::AlbumArt { found } => {
                if found {
                    if self.rotation_mode_enabled(visible, env) {
                        self.perform(PaneAction::ShowRotated, Pending::SyncThenFinish { visible })
                    } else {
                        self.perform(PaneAction::Show, Pending::SyncThenFinish { visible })
                    }
                } else {
                    self.show_default_frame(visible, env, Pending::SyncThenFinish { visible })
                }
            },
            QueryResult::Unrelated => self.sync_rotation(visible, env),
        }
    }

    /// A user-interface event arrived.
    pub fn on_event(&mut self, event: PaneEvent, visible: bool, env: &PaneEnv) -> (r: PaneStep)
        ensures
            (final(self)@, r) == next(old(self)@, PaneInput::Event { event, visible }, *env),
    {
        match event {
            PaneEvent::SongChanged if visible => {
                self.stop_rotation();
                if self.modal_open {
                    self.fetch_needed = true;
                    return self.perform(PaneAction::ResetAngle, Pending::Finish);
                }
                self.perform(PaneAction::ResetAngle, Pending::FetchArt)
            },
            PaneEvent::Reconnected if visible => {
                self.stop_rotation();
                if self.modal_open {
                    self.fetch_needed = true;
                    return self.finish();
                }
                self.before_show()
            },
            PaneEvent::Displayed if visible => {
                if !self.modal_open {
                    self.show_current_frame(visible, env, Pending::SyncThenFinish { visible })
                } else {
                    self.finish()
                }
            },
            PaneEvent::Hidden if visible => {
                self.stop_rotation();
                self.finish()
            },
            PaneEvent::ModalOpened if visible => {
                if !self.modal_open {
                    self.stop_rotation();
                    return self.perform(PaneAction::HideArt, Pending::OpenModal);
                }
                self.finish()
            },
            PaneEvent::ModalClosed if visible => {
                self.modal_open = false;
                if self.fetch_needed {
                    self.fetch_needed = false;
                    return self.before_show();
                }
                self.show_current_frame(visible, env, Pending::SyncThenFinish { visible })
            },
            PaneEvent::ConfigChanged => {
                if visible && !self.modal_open {
                    self.show_current_frame(visible, env, Pending::SyncThenFinish { visible })
                } else {
                    self.stop_rotation();
                    self.finish()
                }
            },
            PaneEvent::PlaybackStateChanged if visible => {
                match env.playback {
                    PlaybackState::Play => self.show_current_frame(
                        visible,
                        env,
                        Pending::SyncThenFinish { visible },
                    ),
                    PlaybackState::Pause | PlaybackState::Stop => {
                        self.stop_rotation();
                        self.finish()
                    },
                }
            },
            PaneEvent::AlbumArtRotationTick if visible => {
                if self.should_rotate_current(visible, env) {
                    self.perform(PaneAction::AdvanceAngle, Pending::ShowTurned)
                } else {
                    self.stop_rotation();
                    self.finish()
                }
            },
            PaneEvent::Exit => {
                self.stop_rotation();
                self.perform(PaneAction::Cleanup, Pending::Finish)
            },
            PaneEvent::ImageEncoded => self.perform(PaneAction::Display, Pending::Finish),
            PaneEvent::ImageEncodeFailed => self.perform(
                PaneAction::ReportEncodeFailure,
                Pending::Finish,
            ),
            _ => self.finish(),
        }
    }

    /// One step of the pane: what it does on `input`, reading `env`.
    pub fn step(&mut self, input: PaneInput, env: &PaneEnv) -> (r: PaneStep)
        ensures
            (final(self)@, r) == next(old(self)@, input, *env),
    {
        match input {
            PaneInput::Event { event, visible } => self.on_event(event, visible, env),
            PaneInput::QueryFinished { result, visible } => self.on_query_finished(
                result,
                visible,
                env,
            ),
            PaneInput::Resize => self.resize(),
            PaneInput::BeforeShow => self.before_show(),
            PaneInput::Hide => self.on_hide(),
            PaneInput::Completed(outcome) => self.resume(outcome, env),
        }
    }
}

} // verus!
