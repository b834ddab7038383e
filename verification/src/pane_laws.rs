use vstd::prelude::*;

use crate::config::AlbumArtEffect;
use crate::pane::{
    next, Outcome, PaneAction, PaneEnv, PaneEvent, PaneInput, PaneModel, PaneStep, Pending,
    PlaybackState, QueryResult,
};

verus! {

/// Closing a modal with no song change owed redraws the current album art (turned
/// exactly when the Rotate effect, the Kitty backend, playback and current,
/// non-animated art all hold) and then starts rotation again when it applies, or
/// stops it when it does not; nothing else is fetched.
pub proof fn lemma_modal_close_redraws_and_resumes(m: PaneModel, env: PaneEnv)
    requires
        !m.fetch_needed,
    ensures
        ({
            let turns = env.effect == AlbumArtEffect::Rotate && env.kitty_backend && env.playback
                == PlaybackState::Play && env.has_current_art && !env.current_art_animated;
            let s1 = next(m, PaneInput::Event { event: PaneEvent::ModalClosed, visible: true }, env);
            let s2 = next(s1.0, PaneInput::Completed(Outcome::Succeeded), env);
            let s3 = next(s2.0, PaneInput::Completed(Outcome::Succeeded), env);
            &&& s1.0 == (PaneModel {
                modal_open: false,
                fetch_needed: false,
                rotating: m.rotating,
                pending: Pending::SyncThenFinish { visible: true },
            })
            &&& s1.1 == PaneStep::Perform(
                if turns {
                    PaneAction::ShowRotatedCurrent
                } else {
                    PaneAction::ShowCurrent
                },
            )
            &&& (turns && !m.rotating) ==> s2.1 == PaneStep::Perform(PaneAction::StartRotation)
            &&& (turns && !m.rotating) ==> s3 == (PaneModel {
                modal_open: false,
                fetch_needed: false,
                rotating: true,
                pending: Pending::Idle,
            }, PaneStep::Finished)
            &&& (turns && m.rotating) ==> s2 == (PaneModel {
                modal_open: false,
                fetch_needed: false,
                rotating: true,
                pending: Pending::Idle,
            }, PaneStep::Finished)
            &&& !turns ==> s2 == (PaneModel {
                modal_open: false,
                fetch_needed: false,
                rotating: false,
                pending: Pending::Idle,
            }, PaneStep::Finished)
        }),
{
}

/// Closing a modal under which the song changed clears the owed change and asks
/// for the album art; opening a modal over an uncovered, visible pane stops
/// rotation and hides the art, and the pane counts as covered only once the art
/// is hidden.
pub proof fn lemma_modal_open_and_owed_fetch(m: PaneModel, env: PaneEnv)
    ensures
        m.fetch_needed ==> next(m, PaneInput::Event { event: PaneEvent::ModalClosed, visible: true }, env)
            == (PaneModel {
            modal_open: false,
            fetch_needed: false,
            rotating: m.rotating,
            pending: Pending::AfterFetch,
        }, PaneStep::Perform(PaneAction::FetchAlbumArt)),
        ({
            let s1 = next(m, PaneInput::Event { event: PaneEvent::ModalOpened, visible: true }, env);
            &&& !m.modal_open ==> s1 == (PaneModel {
                modal_open: false,
                fetch_needed: m.fetch_needed,
                rotating: false,
                pending: Pending::OpenModal,
            }, PaneStep::Perform(PaneAction::HideArt))
            &&& !m.modal_open ==> next(s1.0, PaneInput::Completed(Outcome::Succeeded), env) == (
            PaneModel {
                modal_open: true,
                fetch_needed: m.fetch_needed,
                rotating: false,
                pending: Pending::Idle,
            }, PaneStep::Finished)
            &&& !m.modal_open ==> next(s1.0, PaneInput::Completed(Outcome::Failed), env) == (
            PaneModel {
                modal_open: false,
                fetch_needed: m.fetch_needed,
                rotating: false,
                pending: Pending::Idle,
            }, PaneStep::Finished)
            &&& m.modal_open ==> s1 == (PaneModel {
                modal_open: true,
                fetch_needed: m.fetch_needed,
                rotating: m.rotating,
                pending: Pending::Idle,
            }, PaneStep::Finished)
        }),
{
}

/// When playback changes on a visible pane: pause or stop ends rotation with no
/// further work; play redraws the current album art (turned exactly when it
/// rotates) and then starts rotation when it applies and is not running.
pub proof fn lemma_playback_change(m: PaneModel, env: PaneEnv)
    ensures
        ({
            let turns = !m.modal_open && env.effect == AlbumArtEffect::Rotate && env.kitty_backend
                && env.playback == PlaybackState::Play && env.has_current_art
                && !env.current_art_animated;
            let s1 = next(
                m,
                PaneInput::Event { event: PaneEvent::PlaybackStateChanged, visible: true },
                env,
            );
            let s2 = next(s1.0, PaneInput::Completed(Outcome::Succeeded), env);
            let s3 = next(s2.0, PaneInput::Completed(Outcome::Succeeded), env);
            &&& env.playback != PlaybackState::Play ==> s1 == (PaneModel {
                modal_open: m.modal_open,
                fetch_needed: m.fetch_needed,
                rotating: false,
                pending: Pending::Idle,
            }, PaneStep::Finished)
            &&& env.playback == PlaybackState::Play ==> s1 == (PaneModel {
                modal_open: m.modal_open,
                fetch_needed: m.fetch_needed,
                rotating: m.rotating,
                pending: Pending::SyncThenFinish { visible: true },
            }, PaneStep::Perform(
                if turns {
                    PaneAction::ShowRotatedCurrent
                } else {
                    PaneAction::ShowCurrent
                },
            ))
            &&& (turns && !m.rotating) ==> s2.1 == PaneStep::Perform(PaneAction::StartRotation)
            &&& (turns && !m.rotating) ==> s3.0.rotating && s3.1 == PaneStep::Finished
            &&& (env.playback == PlaybackState::Play && !turns) ==> s2 == (PaneModel {
                modal_open: m.modal_open,
                fetch_needed: m.fetch_needed,
                rotating: false,
                pending: Pending::Idle,
            }, PaneStep::Finished)
        }),
{
}

/// Pausing and then playing again, on a visible uncovered pane whose current
/// album art is still, Kitty-drawn and set to rotate, stops rotation and then
/// redraws the art turned and starts rotation again.
pub proof fn lemma_pause_then_play_resumes_rotation(m: PaneModel, env: PaneEnv)
    requires
        !m.modal_open,
        env.effect == AlbumArtEffect::Rotate,
        env.kitty_backend,
        env.has_current_art,
        !env.current_art_animated,
    ensures
        ({
            let event = PaneInput::Event { event: PaneEvent::PlaybackStateChanged, visible: true };
            let paused = PaneEnv { playback: PlaybackState::Pause, ..env };
            let playing = PaneEnv { playback: PlaybackState::Play, ..env };
            let p = next(m, event, paused);
            let s1 = next(p.0, event, playing);
            let s2 = next(s1.0, PaneInput::Completed(Outcome::Succeeded), playing);
            let s3 = next(s2.0, PaneInput::Completed(Outcome::Succeeded), playing);
            &&& !p.0.rotating
            &&& p.1 == PaneStep::Finished
            &&& s1.1 == PaneStep::Perform(PaneAction::ShowRotatedCurrent)
            &&& s2.1 == PaneStep::Perform(PaneAction::StartRotation)
            &&& s3.0.rotating
            &&& s3.1 == PaneStep::Finished
        }),
{
}

/// While a modal covers the pane, a finished query and a resize do nothing at all:
/// no art is drawn and no size is passed on.
pub proof fn lemma_modal_ignores_queries_and_resizes(
    m: PaneModel,
    result: QueryResult,
    visible: bool,
    env: PaneEnv,
)
    requires
        m.modal_open,
    ensures
        next(m, PaneInput::QueryFinished { result, visible }, env) == (PaneModel {
            modal_open: true,
            fetch_needed: m.fetch_needed,
            rotating: m.rotating,
            pending: Pending::Idle,
        }, PaneStep::Finished),
        next(m, PaneInput::Resize, env) == (PaneModel {
            modal_open: true,
            fetch_needed: m.fetch_needed,
            rotating: m.rotating,
            pending: Pending::Idle,
        }, PaneStep::Finished),
{
}

/// A finished album-art query on a visible, uncovered pane draws the fetched art
/// (turned when the Rotate effect, the Kitty backend and playback hold) or, when
/// nothing was found, the default art in the same way; an unrelated query only
/// starts or stops rotation. Rotation then follows the drawn art.
pub proof fn lemma_query_outcomes(m: PaneModel, found: bool, env: PaneEnv)
    requires
        !m.modal_open,
    ensures
        ({
            let mode = env.effect == AlbumArtEffect::Rotate && env.kitty_backend && env.playback
                == PlaybackState::Play;
            let turns = mode && env.has_current_art && !env.current_art_animated;
            let s1 = next(
                m,
                PaneInput::QueryFinished { result: QueryResult::AlbumArt { found }, visible: true },
                env,
            );
            let s2 = next(s1.0, PaneInput::Completed(Outcome::Succeeded), env);
            let u = next(m, PaneInput::QueryFinished { result: QueryResult::Unrelated, visible: true }, env);
            &&& s1.0 == (PaneModel { pending: Pending::SyncThenFinish { visible: true }, ..m })
            &&& found ==> s1.1 == PaneStep::Perform(
                if mode {
                    PaneAction::ShowRotated
                } else {
                    PaneAction::Show
                },
            )
            &&& !found ==> s1.1 == PaneStep::Perform(
                if mode {
                    PaneAction::ShowDefaultRotated
                } else {
                    PaneAction::ShowDefault
                },
            )
            &&& (turns && !m.rotating) ==> s2 == (PaneModel {
                pending: Pending::RotationStarted,
                ..m
            }, PaneStep::Perform(PaneAction::StartRotation))
            &&& !turns ==> s2 == (PaneModel { rotating: false, pending: Pending::Idle, ..m }, PaneStep::Finished)
            &&& (turns && !m.rotating) ==> u.1 == PaneStep::Perform(PaneAction::StartRotation)
            &&& !turns ==> u == (PaneModel { rotating: false, pending: Pending::Idle, ..m }, PaneStep::Finished)
        }),
{
}

/// A resize of an uncovered pane passes the new area on, then redraws the current
/// art when there is some (turned exactly when it rotates), then starts or stops
/// rotation.
pub proof fn lemma_resize_outcomes(m: PaneModel, env: PaneEnv)
    requires
        !m.modal_open,
    ensures
        ({
            let turns = env.effect == AlbumArtEffect::Rotate && env.kitty_backend && env.playback
                == PlaybackState::Play && env.has_current_art && !env.current_art_animated;
            let s1 = next(m, PaneInput::Resize, env);
            let s2 = next(s1.0, PaneInput::Completed(Outcome::Succeeded), env);
            let s3 = next(s2.0, PaneInput::Completed(Outcome::Succeeded), env);
            &&& s1 == (PaneModel { pending: Pending::AfterResize, ..m }, PaneStep::Perform(
                PaneAction::SetSize,
            ))
            &&& env.has_current_art ==> s2 == (PaneModel {
                pending: Pending::SyncThenFinish { visible: true },
                ..m
            }, PaneStep::Perform(
                if turns {
                    PaneAction::ShowRotatedCurrent
                } else {
                    PaneAction::ShowCurrent
                },
            ))
            &&& !env.has_current_art ==> s2 == (PaneModel {
                rotating: false,
                pending: Pending::Idle,
                ..m
            }, PaneStep::Finished)
            &&& (turns && !m.rotating) ==> s3.1 == PaneStep::Perform(PaneAction::StartRotation)
        }),
{
}

/// Before the pane is shown, and on a song change or reconnection of an uncovered
/// visible pane, the album art is asked for (after the angle is set back to zero
/// on a song change); when nothing could be asked for, the default art is drawn
/// (turned when rotation applies); otherwise rotation follows the state.
pub proof fn lemma_fetch_outcomes(m: PaneModel, env: PaneEnv)
    ensures
        ({
            let mode = env.effect == AlbumArtEffect::Rotate && env.kitty_backend && env.playback
                == PlaybackState::Play;
            let turns = mode && env.has_current_art && !env.current_art_animated;
            let b = next(m, PaneInput::BeforeShow, env);
            let nf = next(b.0, PaneInput::Completed(Outcome::NotFetched), env);
            let ok = next(b.0, PaneInput::Completed(Outcome::Succeeded), env);
            let sc = next(m, PaneInput::Event { event: PaneEvent::SongChanged, visible: true }, env);
            let sc2 = next(sc.0, PaneInput::Completed(Outcome::Succeeded), env);
            let rc = next(m, PaneInput::Event { event: PaneEvent::Reconnected, visible: true }, env);
            &&& b == (PaneModel { pending: Pending::AfterFetch, ..m }, PaneStep::Perform(
                PaneAction::FetchAlbumArt,
            ))
            &&& (!m.modal_open) ==> nf == (PaneModel {
                pending: Pending::SyncThenFinish { visible: true },
                ..m
            }, PaneStep::Perform(
                if mode {
                    PaneAction::ShowDefaultRotated
                } else {
                    PaneAction::ShowDefault
                },
            ))
            &&& (!m.modal_open && turns && !m.rotating) ==> ok.1 == PaneStep::Perform(
                PaneAction::StartRotation,
            )
            &&& (!m.modal_open && !turns) ==> ok == (PaneModel {
                rotating: false,
                pending: Pending::Idle,
                ..m
            }, PaneStep::Finished)
            &&& !m.modal_open ==> sc == (PaneModel {
                rotating: false,
                pending: Pending::FetchArt,
                ..m
            }, PaneStep::Perform(PaneAction::ResetAngle))
            &&& !m.modal_open ==> sc2 == (PaneModel {
                rotating: false,
                pending: Pending::AfterFetch,
                ..m
            }, PaneStep::Perform(PaneAction::FetchAlbumArt))
            &&& !m.modal_open ==> rc == (PaneModel {
                rotating: false,
                pending: Pending::AfterFetch,
                ..m
            }, PaneStep::Perform(PaneAction::FetchAlbumArt))
        }),
{
}

/// A visible uncovered pane redraws its current art when it is displayed or the
/// configuration changes (turned exactly when it rotates); a configuration change
/// on a hidden or covered pane only stops rotation. A rotation tick turns the
/// angle and shows the turned art when the art rotates, and otherwise stops
/// rotation.
pub proof fn lemma_redraw_and_tick(m: PaneModel, env: PaneEnv)
    ensures
        ({
            let turns = !m.modal_open && env.effect == AlbumArtEffect::Rotate && env.kitty_backend
                && env.playback == PlaybackState::Play && env.has_current_art
                && !env.current_art_animated;
            let redraw = (PaneModel {
                pending: Pending::SyncThenFinish { visible: true },
                ..m
            }, PaneStep::Perform(
                if turns {
                    PaneAction::ShowRotatedCurrent
                } else {
                    PaneAction::ShowCurrent
                },
            ));
            let stop = (PaneModel { rotating: false, pending: Pending::Idle, ..m }, PaneStep::Finished);
            let t1 = next(m, PaneInput::Event { event: PaneEvent::AlbumArtRotationTick, visible: true }, env);
            let t2 = next(t1.0, PaneInput::Completed(Outcome::Succeeded), env);
            let t3 = next(t2.0, PaneInput::Completed(Outcome::Succeeded), env);
            &&& !m.modal_open ==> next(m, PaneInput::Event { event: PaneEvent::Displayed, visible: true }, env) == redraw
            &&& !m.modal_open ==> next(m, PaneInput::Event { event: PaneEvent::ConfigChanged, visible: true }, env) == redraw
            &&& m.modal_open ==> next(m, PaneInput::Event { event: PaneEvent::ConfigChanged, visible: true }, env) == stop
            &&& next(m, PaneInput::Event { event: PaneEvent::ConfigChanged, visible: false }, env) == stop
            &&& turns ==> t1 == (PaneModel { pending: Pending::ShowTurned, ..m }, PaneStep::Perform(
                PaneAction::AdvanceAngle,
            ))
            &&& turns ==> t2 == (PaneModel { pending: Pending::Finish, ..m }, PaneStep::Perform(
                PaneAction::ShowRotatedCurrent,
            ))
            &&& turns ==> t3 == (PaneModel { pending: Pending::Idle, ..m }, PaneStep::Finished)
            &&& !turns ==> t1 == stop
        }),
{
}

/// Leaving and teardown: hiding the pane stops rotation and hides the art; the
/// `Hidden` event only stops rotation; `Exit` stops rotation and releases the
/// display; encoded images are displayed and encoding failures reported; other
/// events do nothing. Each of these ends once its action succeeds.
pub proof fn lemma_leave_and_image_events(m: PaneModel, visible: bool, env: PaneEnv)
    ensures
        ({
            let stopped = PaneModel { rotating: false, ..m };
            let h = next(m, PaneInput::Hide, env);
            let x = next(m, PaneInput::Event { event: PaneEvent::Exit, visible }, env);
            let d = next(m, PaneInput::Event { event: PaneEvent::ImageEncoded, visible }, env);
            let f = next(m, PaneInput::Event { event: PaneEvent::ImageEncodeFailed, visible }, env);
            &&& h == (PaneModel { pending: Pending::Finish, ..stopped }, PaneStep::Perform(PaneAction::HideArt))
            &&& x == (PaneModel { pending: Pending::Finish, ..stopped }, PaneStep::Perform(PaneAction::Cleanup))
            &&& d == (PaneModel { pending: Pending::Finish, ..m }, PaneStep::Perform(PaneAction::Display))
            &&& f == (PaneModel { pending: Pending::Finish, ..m }, PaneStep::Perform(PaneAction::ReportEncodeFailure))
            &&& next(h.0, PaneInput::Completed(Outcome::Succeeded), env) == (PaneModel { pending: Pending::Idle, ..stopped }, PaneStep::Finished)
            &&& next(x.0, PaneInput::Completed(Outcome::Succeeded), env) == (PaneModel { pending: Pending::Idle, ..stopped }, PaneStep::Finished)
            &&& next(d.0, PaneInput::Completed(Outcome::Succeeded), env) == (PaneModel { pending: Pending::Idle, ..m }, PaneStep::Finished)
            &&& next(m, PaneInput::Event { event: PaneEvent::Hidden, visible: true }, env) == (PaneModel { pending: Pending::Idle, ..stopped }, PaneStep::Finished)
            &&& next(m, PaneInput::Event { event: PaneEvent::Other, visible }, env) == (PaneModel { pending: Pending::Idle, ..m }, PaneStep::Finished)
        }),
{
}

} // verus!
