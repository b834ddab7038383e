use rmpc_album_art::config::AlbumArtEffect;
use rmpc_album_art::pane::{
    rotation_interval_ms, AlbumArtPane, Outcome, PaneAction, PaneEnv, PaneEvent, PaneInput,
    PaneStep, Pending, PlaybackState, QueryResult,
};

fn env(effect: AlbumArtEffect, kitty: bool, playback: PlaybackState, has_art: bool) -> PaneEnv {
    PaneEnv {
        effect,
        playback,
        kitty_backend: kitty,
        has_current_art: has_art,
        current_art_animated: false,
    }
}

/// Runs one handler to its end, with every action succeeding; returns the actions asked for.
fn run(pane: &mut AlbumArtPane, input: PaneInput, env: &PaneEnv) -> Vec<PaneAction> {
    let mut actions = Vec::new();
    let mut step = pane.step(input, env);
    while let PaneStep::Perform(action) = step {
        actions.push(action);
        step = pane.step(PaneInput::Completed(Outcome::Succeeded), env);
    }
    actions
}

#[test]
fn new_pane_is_idle() {
    let pane = AlbumArtPane::new();
    assert!(!pane.is_modal_open());
    assert!(!pane.is_fetch_needed());
    assert!(!pane.is_rotating());
    assert_eq!(pane.pending(), Pending::Idle);
}

#[test]
fn starts_rotation_only_for_kitty_rotate_playing() {
    let e = env(AlbumArtEffect::Rotate, true, PlaybackState::Play, true);
    let mut pane = AlbumArtPane::new();
    let actions = run(
        &mut pane,
        PaneInput::QueryFinished { result: QueryResult::AlbumArt { found: true }, visible: true },
        &e,
    );
    assert_eq!(actions, vec![PaneAction::ShowRotated, PaneAction::StartRotation]);
    assert!(pane.is_rotating());
}

#[test]
fn does_not_rotate_for_non_kitty_backends() {
    let e = env(AlbumArtEffect::Rotate, false, PlaybackState::Play, true);
    let mut pane = AlbumArtPane::new();
    let actions = run(
        &mut pane,
        PaneInput::QueryFinished { result: QueryResult::AlbumArt { found: true }, visible: true },
        &e,
    );
    assert_eq!(actions, vec![PaneAction::Show]);
    assert!(!pane.is_rotating());
}

#[test]
fn does_not_rotate_static_or_paused_art() {
    for e in [
        env(AlbumArtEffect::Static, true, PlaybackState::Play, true),
        env(AlbumArtEffect::Rotate, true, PlaybackState::Pause, true),
        env(AlbumArtEffect::Rotate, true, PlaybackState::Stop, true),
    ] {
        let mut pane = AlbumArtPane::new();
        let actions = run(
            &mut pane,
            PaneInput::QueryFinished { result: QueryResult::AlbumArt { found: true }, visible: true },
            &e,
        );
        assert_eq!(actions, vec![PaneAction::Show]);
        assert!(!pane.is_rotating());
    }
}

#[test]
fn animated_art_is_not_rotated() {
    let mut e = env(AlbumArtEffect::Rotate, true, PlaybackState::Play, true);
    e.current_art_animated = true;
    let mut pane = AlbumArtPane::new();
    let actions = run(&mut pane, PaneInput::Event { event: PaneEvent::Displayed, visible: true }, &e);
    assert_eq!(actions, vec![PaneAction::ShowCurrent]);
    assert!(!pane.is_rotating());
}

#[test]
fn song_change_resets_angle_and_pause_stops_rotation() {
    let playing = env(AlbumArtEffect::Rotate, true, PlaybackState::Play, true);
    let mut pane = AlbumArtPane::new();
    let actions = run(&mut pane, PaneInput::Event { event: PaneEvent::SongChanged, visible: true }, &playing);
    assert_eq!(actions[0], PaneAction::ResetAngle);
    assert!(pane.is_rotating());

    let paused = env(AlbumArtEffect::Rotate, true, PlaybackState::Pause, true);
    let step = pane.step(PaneInput::Event { event: PaneEvent::PlaybackStateChanged, visible: true }, &paused);
    assert_eq!(step, PaneStep::Finished);
    assert!(!pane.is_rotating());
}

#[test]
fn searches_for_album_art_before_show() {
    let e = env(AlbumArtEffect::Static, true, PlaybackState::Play, false);
    let mut pane = AlbumArtPane::new();
    let step = pane.step(PaneInput::BeforeShow, &e);
    assert_eq!(step, PaneStep::Perform(PaneAction::FetchAlbumArt));
    let step = pane.step(PaneInput::Completed(Outcome::Succeeded), &e);
    assert_eq!(step, PaneStep::Finished);
}

#[test]
fn shows_default_when_nothing_is_fetched() {
    let e = env(AlbumArtEffect::Static, false, PlaybackState::Play, false);
    let mut pane = AlbumArtPane::new();
    assert_eq!(pane.step(PaneInput::BeforeShow, &e), PaneStep::Perform(PaneAction::FetchAlbumArt));
    assert_eq!(
        pane.step(PaneInput::Completed(Outcome::NotFetched), &e),
        PaneStep::Perform(PaneAction::ShowDefault)
    );
    assert_eq!(pane.step(PaneInput::Completed(Outcome::Succeeded), &e), PaneStep::Finished);
}

#[test]
fn default_frame_turns_when_rotation_applies() {
    let e = env(AlbumArtEffect::Rotate, true, PlaybackState::Play, false);
    let mut pane = AlbumArtPane::new();
    let actions = run(
        &mut pane,
        PaneInput::QueryFinished { result: QueryResult::AlbumArt { found: false }, visible: true },
        &e,
    );
    assert_eq!(actions, vec![PaneAction::ShowDefaultRotated]);
    assert!(!pane.is_rotating());
}

#[test]
fn searches_for_album_art_on_event() {
    let e = env(AlbumArtEffect::Static, true, PlaybackState::Play, false);
    let mut pane = AlbumArtPane::new();
    let actions = run(&mut pane, PaneInput::Event { event: PaneEvent::SongChanged, visible: true }, &e);
    assert_eq!(actions, vec![PaneAction::ResetAngle, PaneAction::FetchAlbumArt]);
    let actions = run(&mut pane, PaneInput::Event { event: PaneEvent::Reconnected, visible: true }, &e);
    assert_eq!(actions, vec![PaneAction::FetchAlbumArt]);
}

#[test]
fn modal_defers_fetch_until_closed() {
    let e = env(AlbumArtEffect::Rotate, true, PlaybackState::Play, true);
    let mut pane = AlbumArtPane::new();
    run(&mut pane, PaneInput::Event { event: PaneEvent::Displayed, visible: true }, &e);
    assert!(pane.is_rotating());

    let actions = run(&mut pane, PaneInput::Event { event: PaneEvent::ModalOpened, visible: true }, &e);
    assert_eq!(actions, vec![PaneAction::HideArt]);
    assert!(pane.is_modal_open());
    assert!(!pane.is_rotating());

    let actions = run(&mut pane, PaneInput::Event { event: PaneEvent::SongChanged, visible: true }, &e);
    assert_eq!(actions, vec![PaneAction::ResetAngle]);
    assert!(pane.is_fetch_needed());

    let actions = run(&mut pane, PaneInput::Event { event: PaneEvent::ModalClosed, visible: true }, &e);
    assert_eq!(actions, vec![PaneAction::FetchAlbumArt, PaneAction::StartRotation]);
    assert!(!pane.is_modal_open());
    assert!(!pane.is_fetch_needed());
    assert!(pane.is_rotating());
}

#[test]
fn failed_hide_keeps_modal_closed() {
    let e = env(AlbumArtEffect::Static, true, PlaybackState::Play, true);
    let mut pane = AlbumArtPane::new();
    let step = pane.step(PaneInput::Event { event: PaneEvent::ModalOpened, visible: true }, &e);
    assert_eq!(step, PaneStep::Perform(PaneAction::HideArt));
    assert_eq!(pane.step(PaneInput::Completed(Outcome::Failed), &e), PaneStep::Finished);
    assert!(!pane.is_modal_open());
    assert_eq!(pane.pending(), Pending::Idle);
}

#[test]
fn rotation_tick_turns_and_shows() {
    let e = env(AlbumArtEffect::Rotate, true, PlaybackState::Play, true);
    let mut pane = AlbumArtPane::new();
    let actions = run(&mut pane, PaneInput::Event { event: PaneEvent::AlbumArtRotationTick, visible: true }, &e);
    assert_eq!(actions, vec![PaneAction::AdvanceAngle, PaneAction::ShowRotatedCurrent]);

    let paused = env(AlbumArtEffect::Rotate, true, PlaybackState::Pause, true);
    let actions = run(&mut pane, PaneInput::Event { event: PaneEvent::AlbumArtRotationTick, visible: true }, &paused);
    assert!(actions.is_empty());
    assert!(!pane.is_rotating());
}

#[test]
fn hiding_stops_rotation() {
    let e = env(AlbumArtEffect::Rotate, true, PlaybackState::Play, true);
    let mut pane = AlbumArtPane::new();
    run(&mut pane, PaneInput::Event { event: PaneEvent::Displayed, visible: true }, &e);
    assert!(pane.is_rotating());
    let actions = run(&mut pane, PaneInput::Hide, &e);
    assert_eq!(actions, vec![PaneAction::HideArt]);
    assert!(!pane.is_rotating());

    run(&mut pane, PaneInput::Event { event: PaneEvent::Displayed, visible: true }, &e);
    let actions = run(&mut pane, PaneInput::Event { event: PaneEvent::Exit, visible: false }, &e);
    assert_eq!(actions, vec![PaneAction::Cleanup]);
    assert!(!pane.is_rotating());
}

#[test]
fn invisible_pane_ignores_events() {
    let e = env(AlbumArtEffect::Rotate, true, PlaybackState::Play, true);
    let mut pane = AlbumArtPane::new();
    for event in [
        PaneEvent::SongChanged,
        PaneEvent::Reconnected,
        PaneEvent::Displayed,
        PaneEvent::Hidden,
        PaneEvent::ModalOpened,
        PaneEvent::ModalClosed,
        PaneEvent::PlaybackStateChanged,
        PaneEvent::AlbumArtRotationTick,
        PaneEvent::Other,
    ] {
        assert_eq!(pane.step(PaneInput::Event { event, visible: false }, &e), PaneStep::Finished);
    }
    assert!(!pane.is_modal_open());
    assert_eq!(
        pane.step(PaneInput::QueryFinished { result: QueryResult::AlbumArt { found: true }, visible: false }, &e),
        PaneStep::Finished
    );
}

#[test]
fn resize_redraws_current_art() {
    let e = env(AlbumArtEffect::Static, true, PlaybackState::Play, true);
    let mut pane = AlbumArtPane::new();
    let actions = run(&mut pane, PaneInput::Resize, &e);
    assert_eq!(actions, vec![PaneAction::SetSize, PaneAction::ShowCurrent]);

    let empty = env(AlbumArtEffect::Static, true, PlaybackState::Play, false);
    let actions = run(&mut pane, PaneInput::Resize, &empty);
    assert_eq!(actions, vec![PaneAction::SetSize]);
}

#[test]
fn image_events_are_passed_on() {
    let e = env(AlbumArtEffect::Static, false, PlaybackState::Stop, false);
    let mut pane = AlbumArtPane::new();
    assert_eq!(
        run(&mut pane, PaneInput::Event { event: PaneEvent::ImageEncoded, visible: false }, &e),
        vec![PaneAction::Display]
    );
    assert_eq!(
        run(&mut pane, PaneInput::Event { event: PaneEvent::ImageEncodeFailed, visible: true }, &e),
        vec![PaneAction::ReportEncodeFailure]
    );
}

#[test]
fn rotation_interval_follows_fps() {
    assert_eq!(rotation_interval_ms(1), 1000);
    assert_eq!(rotation_interval_ms(6), 166);
    assert_eq!(rotation_interval_ms(12), 83);
}
