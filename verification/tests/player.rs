use bevy_vello::playback::PlaybackLoopBehavior;
use bevy_vello::player::{
    DotLottiePlayer, LottiePlayer, OptionsSource, PlaybackGate, PlayerState, PlayerTransition,
    PointerEvent, StateChange, StateEntry, TransitionSignals,
};

type Player = LottiePlayer<&'static str, u8, u16>;
type State = PlayerState<&'static str, u8, u16>;

fn signals() -> TransitionSignals {
    TransitionSignals {
        asset_loaded: true,
        pointer_inside: false,
        left_just_pressed: false,
        shown: false,
        at_final_frame: false,
        loops_completed: 0,
        looping: PlaybackLoopBehavior::Loop,
        after_elapsed: vec![],
    }
}

fn two_state_player() -> Player {
    Player::new("idle")
        .with_state(
            State::new("idle")
                .asset("idle.json")
                .transition(PlayerTransition::OnMouseEnter { state: "hover" })
                .transition(PlayerTransition::OnMouseClick { state: "click" }),
        )
        .with_state(
            State::new("hover")
                .asset("hover.json")
                .playback_options(7)
                .transition(PlayerTransition::OnMouseLeave { state: "idle" }),
        )
}

#[test]
fn default_player_plays_default_state() {
    let p = Player::default();
    assert_eq!(p.current_state(), Some("default"));
    assert_eq!(p.next_state(), None);
    assert!(p.is_playing());
    assert!(!p.is_stopped());
    assert_eq!(p.num_states(), 1);
    assert_eq!(p.state().id, "default");
}

#[test]
fn new_player_waits_for_initial_state() {
    let p = Player::new("start");
    assert_eq!(p.current_state(), None);
    assert_eq!(p.next_state(), Some("start"));
    assert!(!p.is_playing());
    assert_eq!(p.num_states(), 0);
}

#[test]
fn with_state_replaces_same_name() {
    let p = Player::new("a")
        .with_state(State::new("a"))
        .with_state(State::new("b"))
        .with_state(State::new("a").asset("second"));
    assert_eq!(p.num_states(), 2);
    assert_eq!(p.state().asset, Some("second"));
    let ids: Vec<&str> = p.states().iter().map(|s| s.id).collect();
    assert_eq!(ids, vec!["a", "b"]);
}

#[test]
fn play_pause_stop_toggle() {
    let mut p = Player::new("a");
    p.toggle_play();
    assert!(p.is_playing());
    p.toggle_play();
    assert!(!p.is_playing());
    p.play();
    p.stop();
    assert!(p.is_stopped());
    assert!(p.is_playing());
    p.toggle_play();
    assert!(p.is_playing());
    assert!(!p.is_stopped());
    p.pause();
    assert!(!p.is_playing());
}

#[test]
fn playback_gate_autoplays_once() {
    let mut p = Player::new("a");
    assert_eq!(p.playback_gate(false), PlaybackGate::Paused);
    assert_eq!(p.playback_gate(true), PlaybackGate::Playing);
    assert!(p.is_started());
    p.pause();
    assert_eq!(p.playback_gate(true), PlaybackGate::Paused);
    p.stop();
    assert_eq!(p.playback_gate(true), PlaybackGate::Stopped);
}

#[test]
fn entering_states() {
    let mut p = two_state_player();
    let change = p.enter_next_state(true);
    assert_eq!(
        change,
        StateChange::Entered(StateEntry {
            state: "idle",
            insert_asset: true,
            seek_playhead: false,
            insert_theme: false,
            insert_options: false,
            options_source: OptionsSource::Default,
        })
    );
    assert_eq!(p.current_state(), Some("idle"));
    assert!(!p.is_playing());
    assert_eq!(p.enter_next_state(true), StateChange::Settled);
    assert_eq!(p.next_state(), None);
    assert_eq!(p.enter_next_state(true), StateChange::Idle);
    p.transition("hover");
    match p.enter_next_state(true) {
        StateChange::Entered(entry) => {
            assert_eq!(entry.state, "hover");
            assert_eq!(entry.options_source, OptionsSource::Target);
            assert!(entry.insert_options);
        }
        other => panic!("unexpected {other:?}"),
    }
    assert_eq!(p.state().id, "hover");
}

#[test]
fn reset_waits_for_asset() {
    let mut p = Player::new("a")
        .with_state(State::new("a").asset("a.json").reset_playhead_on_start());
    assert_eq!(p.enter_next_state(false), StateChange::Requeued { state: "a", insert_asset: true });
    assert_eq!(p.current_state(), None);
    match p.enter_next_state(true) {
        StateChange::Entered(entry) => assert!(entry.seek_playhead),
        other => panic!("unexpected {other:?}"),
    }
}

#[test]
fn pointer_rules_pick_first_matching_transition() {
    let mut p = two_state_player();
    p.enter_next_state(true);
    p.on_pointer(PointerEvent::Click, true);
    assert_eq!(p.next_state(), Some("click"));
    p.on_pointer(PointerEvent::Over, true);
    assert_eq!(p.next_state(), Some("hover"));
    p.transition("idle");
    p.on_pointer(PointerEvent::Out, true);
    assert_eq!(p.next_state(), Some("idle"));
    p.on_pointer(PointerEvent::Over, false);
    assert_eq!(p.next_state(), Some("idle"));
}

#[test]
fn rules_do_not_run_with_a_single_state_or_when_stopped() {
    let mut p = Player::default();
    p.on_event("elsewhere", true);
    assert_eq!(p.next_state(), None);
    let mut q = two_state_player();
    q.enter_next_state(true);
    q.stop();
    q.on_event("hover", true);
    assert_eq!(q.next_state(), Some("idle"));
    q.play();
    q.on_event("hover", true);
    assert_eq!(q.next_state(), Some("hover"));
}

#[test]
fn run_transitions_tracks_hover() {
    let mut p = two_state_player();
    p.enter_next_state(true);
    p.enter_next_state(true);
    let mut s = signals();
    let hovered = p.run_transitions(&s, false);
    assert!(!hovered);
    assert_eq!(p.next_state(), None);
    s.pointer_inside = true;
    let hovered = p.run_transitions(&s, hovered);
    assert!(hovered);
    assert_eq!(p.next_state(), Some("hover"));
    p.enter_next_state(true);
    let hovered = p.run_transitions(&s, hovered);
    assert!(hovered);
    s.pointer_inside = false;
    let hovered = p.run_transitions(&s, hovered);
    assert!(!hovered);
    assert_eq!(p.next_state(), Some("idle"));
}

#[test]
fn run_transitions_time_and_completion() {
    let mut p = Player::new("a")
        .with_state(
            State::new("a")
                .transition(PlayerTransition::OnAfter { state: "b", secs_bits: 1.5f32.to_bits() })
                .transition(PlayerTransition::OnComplete { state: "c" }),
        )
        .with_state(State::new("b"));
    p.enter_next_state(true);
    p.enter_next_state(true);
    let mut s = signals();
    s.looping = PlaybackLoopBehavior::Amount(2);
    s.at_final_frame = true;
    s.loops_completed = 1;
    p.run_transitions(&s, false);
    assert_eq!(p.next_state(), None);
    s.loops_completed = 2;
    p.run_transitions(&s, false);
    assert_eq!(p.next_state(), Some("c"));
    s.after_elapsed = vec![true, false];
    p.run_transitions(&s, false);
    assert_eq!(p.next_state(), Some("b"));
}

#[test]
fn player_state_builders() {
    let s = State::new("x")
        .asset("x.json")
        .theme(3)
        .playback_options(9)
        .reset_playhead_on_exit()
        .set_reset_playhead_on_start(true)
        .transition(PlayerTransition::OnShow { state: "y" });
    assert_eq!(s.get_asset(), Some(&"x.json"));
    assert_eq!(s.get_theme(), Some(&3));
    assert_eq!(s.get_playback_options(), Some(&9));
    assert!(s.get_reset_playhead_on_exit());
    assert!(s.get_reset_playhead_on_start());
    assert_eq!(s.get_transitions().len(), 1);
    assert_eq!(s.get_transitions()[0].target(), "y");
    let s = s.set_asset(None).set_theme(None).set_playback_options(None).set_transitions(vec![]);
    assert_eq!(s.asset, None);
    assert_eq!(s.theme, None);
    assert_eq!(s.options, None);
    assert!(s.transitions.is_empty());
    let s = s.set_reset_playhead_on_exit(false);
    assert!(!s.reset_playhead_on_exit);
}

#[test]
fn dot_lottie_player_is_the_same_machine() {
    let p: DotLottiePlayer<u8, u8, u8> = DotLottiePlayer::new("a");
    assert_eq!(p.next_state(), Some("a"));
}

#[test]
fn state_mut_changes_the_active_state_only() {
    let mut p = two_state_player();
    p.enter_next_state(true);
    p.state_mut().reset_playhead_on_exit = true;
    p.state_mut().id = "renamed";
    assert!(p.state().reset_playhead_on_exit);
    assert_eq!(p.state().id, "renamed");
    assert_eq!(p.current_state(), Some("idle"));
    let others: Vec<bool> = p.states().iter().map(|s| s.reset_playhead_on_exit).collect();
    assert_eq!(others, vec![true, false]);
}

#[test]
fn state_by_name_finds_registered_states_only() {
    let player = two_state_player();
    let hover = player.state_by_name("hover").expect("hover is registered");
    assert_eq!(hover.id, "hover");
    assert_eq!(hover.asset, Some("hover.json"));
    assert_eq!(hover.options, Some(7));
    assert_eq!(player.state_by_name("idle").map(|s| s.id), Some("idle"));
    assert!(player.state_by_name("click").is_none());
}

#[test]
fn states_mut_changes_one_state_in_place() {
    let mut player = two_state_player();
    player.states_mut(1).options = Some(9);
    player.states_mut(1).reset_playhead_on_start = true;
    let hover = player.state_by_name("hover").unwrap();
    assert_eq!(hover.options, Some(9));
    assert!(hover.reset_playhead_on_start);
    let idle = player.state_by_name("idle").unwrap();
    assert_eq!(idle.options, None);
    assert_eq!(player.num_states(), 2);
}
