use flappy::gameplay::GameState;
use flappy::player::{
    death_trigger_count, player_input, player_x_target, AnimTimerSettings, AnimationIndices,
    PlayerSystems, MENU_FLAP_RATE, PLAY_FLAP_RATE,
};

#[test]
fn systems_per_state() {
    let s = PlayerSystems::for_state(GameState::MainMenu);
    assert!(s.menu_sine_wave && !s.player_gravity && !s.player_rotation && !s.player_collisions);
    let s = PlayerSystems::for_state(GameState::Preparing);
    assert!(s.menu_sine_wave && !s.player_gravity && !s.player_rotation && !s.player_collisions);
    let s = PlayerSystems::for_state(GameState::InGame);
    assert!(!s.menu_sine_wave && s.player_gravity && s.player_rotation && s.player_collisions);
    let s = PlayerSystems::for_state(GameState::GameOver);
    assert!(!s.menu_sine_wave && s.player_gravity && !s.player_rotation && !s.player_collisions);
}

#[test]
fn exactly_one_vertical_motion() {
    for st in [GameState::MainMenu, GameState::Preparing, GameState::InGame, GameState::GameOver] {
        let s = PlayerSystems::for_state(st);
        assert_ne!(s.menu_sine_wave, s.player_gravity);
    }
}

#[test]
fn x_targets() {
    assert_eq!(player_x_target(GameState::MainMenu), 0);
    assert_eq!(player_x_target(GameState::Preparing), -16);
    assert_eq!(player_x_target(GameState::InGame), -16);
    assert_eq!(player_x_target(GameState::GameOver), -16);
}

#[test]
fn input_rules() {
    let r = player_input(GameState::Preparing, true);
    assert!(r.jump);
    assert_eq!(r.next_state, Some(GameState::InGame));
    let r = player_input(GameState::InGame, true);
    assert!(r.jump);
    assert_eq!(r.next_state, None);
    let r = player_input(GameState::InGame, false);
    assert!(!r.jump);
    assert_eq!(r.next_state, None);
    for st in [GameState::MainMenu, GameState::GameOver] {
        let r = player_input(st, true);
        assert!(!r.jump);
        assert_eq!(r.next_state, None);
    }
}

#[test]
fn death_triggers() {
    assert_eq!(death_trigger_count(&vec![], false), 0);
    assert_eq!(death_trigger_count(&vec![], true), 1);
    assert_eq!(death_trigger_count(&vec![true, false, true, false], false), 2);
    assert_eq!(death_trigger_count(&vec![true, false, true, true], true), 4);
    assert_eq!(death_trigger_count(&vec![false, false], false), 0);
}

#[test]
fn anim_timer_follows_last_state() {
    let mut t = AnimTimerSettings::player();
    assert!(!t.paused);
    assert_eq!(t.frames_per_second, MENU_FLAP_RATE);

    t.set_player_anim_speed(&vec![None, Some(GameState::InGame)]);
    assert!(!t.paused);
    assert_eq!(t.frames_per_second, PLAY_FLAP_RATE);

    t.set_player_anim_speed(&vec![Some(GameState::GameOver), None]);
    assert!(t.paused);
    assert_eq!(t.frames_per_second, PLAY_FLAP_RATE);

    t.set_player_anim_speed(&vec![Some(GameState::Preparing)]);
    assert!(!t.paused);
    assert_eq!(t.frames_per_second, 13);

    t.set_player_anim_speed(&vec![Some(GameState::InGame), Some(GameState::GameOver)]);
    assert!(t.paused);
    assert_eq!(t.frames_per_second, 20);

    t.set_player_anim_speed(&vec![]);
    assert!(t.paused);
    assert_eq!(t.frames_per_second, 20);
}

#[test]
fn anim_timer_twice_is_once() {
    let msgs = vec![Some(GameState::InGame), None, Some(GameState::GameOver)];
    let mut once = AnimTimerSettings::player();
    once.set_player_anim_speed(&msgs);
    let mut twice = once;
    twice.set_player_anim_speed(&msgs);
    assert_eq!(once, twice);
}

#[test]
fn wing_cycle() {
    let mut a = AnimationIndices::player();
    assert_eq!(a.first_frame(), 0);
    let shown: Vec<usize> = (0..10).map(|_| a.advance()).collect();
    assert_eq!(shown, vec![0, 1, 2, 1, 0, 0, 1, 2, 1, 0]);
    assert_eq!(a.current_index, 0);
}

#[test]
fn cycle_returns_after_len_steps() {
    for start in 0..5 {
        let mut a = AnimationIndices::player();
        a.current_index = start;
        for _ in 0..5 {
            a.advance();
        }
        assert_eq!(a.current_index, start);
    }
}

#[test]
fn out_of_range_index_wraps() {
    let mut a = AnimationIndices { frames: vec![7, 8, 9], current_index: 40 };
    assert_eq!(a.advance(), 7);
    assert_eq!(a.current_index, 0);
    let mut single = AnimationIndices { frames: vec![3], current_index: 0 };
    assert_eq!(single.advance(), 3);
    assert_eq!(single.current_index, 0);
}

#[test]
fn animate_needs_tick_and_atlas() {
    let mut a = AnimationIndices::player();
    let mut atlas = Some(0usize);
    a.animate(false, &mut atlas);
    assert_eq!(a.current_index, 0);
    assert_eq!(atlas, Some(0));

    let mut none: Option<usize> = None;
    a.animate(true, &mut none);
    assert_eq!(a.current_index, 0);
    assert_eq!(none, None);

    a.animate(true, &mut atlas);
    a.animate(true, &mut atlas);
    a.animate(true, &mut atlas);
    assert_eq!(a.current_index, 3);
    assert_eq!(atlas, Some(2));
}

#[test]
fn empty_cycle_is_fine_while_not_due() {
    let mut a = AnimationIndices { frames: vec![], current_index: 2 };
    let mut atlas = Some(4usize);
    a.animate(false, &mut atlas);
    assert_eq!((a.current_index, atlas), (2, Some(4)));
    let mut none: Option<usize> = None;
    a.animate(true, &mut none);
    assert_eq!((a.current_index, none), (2, None));
}
