use tetrust::engine::Mode;
use tetrust::endgame_ctrl::EndgameCtrl;
use tetrust::fall::Fall;
use tetrust::playtime_ctrl::PlaytimeCtrl;
use tetrust::score_ctrl::ScoreCtrl;
use tetrust::static_ctrl::StaticCtrl;

#[test]
fn score_table_times_level_plus_one() {
    for level in [0i8, 1, 2, 9, 29] {
        let l = level as u32 + 1;
        assert_eq!(ScoreCtrl::score_increment(level, 1), 40 * l);
        assert_eq!(ScoreCtrl::score_increment(level, 2), 100 * l);
        assert_eq!(ScoreCtrl::score_increment(level, 3), 300 * l);
        assert_eq!(ScoreCtrl::score_increment(level, 4), 1200 * l);
    }
    assert_eq!(ScoreCtrl::score_increment(5, 0), 0);
    assert_eq!(ScoreCtrl::score_increment(2, 7), 3600);
}

#[test]
fn update_accumulates_and_levels_up_every_ten_lines() {
    let mut s = ScoreCtrl::new(0, Mode::Marathon);
    s.update(4);
    s.update(4);
    assert_eq!(s.level(), 0);
    assert_eq!(s.score(), 2400);
    s.update(2);
    assert_eq!(s.lines(), 10);
    assert_eq!(s.level(), 1);
    assert_eq!(s.score(), 2400 + 200);
    s.update(0);
    assert_eq!(s.score(), 2600);
    assert_eq!(s.clear_statistic(), [0, 1, 0, 2]);
    assert!(!s.goal_complete());
}

#[test]
fn starting_level_is_clamped() {
    assert_eq!(ScoreCtrl::new(5, Mode::Marathon).level(), 5);
    assert_eq!(ScoreCtrl::new(29, Mode::Marathon).level(), 29);
    assert_eq!(ScoreCtrl::new(-1, Mode::Marathon).level(), 29);
    let mut s = ScoreCtrl::new(7, Mode::Marathon);
    s.update(1);
    assert_eq!(s.level(), 7);
    assert_eq!(s.score(), 320);
}

#[test]
fn sprint_goal_at_forty_lines() {
    let mut s = ScoreCtrl::new(0, Mode::Sprint);
    for _ in 0..9 {
        s.update(4);
    }
    assert!(!s.goal_complete());
    s.update(3);
    assert!(!s.goal_complete());
    s.update(1);
    assert!(s.goal_complete());
    assert_eq!(s.lines(), 40);
    assert_eq!(s.level(), 4);
}

#[test]
fn gravity_counts_down_frames_per_level() {
    let mut f = Fall::new();
    for _ in 0..47 {
        assert!(!f.inc_frame_counter(0));
    }
    assert!(f.inc_frame_counter(0));
    assert_eq!(f.frame_counter, 0);
    for level in [29i8, 100, -3] {
        assert!(f.inc_frame_counter(level));
    }
    for _ in 0..5 {
        assert!(!f.inc_frame_counter(9));
    }
    assert!(f.inc_frame_counter(9));
}

#[test]
fn lock_delay_rewinds_the_counter() {
    let mut f = Fall::new();
    f.lock_delay();
    assert!(!f.inc_frame_counter(0));
    assert_eq!(f.frame_counter, 18);
    for _ in 0..29 {
        assert!(!f.inc_frame_counter(0));
    }
    assert!(f.inc_frame_counter(0));
    f.lock_delay();
    f.reset();
    assert_eq!(f.frame_counter, 0);
    assert!(!f.inc_frame_counter(0));
    assert_eq!(f.frame_counter, 1);
}

#[test]
fn playtime_clock() {
    let mut p = PlaytimeCtrl::new();
    for _ in 0..(3600 + 60 + 30) {
        p.update();
    }
    assert_eq!(p.frames(), 3690);
    assert_eq!(p.clock(), (1, 1, 50));
}

#[test]
fn static_and_endgame_settings() {
    assert_eq!(StaticCtrl::new(3).queue_size(), 3);
    assert!(EndgameCtrl::new(Mode::Marathon).game_over());
    let mut e = EndgameCtrl::new(Mode::Sprint);
    e.update();
    assert!(!e.game_over());
}
