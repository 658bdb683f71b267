use rong::ball::Ball;
use rong::court::Court;
use rong::input::InputSnapshot;
use rong::match_state::{MatchPhase, MatchState};
use rong::paddle::PlayerId;

fn standard() -> Court {
    Court::new(800, 400, 40, 200, 6, 10, 12, 1, 7).unwrap()
}

fn idle() -> InputSnapshot {
    InputSnapshot::idle()
}

#[test]
fn a_fresh_match_starts_centred_and_playing() {
    let m = MatchState::new(standard());
    assert_eq!((m.ball.x, m.ball.y), (400, 200));
    assert_eq!((m.ball.vx, m.ball.vy), (12, 1));
    assert_eq!((m.score1, m.score2), (0, 0));
    assert_eq!(m.phase, MatchPhase::Playing);
    assert_eq!(m.p1.x, 20);
    assert_eq!(m.p2.x, 760);
}

#[test]
fn an_uneventful_tick_only_integrates_the_ball() {
    let mut m = MatchState::new(standard());
    m.tick(idle());
    assert_eq!((m.ball.x, m.ball.y), (412, 201));
    assert_eq!((m.ball.vx, m.ball.vy), (12, 1));
    assert_eq!((m.score1, m.score2), (0, 0));
    assert_eq!(m.phase, MatchPhase::Playing);
}

#[test]
fn a_tick_reflects_off_the_defending_paddle() {
    // court 800x400, paddles 40x200, ball arriving at the centre of the
    // right edge: vx 12 flips to -12 and the offset formula caps vy at 5
    let mut m = MatchState::new(standard());
    m.p2.y = 100;
    m.ball = Ball { x: 765, y: 200, vx: 12, vy: 1, radius: 10 };
    m.tick(idle());
    assert_eq!((m.ball.vx, m.ball.vy), (-12, 5));
    assert_eq!((m.ball.x, m.ball.y), (753, 205));
    assert_eq!((m.score1, m.score2), (0, 0));
}

#[test]
fn a_left_exit_scores_for_player2_and_reserves() {
    let mut m = MatchState::new(standard());
    m.ball = Ball { x: 0, y: 350, vx: -12, vy: 1, radius: 10 };
    m.tick(idle());
    assert_eq!(m.score1, 0); // Player1 remains unchanged
    assert_eq!(m.score2, 1); // Player2 score becomes 1
    // ball re-served to (400, 200) with vx flipped, then one integration
    assert_eq!((m.ball.x, m.ball.y), (412, 201));
    assert_eq!(m.ball.vx, 12);
    assert_eq!(m.phase, MatchPhase::Playing);
}

#[test]
fn a_right_exit_scores_for_player1() {
    let mut m = MatchState::new(standard());
    m.ball = Ball { x: 801, y: 350, vx: 12, vy: 1, radius: 10 };
    m.tick(idle());
    assert_eq!((m.score1, m.score2), (1, 0));
    assert_eq!((m.ball.x, m.ball.y), (388, 201));
    assert_eq!(m.ball.vx, -12);
}

#[test]
fn passing_the_threshold_finishes_the_match_and_freezes_the_ball() {
    let mut m = MatchState::new(standard());
    m.score1 = 7;
    m.ball = Ball { x: 800, y: 350, vx: 12, vy: 1, radius: 10 };
    m.tick(idle());
    assert_eq!(m.score1, 8); // threshold 7 exceeded
    assert_eq!(m.phase, MatchPhase::Finished(PlayerId::Player1));
    assert_eq!((m.ball.vx, m.ball.vy), (0, 0));
    let frozen = (m.ball.x, m.ball.y);
    // the freeze holds over 100 further ticks, whatever the input
    for i in 0..100 {
        let input = InputSnapshot::new(i % 2 == 0, i % 3 == 0, i % 5 == 0, i % 7 == 0);
        m.tick(input);
        assert_eq!(m.phase, MatchPhase::Finished(PlayerId::Player1));
        assert_eq!((m.ball.vx, m.ball.vy), (0, 0));
        assert_eq!((m.ball.x, m.ball.y), frozen);
        assert_eq!((m.score1, m.score2), (8, 0));
    }
}

#[test]
fn player2_can_win_too() {
    let mut m = MatchState::new(standard());
    m.score2 = 7;
    m.ball = Ball { x: -1, y: 350, vx: -12, vy: 1, radius: 10 };
    m.tick(idle());
    assert_eq!(m.score2, 8);
    assert_eq!(m.phase, MatchPhase::Finished(PlayerId::Player2));
    assert_eq!((m.ball.vx, m.ball.vy), (0, 0));
}

#[test]
fn paddles_still_move_cosmetically_after_the_finish() {
    let mut m = MatchState::new(standard());
    m.score1 = 8;
    m.phase = MatchPhase::Finished(PlayerId::Player1);
    m.ball.vx = 0;
    m.ball.vy = 0;
    let y_before = m.p1.y;
    m.tick(InputSnapshot::new(false, true, false, false));
    assert_eq!(m.p1.y, y_before + 6);
    assert_eq!(m.phase, MatchPhase::Finished(PlayerId::Player1));
}

#[test]
fn paddles_stay_clamped_over_many_held_ticks() {
    let mut m = MatchState::new(standard());
    let hold_down = InputSnapshot::new(false, true, false, true);
    for _ in 0..100 {
        m.tick(hold_down);
        assert!(0 <= m.p1.y && m.p1.y <= 200);
        assert!(0 <= m.p2.y && m.p2.y <= 200);
    }
    assert_eq!(m.p1.y, 200); // pinned against the lower edge
    let hold_up = InputSnapshot::new(true, false, true, false);
    for _ in 0..100 {
        m.tick(hold_up);
        assert!(0 <= m.p1.y && m.p1.y <= 200);
    }
    assert_eq!(m.p1.y, 0);
}

#[test]
fn wall_contact_flips_vy_between_ticks() {
    let mut m = MatchState::new(standard());
    m.ball = Ball { x: 300, y: 0, vx: 2, vy: -3, radius: 10 };
    m.tick(idle());
    assert_eq!(m.ball.vy, 3); // strict sign flip against the prior tick
    assert_eq!(m.ball.y, 3);
    m.ball = Ball { x: 300, y: 401, vx: 2, vy: 2, radius: 10 };
    m.tick(idle());
    assert_eq!(m.ball.vy, -2);
    assert_eq!(m.ball.y, 399);
}

#[test]
fn identical_inputs_give_identical_trajectories() {
    let script: Vec<InputSnapshot> = (0..200)
        .map(|i: i64| InputSnapshot::new(i % 2 == 0, i % 3 == 0, i % 5 == 0, i % 7 == 0))
        .collect();
    let mut a = MatchState::new(standard());
    let mut b = MatchState::new(standard());
    for input in &script {
        a.tick(*input);
        b.tick(*input);
        assert_eq!(a.snapshot(), b.snapshot());
    }
}

#[test]
fn snapshot_reports_the_whole_visible_state() {
    let mut m = MatchState::new(standard());
    m.tick(idle());
    let s = m.snapshot();
    assert_eq!((s.p1_x, s.p1_y), (m.p1.x, m.p1.y));
    assert_eq!((s.p2_x, s.p2_y), (m.p2.x, m.p2.y));
    assert_eq!((s.ball_x, s.ball_y), (m.ball.x, m.ball.y));
    assert_eq!(s.ball_radius, 10);
    assert_eq!((s.score1, s.score2), (m.score1, m.score2));
    assert_eq!(s.phase, m.phase);
}
