use rong::ball::Ball;
use rong::court::Court;
use rong::paddle::{Paddle, PlayerId};
use rong::score;

fn standard() -> Court {
    Court::new(800, 400, 40, 200, 6, 10, 12, 1, 7).unwrap()
}

#[test]
fn paddles_spawn_at_their_fixed_horizontal_positions() {
    let c = standard();
    let p1 = Paddle::new(&c, PlayerId::Player1);
    let p2 = Paddle::new(&c, PlayerId::Player2);
    assert_eq!(p1.id, PlayerId::Player1);
    assert_eq!(p2.id, PlayerId::Player2);
    assert_eq!(p1.x, 20); // half the paddle width, near the left edge
    assert_eq!(p2.x, 760); // width - paddle_width, flush with the right edge
    // both start near the middle: height/2 - paddle_height/4
    assert_eq!(p1.y, 150);
    assert_eq!(p2.y, 150);
}

#[test]
fn paddle_step_moves_by_the_court_speed() {
    let c = standard();
    let mut p = Paddle::new(&c, PlayerId::Player1);
    p.step(&c, false, true);
    assert_eq!(p.y, 156);
    p.step(&c, true, false);
    assert_eq!(p.y, 150);
    p.step(&c, false, false);
    assert_eq!(p.y, 150);
}

#[test]
fn paddle_step_down_wins_a_simultaneous_press() {
    let c = standard();
    let mut p = Paddle::new(&c, PlayerId::Player1);
    p.step(&c, true, true);
    assert_eq!(p.y, 156);
}

#[test]
fn paddle_step_clamps_at_both_court_edges() {
    let c = standard();
    let mut p = Paddle { id: PlayerId::Player1, x: 20, y: 3 };
    p.step(&c, true, false);
    assert_eq!(p.y, 0); // 3 - 6 clamps up to 0
    let mut q = Paddle { id: PlayerId::Player2, x: 760, y: 198 };
    q.step(&c, false, true);
    assert_eq!(q.y, 200); // 198 + 6 clamps down to height - paddle_height
    q.step(&c, false, true);
    assert_eq!(q.y, 200); // and stays there
}

#[test]
fn ball_serves_from_the_centre_with_the_serve_velocity() {
    let c = standard();
    let b = Ball::new(&c);
    assert_eq!((b.x, b.y), (400, 200));
    assert_eq!((b.vx, b.vy), (12, 1));
    assert_eq!(b.radius, 10);
}

#[test]
fn wall_contact_flips_vy_and_leaves_the_position_alone() {
    let c = standard();
    let mut b = Ball { x: 300, y: 0, vx: 12, vy: -3, radius: 10 };
    b.bounce_walls(&c);
    assert_eq!(b.vy, 3);
    assert_eq!((b.x, b.y), (300, 0)); // no positional correction
    let mut t = Ball { x: 300, y: 400, vx: 12, vy: 2, radius: 10 };
    t.bounce_walls(&c);
    assert_eq!(t.vy, -2);
    // overshoot beyond the wall still counts as contact
    let mut o = Ball { x: 300, y: -4, vx: 12, vy: 3, radius: 10 };
    o.bounce_walls(&c);
    assert_eq!(o.vy, -3);
}

#[test]
fn no_wall_contact_means_no_flip() {
    let c = standard();
    let mut b = Ball { x: 300, y: 1, vx: 12, vy: -3, radius: 10 };
    b.bounce_walls(&c);
    assert_eq!(b.vy, -3);
    let mut t = Ball { x: 300, y: 399, vx: 12, vy: 2, radius: 10 };
    t.bounce_walls(&c);
    assert_eq!(t.vy, 2);
}

#[test]
fn advance_adds_the_velocity_to_the_position() {
    let mut b = Ball { x: 300, y: 120, vx: -12, vy: 5, radius: 10 };
    b.advance();
    assert_eq!((b.x, b.y), (288, 125));
    assert_eq!((b.vx, b.vy), (-12, 5));
}

#[test]
fn serve_recentres_and_flips_vx_leaving_vy_alone() {
    let c = standard();
    let mut b = Ball { x: 810, y: 350, vx: 12, vy: -4, radius: 10 };
    score::serve(&c, &mut b);
    assert_eq!((b.x, b.y), (400, 200));
    assert_eq!(b.vx, -12);
    assert_eq!(b.vy, -4);
}

#[test]
fn track_awards_player1_on_a_right_exit() {
    let c = standard();
    let mut b = Ball { x: 800, y: 350, vx: 12, vy: 1, radius: 10 };
    let mut s1: i64 = 2;
    let mut s2: i64 = 5;
    score::track(&c, &mut b, &mut s1, &mut s2);
    assert_eq!((s1, s2), (3, 5)); // up by exactly one, the other untouched
    assert_eq!((b.x, b.y), (400, 200));
    assert_eq!(b.vx, -12);
}

#[test]
fn track_awards_player2_on_a_left_exit() {
    let c = standard();
    let mut b = Ball { x: -2, y: 350, vx: -12, vy: 1, radius: 10 };
    let mut s1: i64 = 0;
    let mut s2: i64 = 0;
    score::track(&c, &mut b, &mut s1, &mut s2);
    assert_eq!((s1, s2), (0, 1));
    assert_eq!((b.x, b.y), (400, 200));
    assert_eq!(b.vx, 12);
}

#[test]
fn track_leaves_an_in_court_ball_alone() {
    let c = standard();
    let mut b = Ball { x: 1, y: 350, vx: -12, vy: 1, radius: 10 };
    let mut s1: i64 = 4;
    let mut s2: i64 = 4;
    score::track(&c, &mut b, &mut s1, &mut s2);
    assert_eq!((s1, s2), (4, 4));
    assert_eq!((b.x, b.y), (1, 350));
    assert_eq!(b.vx, -12);
}
