use critter_relay::player::{Player, Pos};

#[test]
fn test_dummy() {
    let obj = Pos { pos_x: 10, pos_y: 10 };
    assert_eq!(0, obj.object_distance(Pos { pos_x: 10, pos_y: 10 }));
}

#[test]
fn test_distance() {
    let obj = Pos { pos_x: 10, pos_y: 10 };
    assert_eq!(5, obj.object_distance(Pos { pos_x: 13, pos_y: 14 }));
}

#[test]
fn test_intersect_dummy() {
    let p = Player::new();
    assert_eq!(true, p.intersect(Pos { pos_x: 0, pos_y: 0 }, 1));
}

#[test]
fn distance_rounds_down() {
    let obj = Pos { pos_x: 0, pos_y: 0 };
    // sqrt(2) rounds down to 1, sqrt(8) to 2.
    assert_eq!(1, obj.object_distance(Pos { pos_x: 1, pos_y: 1 }));
    assert_eq!(2, obj.object_distance(Pos { pos_x: 2, pos_y: 2 }));
    assert_eq!(5, obj.object_distance(Pos { pos_x: 3, pos_y: 4 }));
}

#[test]
fn distance_extremes() {
    let obj = Pos { pos_x: 2_000_000_000, pos_y: 0 };
    let far = Pos { pos_x: -2_000_000_000, pos_y: 0 };
    assert_eq!(16_000_000_000_000_000_000u128, obj.object_distance_2(far));
    assert_eq!(4_000_000_000, obj.object_distance(far));
}

#[test]
fn intersect_boundary_inclusive() {
    let mut p = Player::new();
    p.size = 3;
    p.pos = Pos { pos_x: 0, pos_y: 0 };
    // Combined radius 5; squared distance 25 == 25: intersecting.
    assert!(p.intersect(Pos { pos_x: 5, pos_y: 0 }, 2));
    assert!(p.intersect(Pos { pos_x: 3, pos_y: 4 }, 2));
    // Squared distance 36 > 25: clear.
    assert!(!p.intersect(Pos { pos_x: 6, pos_y: 0 }, 2));
}

#[test]
fn move_player_displaces() {
    let mut pos = Pos { pos_x: 3, pos_y: -2 };
    pos.move_player(-5, 7);
    assert_eq!(Pos { pos_x: -2, pos_y: 5 }, pos);
    assert_eq!(-2, pos.x());
    assert_eq!(5, pos.y());
}

#[test]
fn random_username_has_thirty_alphanumeric_chars() {
    let name = Player::random_username();
    assert_eq!(30, name.chars().count());
    assert!(name.chars().all(|c| c.is_ascii_alphanumeric()));
}

#[test]
fn new_player_starts_at_origin() {
    let p = Player::new();
    assert_eq!(Pos { pos_x: 0, pos_y: 0 }, p.pos);
    assert_eq!(10, p.size);
    assert_eq!((None, None), p.moving);
    assert_eq!(30, p.name.len());
}

#[test]
fn copy_clears_intent() {
    let mut p = Player::new();
    p.set_name("walker");
    p.pos = Pos { pos_x: 7, pos_y: 9 };
    p.size = 4;
    p.moving = (Some(critter_relay::player::LRDir::Left), None);
    let q = Player::copy(&p);
    assert_eq!("walker", q.name);
    assert_eq!(p.pos, q.pos);
    assert_eq!(4, q.size);
    assert_eq!((None, None), q.moving);
}

#[test]
fn same_player_compares_names_only() {
    let mut a = Player::new();
    let mut b = Player::new();
    a.set_name("dot");
    b.set_name("dot");
    b.pos = Pos { pos_x: 50, pos_y: 50 };
    b.size = 99;
    assert!(a.same_player(&b));
    b.set_name("dash");
    assert!(!a.same_player(&b));
}

#[test]
fn default_player_is_placeholder() {
    let p = Player::default();
    assert_eq!("", p.name);
    assert_eq!(Pos::default(), p.pos);
    assert_eq!(0, p.size);
    assert_eq!((None, None), p.moving);
}
