use rusteroids::actor::ActorView;
use rusteroids::actor::CollisionType;
use rusteroids::actor_manager::ActorManager;
use rusteroids::background::Background;
use rusteroids::collision::calculate_collisions;
use rusteroids::game::Game;
use rusteroids::hud::indicator;
use rusteroids::messages::GameInstructions;
use rusteroids::messages::PlayerInstructions;
use rusteroids::session::check_restart;
use rusteroids::session::generate_actors;
use rusteroids::session::get_camera;
use rusteroids::session::restart;
use rusteroids::session::RestartMonitor;
use rusteroids::spaceship_agent::attack_player;
use rusteroids::spaceship_agent::set_instructions;
use rusteroids::spaceship_agent::random_behaviour;
use rusteroids::trig::atan2_milli;
use rusteroids::trig::bearing_milli;
use rusteroids::trig::cos_milli;
use rusteroids::trig::sin_milli;

fn plain_view(id: i32, parent: i32, x: i64, y: i64, half: i64, ct: CollisionType) -> ActorView {
    ActorView {
        id,
        parent,
        x,
        y,
        width: half,
        height: half,
        rotation: 0,
        shape: vec![0, 0, 0, 0, 0, 0],
        color: vec![500, 500, 500],
        collision_type: ct,
        show_secondary: false,
        secondary_shape: None,
        secondary_color: None,
        meter: 0,
    }
}

#[test]
fn empty_world_produces_nothing() {
    let mut actors = ActorManager::new();
    let mut out = Vec::new();
    actors.update(Vec::new(), &mut out);
    assert_eq!(actors.get().len(), 0);
    assert_eq!(out.len(), 0);
    let views: Vec<ActorView> = Vec::new();
    let mut messages: Vec<(i32, PlayerInstructions)> = Vec::new();
    calculate_collisions(&views, &mut messages);
    assert_eq!(messages.len(), 0);
    let game = Game::new();
    assert_eq!(game.max_players(), 5);
}

#[test]
fn agent_attacks_when_player_is_near() {
    let ship = plain_view(6, 0, 0, 0, 50_000, CollisionType::Collide);
    let player = plain_view(1, 0, 0, 1_000_000, 50_000, CollisionType::Collide);
    let mut messages: Vec<(i32, PlayerInstructions)> = Vec::new();
    set_instructions(ship, vec![player], &mut messages);
    assert_eq!(messages.len(), 4);
    assert_eq!(messages[0], (6, PlayerInstructions::BeginIncreaseThrottle));
    assert_eq!(messages[1], (6, PlayerInstructions::Fire));
}

#[test]
fn overlapping_pair_collides_both_ways() {
    let a = plain_view(2, 0, 0, 0, 50_000, CollisionType::Collide);
    let b = plain_view(3, 0, 10_000, 10_000, 50_000, CollisionType::Collide);
    let views = vec![a, b];
    let mut messages: Vec<(i32, PlayerInstructions)> = Vec::new();
    calculate_collisions(&views, &mut messages);
    assert!(messages.contains(&(2, PlayerInstructions::Collide)));
    assert!(messages.contains(&(3, PlayerInstructions::Collide)));
    assert_eq!(messages.len(), 2);
}

#[test]
fn parent_and_child_never_collide() {
    let parent = plain_view(2, 0, 0, 0, 50_000, CollisionType::Collide);
    let child = plain_view(3, 2, 0, 0, 50_000, CollisionType::Collide);
    let views = vec![parent, child];
    let mut messages: Vec<(i32, PlayerInstructions)> = Vec::new();
    calculate_collisions(&views, &mut messages);
    assert_eq!(messages.len(), 0);
}

#[test]
fn far_apart_pair_passes_the_cheap_filter() {
    let a = plain_view(2, 0, 0, 0, 600_000, CollisionType::Collide);
    let b = plain_view(3, 0, 1_001_000, 0, 600_000, CollisionType::Collide);
    let views = vec![a, b];
    let mut messages: Vec<(i32, PlayerInstructions)> = Vec::new();
    calculate_collisions(&views, &mut messages);
    assert_eq!(messages.len(), 0);
}

#[test]
fn collect_overlap_targets_the_toucher() {
    let ship = plain_view(1, 0, 0, 0, 50_000, CollisionType::Collide);
    let token = plain_view(5, 0, 20_000, 0, 100_000, CollisionType::Collect);
    let views = vec![ship, token];
    let mut messages: Vec<(i32, PlayerInstructions)> = Vec::new();
    calculate_collisions(&views, &mut messages);
    assert!(messages.contains(&(1, PlayerInstructions::Collect)));
    assert!(messages.contains(&(5, PlayerInstructions::Collide)));
}

#[test]
fn explosions_are_ignored_by_collision() {
    let ship = plain_view(1, 0, 0, 0, 50_000, CollisionType::Collide);
    let blast = plain_view(0, 0, 0, 0, 50_000, CollisionType::Ignore);
    let views = vec![ship, blast];
    let mut messages: Vec<(i32, PlayerInstructions)> = Vec::new();
    calculate_collisions(&views, &mut messages);
    assert_eq!(messages.len(), 0);
}

#[test]
fn split_event_yields_two_half_size_fragments() {
    let mut actors = ActorManager::new();
    let original = plain_view(9, 0, 4_000, 4_000, 150_000, CollisionType::Collide);
    let events = vec![(GameInstructions::NewAsteroid, original)];
    actors.process_messages(&events);
    let views = actors.get();
    assert_eq!(views.len(), 2);
    assert_eq!(views[0].width, 75_000);
    assert_eq!(views[1].width, 75_000);
    assert_eq!(views[0].parent, 0);
    assert_eq!(views[1].parent, views[0].id);
    assert_ne!(views[0].id, views[1].id);
}

#[test]
fn fire_event_spawns_bullet_with_parent() {
    let mut actors = ActorManager::new();
    let shooter = plain_view(4, 0, 1_000, 2_000, 50_000, CollisionType::Collide);
    let events = vec![(GameInstructions::Fire, shooter)];
    actors.process_messages(&events);
    let views = actors.get();
    assert_eq!(views.len(), 1);
    assert_eq!(views[0].parent, 4);
    assert_eq!(views[0].x, 1_000);
    assert_eq!(views[0].y, 2_000);
}

#[test]
fn player_collect_event_replaces_the_token() {
    let mut actors = ActorManager::new();
    actors.new_token();
    let first_token_id = actors.get_collectables()[0].id;
    let player = plain_view(1, 0, 0, 0, 50_000, CollisionType::Collide);
    let events = vec![(GameInstructions::Collect, player)];
    actors.process_messages(&events);
    let tokens = actors.get_collectables();
    assert_eq!(tokens.len(), 1);
    assert_ne!(tokens[0].id, first_token_id);
}

#[test]
fn distant_actors_are_culled_next_update() {
    let mut actors = ActorManager::new();
    actors.new_player();
    let far = plain_view(7, 0, 5_000_000, 0, 150_000, CollisionType::Collide);
    let events = vec![(GameInstructions::NewAsteroid, far)];
    actors.process_messages(&events);
    assert_eq!(actors.get().len(), 3);
    let mut out = Vec::new();
    actors.update(Vec::new(), &mut out);
    let views = actors.get();
    assert_eq!(views.len(), 1);
    assert_eq!(views[0].id, 1);
}

#[test]
fn score_counts_player_collects_only() {
    let mut game = Game::new();
    let player = plain_view(1, 0, 0, 0, 50_000, CollisionType::Collide);
    let other = plain_view(6, 0, 0, 0, 50_000, CollisionType::Collide);
    let events = vec![
        (GameInstructions::Collect, player.clone()),
        (GameInstructions::Collect, other),
        (GameInstructions::Collect, player),
    ];
    game.process_messages(&events);
    assert_eq!(game.score, 2);
    assert_eq!(game.highscore, 2);
    assert_eq!(game.max_players(), 11);
}

#[test]
fn restart_keeps_highscore_and_rebuilds_world() {
    let mut actors = ActorManager::new();
    actors.new_player();
    actors.new_token();
    actors.new_asteroid(100_000, 100_000);
    let mut game = Game::new();
    let player = plain_view(1, 0, 0, 0, 50_000, CollisionType::Collide);
    let events = vec![(GameInstructions::Collect, player)];
    game.process_messages(&events);
    assert_eq!(game.score, 1);

    restart(&mut actors, &mut game);
    assert_eq!(game.score, 0);
    assert_eq!(game.highscore, 1);
    let views = actors.get();
    assert_eq!(views.len(), 2);
    let ships: Vec<_> = views.iter().filter(|v| v.collision_type == CollisionType::Collide).collect();
    let tokens: Vec<_> = views.iter().filter(|v| v.collision_type == CollisionType::Collect).collect();
    assert_eq!(ships.len(), 1);
    assert_eq!(ships[0].id, 1);
    assert_eq!(tokens.len(), 1);
}

#[test]
fn restart_monitor_debounces_three_checks() {
    let mut monitor = RestartMonitor::new();
    assert!(!monitor.observe(true));
    assert!(!monitor.observe(true));
    assert!(!monitor.observe(true));
    assert!(monitor.observe(true));
    assert!(!monitor.observe(false));
    assert!(!monitor.observe(true));
}

#[test]
fn restart_monitor_needs_consecutive_absences() {
    let mut monitor = RestartMonitor::new();
    assert!(!monitor.observe(true));
    assert!(!monitor.observe(true));
    assert!(!monitor.observe(true));
    assert!(!monitor.observe(false));
    assert!(!monitor.observe(true));
    assert!(!monitor.observe(true));
    assert!(!monitor.observe(true));
    assert!(monitor.observe(true));
}

#[test]
fn check_restart_sees_the_player() {
    let mut actors = ActorManager::new();
    assert!(check_restart(&actors));
    actors.new_player();
    assert!(!check_restart(&actors));
}

#[test]
fn camera_follows_player_or_stays() {
    let mut actors = ActorManager::new();
    assert_eq!(get_camera(&actors, (7, 9)), (7, 9));
    actors.new_player();
    assert_eq!(get_camera(&actors, (7, 9)), (0, 0));
}

#[test]
fn spawn_pass_tops_up_population() {
    let mut actors = ActorManager::new();
    actors.new_player();
    generate_actors(&mut actors, (0, 0), 10);
    let total = actors.get().len();
    assert!(total <= 10);
    assert!(total > 1);
    for v in actors.get() {
        if v.id != 1 {
            let dx = v.x as i128;
            let dy = v.y as i128;
            assert!(dx * dx + dy * dy > 6_760_000_000_000);
        }
    }
}

#[test]
fn indicator_clamps_toward_the_screen_edge() {
    let far_token = plain_view(5, 0, 0, 2_000_000, 100_000, CollisionType::Collect);
    assert_eq!(indicator(&far_token, (0, 0)), (0, 1_800_000, 0));

    let near_token = plain_view(5, 0, 0, 1_000_000, 100_000, CollisionType::Collect);
    assert_eq!(indicator(&near_token, (0, 0)), (0, 900_000, 0));

    let east_token = plain_view(5, 0, 1_000_000, 0, 100_000, CollisionType::Collect);
    assert_eq!(indicator(&east_token, (0, 0)), (900_000, 0, 90_000));
}

#[test]
fn integer_trig_matches_known_angles() {
    assert_eq!(sin_milli(0), 0);
    assert_eq!(sin_milli(30_000), 500);
    assert_eq!(sin_milli(90_000), 1000);
    assert_eq!(sin_milli(270_000), -1000);
    assert_eq!(cos_milli(0), 1000);
    assert_eq!(cos_milli(180_000), -1000);
    assert_eq!(atan2_milli(1_000, 0), 90_000);
    assert_eq!(atan2_milli(-1_000, 0), -90_000);
    assert_eq!(atan2_milli(0, -1_000), 180_000);
    assert_eq!(bearing_milli(0, 1_000), 0);
    assert_eq!(bearing_milli(-1_000, 0), 270_000);
    let diag = atan2_milli(1_000, 1_000);
    assert!(diag > 43_000 && diag < 47_000);
}

#[test]
fn aligned_agent_thrusts_and_fires() {
    let ship = plain_view(6, 0, 0, 0, 50_000, CollisionType::Collide);
    let player = plain_view(1, 0, 0, 1_000_000, 50_000, CollisionType::Collide);
    let mut messages: Vec<(i32, PlayerInstructions)> = Vec::new();
    attack_player(&ship, &player, &mut messages);
    assert_eq!(
        messages,
        vec![
            (6, PlayerInstructions::BeginIncreaseThrottle),
            (6, PlayerInstructions::Fire),
            (6, PlayerInstructions::StopRotateLeft),
            (6, PlayerInstructions::StopRotateRight),
        ]
    );
}

#[test]
fn misaligned_agent_turns_toward_player() {
    let ship = plain_view(6, 0, 0, 0, 50_000, CollisionType::Collide);
    let player = plain_view(1, 0, -1_000_000, 0, 50_000, CollisionType::Collide);
    let mut messages: Vec<(i32, PlayerInstructions)> = Vec::new();
    attack_player(&ship, &player, &mut messages);
    assert_eq!(
        messages,
        vec![
            (6, PlayerInstructions::BeginRotateLeft),
            (6, PlayerInstructions::StopRotateRight),
        ]
    );
}

#[test]
fn random_behaviour_pushes_one_bucket() {
    let mut messages: Vec<(i32, PlayerInstructions)> = Vec::new();
    random_behaviour(6, &mut messages);
    assert_eq!(messages.len(), 3);
    for (id, _) in &messages {
        assert_eq!(*id, 6);
    }
}

#[test]
fn background_fills_and_cleans() {
    let mut bg = Background::new();
    bg.generate((0, 0));
    assert_eq!(bg.get().len(), 20);
    bg.cleanup((1_000_000_000, 0));
    assert_eq!(bg.get().len(), 0);
    bg.offscreen_generate((0, 0));
    for star in bg.get() {
        let dx = star.x as i128;
        let dy = star.y as i128;
        assert!(dx * dx + dy * dy > 30_250_000_000_000);
    }
}
