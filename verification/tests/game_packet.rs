use rlbot_core::game::{LiveDataPacket, PlayerEntry, RoundActiveGate, ScoreInfo};

fn player(team: i32, goals: i32) -> PlayerEntry {
    PlayerEntry {
        team,
        score: ScoreInfo {
            score: 0,
            goals,
            own_goals: 0,
            assists: 0,
            saves: 0,
            shots: 0,
            demolitions: 0,
        },
    }
}

#[test]
fn match_score_adds_up_goals_per_team() {
    let packet = LiveDataPacket::new(vec![
        player(0, 2),
        player(1, 1),
        player(0, 3),
        player(1, 0),
    ]);
    let score = packet.match_score();
    assert_eq!(score, [5, 1]);
}

#[test]
fn match_score_of_an_empty_match_is_zero() {
    let packet = LiveDataPacket::new(vec![]);
    assert_eq!(packet.match_score(), [0, 0]);
}

#[test]
fn cars_yields_only_the_live_slots() {
    let bank = vec![player(0, 2), player(1, 1), player(0, 9)];
    let packet = LiveDataPacket {
        game_cars: bank,
        num_cars: 2,
    };
    let cars = packet.cars();
    assert_eq!(cars.len(), 2);
    assert_eq!(cars[0].score.goals, 2);
    assert_eq!(cars[1].score.goals, 1);
}

#[test]
fn round_active_gate_needs_five_consecutive_ticks() {
    let mut gate = RoundActiveGate::new();
    for _ in 0..4 {
        assert!(!gate.observe(true));
    }
    assert!(gate.observe(true));
}

#[test]
fn round_active_gate_starts_over_after_a_gap() {
    let mut gate = RoundActiveGate::new();
    assert!(!gate.observe(true));
    assert!(!gate.observe(true));
    assert!(!gate.observe(false));
    for _ in 0..4 {
        assert!(!gate.observe(true));
    }
    assert!(gate.observe(true));
    // Once open, further active ticks keep it open.
    assert!(gate.observe(true));
}
