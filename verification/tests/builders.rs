use rlbot_core::color::ColorArgs;
use rlbot_core::error::{core_result, RLBotCoreStatus};
use rlbot_core::init::InitOptions;
use rlbot_core::inject::InjectorCode;
use rlbot_core::match_settings::{
    BallSizeOption, BoostOption, LoadoutPaint, MatchLength, MutatorSettings, PlayerLoadout,
    RumbleOption,
};
use rlbot_core::utils::maybe_join;

#[test]
fn loadout_builder_sets_each_field() {
    let loadout = PlayerLoadout::new()
        .team_color_id(27)
        .custom_color_id(75)
        .car_id(23)
        .decal_id(307)
        .wheels_id(1565)
        .boost_id(35)
        .antenna_id(0)
        .hat_id(0)
        .paint_finish_id(1681)
        .custom_finish_id(1681)
        .engine_audio_id(0)
        .trails_id(3220)
        .goal_explosion_id(3018);
    assert_eq!(loadout.team_color_id, 27);
    assert_eq!(loadout.custom_color_id, 75);
    assert_eq!(loadout.car_id, 23);
    assert_eq!(loadout.decal_id, 307);
    assert_eq!(loadout.wheels_id, 1565);
    assert_eq!(loadout.boost_id, 35);
    assert_eq!(loadout.paint_finish_id, 1681);
    assert_eq!(loadout.trails_id, 3220);
    assert_eq!(loadout.goal_explosion_id, 3018);
    // Untouched fields keep their defaults.
    assert_eq!(loadout.antenna_id, 0);
    assert_eq!(loadout.loadout_paint, LoadoutPaint::new());
}

#[test]
fn loadout_paint_builder_sets_each_field() {
    let paint = LoadoutPaint::new()
        .car_paint_id(12)
        .decal_paint_id(9)
        .wheels_paint_id(7)
        .boost_paint_id(1)
        .antenna_paint_id(2)
        .hat_paint_id(3)
        .trails_paint_id(4)
        .goal_explosion_paint_id(5);
    assert_eq!(paint.car_paint_id, 12);
    assert_eq!(paint.decal_paint_id, 9);
    assert_eq!(paint.wheels_paint_id, 7);
    assert_eq!(paint.boost_paint_id, 1);
    assert_eq!(paint.antenna_paint_id, 2);
    assert_eq!(paint.hat_paint_id, 3);
    assert_eq!(paint.trails_paint_id, 4);
    assert_eq!(paint.goal_explosion_paint_id, 5);
}

#[test]
fn mutator_builder_replaces_only_the_named_setting() {
    let mutators = MutatorSettings::new()
        .match_length(MatchLength::TenMinutes)
        .ball_size_option(BallSizeOption::Gigantic)
        .rumble_option(RumbleOption::SpikesOnly);
    assert_eq!(mutators.match_length, MatchLength::TenMinutes);
    assert_eq!(mutators.ball_size_option, BallSizeOption::Gigantic);
    assert_eq!(mutators.rumble_option, RumbleOption::SpikesOnly);
    // The rest keeps the standard configuration.
    assert_eq!(mutators.boost_option, BoostOption::NormalBoost);
    assert_eq!(mutators.max_score, MutatorSettings::new().max_score);
}

#[test]
fn colors_carry_their_channels() {
    let c = ColorArgs::argb(127, 0, 10, 255);
    assert_eq!((c.a, c.r, c.g, c.b), (127, 0, 10, 255));
    let green = ColorArgs::rgb(0, 255, 0);
    assert_eq!((green.a, green.r, green.g, green.b), (255, 0, 255, 0));
}

#[test]
fn init_options_select_a_directory() {
    let options = InitOptions::new();
    assert!(options.directory().is_none());
    let options = options.rlbot_dll_directory("/tmp/rlbot".to_string());
    assert_eq!(options.directory().as_deref(), Some("/tmp/rlbot"));
}

#[test]
fn injector_codes_round_trip_and_classify() {
    assert_eq!(
        InjectorCode::from_exit_code(0),
        Some(InjectorCode::InjectionSuccessful)
    );
    assert_eq!(
        InjectorCode::from_exit_code(3),
        Some(InjectorCode::RLBotDLLAlreadyInjected)
    );
    assert_eq!(InjectorCode::from_exit_code(6), None);
    assert_eq!(InjectorCode::from_exit_code(-1), None);

    assert!(InjectorCode::InjectionSuccessful.accept().is_ok());
    assert!(InjectorCode::RLBotDLLAlreadyInjected.accept().is_ok());
    assert_eq!(
        InjectorCode::InjectionFailed.accept(),
        Err(InjectorCode::InjectionFailed)
    );
    assert_eq!(
        InjectorCode::RLBotDLLNotFound.accept(),
        Err(InjectorCode::RLBotDLLNotFound)
    );
}

#[test]
fn core_result_wraps_every_failure_status() {
    assert!(core_result(RLBotCoreStatus::Success).is_ok());
    let err = core_result(RLBotCoreStatus::InvalidTeam).unwrap_err();
    assert_eq!(err.status, RLBotCoreStatus::InvalidTeam);
}

#[test]
fn maybe_join_joins_only_under_a_base() {
    assert_eq!(maybe_join(Some("/tmp"), "RLBot_Injector"), "/tmp/RLBot_Injector");
    assert_eq!(maybe_join(None, "RLBot_Injector"), "RLBot_Injector");
}
