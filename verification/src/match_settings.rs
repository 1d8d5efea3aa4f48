//! Match-configuration values: a player's loadout (car body, decals and
//! other cosmetics, each an integer item id), the painted variants of those
//! items, and the mutator settings of a match.
//!
//! These are plain data carried to the external interface when a match is
//! started; each builder method replaces one field and leaves every other
//! field as it was.

use vstd::prelude::*;

verus! {

#[derive(Clone, Copy, Debug, PartialEq, Eq, Structural)]
pub enum MatchLength {
    FiveMinutes,
    TenMinutes,
    TwentyMinutes,
    Unlimited,
}

#[derive(Clone, Copy, Debug, PartialEq, Eq, Structural)]
pub enum MaxScore {
    Unlimited,
    OneGoal,
    ThreeGoals,
    FiveGoals,
}

#[derive(Clone, Copy, Debug, PartialEq, Eq, Structural)]
pub enum OvertimeOption {
    Unlimited,
    FiveMaxFirstScore,
    FiveMaxRandomTeam,
}

#[derive(Clone, Copy, Debug, PartialEq, Eq, Structural)]
pub enum SeriesLengthOption {
    Unlimited,
    ThreeGames,
    FiveGames,
    SevenGames,
}

#[derive(Clone, Copy, Debug, PartialEq, Eq, Structural)]
pub enum GameSpeedOption {
    Regular,
    SloMo,
    TimeWarp,
}

#[derive(Clone, Copy, Debug, PartialEq, Eq, Structural)]
pub enum BallMaxSpeedOption {
    Regular,
    Slow,
    Fast,
    SuperFast,
}

#[derive(Clone, Copy, Debug, PartialEq, Eq, Structural)]
pub enum BallTypeOption {
    Regular,
    Cube,
    Puck,
    Basketball,
}

#[derive(Clone, Copy, Debug, PartialEq, Eq, Structural)]
pub enum BallWeightOption {
    Regular,
    Light,
    Heavy,
    SuperLight,
}

#[derive(Clone, Copy, Debug, PartialEq, Eq, Structural)]
pub enum BallSizeOption {
    Regular,
    Small,
    Large,
    Gigantic,
}

#[derive(Clone, Copy, Debug, PartialEq, Eq, Structural)]
pub enum BallBouncinessOption {
    Regular,
    Low,
    High,
    SuperHigh,
}

#[derive(Clone, Copy, Debug, PartialEq, Eq, Structural)]
pub enum BoostOption {
    NormalBoost,
    UnlimitedBoost,
    SlowRecharge,
    RapidRecharge,
    NoBoost,
}

#[derive(Clone, Copy, Debug, PartialEq, Eq, Structural)]
pub enum RumbleOption {
    NoRumble,
    DefaultRumble,
    Slow,
    Civilized,
    DestructionDerby,
    SpringLoaded,
    SpikesOnly,
}

#[derive(Clone, Copy, Debug, PartialEq, Eq, Structural)]
pub enum BoostStrengthOption {
    One,
    OneAndAHalf,
    Two,
    Ten,
}

#[derive(Clone, Copy, Debug, PartialEq, Eq, Structural)]
pub enum GravityOption {
    Regular,
    Low,
    High,
    SuperHigh,
}

#[derive(Clone, Copy, Debug, PartialEq, Eq, Structural)]
pub enum DemolishOption {
    Regular,
    Disabled,
    FriendlyFire,
    OnContact,
    OnContactFF,
}

#[derive(Clone, Copy, Debug, PartialEq, Eq, Structural)]
pub enum RespawnTimeOption {
    ThreeSeconds,
    TwoSeconds,
    OneSecond,
    DisableGoalReset,
}

/// The car type, colors, and other cosmetic aspects of a player's
/// appearance, each chosen by an integer item id.
#[derive(Clone, Copy, Debug, PartialEq, Eq, Structural)]
pub struct PlayerLoadout {
    pub team_color_id: i32,
    pub custom_color_id: i32,
    pub car_id: i32,
    pub decal_id: i32,
    pub wheels_id: i32,
    pub boost_id: i32,
    pub antenna_id: i32,
    pub hat_id: i32,
    pub paint_finish_id: i32,
    pub custom_finish_id: i32,
    pub engine_audio_id: i32,
    pub trails_id: i32,
    pub goal_explosion_id: i32,
    pub loadout_paint: LoadoutPaint,
}

impl Default for PlayerLoadout {
    /// Every item id zero, and an all-zero paint selection.
    fn default() -> (r: Self)
        ensures
            r == PlayerLoadout::zeroed(),
    {
        PlayerLoadout {
            team_color_id: 0,
            custom_color_id: 0,
            car_id: 0,
            decal_id: 0,
            wheels_id: 0,
            boost_id: 0,
            antenna_id: 0,
            hat_id: 0,
            paint_finish_id: 0,
            custom_finish_id: 0,
            engine_audio_id: 0,
            trails_id: 0,
            goal_explosion_id: 0,
            loadout_paint: LoadoutPaint::default(),
        }
    }
}

impl PlayerLoadout {
    /// The all-zero loadout.
    pub open spec fn zeroed() -> PlayerLoadout {
        PlayerLoadout {
            team_color_id: 0,
            custom_color_id: 0,
            car_id: 0,
            decal_id: 0,
            wheels_id: 0,
            boost_id: 0,
            antenna_id: 0,
            hat_id: 0,
            paint_finish_id: 0,
            custom_finish_id: 0,
            engine_audio_id: 0,
            trails_id: 0,
            goal_explosion_id: 0,
            loadout_paint: LoadoutPaint::zeroed(),
        }
    }

    pub fn new() -> (r: Self)
        ensures
            r == PlayerLoadout::zeroed(),
    {
        Self::default()
    }

    pub fn team_color_id(self, team_color_id: i32) -> (r: Self)
        ensures
            r == (PlayerLoadout { team_color_id, ..self }),
    {
        PlayerLoadout { team_color_id, ..self }
    }

    pub fn custom_color_id(self, custom_color_id: i32) -> (r: Self)
        ensures
            r == (PlayerLoadout { custom_color_id, ..self }),
    {
        PlayerLoadout { custom_color_id, ..self }
    }

    pub fn car_id(self, car_id: i32) -> (r: Self)
        ensures
            r == (PlayerLoadout { car_id, ..self }),
    {
        PlayerLoadout { car_id, ..self }
    }

    pub fn decal_id(self, decal_id: i32) -> (r: Self)
        ensures
            r == (PlayerLoadout { decal_id, ..self }),
    {
        PlayerLoadout { decal_id, ..self }
    }

    pub fn wheels_id(self, wheels_id: i32) -> (r: Self)
        ensures
            r == (PlayerLoadout { wheels_id, ..self }),
    {
        PlayerLoadout { wheels_id, ..self }
    }

    pub fn boost_id(self, boost_id: i32) -> (r: Self)
        ensures
            r == (PlayerLoadout { boost_id, ..self }),
    {
        PlayerLoadout { boost_id, ..self }
    }

    pub fn antenna_id(self, antenna_id: i32) -> (r: Self)
        ensures
            r == (PlayerLoadout { antenna_id, ..self }),
    {
        PlayerLoadout { antenna_id, ..self }
    }

    pub fn hat_id(self, hat_id: i32) -> (r: Self)
        ensures
            r == (PlayerLoadout { hat_id, ..self }),
    {
        PlayerLoadout { hat_id, ..self }
    }

    pub fn paint_finish_id(self, paint_finish_id: i32) -> (r: Self)
        ensures
            r == (PlayerLoadout { paint_finish_id, ..self }),
    {
        PlayerLoadout { paint_finish_id, ..self }
    }

    pub fn custom_finish_id(self, custom_finish_id: i32) -> (r: Self)
        ensures
            r == (PlayerLoadout { custom_finish_id, ..self }),
    {
        PlayerLoadout { custom_finish_id, ..self }
    }

    pub fn engine_audio_id(self, engine_audio_id: i32) -> (r: Self)
        ensures
            r == (PlayerLoadout { engine_audio_id, ..self }),
    {
        PlayerLoadout { engine_audio_id, ..self }
    }

    pub fn trails_id(self, trails_id: i32) -> (r: Self)
        ensures
            r == (PlayerLoadout { trails_id, ..self }),
    {
        PlayerLoadout { trails_id, ..self }
    }

    pub fn goal_explosion_id(self, goal_explosion_id: i32) -> (r: Self)
        ensures
            r == (PlayerLoadout { goal_explosion_id, ..self }),
    {
        PlayerLoadout { goal_explosion_id, ..self }
    }

    pub fn loadout_paint(self, loadout_paint: LoadoutPaint) -> (r: Self)
        ensures
            r == (PlayerLoadout { loadout_paint, ..self }),
    {
        PlayerLoadout { loadout_paint, ..self }
    }
}

/// The painted variant chosen for each loadout item.
#[derive(Clone, Copy, Debug, PartialEq, Eq, Structural)]
pub struct LoadoutPaint {
    pub car_paint_id: i32,
    pub decal_paint_id: i32,
    pub wheels_paint_id: i32,
    pub boost_paint_id: i32,
    pub antenna_paint_id: i32,
    pub hat_paint_id: i32,
    pub trails_paint_id: i32,
    pub goal_explosion_paint_id: i32,
}

impl Default for LoadoutPaint {
    /// Every paint id zero.
    fn default() -> (r: Self)
        ensures
            r == LoadoutPaint::zeroed(),
    {
        LoadoutPaint {
            car_paint_id: 0,
            decal_paint_id: 0,
            wheels_paint_id: 0,
            boost_paint_id: 0,
            antenna_paint_id: 0,
            hat_paint_id: 0,
            trails_paint_id: 0,
            goal_explosion_paint_id: 0,
        }
    }
}

impl LoadoutPaint {
    /// The all-zero paint selection.
    pub open spec fn zeroed() -> LoadoutPaint {
        LoadoutPaint {
            car_paint_id: 0,
            decal_paint_id: 0,
            wheels_paint_id: 0,
            boost_paint_id: 0,
            antenna_paint_id: 0,
            hat_paint_id: 0,
            trails_paint_id: 0,
            goal_explosion_paint_id: 0,
        }
    }

    pub fn new() -> (r: Self)
        ensures
            r == LoadoutPaint::zeroed(),
    {
        Self::default()
    }

    pub fn car_paint_id(self, car_paint_id: i32) -> (r: Self)
        ensures
            r == (LoadoutPaint { car_paint_id, ..self }),
    {
        LoadoutPaint { car_paint_id, ..self }
    }

    pub fn decal_paint_id(self, decal_paint_id: i32) -> (r: Self)
        ensures
            r == (LoadoutPaint { decal_paint_id, ..self }),
    {
        LoadoutPaint { decal_paint_id, ..self }
    }

    pub fn wheels_paint_id(self, wheels_paint_id: i32) -> (r: Self)
        ensures
            r == (LoadoutPaint { wheels_paint_id, ..self }),
    {
        LoadoutPaint { wheels_paint_id, ..self }
    }

    pub fn boost_paint_id(self, boost_paint_id: i32) -> (r: Self)
        ensures
            r == (LoadoutPaint { boost_paint_id, ..self }),
    {
        LoadoutPaint { boost_paint_id, ..self }
    }

    pub fn antenna_paint_id(self, antenna_paint_id: i32) -> (r: Self)
        ensures
            r == (LoadoutPaint { antenna_paint_id, ..self }),
    {
        LoadoutPaint { antenna_paint_id, ..self }
    }

    pub fn hat_paint_id(self, hat_paint_id: i32) -> (r: Self)
        ensures
            r == (LoadoutPaint { hat_paint_id, ..self }),
    {
        LoadoutPaint { hat_paint_id, ..self }
    }

    pub fn trails_paint_id(self, trails_paint_id: i32) -> (r: Self)
        ensures
            r == (LoadoutPaint { trails_paint_id, ..self }),
    {
        LoadoutPaint { trails_paint_id, ..self }
    }

    pub fn goal_explosion_paint_id(self, goal_explosion_paint_id: i32) -> (r: Self)
        ensures
            r == (LoadoutPaint { goal_explosion_paint_id, ..self }),
    {
        LoadoutPaint { goal_explosion_paint_id, ..self }
    }
}

/// The mutator settings of a match.
#[derive(Clone, Copy, Debug, PartialEq, Eq, Structural)]
pub struct MutatorSettings {
    pub match_length: MatchLength,
    pub max_score: MaxScore,
    pub overtime_option: OvertimeOption,
    pub series_length_option: SeriesLengthOption,
    pub game_speed_option: GameSpeedOption,
    pub ball_max_speed_option: BallMaxSpeedOption,
    pub ball_type_option: BallTypeOption,
    pub ball_weight_option: BallWeightOption,
    pub ball_size_option: BallSizeOption,
    pub ball_bounciness_option: BallBouncinessOption,
    pub boost_option: BoostOption,
    pub rumble_option: RumbleOption,
    pub boost_strength_option: BoostStrengthOption,
    pub gravity_option: GravityOption,
    pub demolish_option: DemolishOption,
    pub respawn_time_option: RespawnTimeOption,
}

impl MutatorSettings {
    /// An ordinary match: five minutes, unlimited score, regular physics.
    pub open spec fn standard() -> MutatorSettings {
        MutatorSettings {
            match_length: MatchLength::FiveMinutes,
            max_score: MaxScore::Unlimited,
            overtime_option: OvertimeOption::Unlimited,
            series_length_option: SeriesLengthOption::Unlimited,
            game_speed_option: GameSpeedOption::Regular,
            ball_max_speed_option: BallMaxSpeedOption::Regular,
            ball_type_option: BallTypeOption::Regular,
            ball_weight_option: BallWeightOption::Regular,
            ball_size_option: BallSizeOption::Regular,
            ball_bounciness_option: BallBouncinessOption::Regular,
            boost_option: BoostOption::NormalBoost,
            rumble_option: RumbleOption::NoRumble,
            boost_strength_option: BoostStrengthOption::One,
            gravity_option: GravityOption::Regular,
            demolish_option: DemolishOption::Regular,
            respawn_time_option: RespawnTimeOption::ThreeSeconds,
        }
    }
}

impl Default for MutatorSettings {
    /// The ordinary match settings of [`MutatorSettings::standard`].
    fn default() -> (r: Self)
        ensures
            r == MutatorSettings::standard(),
    {
        MutatorSettings {
            match_length: MatchLength::FiveMinutes,
            max_score: MaxScore::Unlimited,
            overtime_option: OvertimeOption::Unlimited,
            series_length_option: SeriesLengthOption::Unlimited,
            game_speed_option: GameSpeedOption::Regular,
            ball_max_speed_option: BallMaxSpeedOption::Regular,
            ball_type_option: BallTypeOption::Regular,
            ball_weight_option: BallWeightOption::Regular,
            ball_size_option: BallSizeOption::Regular,
            ball_bounciness_option: BallBouncinessOption::Regular,
            boost_option: BoostOption::NormalBoost,
            rumble_option: RumbleOption::NoRumble,
            boost_strength_option: BoostStrengthOption::One,
            gravity_option: GravityOption::Regular,
            demolish_option: DemolishOption::Regular,
            respawn_time_option: RespawnTimeOption::ThreeSeconds,
        }
    }
}

impl MutatorSettings {
    pub fn new() -> (r: Self)
        ensures
            r == MutatorSettings::standard(),
    {
        Self::default()
    }

    pub fn match_length(self, match_length: MatchLength) -> (r: Self)
        ensures
            r == (MutatorSettings { match_length, ..self }),
    {
        MutatorSettings { match_length, ..self }
    }

    pub fn max_score(self, max_score: MaxScore) -> (r: Self)
        ensures
            r == (MutatorSettings { max_score, ..self }),
    {
        MutatorSettings { max_score, ..self }
    }

    pub fn overtime_option(self, overtime_option: OvertimeOption) -> (r: Self)
        ensures
            r == (MutatorSettings { overtime_option, ..self }),
    {
        MutatorSettings { overtime_option, ..self }
    }

    pub fn series_length_option(self, series_length_option: SeriesLengthOption) -> (r: Self)
        ensures
            r == (MutatorSettings { series_length_option, ..self }),
    {
        MutatorSettings { series_length_option, ..self }
    }

    pub fn game_speed_option(self, game_speed_option: GameSpeedOption) -> (r: Self)
        ensures
            r == (MutatorSettings { game_speed_option, ..self }),
    {
        MutatorSettings { game_speed_option, ..self }
    }

    pub fn ball_max_speed_option(self, ball_max_speed_option: BallMaxSpeedOption) -> (r: Self)
        ensures
            r == (MutatorSettings { ball_max_speed_option, ..self }),
    {
        MutatorSettings { ball_max_speed_option, ..self }
    }

    pub fn ball_type_option(self, ball_type_option: BallTypeOption) -> (r: Self)
        ensures
            r == (MutatorSettings { ball_type_option, ..self }),
    {
        MutatorSettings { ball_type_option, ..self }
    }

    pub fn ball_weight_option(self, ball_weight_option: BallWeightOption) -> (r: Self)
        ensures
            r == (MutatorSettings { ball_weight_option, ..self }),
    {
        MutatorSettings { ball_weight_option, ..self }
    }

    pub fn ball_size_option(self, ball_size_option: BallSizeOption) -> (r: Self)
        ensures
            r == (MutatorSettings { ball_size_option, ..self }),
    {
        MutatorSettings { ball_size_option, ..self }
    }

    pub fn ball_bounciness_option(self, ball_bounciness_option: BallBouncinessOption) -> (r: Self)
        ensures
            r == (MutatorSettings { ball_bounciness_option, ..self }),
    {
        MutatorSettings { ball_bounciness_option, ..self }
    }

    pub fn boost_option(self, boost_option: BoostOption) -> (r: Self)
        ensures
            r == (MutatorSettings { boost_option, ..self }),
    {
        MutatorSettings { boost_option, ..self }
    }

    pub fn rumble_option(self, rumble_option: RumbleOption) -> (r: Self)
        ensures
            r == (MutatorSettings { rumble_option, ..self }),
    {
        MutatorSettings { rumble_option, ..self }
    }

    pub fn boost_strength_option(self, boost_strength_option: BoostStrengthOption) -> (r: Self)
        ensures
            r == (MutatorSettings { boost_strength_option, ..self }),
    {
        MutatorSettings { boost_strength_option, ..self }
    }

    pub fn gravity_option(self, gravity_option: GravityOption) -> (r: Self)
        ensures
            r == (MutatorSettings { gravity_option, ..self }),
    {
        MutatorSettings { gravity_option, ..self }
    }

    pub fn demolish_option(self, demolish_option: DemolishOption) -> (r: Self)
        ensures
            r == (MutatorSettings { demolish_option, ..self }),
    {
        MutatorSettings { demolish_option, ..self }
    }

    pub fn respawn_time_option(self, respawn_time_option: RespawnTimeOption) -> (r: Self)
        ensures
            r == (MutatorSettings { respawn_time_option, ..self }),
    {
        MutatorSettings { respawn_time_option, ..self }
    }
}

} // verus!
