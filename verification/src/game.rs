use vstd::prelude::*;

use crate::menu::{GameLevelRes, GameSelectedLevel};

verus! {

// The fall intervals are durations made from single-precision seconds (1.1 s,
// 0.725 s, 0.4 s and 0.1 s), rounded to the nearest nanosecond, so each is a
// few nanoseconds above the decimal value.

/// Time between two automatic one-row falls on `Easy`, in nanoseconds (1.1 s in single precision).
pub const DEFAULT_EASY_FALL_INTERVAL: u64 = 1_100_000_024;

/// Time between two automatic one-row falls on `Normal`, in nanoseconds (0.725 s in single precision).
pub const DEFAULT_NORMAL_FALL_INTERVAL: u64 = 725_000_024;

/// Time between two automatic one-row falls on `Hard`, in nanoseconds (0.4 s in single precision).
pub const DEFAULT_HARD_FALL_INTERVAL: u64 = 400_000_006;

/// Time between two one-row falls while the soft-drop key is held, in nanoseconds (0.1 s in single precision).
pub const MAX_FALL_INTERVAL: u64 = 100_000_001;

/// The longest fall interval, in nanoseconds, whose length in seconds rounded to
/// single precision is not above the soft-drop interval of 0.1 s; pressing the
/// soft-drop key speeds up only intervals longer than this.
pub const SOFT_DROP_LIMIT: u64 = 100_000_004;

/// The score, level and cleared-line count kept for the game-over screen.
#[derive(Clone, Copy, Debug, PartialEq, Eq, Structural)]
pub struct GameScoresRes {
    pub level: usize,
    pub score: usize,
    pub lines: usize,
}

impl GameScoresRes {
    /// The record before any game has been played.
    pub fn new() -> (res: GameScoresRes)
        ensures
            res == (GameScoresRes { level: 0, score: 0, lines: 0 }),
    {
        GameScoresRes { level: 0, score: 0, lines: 0 }
    }
}

/// The counters shown beside the board: the score, the cleared lines and the
/// level. A counter that is not on screen is `None`; it is then neither read nor
/// updated, and its default (0 lines, level 1, score 0) is used in its place.
#[derive(Clone, Copy, Debug, PartialEq, Eq, Structural)]
pub struct ScoreBoard {
    pub score: Option<usize>,
    pub lines: Option<usize>,
    pub level: Option<usize>,
}

impl ScoreBoard {
    /// The counters at the start of a game: no score, no lines, level 1.
    pub fn new() -> (res: ScoreBoard)
        ensures
            res == (ScoreBoard { score: Some(0), lines: Some(0), level: Some(1) }),
    {
        ScoreBoard { score: Some(0), lines: Some(0), level: Some(1) }
    }
}

/// The display and randomisation options that the chosen difficulty sets.
#[derive(Clone, Copy, Debug, PartialEq, Eq, Structural)]
pub struct GameOptions {
    /// Draw the ghost of the moving brick where it would land.
    pub show_shadow_brick: bool,
    /// Draw the grid lines between board cells.
    pub show_board_lines: bool,
    /// Deal bricks from shuffled bags of all seven shapes.
    pub seven_bag_randomization: bool,
}

impl GameOptions {
    /// All options on, as before any difficulty has been chosen.
    pub fn new() -> (res: GameOptions)
        ensures
            res.show_shadow_brick,
            res.show_board_lines,
            res.seven_bag_randomization,
    {
        GameOptions { show_shadow_brick: true, show_board_lines: true, seven_bag_randomization: true }
    }
}

/// The options of a difficulty: `Easy` keeps all helps, `Normal` hides the shadow
/// brick, `Hard` also hides the grid lines and deals bricks purely at random.
pub open spec fn options_for(level: GameSelectedLevel) -> GameOptions {
    match level {
        GameSelectedLevel::Easy => GameOptions {
            show_shadow_brick: true,
            show_board_lines: true,
            seven_bag_randomization: true,
        },
        GameSelectedLevel::Normal => GameOptions {
            show_shadow_brick: false,
            show_board_lines: true,
            seven_bag_randomization: true,
        },
        GameSelectedLevel::Hard => GameOptions {
            show_shadow_brick: false,
            show_board_lines: false,
            seven_bag_randomization: false,
        },
    }
}

/// The fall interval a game starts with at a difficulty.
pub open spec fn base_fall_interval(level: GameSelectedLevel) -> u64 {
    match level {
        GameSelectedLevel::Easy => DEFAULT_EASY_FALL_INTERVAL,
        GameSelectedLevel::Normal => DEFAULT_NORMAL_FALL_INTERVAL,
        GameSelectedLevel::Hard => DEFAULT_HARD_FALL_INTERVAL,
    }
}

/// Sets `flag` to `new` if it holds `current`, and reports what it held:
/// `Ok` when it was swapped, `Err` with the value found otherwise.
fn compare_exchange_flag(flag: &mut bool, current: bool, new: bool) -> (res: Result<bool, bool>)
    ensures
        *old(flag) == current ==> *final(flag) == new && res == Ok::<bool, bool>(current),
        *old(flag) != current ==> *final(flag) == *old(flag) && res == Err::<bool, bool>(*old(flag)),
{
    if *flag == current {
        *flag = new;
        Ok(current)
    } else {
        Err(*flag)
    }
}

/// Prepares a new game at the chosen difficulty: sets the options of that
/// difficulty, clears the recorded scores (at level 1) and returns the fall
/// interval the game starts with.
pub fn setup_game_data(
    game_level: &GameLevelRes,
    options: &mut GameOptions,
    game_scores_stored: &mut GameScoresRes,
) -> (duration: u64)
    ensures
        *final(options) == options_for(game_level.0),
        duration == base_fall_interval(game_level.0),
        *final(game_scores_stored) == (GameScoresRes { level: 1, score: 0, lines: 0 }),
{
    let duration: u64;
    match game_level.0 {
        GameSelectedLevel::Easy => {
            duration = DEFAULT_EASY_FALL_INTERVAL;
            let _ = compare_exchange_flag(&mut options.show_shadow_brick, false, true);
            let _ = compare_exchange_flag(&mut options.show_board_lines, false, true);
            let _ = compare_exchange_flag(&mut options.seven_bag_randomization, false, true);
        },
        GameSelectedLevel::Normal => {
            duration = DEFAULT_NORMAL_FALL_INTERVAL;
            let _ = compare_exchange_flag(&mut options.show_shadow_brick, true, false);
            let _ = compare_exchange_flag(&mut options.show_board_lines, false, true);
            let _ = compare_exchange_flag(&mut options.seven_bag_randomization, false, true);
        },
        GameSelectedLevel::Hard => {
            duration = DEFAULT_HARD_FALL_INTERVAL;
            let _ = compare_exchange_flag(&mut options.show_shadow_brick, true, false);
            let _ = compare_exchange_flag(&mut options.show_board_lines, true, false);
            let _ = compare_exchange_flag(&mut options.seven_bag_randomization, true, false);
        },
    }
    game_scores_stored.level = 1;
    game_scores_stored.score = 0;
    game_scores_stored.lines = 0;
    duration
}

/// A harder difficulty lets bricks fall faster, and soft drop is faster than any difficulty.
pub proof fn harder_levels_fall_faster()
    ensures
        base_fall_interval(GameSelectedLevel::Easy) > base_fall_interval(GameSelectedLevel::Normal),
        base_fall_interval(GameSelectedLevel::Normal) > base_fall_interval(GameSelectedLevel::Hard),
        base_fall_interval(GameSelectedLevel::Hard) > SOFT_DROP_LIMIT,
        SOFT_DROP_LIMIT >= MAX_FALL_INTERVAL,
{
}

/// How a landing ends: the next brick no longer fits at its entry position, or it enters.
#[derive(Clone, Copy, Debug, PartialEq, Eq, Structural)]
pub enum LandingOutcome {
    GameOver,
    NextBrick,
}

/// The value of a counter, or `default` when it is not on screen.
pub open spec fn counter_or(counter: Option<usize>, default: usize) -> usize {
    match counter {
        Some(v) => v,
        None => default,
    }
}

/// The line total after `cleaned` more lines: the line counter plus `cleaned`,
/// or 0 when the line counter is not on screen.
pub open spec fn lines_after(lines: Option<usize>, cleaned: usize) -> int {
    match lines {
        Some(l) => l + cleaned,
        None => 0,
    }
}

/// Whether `level` is a level the landing can reach: a value of `level_of(total)`
/// when the level counter is on screen, and 1 when it is not.
pub open spec fn reachable_level<F: Fn(usize) -> usize>(
    level_counter: Option<usize>,
    level_of: F,
    total: usize,
    level: usize,
) -> bool {
    match level_counter {
        Some(_) => call_ensures(level_of, (total,), level),
        None => level == 1,
    }
}

impl ScoreBoard {
    /// Finishes the landing of a brick once the board has absorbed it and removed
    /// `cleaned_lines` full lines. If the next brick does not fit at its entry
    /// position the game is over and nothing is counted. Otherwise, when lines
    /// were cleared: the line counter grows by `cleaned_lines`, the level counter
    /// becomes `level_of(total lines)`, the score counter grows by
    /// `points_of(level, cleaned_lines)`, and the record kept for the game-over
    /// screen takes the three values (0 lines, level 1 and score 0 standing in
    /// for counters that are not on screen).
    pub fn settle_landing<F: Fn(usize) -> usize, G: Fn(usize, usize) -> usize>(
        &mut self,
        game_scores_stored: &mut GameScoresRes,
        next_brick_fits: bool,
        cleaned_lines: usize,
        level_of: F,
        points_of: G,
    ) -> (outcome: LandingOutcome)
        requires
            next_brick_fits && cleaned_lines > 0 ==> {
                let total = lines_after(old(self).lines, cleaned_lines);
                &&& total <= usize::MAX
                &&& old(self).level is Some ==> call_requires(level_of, (total as usize,))
                &&& old(self).score is Some ==> forall|level: usize|
                    #[trigger] reachable_level(old(self).level, level_of, total as usize, level) ==> {
                        &&& call_requires(points_of, (level, cleaned_lines))
                        &&& forall|r: usize| #[trigger] call_ensures(points_of, (level, cleaned_lines), r)
                            ==> old(self).score.unwrap() + r <= usize::MAX
                    }
            },
        ensures
            !next_brick_fits ==> outcome == LandingOutcome::GameOver && *final(self) == *old(self)
                && *final(game_scores_stored) == *old(game_scores_stored),
            next_brick_fits ==> outcome == LandingOutcome::NextBrick,
            next_brick_fits && cleaned_lines == 0 ==> *final(self) == *old(self)
                && *final(game_scores_stored) == *old(game_scores_stored),
            next_brick_fits && cleaned_lines > 0 ==> {
                let total = counter_or(final(self).lines, 0);
                let level = counter_or(final(self).level, 1);
                &&& final(self).lines == (match old(self).lines {
                    Some(l) => Some((l + cleaned_lines) as usize),
                    None => None,
                })
                &&& final(self).level is Some <==> old(self).level is Some
                &&& final(self).level is Some ==> call_ensures(level_of, (total,), level)
                &&& final(self).score is Some <==> old(self).score is Some
                &&& final(self).score is Some ==> {
                    &&& final(self).score.unwrap() >= old(self).score.unwrap()
                    &&& call_ensures(points_of, (level, cleaned_lines),
                        (final(self).score.unwrap() - old(self).score.unwrap()) as usize)
                }
                &&& *final(game_scores_stored) == (GameScoresRes {
                    level,
                    score: counter_or(final(self).score, 0),
                    lines: total,
                })
            },
    {
        if !next_brick_fits {
            return LandingOutcome::GameOver;
        }
        if cleaned_lines > 0 {
            let mut all_cleaned_lines: usize = 0;
            let mut level: usize = 1;
            let mut scores: usize = 0;
            if let Some(lines) = self.lines {
                let total = lines + cleaned_lines;
                self.lines = Some(total);
                all_cleaned_lines = total;
            }
            if let Some(_) = self.level {
                let new_level = level_of(all_cleaned_lines);
                self.level = Some(new_level);
                level = new_level;
            }
            if let Some(score) = self.score {
                assert(reachable_level(old(self).level, level_of, lines_after(old(self).lines, cleaned_lines) as usize, level));
                let points = points_of(level, cleaned_lines);
                let total = score + points;
                self.score = Some(total);
                scores = total;
            }
            game_scores_stored.level = level;
            game_scores_stored.score = scores;
            game_scores_stored.lines = all_cleaned_lines;
        }
        LandingOutcome::NextBrick
    }
}

} // verus!
