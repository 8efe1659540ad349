//! Tests for the timers, configuration, scoring, leveling, scene results
//! and menu navigation.

use tetrs::config::ConfigBuilder;
use tetrs::leveling::{DefaultLevelingSystem, Level, LevelMetaData, LevelingSystem};
use tetrs::menu::{create_main_menu, create_pause_menu, Menu, MenuInput};
use tetrs::scene::{MenuResult, SceneResult};
use tetrs::scoring::{DefaultScoringSystem, Score, ScoreMetaData, ScoringSystem};
use tetrs::timer::Timer;

#[test]
fn timer_fresh_fires_after_one_interval() {
    let t = Timer::new(100);
    assert!(!t.elapsed(0));
    assert!(!t.elapsed(99));
    assert!(t.elapsed(100));
    assert!(t.elapsed(5000));
}

#[test]
fn timer_reset_then_elapsed_without_advance_is_false() {
    let mut t = Timer::new(100);
    t.reset(400, None);
    assert!(!t.elapsed(400));
}

#[test]
fn timer_elapsed_after_advancing_by_exactly_the_interval() {
    let mut t = Timer::new(100);
    t.reset(400, None);
    assert!(!t.elapsed(499));
    assert!(t.elapsed(500));
}

#[test]
fn timer_reset_with_new_interval() {
    let mut t = Timer::new(100);
    t.reset(0, Some(250));
    assert!(!t.elapsed(249));
    assert!(t.elapsed(250));
}

#[test]
fn timer_stopped_never_fires() {
    let mut t = Timer::new(100);
    t.stop();
    assert!(!t.elapsed(100));
    assert!(!t.elapsed(u64::MAX));
    t.reset(200, None);
    assert!(t.elapsed(300));
}

#[test]
fn config_builder_defaults() {
    let config = ConfigBuilder::new().build();
    assert_eq!(config.grid_size, (10, 22));
    assert_eq!(config.drop_time_ms, 500);
    assert_eq!(config.lock_step_time_ms, 500);
    assert_eq!(config.drop_factor_ms, 100);
    assert!(!config.shadow_enabled);
}

#[test]
fn config_builder_setters() {
    let config = ConfigBuilder::new()
        .grid_size((10, 22))
        .drop_time(300)
        .lock_step_time(200)
        .drop_factor(50)
        .shadow(true)
        .build();
    assert_eq!(config.grid_size, (10, 22));
    assert_eq!(config.drop_time_ms, 300);
    assert_eq!(config.lock_step_time_ms, 200);
    assert_eq!(config.drop_factor_ms, 50);
    assert!(config.shadow_enabled);
}

#[test]
fn scoring_one_line_awards_100() {
    let mut score = Score::new();
    DefaultScoringSystem.update_score(&mut score, ScoreMetaData { lines_cleared: 1 });
    assert_eq!(score.value(), 100);
}

#[test]
fn scoring_four_lines_award_400_no_bonus() {
    let mut score = Score::new();
    DefaultScoringSystem.update_score(&mut score, ScoreMetaData { lines_cleared: 4 });
    assert_eq!(score.value(), 400);
}

#[test]
fn scoring_zero_lines_award_nothing() {
    let mut score = Score::new();
    DefaultScoringSystem.update_score(&mut score, ScoreMetaData { lines_cleared: 0 });
    assert_eq!(score.value(), 0);
}

#[test]
fn scoring_accumulates() {
    let mut score = Score::new();
    DefaultScoringSystem.update_score(&mut score, ScoreMetaData { lines_cleared: 2 });
    DefaultScoringSystem.update_score(&mut score, ScoreMetaData { lines_cleared: 3 });
    assert_eq!(score.value(), 500);
}

#[test]
fn score_add_saturates() {
    let mut score = Score::new();
    score.add(u32::MAX - 50);
    score.add(100);
    assert_eq!(score.value(), u32::MAX);
}

/// Feeds one-line clears into the default leveling policy and reports the
/// level after each cumulative total.
fn level_after_single_line_clears(n: u32) -> u32 {
    let mut level = Level::new();
    for total in 1..=n {
        DefaultLevelingSystem.process(
            &mut level,
            LevelMetaData { lines_cleared: 1, total_lines_cleared: total },
        );
    }
    level.level
}

#[test]
fn leveling_stays_at_1_after_9_lines() {
    assert_eq!(level_after_single_line_clears(9), 1);
}

#[test]
fn leveling_reaches_2_after_10_lines() {
    assert_eq!(level_after_single_line_clears(10), 2);
}

#[test]
fn leveling_reaches_3_after_20_lines() {
    assert_eq!(level_after_single_line_clears(20), 3);
}

#[test]
fn leveling_does_not_fire_on_empty_event() {
    let mut level = Level::new();
    // Cumulative total is a multiple of ten, but this event cleared
    // nothing: the level must not move.
    DefaultLevelingSystem.process(
        &mut level,
        LevelMetaData { lines_cleared: 0, total_lines_cleared: 10 },
    );
    assert_eq!(level.level, 1);
}

#[test]
fn leveling_does_not_fire_at_total_zero() {
    let mut level = Level::new();
    DefaultLevelingSystem.process(
        &mut level,
        LevelMetaData { lines_cleared: 0, total_lines_cleared: 0 },
    );
    assert_eq!(level.level, 1);
}

#[test]
fn scene_result_from_menu_result() {
    assert_eq!(SceneResult::from(MenuResult::MainMenu), SceneResult::MainMenu);
    assert_eq!(SceneResult::from(MenuResult::NewGame), SceneResult::NewGame);
    assert_eq!(SceneResult::from(MenuResult::ResumeGame), SceneResult::ResumeGame);
    assert_eq!(SceneResult::from(MenuResult::Quit), SceneResult::Quit);
    assert_eq!(SceneResult::from(MenuResult::Idle), SceneResult::Idle);
}

#[test]
fn menu_selection_moves_within_bounds() {
    let mut menu = Menu::new();
    menu.add_item(String::from("First"), MenuResult::NewGame);
    menu.add_item(String::from("Second"), MenuResult::Quit);
    assert_eq!(menu.selected_index, 0);

    // The cursor stops at the top.
    assert_eq!(menu.process(MenuInput::Up), SceneResult::Idle);
    assert_eq!(menu.selected_index, 0);

    assert_eq!(menu.process(MenuInput::Down), SceneResult::Idle);
    assert_eq!(menu.selected_index, 1);

    // The cursor stops at the bottom.
    assert_eq!(menu.process(MenuInput::Down), SceneResult::Idle);
    assert_eq!(menu.selected_index, 1);

    assert_eq!(menu.process(MenuInput::Up), SceneResult::Idle);
    assert_eq!(menu.selected_index, 0);
}

#[test]
fn menu_select_reports_the_selected_item() {
    let mut menu = Menu::new();
    menu.add_item(String::from("First"), MenuResult::NewGame);
    menu.add_item(String::from("Second"), MenuResult::Quit);

    assert_eq!(menu.process(MenuInput::Select), SceneResult::NewGame);
    menu.process(MenuInput::Down);
    assert_eq!(menu.process(MenuInput::Select), SceneResult::Quit);
}

#[test]
fn main_menu_items() {
    let mut menu = create_main_menu();
    assert_eq!(menu.menu_items.len(), 2);
    assert_eq!(menu.menu_items[0].label, "New Game");
    assert_eq!(menu.menu_items[1].label, "Quit");
    assert_eq!(menu.process(MenuInput::Select), SceneResult::NewGame);
}

#[test]
fn pause_menu_items() {
    let mut menu = create_pause_menu();
    assert_eq!(menu.menu_items.len(), 3);
    assert_eq!(menu.process(MenuInput::Select), SceneResult::ResumeGame);
    menu.process(MenuInput::Down);
    assert_eq!(menu.process(MenuInput::Select), SceneResult::NewGame);
    menu.process(MenuInput::Down);
    assert_eq!(menu.process(MenuInput::Select), SceneResult::MainMenu);
}
