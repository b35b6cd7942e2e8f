use asciihou::label::{mark_entry, MarkStyle};
use asciihou::state::{AppState, GameState};
use asciihou::ui::{
    character_confirm_selection, character_selection, confirm_return_to_title_confirm_selection,
    confirm_return_to_title_selection, difficulty_selection, main_menu_selection,
    navigation_direction, paused_confirm_selection, paused_selection, spell_card_selection,
    CharacterConfirm, CharacterState, ConfirmReturnToTitleState, DifficultyState, MainMenuState,
    MarisaSpellCardState, NavigationKeys, PausedConfirm, PausedUiState, ReimuSpellCardState,
    ReturnToTitleConfirm, StartState,
};
use bevy::time::{Timer, TimerMode};
use std::time::Duration;

fn keys(up_just: bool, down_just: bool, up: bool, down: bool) -> NavigationKeys {
    NavigationKeys {
        up_just_pressed: up_just,
        down_just_pressed: down_just,
        up_pressed: up,
        down_pressed: down,
    }
}

fn repeat_timer() -> Timer {
    Timer::new(Duration::from_millis(150), TimerMode::Repeating)
}

#[test]
fn menu_states_start_where_the_menus_open() {
    assert_eq!(MainMenuState::default(), MainMenuState::Choosing);
    assert_eq!(StartState::default(), StartState::Difficulty);
    assert_eq!(DifficultyState::default(), DifficultyState::Easy);
    assert_eq!(CharacterState::default(), CharacterState::ReimuHakurei);
    assert_eq!(PausedUiState::default(), PausedUiState::Choosing);
    assert_eq!(ConfirmReturnToTitleState::default(), ConfirmReturnToTitleState::Cancel);
    assert_eq!(ReimuSpellCardState::default(), ReimuSpellCardState::SpellA);
    assert_eq!(MarisaSpellCardState::default(), MarisaSpellCardState::SpellC);
}

#[test]
fn fresh_press_moves_at_once() {
    let mut timer = repeat_timer();
    timer.tick(Duration::from_millis(100));
    let delta = Duration::from_millis(16);
    assert_eq!(navigation_direction(keys(true, false, true, false), &mut timer, delta), -1);
    assert_eq!(timer.elapsed(), Duration::ZERO);
    timer.tick(Duration::from_millis(100));
    assert_eq!(navigation_direction(keys(false, true, false, true), &mut timer, delta), 1);
    assert_eq!(timer.elapsed(), Duration::ZERO);
}

#[test]
fn up_wins_over_down() {
    let mut timer = repeat_timer();
    let delta = Duration::from_millis(16);
    assert_eq!(navigation_direction(keys(true, true, true, true), &mut timer, delta), -1);
    assert_eq!(navigation_direction(keys(false, false, true, true), &mut timer, Duration::from_millis(200)), -1);
}

#[test]
fn fresh_press_wins_over_a_held_key() {
    let mut timer = repeat_timer();
    let delta = Duration::from_millis(200);
    assert_eq!(navigation_direction(keys(false, true, true, true), &mut timer, delta), 1);
}

#[test]
fn held_key_repeats_with_the_clock() {
    let mut timer = repeat_timer();
    let delta = Duration::from_millis(100);
    assert_eq!(navigation_direction(keys(false, false, true, false), &mut timer, delta), 0);
    assert_eq!(navigation_direction(keys(false, false, true, false), &mut timer, delta), -1);
    assert_eq!(timer.elapsed(), Duration::from_millis(50));
    assert_eq!(navigation_direction(keys(false, false, false, true), &mut timer, delta), 1);
    assert_eq!(navigation_direction(keys(false, false, false, true), &mut timer, delta), 0);
}

#[test]
fn no_key_restarts_the_clock() {
    let mut timer = repeat_timer();
    timer.tick(Duration::from_millis(100));
    assert_eq!(navigation_direction(keys(false, false, false, false), &mut timer, Duration::from_millis(100)), 0);
    assert_eq!(timer.elapsed(), Duration::ZERO);
    assert!(!timer.finished());
}

#[test]
fn main_menu_selection_steps_and_wraps() {
    assert_eq!(main_menu_selection(MainMenuState::Start, 1), MainMenuState::ExtraStart);
    assert_eq!(main_menu_selection(MainMenuState::Replay, -1), MainMenuState::PracticeStart);
    assert_eq!(main_menu_selection(MainMenuState::MusicRoom, 1), MainMenuState::Option);
    assert_eq!(main_menu_selection(MainMenuState::Start, -1), MainMenuState::Quit);
    assert_eq!(main_menu_selection(MainMenuState::Quit, 1), MainMenuState::Start);
}

#[test]
fn main_menu_selection_goes_all_the_way_round() {
    let mut selected = MainMenuState::Start;
    let mut seen = Vec::new();
    for _ in 0..8 {
        seen.push(selected);
        selected = main_menu_selection(selected, 1);
    }
    assert_eq!(selected, MainMenuState::Start);
    assert_eq!(
        seen,
        vec![
            MainMenuState::Start,
            MainMenuState::ExtraStart,
            MainMenuState::PracticeStart,
            MainMenuState::Replay,
            MainMenuState::Score,
            MainMenuState::MusicRoom,
            MainMenuState::Option,
            MainMenuState::Quit,
        ]
    );
}

#[test]
fn selection_without_direction_stays() {
    assert_eq!(main_menu_selection(MainMenuState::Choosing, 0), MainMenuState::Choosing);
    assert_eq!(main_menu_selection(MainMenuState::Score, 0), MainMenuState::Score);
    assert_eq!(paused_selection(PausedUiState::Choosing, 0), PausedUiState::Choosing);
    assert_eq!(spell_card_selection(1, 0), 1);
    assert_eq!(spell_card_selection(usize::MAX, 0), usize::MAX);
}

#[test]
fn selection_from_nothing_chosen_counts_from_the_first_entry() {
    assert_eq!(main_menu_selection(MainMenuState::Choosing, 1), MainMenuState::ExtraStart);
    assert_eq!(main_menu_selection(MainMenuState::Choosing, -1), MainMenuState::Quit);
    assert_eq!(paused_selection(PausedUiState::Choosing, 1), PausedUiState::ReturnToTitle);
}

#[test]
fn selection_takes_longer_steps() {
    assert_eq!(main_menu_selection(MainMenuState::Start, 9), MainMenuState::ExtraStart);
    assert_eq!(main_menu_selection(MainMenuState::Quit, -15), MainMenuState::Start);
    assert_eq!(difficulty_selection(DifficultyState::Easy, -4), DifficultyState::Easy);
}

#[test]
fn difficulty_selection_steps_and_wraps() {
    assert_eq!(difficulty_selection(DifficultyState::Easy, 1), DifficultyState::Normal);
    assert_eq!(difficulty_selection(DifficultyState::Hard, 1), DifficultyState::Lunatic);
    assert_eq!(difficulty_selection(DifficultyState::Lunatic, 1), DifficultyState::Easy);
    assert_eq!(difficulty_selection(DifficultyState::Easy, -1), DifficultyState::Lunatic);
}

#[test]
fn two_entry_menus_toggle() {
    assert_eq!(character_selection(CharacterState::ReimuHakurei, 1), CharacterState::MarisaKirisame);
    assert_eq!(character_selection(CharacterState::ReimuHakurei, -1), CharacterState::MarisaKirisame);
    assert_eq!(character_selection(CharacterState::MarisaKirisame, 1), CharacterState::ReimuHakurei);
    assert_eq!(paused_selection(PausedUiState::Resume, 1), PausedUiState::ReturnToTitle);
    assert_eq!(paused_selection(PausedUiState::ReturnToTitle, 1), PausedUiState::Resume);
    assert_eq!(
        confirm_return_to_title_selection(ConfirmReturnToTitleState::Cancel, -1),
        ConfirmReturnToTitleState::Confirm
    );
    assert_eq!(
        confirm_return_to_title_selection(ConfirmReturnToTitleState::Confirm, -1),
        ConfirmReturnToTitleState::Cancel
    );
    assert_eq!(spell_card_selection(0, 1), 1);
    assert_eq!(spell_card_selection(0, -1), 1);
    assert_eq!(spell_card_selection(1, 1), 0);
    assert_eq!(spell_card_selection(5, 1), 0);
}

#[test]
fn confirming_the_pause_menu() {
    assert_eq!(
        paused_confirm_selection(PausedUiState::Resume),
        PausedConfirm { paused: Some(PausedUiState::Resume), game: Some(GameState::Running) }
    );
    assert_eq!(
        paused_confirm_selection(PausedUiState::ReturnToTitle),
        PausedConfirm { paused: Some(PausedUiState::ReturnToTitle), game: None }
    );
    assert_eq!(
        paused_confirm_selection(PausedUiState::Choosing),
        PausedConfirm { paused: None, game: None }
    );
}

#[test]
fn answering_return_to_title() {
    assert_eq!(
        confirm_return_to_title_confirm_selection(ConfirmReturnToTitleState::Confirm),
        ReturnToTitleConfirm {
            app: Some(AppState::MainMenu),
            main_menu: Some(MainMenuState::Choosing),
            paused: None,
        }
    );
    assert_eq!(
        confirm_return_to_title_confirm_selection(ConfirmReturnToTitleState::Cancel),
        ReturnToTitleConfirm { app: None, main_menu: None, paused: Some(PausedUiState::Choosing) }
    );
}

#[test]
fn confirming_a_character_opens_its_spell_cards() {
    assert_eq!(
        character_confirm_selection(CharacterState::ReimuHakurei),
        CharacterConfirm {
            start: StartState::SpellCard,
            reimu: Some(ReimuSpellCardState::SpellA),
            marisa: None,
        }
    );
    assert_eq!(
        character_confirm_selection(CharacterState::MarisaKirisame),
        CharacterConfirm {
            start: StartState::SpellCard,
            reimu: None,
            marisa: Some(MarisaSpellCardState::SpellC),
        }
    );
}

#[test]
fn arrow_marks_the_selected_entry() {
    assert_eq!(mark_entry(MarkStyle::Arrow, "  Extra Start", true), "> Extra Start");
    assert_eq!(mark_entry(MarkStyle::Arrow, "> Start", false), "  Start");
    assert_eq!(mark_entry(MarkStyle::Arrow, "Quit", true), "> Quit");
    assert_eq!(mark_entry(MarkStyle::Arrow, " > >  Return to Title", false), "  Return to Title");
}

#[test]
fn checkbox_marks_the_selected_entry() {
    assert_eq!(mark_entry(MarkStyle::Checkbox, "[ ] Easy", true), "[X] Easy");
    assert_eq!(mark_entry(MarkStyle::Checkbox, "[X] Lunatic", false), "[ ] Lunatic");
    assert_eq!(mark_entry(MarkStyle::Checkbox, "[ ] Master Spark", true), "[X] Master Spark");
}

#[test]
fn marker_characters_at_the_head_of_a_label_are_lost() {
    assert_eq!(mark_entry(MarkStyle::Checkbox, "[ ] Xenon", true), "[X] enon");
    assert_eq!(mark_entry(MarkStyle::Arrow, "  > ", true), "> ");
    assert_eq!(mark_entry(MarkStyle::Arrow, "", false), "  ");
}

#[test]
fn marking_agrees_with_trimming() {
    for text in ["> Start", "  Replay", "Score", "[ ] Easy", "[X] Hard", " é>", "", ">>>"] {
        let label = text.trim_start_matches(['>', ' ']);
        assert_eq!(mark_entry(MarkStyle::Arrow, text, true), format!("> {}", label));
        assert_eq!(mark_entry(MarkStyle::Arrow, text, false), format!("  {}", label));
        let label = text.trim_start_matches(['[', 'X', ']', ' ']);
        assert_eq!(mark_entry(MarkStyle::Checkbox, text, true), format!("[X] {}", label));
        assert_eq!(mark_entry(MarkStyle::Checkbox, text, false), format!("[ ] {}", label));
    }
}

#[test]
fn marking_again_only_replaces_the_marker() {
    for style in [MarkStyle::Arrow, MarkStyle::Checkbox] {
        for text in ["> Start", "[ ] Easy", "Score", "", "  [X] > odd"] {
            for first in [false, true] {
                for second in [false, true] {
                    let once = mark_entry(style, text, second);
                    let twice = mark_entry(style, &mark_entry(style, text, first), second);
                    assert_eq!(twice, once);
                }
            }
        }
    }
}

#[test]
fn a_step_down_and_a_step_up_undo_each_other() {
    let entries = [
        MainMenuState::Start,
        MainMenuState::ExtraStart,
        MainMenuState::PracticeStart,
        MainMenuState::Replay,
        MainMenuState::Score,
        MainMenuState::MusicRoom,
        MainMenuState::Option,
        MainMenuState::Quit,
    ];
    for entry in entries {
        assert_eq!(main_menu_selection(main_menu_selection(entry, 1), -1), entry);
        assert_eq!(main_menu_selection(main_menu_selection(entry, -1), 1), entry);
        assert_eq!(main_menu_selection(entry, 8), entry);
        assert_eq!(main_menu_selection(entry, -8), entry);
    }
}
