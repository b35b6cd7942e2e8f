use crate::state::{AppState, GameState};
use crate::timer::{finished, reset, restarted, tick, ticked, timer_finished};
use bevy::time::Timer;
use core::time::Duration;
use vstd::arithmetic::div_mod::lemma_fundamental_div_mod_converse;
use vstd::prelude::*;
use vstd::string::*;

verus! {

/// The main menu: choosing, or the entry that was confirmed.
#[derive(Debug, Clone, Copy, PartialEq, Eq, Hash, Structural)]
pub enum MainMenuState {
    Choosing,
    Start,
    ExtraStart,
    PracticeStart,
    Replay,
    Score,
    MusicRoom,
    Option,
    Quit,
}

/// The steps of starting a game.
#[derive(Debug, Clone, Copy, PartialEq, Eq, Hash, Structural)]
pub enum StartState {
    Difficulty,
    Character,
    SpellCard,
}

#[derive(Debug, Clone, Copy, PartialEq, Eq, Hash, Structural)]
pub enum DifficultyState {
    Easy,
    Normal,
    Hard,
    Lunatic,
}

#[derive(Debug, Clone, Copy, PartialEq, Eq, Hash, Structural)]
pub enum CharacterState {
    ReimuHakurei,
    MarisaKirisame,
}

/// The pause menu: choosing, or the entry that was confirmed.
#[derive(Debug, Clone, Copy, PartialEq, Eq, Hash, Structural)]
pub enum PausedUiState {
    Choosing,
    Resume,
    ReturnToTitle,
}

/// The two answers to "return to title?".
#[derive(Debug, Clone, Copy, PartialEq, Eq, Hash, Structural)]
pub enum ConfirmReturnToTitleState {
    Confirm,
    Cancel,
}

#[derive(Debug, Clone, Copy, PartialEq, Eq, Hash, Structural)]
pub enum ReimuSpellCardState {
    SpellA,
    SpellB,
}

#[derive(Debug, Clone, Copy, PartialEq, Eq, Hash, Structural)]
pub enum MarisaSpellCardState {
    SpellC,
    SpellD,
}

impl Default for MainMenuState {
    fn default() -> (state: MainMenuState)
        ensures
            state == MainMenuState::Choosing,
    {
        MainMenuState::Choosing
    }
}

impl Default for StartState {
    fn default() -> (state: StartState)
        ensures
            state == StartState::Difficulty,
    {
        StartState::Difficulty
    }
}

impl Default for DifficultyState {
    fn default() -> (state: DifficultyState)
        ensures
            state == DifficultyState::Easy,
    {
        DifficultyState::Easy
    }
}

impl Default for CharacterState {
    fn default() -> (state: CharacterState)
        ensures
            state == CharacterState::ReimuHakurei,
    {
        CharacterState::ReimuHakurei
    }
}

impl Default for PausedUiState {
    fn default() -> (state: PausedUiState)
        ensures
            state == PausedUiState::Choosing,
    {
        PausedUiState::Choosing
    }
}

impl Default for ConfirmReturnToTitleState {
    fn default() -> (state: ConfirmReturnToTitleState)
        ensures
            state == ConfirmReturnToTitleState::Cancel,
    {
        ConfirmReturnToTitleState::Cancel
    }
}

impl Default for ReimuSpellCardState {
    fn default() -> (state: ReimuSpellCardState)
        ensures
            state == ReimuSpellCardState::SpellA,
    {
        ReimuSpellCardState::SpellA
    }
}

impl Default for MarisaSpellCardState {
    fn default() -> (state: MarisaSpellCardState)
        ensures
            state == MarisaSpellCardState::SpellC,
    {
        MarisaSpellCardState::SpellC
    }
}

/// The arrow keys as one frame sees them.
#[derive(Debug, Clone, Copy, PartialEq, Eq, Structural)]
pub struct NavigationKeys {
    pub up_just_pressed: bool,
    pub down_just_pressed: bool,
    pub up_pressed: bool,
    pub down_pressed: bool,
}

/// Whether the keys make the repeat clock run on this frame: an arrow key
/// is held, and none was pressed just now.
pub open spec fn repeat_runs(keys: NavigationKeys) -> bool {
    !keys.up_just_pressed && !keys.down_just_pressed && (keys.up_pressed || keys.down_pressed)
}

/// The repeat clock after a frame: advanced by `delta` while a key is held,
/// started over otherwise.
pub open spec fn repeat_timer_after(keys: NavigationKeys, timer: Timer, delta: Duration) -> Timer {
    if repeat_runs(keys) {
        ticked(timer, delta)
    } else {
        restarted(timer)
    }
}

/// Which way the selection moves on a frame, given whether the repeat
/// clock has finished on it: -1 up, 1 down, 0 not at all. A fresh press
/// moves at once; a held key moves when the clock has finished. Up wins
/// over down, and a fresh press over a held key.
pub open spec fn spec_navigation_direction(keys: NavigationKeys, repeat_finished: bool) -> int {
    if keys.up_just_pressed {
        -1
    } else if keys.down_just_pressed {
        1
    } else if keys.up_pressed {
        if repeat_finished {
            -1
        } else {
            0
        }
    } else if keys.down_pressed {
        if repeat_finished {
            1
        } else {
            0
        }
    } else {
        0
    }
}

/// Which way the selection moves on this frame, on which `delta` passes:
/// see [`spec_navigation_direction`] and [`repeat_timer_after`].
pub fn navigation_direction(keys: NavigationKeys, timer: &mut Timer, delta: Duration) -> (direction:
    isize)
    ensures
        *final(timer) == repeat_timer_after(keys, *old(timer), delta),
        direction == spec_navigation_direction(keys, timer_finished(*final(timer))),
        -1 <= direction <= 1,
{
    let mut direction: isize = 0;
    if keys.up_just_pressed {
        direction = -1;
        reset(timer);
    } else if keys.down_just_pressed {
        direction = 1;
        reset(timer);
    } else if keys.up_pressed {
        tick(timer, delta);
        if finished(timer) {
            direction = -1;
        }
    } else if keys.down_pressed {
        tick(timer, delta);
        if finished(timer) {
            direction = 1;
        }
    } else {
        reset(timer);
    }
    direction
}

/// Whether a step by `direction` from `index` among `total` entries can be
/// taken: the sum that is wrapped must not be negative.
pub open spec fn step_defined(index: int, direction: int, total: int) -> bool {
    0 <= index + direction + total <= isize::MAX
}

/// The entry reached from `index` by `direction` steps among `total`
/// entries that lie in a ring.
pub open spec fn wrap_step(index: int, direction: int, total: int) -> int {
    (index + direction + total) % total
}

/// The remainder of a number below three times the divisor.
proof fn lemma_mod_below_three(x: int, n: int)
    requires
        0 < n,
        0 <= x < 3 * n,
    ensures
        x % n == (if x < n {
            x
        } else if x < 2 * n {
            x - n
        } else {
            x - 2 * n
        }),
{
    if x < n {
        lemma_fundamental_div_mod_converse(x, n, 0, x);
    } else if x < 2 * n {
        lemma_fundamental_div_mod_converse(x, n, 1, x - n);
    } else {
        lemma_fundamental_div_mod_converse(x, n, 2, x - 2 * n);
    }
}

/// A step down and a step up undo each other, and as many steps as there
/// are entries lead back to where they began.
pub proof fn lemma_wrap_step_round(index: int, total: int)
    requires
        0 <= index < total,
    ensures
        0 <= wrap_step(index, 1, total) < total,
        0 <= wrap_step(index, -1, total) < total,
        wrap_step(wrap_step(index, 1, total), -1, total) == index,
        wrap_step(wrap_step(index, -1, total), 1, total) == index,
        wrap_step(index, total, total) == index,
        wrap_step(index, -total, total) == index,
{
    let down = wrap_step(index, 1, total);
    let up = wrap_step(index, -1, total);
    lemma_mod_below_three(index + 1 + total, total);
    lemma_mod_below_three(index - 1 + total, total);
    lemma_mod_below_three(down - 1 + total, total);
    lemma_mod_below_three(up + 1 + total, total);
    lemma_mod_below_three(index + total + total, total);
    lemma_mod_below_three(index, total);
}

fn wrap_index(index: usize, direction: isize, total: usize) -> (next: usize)
    requires
        0 < total <= 8,
        index <= isize::MAX,
        step_defined(index as int, direction as int, total as int),
    ensures
        next == wrap_step(index as int, direction as int, total as int),
        next < total,
{
    let sum: isize = index as isize + direction + total as isize;
    (sum as usize) % total
}

impl MainMenuState {
    /// Place of an entry in the main menu, from the top; the state in which
    /// nothing is chosen yet counts as the first entry.
    pub open spec fn position(self) -> int {
        match self {
            MainMenuState::Choosing | MainMenuState::Start => 0,
            MainMenuState::ExtraStart => 1,
            MainMenuState::PracticeStart => 2,
            MainMenuState::Replay => 3,
            MainMenuState::Score => 4,
            MainMenuState::MusicRoom => 5,
            MainMenuState::Option => 6,
            MainMenuState::Quit => 7,
        }
    }

    /// The entry at a place of the main menu.
    pub open spec fn at(index: int) -> MainMenuState {
        if index == 0 {
            MainMenuState::Start
        } else if index == 1 {
            MainMenuState::ExtraStart
        } else if index == 2 {
            MainMenuState::PracticeStart
        } else if index == 3 {
            MainMenuState::Replay
        } else if index == 4 {
            MainMenuState::Score
        } else if index == 5 {
            MainMenuState::MusicRoom
        } else if index == 6 {
            MainMenuState::Option
        } else {
            MainMenuState::Quit
        }
    }
}

/// Moves the main menu's selection by `direction` entries, around the ends.
pub fn main_menu_selection(selected: MainMenuState, direction: isize) -> (next: MainMenuState)
    requires
        direction != 0 ==> step_defined(selected.position(), direction as int, 8),
    ensures
        next == (if direction == 0 {
            selected
        } else {
            MainMenuState::at(wrap_step(selected.position(), direction as int, 8))
        }),
{
    if direction == 0 {
        return selected;
    }
    let current: usize = match selected {
        MainMenuState::Choosing | MainMenuState::Start => 0,
        MainMenuState::ExtraStart => 1,
        MainMenuState::PracticeStart => 2,
        MainMenuState::Replay => 3,
        MainMenuState::Score => 4,
        MainMenuState::MusicRoom => 5,
        MainMenuState::Option => 6,
        MainMenuState::Quit => 7,
    };
    let index = wrap_index(current, direction, 8);
    if index == 0 {
        MainMenuState::Start
    } else if index == 1 {
        MainMenuState::ExtraStart
    } else if index == 2 {
        MainMenuState::PracticeStart
    } else if index == 3 {
        MainMenuState::Replay
    } else if index == 4 {
        MainMenuState::Score
    } else if index == 5 {
        MainMenuState::MusicRoom
    } else if index == 6 {
        MainMenuState::Option
    } else {
        MainMenuState::Quit
    }
}

impl DifficultyState {
    pub open spec fn position(self) -> int {
        match self {
            DifficultyState::Easy => 0,
            DifficultyState::Normal => 1,
            DifficultyState::Hard => 2,
            DifficultyState::Lunatic => 3,
        }
    }

    pub open spec fn at(index: int) -> DifficultyState {
        if index == 0 {
            DifficultyState::Easy
        } else if index == 1 {
            DifficultyState::Normal
        } else if index == 2 {
            DifficultyState::Hard
        } else {
            DifficultyState::Lunatic
        }
    }
}

/// Moves the selected difficulty by `direction` entries, around the ends.
pub fn difficulty_selection(selected: DifficultyState, direction: isize) -> (next: DifficultyState)
    requires
        direction != 0 ==> step_defined(selected.position(), direction as int, 4),
    ensures
        next == (if direction == 0 {
            selected
        } else {
            DifficultyState::at(wrap_step(selected.position(), direction as int, 4))
        }),
{
    if direction == 0 {
        return selected;
    }
    let current: usize = match selected {
        DifficultyState::Easy => 0,
        DifficultyState::Normal => 1,
        DifficultyState::Hard => 2,
        DifficultyState::Lunatic => 3,
    };
    let index = wrap_index(current, direction, 4);
    if index == 0 {
        DifficultyState::Easy
    } else if index == 1 {
        DifficultyState::Normal
    } else if index == 2 {
        DifficultyState::Hard
    } else {
        DifficultyState::Lunatic
    }
}

impl CharacterState {
    pub open spec fn position(self) -> int {
        match self {
            CharacterState::ReimuHakurei => 0,
            CharacterState::MarisaKirisame => 1,
        }
    }

    pub open spec fn at(index: int) -> CharacterState {
        if index == 0 {
            CharacterState::ReimuHakurei
        } else {
            CharacterState::MarisaKirisame
        }
    }
}

/// Moves the selected character by `direction` entries, around the ends.
pub fn character_selection(selected: CharacterState, direction: isize) -> (next: CharacterState)
    requires
        direction != 0 ==> step_defined(selected.position(), direction as int, 2),
    ensures
        next == (if direction == 0 {
            selected
        } else {
            CharacterState::at(wrap_step(selected.position(), direction as int, 2))
        }),
{
    if direction == 0 {
        return selected;
    }
    let current: usize = match selected {
        CharacterState::ReimuHakurei => 0,
        CharacterState::MarisaKirisame => 1,
    };
    let index = wrap_index(current, direction, 2);
    if index == 0 {
        CharacterState::ReimuHakurei
    } else {
        CharacterState::MarisaKirisame
    }
}

impl PausedUiState {
    /// Place of an entry in the pause menu; the state in which nothing is
    /// chosen yet counts as the first entry.
    pub open spec fn position(self) -> int {
        match self {
            PausedUiState::Choosing | PausedUiState::Resume => 0,
            PausedUiState::ReturnToTitle => 1,
        }
    }

    pub open spec fn at(index: int) -> PausedUiState {
        if index == 0 {
            PausedUiState::Resume
        } else {
            PausedUiState::ReturnToTitle
        }
    }
}

/// Moves the pause menu's selection by `direction` entries, around the ends.
pub fn paused_selection(selected: PausedUiState, direction: isize) -> (next: PausedUiState)
    requires
        direction != 0 ==> step_defined(selected.position(), direction as int, 2),
    ensures
        next == (if direction == 0 {
            selected
        } else {
            PausedUiState::at(wrap_step(selected.position(), direction as int, 2))
        }),
{
    if direction == 0 {
        return selected;
    }
    let current: usize = match selected {
        PausedUiState::Choosing | PausedUiState::Resume => 0,
        PausedUiState::ReturnToTitle => 1,
    };
    let index = wrap_index(current, direction, 2);
    if index == 0 {
        PausedUiState::Resume
    } else {
        PausedUiState::ReturnToTitle
    }
}

impl ConfirmReturnToTitleState {
    pub open spec fn position(self) -> int {
        match self {
            ConfirmReturnToTitleState::Confirm => 0,
            ConfirmReturnToTitleState::Cancel => 1,
        }
    }

    pub open spec fn at(index: int) -> ConfirmReturnToTitleState {
        if index == 0 {
            ConfirmReturnToTitleState::Confirm
        } else {
            ConfirmReturnToTitleState::Cancel
        }
    }
}

/// Moves between the two answers to "return to title?" by `direction`
/// entries, around the ends.
pub fn confirm_return_to_title_selection(
    selected: ConfirmReturnToTitleState,
    direction: isize,
) -> (next: ConfirmReturnToTitleState)
    requires
        direction != 0 ==> step_defined(selected.position(), direction as int, 2),
    ensures
        next == (if direction == 0 {
            selected
        } else {
            ConfirmReturnToTitleState::at(wrap_step(selected.position(), direction as int, 2))
        }),
{
    if direction == 0 {
        return selected;
    }
    let current: usize = match selected {
        ConfirmReturnToTitleState::Confirm => 0,
        ConfirmReturnToTitleState::Cancel => 1,
    };
    let index = wrap_index(current, direction, 2);
    if index == 0 {
        ConfirmReturnToTitleState::Confirm
    } else {
        ConfirmReturnToTitleState::Cancel
    }
}

/// Moves the selected spell card by `direction` entries, around the ends.
/// Either character has two cards.
pub fn spell_card_selection(selected_index: usize, direction: isize) -> (next: usize)
    requires
        direction != 0 ==> selected_index <= isize::MAX && step_defined(
            selected_index as int,
            direction as int,
            2,
        ),
    ensures
        next == (if direction == 0 {
            selected_index as int
        } else {
            wrap_step(selected_index as int, direction as int, 2)
        }),
{
    if direction == 0 {
        return selected_index;
    }
    wrap_index(selected_index, direction, 2)
}

/// The states that are set when an entry of the pause menu is confirmed.
#[derive(Debug, Clone, Copy, PartialEq, Eq, Structural)]
pub struct PausedConfirm {
    pub paused: Option<PausedUiState>,
    pub game: Option<GameState>,
}

/// Confirms the pause menu's selection: "resume" leaves the menu and lets
/// the game run; "return to title" opens the question; with nothing
/// selected nothing is set.
pub fn paused_confirm_selection(selected: PausedUiState) -> (next: PausedConfirm)
    ensures
        next == (match selected {
            PausedUiState::Resume => PausedConfirm {
                paused: Some(PausedUiState::Resume),
                game: Some(GameState::Running),
            },
            PausedUiState::ReturnToTitle => PausedConfirm {
                paused: Some(PausedUiState::ReturnToTitle),
                game: None,
            },
            PausedUiState::Choosing => PausedConfirm { paused: None, game: None },
        }),
{
    match selected {
        PausedUiState::Resume => PausedConfirm {
            paused: Some(PausedUiState::Resume),
            game: Some(GameState::Running),
        },
        PausedUiState::ReturnToTitle => PausedConfirm {
            paused: Some(PausedUiState::ReturnToTitle),
            game: None,
        },
        PausedUiState::Choosing => PausedConfirm { paused: None, game: None },
    }
}

/// The states that are set when "return to title?" is answered.
#[derive(Debug, Clone, Copy, PartialEq, Eq, Structural)]
pub struct ReturnToTitleConfirm {
    pub app: Option<AppState>,
    pub main_menu: Option<MainMenuState>,
    pub paused: Option<PausedUiState>,
}

/// Answers "return to title?": yes goes to the main menu with nothing
/// chosen, no goes back to the pause menu.
pub fn confirm_return_to_title_confirm_selection(selected: ConfirmReturnToTitleState) -> (next:
    ReturnToTitleConfirm)
    ensures
        next == (match selected {
            ConfirmReturnToTitleState::Confirm => ReturnToTitleConfirm {
                app: Some(AppState::MainMenu),
                main_menu: Some(MainMenuState::Choosing),
                paused: None,
            },
            ConfirmReturnToTitleState::Cancel => ReturnToTitleConfirm {
                app: None,
                main_menu: None,
                paused: Some(PausedUiState::Choosing),
            },
        }),
{
    match selected {
        ConfirmReturnToTitleState::Confirm => ReturnToTitleConfirm {
            app: Some(AppState::MainMenu),
            main_menu: Some(MainMenuState::Choosing),
            paused: None,
        },
        ConfirmReturnToTitleState::Cancel => ReturnToTitleConfirm {
            app: None,
            main_menu: None,
            paused: Some(PausedUiState::Choosing),
        },
    }
}

/// The states that are set when a character is confirmed.
#[derive(Debug, Clone, Copy, PartialEq, Eq, Structural)]
pub struct CharacterConfirm {
    pub start: StartState,
    pub reimu: Option<ReimuSpellCardState>,
    pub marisa: Option<MarisaSpellCardState>,
}

/// Confirms the selected character: the spell cards come next, starting at
/// that character's first card.
pub fn character_confirm_selection(selected: CharacterState) -> (next: CharacterConfirm)
    ensures
        next == (match selected {
            CharacterState::ReimuHakurei => CharacterConfirm {
                start: StartState::SpellCard,
                reimu: Some(ReimuSpellCardState::SpellA),
                marisa: None,
            },
            CharacterState::MarisaKirisame => CharacterConfirm {
                start: StartState::SpellCard,
                reimu: None,
                marisa: Some(MarisaSpellCardState::SpellC),
            },
        }),
{
    match selected {
        CharacterState::ReimuHakurei => CharacterConfirm {
            start: StartState::SpellCard,
            reimu: Some(ReimuSpellCardState::SpellA),
            marisa: None,
        },
        CharacterState::MarisaKirisame => CharacterConfirm {
            start: StartState::SpellCard,
            reimu: None,
            marisa: Some(MarisaSpellCardState::SpellC),
        },
    }
}

} // verus!
