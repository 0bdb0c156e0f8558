//! The game controller.
//!
//! The controller handles button events: it keeps one selected cell per
//! player inside that player's own half of the board, moves the selection
//! with toroidal wraparound, and turns the remaining buttons into
//! [`Game`](crate::game::Game) operations.
//!
//! A button is identified by a plain numeric code chosen by the embedding
//! program, so the decision logic stays independent of any input backend.

use crate::game::Game;
use crate::game::GameError;
use crate::game::GameModel;
use crate::player::Player;
use crate::player::Players;
use vstd::arithmetic::div_mod::lemma_add_mod_noop_right;
use vstd::arithmetic::div_mod::lemma_mod_add_multiples_vanish;
use vstd::arithmetic::div_mod::lemma_mod_sub_multiples_vanish;
use vstd::arithmetic::div_mod::lemma_small_mod;
use vstd::arithmetic::div_mod::lemma_sub_mod_noop_right;
use vstd::prelude::*;

verus! {

/// Moves `position` by `delta` inside `[0, bound)`, wrapping around
/// toroidally: the result is the Euclidean remainder of `position + delta`
/// modulo `bound`.
pub fn wrap_position(position: usize, delta: isize, bound: usize) -> (wrapped: usize)
    requires
        position < bound,
        bound <= usize::MAX / 2,
    ensures
        wrapped == (position + delta) % (bound as int),
        wrapped < bound,
{
    proof {
        lemma_small_mod(position as nat, bound as nat);
    }
    if delta >= 0 {
        let step = (delta as usize) % bound;
        let sum = position + step;
        proof {
            lemma_add_mod_noop_right(position as int, delta as int, bound as int);
            if sum >= bound {
                lemma_mod_sub_multiples_vanish(sum as int, bound as int);
                lemma_small_mod((sum - bound) as nat, bound as nat);
            } else {
                lemma_small_mod(sum as nat, bound as nat);
            }
        }
        if sum >= bound {
            sum - bound
        } else {
            sum
        }
    } else {
        let magnitude = ((-(delta + 1)) as usize) + 1;
        let step = magnitude % bound;
        proof {
            lemma_sub_mod_noop_right(position as int, magnitude as int, bound as int);
            if position >= step {
                lemma_small_mod((position - step) as nat, bound as nat);
            } else {
                lemma_mod_add_multiples_vanish(position - step, bound as int);
                lemma_small_mod((position + bound - step) as nat, bound as nat);
            }
        }
        if position >= step {
            position - step
        } else {
            position + bound - step
        }
    }
}

/// The first index in the slice whose element equals the given value, if
/// any.
pub open spec fn spec_find(slice: Seq<u64>, value: u64, from: int) -> Option<int>
    decreases slice.len() - from,
{
    if from < 0 || from >= slice.len() {
        None
    } else if slice[from] == value {
        Some(from)
    } else {
        spec_find(slice, value, from + 1)
    }
}

/// Returns the index of the first element in the slice that equals the
/// given value.
pub fn find(slice: &Vec<u64>, value: u64) -> (index: Option<usize>)
    ensures
        index matches Some(i) ==> i < slice@.len() && spec_find(slice@, value, 0) == Some(i as int),
        index is None ==> spec_find(slice@, value, 0) is None,
{
    let mut i: usize = 0;
    while i < slice.len()
        invariant
            i <= slice@.len(),
            spec_find(slice@, value, 0) == spec_find(slice@, value, i as int),
        decreases slice@.len() - i,
    {
        if slice[i] == value {
            return Some(i);
        }
        i = i + 1;
    }
    None
}

/// The state of a button in a button event.
#[derive(Clone, Copy, Debug, PartialEq, Eq, Structural)]
pub enum ButtonState {
    /// The button was pressed.
    Press,
    /// The button was released.
    Release,
}

/// A button event: the new state of the button with the given code.
#[derive(Clone, Copy, Debug)]
pub struct ButtonArgs {
    /// The new state of the button.
    pub state: ButtonState,
    /// The code identifying the button.
    pub button: u64,
}

/// Key binding for each player.
#[derive(Clone, Debug)]
pub struct KeyBinding {
    /// The key for moving the selection up.
    pub up: u64,
    /// The key for moving the selection down.
    pub down: u64,
    /// The key for moving the selection left.
    pub left: u64,
    /// The key for moving the selection right.
    pub right: u64,
    /// The key for removing an object.
    pub remove: u64,
    /// The keys for placing an object.
    ///
    /// Each key is assigned an index, which is equal to its position in
    /// `place`. The placement with the corresponding index is used.
    pub place: Vec<u64>,
}

/// Game controller settings.
#[derive(Clone, Debug)]
pub struct GameControllerSettings {
    /// The key binding for players.
    pub key_binding: Players<KeyBinding>,
    /// Initial selected cells.
    pub selected_cells: Players<(usize, usize)>,
}

/// A controller construction failure.
#[derive(Clone, Copy, Debug, PartialEq, Eq)]
pub enum ControllerError {
    /// A selected cell lies outside its player's own half of the board.
    InvalidSelectedCell,
}

/// Whether `selected` is a valid selected cell for `player`: on the board
/// and inside the player's own half.
pub open spec fn selection_wf(game: GameModel, player: Player, selected: (usize, usize)) -> bool {
    let offset = game.settings.side_offset(player);
    &&& selected.0 < game.settings.n_rows
    &&& offset <= selected.1 < offset + game.settings.n_columns
}

/// The selected cell of `player` after moving it by `delta`, wrapping
/// around the edges of the player's own half toroidally.
pub open spec fn spec_move_selection(
    game: GameModel,
    player: Player,
    selected: (usize, usize),
    delta: (isize, isize),
) -> (usize, usize) {
    let offset = game.settings.side_offset(player);
    let row = (selected.0 + delta.0) % (game.settings.n_rows as int);
    let column = (selected.1 - offset + delta.1) % (game.settings.n_columns as int) + offset;
    (row as usize, column as usize)
}

/// One player's reaction to a released button: the remove key clears the
/// player's selected cell, a place key attempts the placement whose index
/// the key carries, and a direction key moves the selection; a button bound
/// to several of these triggers them all, in that order.
pub open spec fn spec_player_step(
    game: GameModel,
    binding: KeyBinding,
    player: Player,
    selected: (usize, usize),
    button: u64,
    now: u64,
) -> (GameModel, (usize, usize)) {
    let removed = if button == binding.remove {
        game.clear(selected)
    } else {
        game
    };
    let placed = match spec_find(binding.place@, button, 0) {
        Some(index) => if removed.can_place(player, index as usize, now) {
            removed.place(player, selected, index as usize, now)
        } else {
            removed
        },
        None => removed,
    };
    if button == binding.up {
        (placed, spec_move_selection(placed, player, selected, (-1isize, 0isize)))
    } else if button == binding.down {
        (placed, spec_move_selection(placed, player, selected, (1isize, 0isize)))
    } else if button == binding.left {
        (placed, spec_move_selection(placed, player, selected, (0isize, -1isize)))
    } else if button == binding.right {
        (placed, spec_move_selection(placed, player, selected, (0isize, 1isize)))
    } else {
        (placed, selected)
    }
}

/// A game controller that handles input events.
#[derive(Debug)]
pub struct GameController {
    /// The controller settings.
    pub settings: GameControllerSettings,
    /// The game being controlled.
    pub game: Game,
    /// The selected cell of each player, kept inside that player's half.
    pub selected_cells: Players<(usize, usize)>,
}

impl GameController {
    /// The controller invariant: the game is well-formed and each selected
    /// cell lies inside its player's own half of the board.
    pub open spec fn wf(&self) -> bool {
        &&& self.game.wf()
        &&& selection_wf(self.game@, Player::Left, self.selected_cells.left)
        &&& selection_wf(self.game@, Player::Right, self.selected_cells.right)
    }

    /// Creates a new game controller.
    ///
    /// Fails when an initial selected cell lies outside its player's half.
    pub fn new(settings: GameControllerSettings, game: Game) -> (result: Result<
        GameController,
        ControllerError,
    >)
        requires
            game.wf(),
        ensures
            ({
                let valid = selection_wf(game@, Player::Left, settings.selected_cells.left)
                    && selection_wf(game@, Player::Right, settings.selected_cells.right);
                match result {
                    Ok(controller) => {
                        &&& valid
                        &&& controller.wf()
                        &&& controller.game == game
                        &&& controller.settings == settings
                        &&& controller.selected_cells == settings.selected_cells
                    },
                    Err(e) => !valid && e == ControllerError::InvalidSelectedCell,
                }
            }),
    {
        let n_rows = game.settings().n_rows;
        let n_columns = game.settings().n_columns;

        let (left_row, left_column) = settings.selected_cells.left;
        if !(left_row < n_rows && left_column < n_columns) {
            return Err(ControllerError::InvalidSelectedCell);
        }
        let (right_row, right_column) = settings.selected_cells.right;
        if !(right_row < n_rows && n_columns <= right_column && right_column - n_columns
            < n_columns) {
            return Err(ControllerError::InvalidSelectedCell);
        }

        let selected_cells = settings.selected_cells;
        Ok(GameController { settings, game, selected_cells })
    }

    /// Returns a reference to the game being controlled.
    pub fn game(&self) -> (game: &Game)
        ensures
            *game == self.game,
    {
        &self.game
    }

    /// Returns a reference to the selected cells.
    pub fn selected_cells(&self) -> (selected: &Players<(usize, usize)>)
        ensures
            *selected == self.selected_cells,
    {
        &self.selected_cells
    }

    /// Moves the selection of the specified player, wrapping around the
    /// edges of the player's half toroidally.
    fn move_selection(&mut self, player: Player, delta: (isize, isize))
        requires
            old(self).wf(),
        ensures
            final(self).wf(),
            final(self).game == old(self).game,
            final(self).settings == old(self).settings,
            final(self).selected_cells == old(self).selected_cells.spec_set(
                player,
                spec_move_selection(
                    old(self).game@,
                    player,
                    old(self).selected_cells.spec_get(player),
                    delta,
                ),
            ),
    {
        let n_rows = self.game.settings().n_rows;
        let n_columns = self.game.settings().n_columns;
        proof {
            assert(n_rows * 2 <= n_rows * (2 * n_columns)) by (nonlinear_arith)
                requires
                    0 <= n_rows,
                    1 <= n_columns,
            ;
        }
        let offset = match player {
            Player::Left => 0,
            Player::Right => n_columns,
        };
        let (row, column) = *self.selected_cells.get(player);

        let new_row = wrap_position(row, delta.0, n_rows);
        let new_column = wrap_position(column - offset, delta.1, n_columns) + offset;
        match player {
            Player::Left => self.selected_cells.left = (new_row, new_column),
            Player::Right => self.selected_cells.right = (new_row, new_column),
        }
    }

    /// Applies a released button to one player, as
    /// [`spec_player_step`] describes.
    ///
    /// The selected cell is always inside the board, so the underlying game
    /// operations cannot fail: the result is always `Ok`.
    fn player_button_step(&mut self, player: Player, button: u64, now: u64) -> (result: Result<
        (),
        GameError,
    >)
        requires
            old(self).wf(),
        ensures
            result == Ok::<(), GameError>(()),
            final(self).wf(),
            final(self).settings == old(self).settings,
            ({
                let step = spec_player_step(
                    old(self).game@,
                    old(self).settings.key_binding.spec_get(player),
                    player,
                    old(self).selected_cells.spec_get(player),
                    button,
                    now,
                );
                final(self).game@ == step.0 && final(self).selected_cells == old(
                    self,
                ).selected_cells.spec_set(player, step.1)
            }),
    {
        let selected = *self.selected_cells.get(player);

        let remove_code = self.settings.key_binding.get(player).remove;
        if button == remove_code {
            self.game.clear_cell(player, selected)?;
        }

        let index = find(&self.settings.key_binding.get(player).place, button);
        match index {
            None => {}
            Some(index) => {
                self.game.place_object(player, selected, index, now)?;
            }
        }

        let binding = self.settings.key_binding.get(player);
        let delta: Option<(isize, isize)> = if button == binding.up {
            Some((-1, 0))
        } else if button == binding.down {
            Some((1, 0))
        } else if button == binding.left {
            Some((0, -1))
        } else if button == binding.right {
            Some((0, 1))
        } else {
            None
        };
        match delta {
            None => {}
            Some(delta) => self.move_selection(player, delta),
        }
        Ok(())
    }

    /// Handles a button event.
    ///
    /// Only a release is acted on. The button is matched against the left
    /// player's binding first and the right player's binding second; for
    /// each player it may clear the selected cell, attempt a placement, and
    /// move the selection, as [`spec_player_step`] describes.
    pub fn button_event(&mut self, args: ButtonArgs, now: u64) -> (result: Result<(), GameError>)
        requires
            old(self).wf(),
        ensures
            result == Ok::<(), GameError>(()),
            final(self).wf(),
            final(self).settings == old(self).settings,
            args.state != ButtonState::Release ==> *final(self) == *old(self),
            args.state == ButtonState::Release ==> ({
                let left_step = spec_player_step(
                    old(self).game@,
                    old(self).settings.key_binding.left,
                    Player::Left,
                    old(self).selected_cells.left,
                    args.button,
                    now,
                );
                let right_step = spec_player_step(
                    left_step.0,
                    old(self).settings.key_binding.right,
                    Player::Right,
                    old(self).selected_cells.right,
                    args.button,
                    now,
                );
                final(self).game@ == right_step.0 && final(self).selected_cells == (Players {
                    left: left_step.1,
                    right: right_step.1,
                })
            }),
    {
        match args.state {
            ButtonState::Press => Ok(()),
            ButtonState::Release => {
                self.player_button_step(Player::Left, args.button, now)?;
                self.player_button_step(Player::Right, args.button, now)?;
                Ok(())
            }
        }
    }

    /// Handles an update event: one simulation tick at `now`.
    pub fn update_event(&mut self, now: u64) -> (result: Result<(), GameError>)
        requires
            old(self).wf(),
        ensures
            final(self).wf(),
            result == Ok::<(), GameError>(()),
            final(self).game@ == old(self).game@.tick(now),
            final(self).settings == old(self).settings,
            final(self).selected_cells == old(self).selected_cells,
    {
        proof {
            crate::game::lemma_tick_prefix_wf(
                self.game@,
                self.game@.cells.len() as int,
                now,
            );
        }
        self.game.update(now)
    }
}

} // verus!
