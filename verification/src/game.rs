//! The game state.
//!
//! # Division line
//!
//! The division line separates the two players' territories: columns
//! `[0, n_columns)` belong to the left player, columns
//! `[n_columns, 2 * n_columns)` to the right player.
//!
//! # Board layout
//!
//! The board is an arena of cells addressed by row-major index, so that the
//! update pass can look a target up by coordinate first and mutate it by
//! coordinate afterwards: no two accesses to the grid ever overlap in time.

use crate::object::Object;
use crate::object::ObjectKind;
use crate::object::OwnedObject;
use crate::player::Data;
use crate::player::DataModel;
use crate::player::Placement;
use crate::player::Player;
use crate::player::Players;
use core::ops::Range;
use vstd::arithmetic::div_mod::lemma_fundamental_div_mod;
use vstd::arithmetic::div_mod::lemma_multiply_divide_lt;
use vstd::prelude::*;

verus! {

/// The game settings.
#[derive(Debug)]
pub struct Settings {
    /// The number of columns on each player's side.
    ///
    /// The total number of columns is `2 * n_columns`.
    pub n_columns: usize,

    /// The number of rows in the game.
    pub n_rows: usize,

    /// The rows that the bases span.
    pub base_span: Range<usize>,

    /// The maximum amount of keys each player can have.
    pub max_keys: u32,
}

impl Settings {
    /// Valid settings: at least one column and one row, a non-empty base
    /// span inside the game area, and a cell count that `usize` can address.
    pub open spec fn wf(&self) -> bool {
        &&& 0 < self.n_columns
        &&& 0 < self.n_rows
        &&& self.base_span.start < self.base_span.end
        &&& self.base_span.end <= self.n_rows
        &&& 2 * self.n_columns <= usize::MAX
        &&& self.n_rows * (2 * self.n_columns) <= usize::MAX
    }

    /// The total number of columns, both sides together.
    pub open spec fn total_columns(&self) -> int {
        2 * self.n_columns
    }

    /// The number of cells of the board.
    pub open spec fn n_cells(&self) -> int {
        self.n_rows * self.total_columns()
    }

    /// Whether a `(row, column)` position lies on the board.
    pub open spec fn in_bounds(&self, position: (usize, usize)) -> bool {
        position.0 < self.n_rows && position.1 < self.total_columns()
    }

    /// The row-major index of a `(row, column)` pair.
    pub open spec fn index_of(&self, row: int, column: int) -> int {
        row * self.total_columns() + column
    }

    /// The row-major index of a position.
    pub open spec fn cell_index(&self, position: (usize, usize)) -> int {
        self.index_of(position.0 as int, position.1 as int)
    }

    /// The first column of the given player's side.
    pub open spec fn side_offset(&self, player: Player) -> int {
        match player {
            Player::Left => 0,
            Player::Right => self.n_columns as int,
        }
    }
}

/// A position on the board has a row-major index inside the board area.
pub proof fn lemma_index_in_area(settings: Settings, row: int, column: int)
    requires
        0 <= row < settings.n_rows,
        0 <= column < settings.total_columns(),
    ensures
        0 <= settings.index_of(row, column) < settings.n_cells(),
{
    assert(row * settings.total_columns() + column < settings.n_rows * settings.total_columns())
        by (nonlinear_arith)
        requires
            row < settings.n_rows,
            0 <= column < settings.total_columns(),
            0 <= row,
    ;
    assert(0 <= row * settings.total_columns()) by (nonlinear_arith)
        requires
            0 <= row,
            0 <= settings.total_columns(),
    ;
}

/// A row-major index inside the board area lies in a row of the board.
pub proof fn lemma_row_of_index(settings: Settings, i: int)
    requires
        settings.wf(),
        0 <= i < settings.n_cells(),
    ensures
        0 <= i / settings.total_columns() < settings.n_rows,
{
    let total = settings.total_columns();
    assert(i < total * settings.n_rows) by (nonlinear_arith)
        requires
            i < settings.n_rows * total,
    ;
    lemma_multiply_divide_lt(i, total, settings.n_rows as int);
    lemma_fundamental_div_mod(i, total);
    assert(0 <= i / total) by (nonlinear_arith)
        requires
            0 <= i,
            0 < total,
    ;
}

/// A runtime hard failure of the engine.
///
/// It is kept distinct from the boolean soft failures of `place_object` so a
/// caller can tell a programming bug apart from a normal game-state
/// rejection.
#[derive(Clone, Copy, Debug, PartialEq, Eq)]
pub enum GameError {
    /// The given position lies outside the board.
    OutOfBounds,
}

/// A construction-time validation failure: the game is never produced.
#[derive(Clone, Copy, Debug, PartialEq, Eq)]
pub enum BuildError {
    /// The game must contain at least one column.
    NoColumns,
    /// The game must contain at least one row.
    NoRows,
    /// The base must span at least one row.
    EmptyBaseSpan,
    /// The base must not exceed the game area.
    BaseSpanOutOfRange,
    /// The board would hold more cells than `usize` can address.
    TooManyCells,
    /// A preset object lies outside the board.
    PresetOutOfBounds,
    /// Player data must be provided before the game can be built.
    MissingPlayers,
}

/// A cell.
#[derive(Clone, Copy, Debug)]
pub struct Cell {
    /// The optional object placed in the cell.
    pub object: Option<OwnedObject>,
}

impl Cell {
    /// A cell is well-formed when the object it holds, if any, satisfies the
    /// object invariant.
    pub open spec fn wf(&self) -> bool {
        self.object matches Some(owned) ==> owned.object.wf()
    }

    /// Whether the cell holds an object.
    pub open spec fn is_occupied(&self) -> bool {
        self.object is Some
    }

    /// The cell after receiving `damage`: health above `damage` is reduced
    /// by it, otherwise the object is removed; an empty cell stays empty.
    pub open spec fn spec_receive_damage(&self, damage: u32) -> Cell {
        match self.object {
            None => *self,
            Some(owned) => if owned.object.health > damage {
                Cell {
                    object: Some(
                        OwnedObject {
                            object: Object {
                                kind: owned.object.kind,
                                health: (owned.object.health - damage) as u32,
                                max_health: owned.object.max_health,
                            },
                            owner: owned.owner,
                        },
                    ),
                }
            } else {
                Cell { object: None }
            },
        }
    }

    /// Returns an empty cell.
    pub fn empty() -> (cell: Cell)
        ensures
            cell == (Cell { object: None }),
    {
        Cell { object: None }
    }

    /// Receives the specified amount of damage, if an object is present.
    ///
    /// The object is removed if its health runs out: no object ever persists
    /// at health zero or below.
    pub fn receive_damage(&mut self, damage: u32)
        ensures
            *final(self) == old(self).spec_receive_damage(damage),
            old(self).wf() ==> final(self).wf(),
    {
        match self.object {
            None => {}
            Some(owned) => {
                if owned.object.health > damage {
                    self.object = Some(
                        OwnedObject {
                            object: Object {
                                kind: owned.object.kind,
                                health: owned.object.health - damage,
                                max_health: owned.object.max_health,
                            },
                            owner: owned.owner,
                        },
                    );
                } else {
                    self.object = None;
                }
            }
        }
    }
}

/// The mathematical view of a game: the settings, the board as a row-major
/// sequence of cells, and both players' data.
#[verifier::ext_equal]
pub ghost struct GameModel {
    /// The game settings.
    pub settings: Settings,
    /// The cells, row-major: the cell at `(row, column)` sits at index
    /// `row * 2 * n_columns + column`.
    pub cells: Seq<Cell>,
    /// Both players' data.
    pub players: Players<DataModel>,
}

impl GameModel {
    /// The game invariant: valid settings, a board of exactly
    /// `n_rows * 2 * n_columns` well-formed cells, and well-formed catalogs.
    pub open spec fn wf(&self) -> bool {
        &&& self.settings.wf()
        &&& self.cells.len() == self.settings.n_cells()
        &&& forall|i: int| 0 <= i < self.cells.len() ==> (#[trigger] self.cells[i]).wf()
        &&& self.players.left.wf()
        &&& self.players.right.wf()
    }

    /// Whether `place_object` succeeds for the given player, catalog index
    /// and time: the index is valid in the player's catalog, that
    /// placement's cooldown is over, and the player can afford the cost.
    pub open spec fn can_place(&self, player: Player, index: usize, now: u64) -> bool {
        let data = self.players.spec_get(player);
        &&& index < data.placements.len()
        &&& data.placements[index as int].cooldown.spec_is_over(now)
        &&& data.placements[index as int].cost <= data.keys
    }

    /// The game after a successful placement: the used placement's cooldown
    /// is reset, its cost is deducted from the player's keys, and a fresh
    /// object owned by the player is written into the target cell,
    /// overwriting any previous occupant.
    pub open spec fn place(
        &self,
        player: Player,
        position: (usize, usize),
        index: usize,
        now: u64,
    ) -> GameModel {
        let data = self.players.spec_get(player);
        let placement = data.placements[index as int];
        let used = Placement {
            cooldown: placement.cooldown.spec_reset(now),
            cost: placement.cost,
            blueprint: placement.blueprint,
        };
        let placed = Cell {
            object: Some(
                OwnedObject { object: placement.blueprint.spec_generate(now), owner: player },
            ),
        };
        GameModel {
            settings: self.settings,
            cells: self.cells.update(self.settings.cell_index(position), placed),
            players: self.players.spec_set(
                player,
                DataModel {
                    keys: (data.keys - placement.cost) as u32,
                    placements: data.placements.update(index as int, used),
                },
            ),
        }
    }

    /// The game after the cell at `position` has been cleared.
    pub open spec fn clear(&self, position: (usize, usize)) -> GameModel {
        GameModel {
            settings: self.settings,
            cells: self.cells.update(self.settings.cell_index(position), Cell { object: None }),
            players: self.players,
        }
    }

    /// The first occupied column of `row` among `[from, until)`, scanning
    /// by ascending column.
    pub open spec fn scan_ascending(&self, row: int, from: int, until: int) -> Option<int>
        decreases until - from,
    {
        if from >= until {
            None
        } else if self.cells[self.settings.index_of(row, from)].is_occupied() {
            Some(from)
        } else {
            self.scan_ascending(row, from + 1, until)
        }
    }

    /// The first occupied column of `row` among `[0, from]`, scanning by
    /// descending column.
    pub open spec fn scan_descending(&self, row: int, from: int) -> Option<int>
        decreases from + 1,
    {
        if from < 0 {
            None
        } else if self.cells[self.settings.index_of(row, from)].is_occupied() {
            Some(from)
        } else {
            self.scan_descending(row, from - 1)
        }
    }

    /// The column a fire object in `row` hits when attacking `victim`: the
    /// occupied cell on the victim's side nearest the division line,
    /// scanning outward from the division line toward the far edge.
    pub open spec fn find_target(&self, row: int, victim: Player) -> Option<int> {
        match victim {
            Player::Left => self.scan_descending(row, self.settings.n_columns - 1),
            Player::Right => self.scan_ascending(
                row,
                self.settings.n_columns as int,
                self.settings.total_columns(),
            ),
        }
    }
}

/// One player's keys after a generator owned by them fires: `generation`
/// keys are added, saturating, and the result never exceeds `max_keys`.
pub open spec fn gained_keys(keys: u32, generation: u32, max_keys: u32) -> u32 {
    if keys + generation <= max_keys {
        (keys + generation) as u32
    } else {
        max_keys
    }
}

impl GameModel {
    /// The game after the cell at index `i` has taken its turn at `now`.
    ///
    /// A key object whose cooldown is over resets it and generates keys for
    /// its owner, clamped at `max_keys`. A fire object whose cooldown is
    /// over resets it and damages the cell its owner targets, if any. A
    /// barrier, an empty cell, and a cooling-down object do nothing.
    pub open spec fn tick_cell(&self, i: int, now: u64) -> GameModel {
        match self.cells[i].object {
            None => *self,
            Some(owned) => {
                let row = i / self.settings.total_columns();
                match owned.object.kind {
                    ObjectKind::Key { generation, cooldown } => if cooldown.spec_is_over(now) {
                        let ticked = Cell {
                            object: Some(
                                OwnedObject {
                                    object: Object {
                                        kind: ObjectKind::Key {
                                            generation,
                                            cooldown: cooldown.spec_reset(now),
                                        },
                                        health: owned.object.health,
                                        max_health: owned.object.max_health,
                                    },
                                    owner: owned.owner,
                                },
                            ),
                        };
                        let data = self.players.spec_get(owned.owner);
                        GameModel {
                            settings: self.settings,
                            cells: self.cells.update(i, ticked),
                            players: self.players.spec_set(
                                owned.owner,
                                DataModel {
                                    keys: gained_keys(
                                        data.keys,
                                        generation,
                                        self.settings.max_keys,
                                    ),
                                    placements: data.placements,
                                },
                            ),
                        }
                    } else {
                        *self
                    },
                    ObjectKind::Fire { damage, cooldown } => if cooldown.spec_is_over(now) {
                        let ticked = Cell {
                            object: Some(
                                OwnedObject {
                                    object: Object {
                                        kind: ObjectKind::Fire {
                                            damage,
                                            cooldown: cooldown.spec_reset(now),
                                        },
                                        health: owned.object.health,
                                        max_health: owned.object.max_health,
                                    },
                                    owner: owned.owner,
                                },
                            ),
                        };
                        let armed = GameModel {
                            settings: self.settings,
                            cells: self.cells.update(i, ticked),
                            players: self.players,
                        };
                        match armed.find_target(row, owned.owner.toggle()) {
                            None => armed,
                            Some(column) => {
                                let j = self.settings.index_of(row, column);
                                GameModel {
                                    settings: self.settings,
                                    cells: armed.cells.update(
                                        j,
                                        armed.cells[j].spec_receive_damage(damage),
                                    ),
                                    players: self.players,
                                }
                            },
                        }
                    } else {
                        *self
                    },
                    ObjectKind::Barrier {  } => *self,
                }
            },
        }
    }

    /// The game after the first `n` cells, in row-major order, have taken
    /// their turns at `now`.
    ///
    /// Cross-cell effects take effect immediately: a cell removed by an
    /// earlier fire object no longer acts when its own turn comes.
    pub open spec fn tick_prefix(&self, n: int, now: u64) -> GameModel
        decreases n,
    {
        if n <= 0 {
            *self
        } else {
            self.tick_prefix(n - 1, now).tick_cell(n - 1, now)
        }
    }

    /// The game after one full update pass at `now`.
    pub open spec fn tick(&self, now: u64) -> GameModel {
        self.tick_prefix(self.cells.len() as int, now)
    }
}

/// Ticking one cell preserves the game invariant, the settings, and the
/// number of cells.
pub proof fn lemma_tick_cell_wf(m: GameModel, i: int, now: u64)
    requires
        m.wf(),
        0 <= i < m.cells.len(),
    ensures
        m.tick_cell(i, now).wf(),
        m.tick_cell(i, now).settings == m.settings,
        m.tick_cell(i, now).cells.len() == m.cells.len(),
{
    match m.cells[i].object {
        None => {}
        Some(owned) => {
            let row = i / m.settings.total_columns();
            lemma_row_of_index(m.settings, i);
            match owned.object.kind {
                ObjectKind::Key { generation, cooldown } => {}
                ObjectKind::Fire { damage, cooldown } => {
                    if cooldown.spec_is_over(now) {
                        let victim = owned.owner.toggle();
                        let base = GameModel {
                            settings: m.settings,
                            cells: m.cells.update(
                                i,
                                Cell {
                                    object: Some(
                                        OwnedObject {
                                            object: Object {
                                                kind: ObjectKind::Fire {
                                                    damage,
                                                    cooldown: cooldown.spec_reset(now),
                                                },
                                                health: owned.object.health,
                                                max_health: owned.object.max_health,
                                            },
                                            owner: owned.owner,
                                        },
                                    ),
                                },
                            ),
                            players: m.players,
                        };
                        match base.find_target(row, victim) {
                            None => {}
                            Some(column) => {
                                lemma_scan_ascending_range(
                                    base,
                                    row,
                                    m.settings.n_columns as int,
                                    m.settings.total_columns(),
                                );
                                lemma_scan_descending_range(
                                    base,
                                    row,
                                    m.settings.n_columns - 1,
                                );
                                lemma_index_in_area(m.settings, row, column);
                            },
                        }
                    }
                }
                ObjectKind::Barrier {  } => {}
            }
        },
    }
}

/// Ticking a prefix of the cells preserves the game invariant.
pub proof fn lemma_tick_prefix_wf(m: GameModel, n: int, now: u64)
    requires
        m.wf(),
        n <= m.cells.len(),
    ensures
        m.tick_prefix(n, now).wf(),
        m.tick_prefix(n, now).settings == m.settings,
        m.tick_prefix(n, now).cells.len() == m.cells.len(),
    decreases n,
{
    if n > 0 {
        lemma_tick_prefix_wf(m, n - 1, now);
        lemma_tick_cell_wf(m.tick_prefix(n - 1, now), n - 1, now);
    }
}

/// Clearing a cell that holds no object leaves the game unchanged, so
/// `clear_cell` is idempotent: a second clearing of the same cell has no
/// effect.
pub proof fn lemma_clear_empty_cell_unchanged(m: GameModel, position: (usize, usize))
    requires
        m.wf(),
        m.settings.in_bounds(position),
        m.cells[m.settings.cell_index(position)].object is None,
    ensures
        m.clear(position) == m,
{
    lemma_index_in_area(m.settings, position.0 as int, position.1 as int);
    assert(m.clear(position).cells =~= m.cells);
}

/// A successful placement consumes the placement's cooldown: as long as the
/// cooldown's duration has not elapsed again, the same placement cannot be
/// used a second time, whatever cell is targeted.
pub proof fn lemma_placement_rate_limited(
    m: GameModel,
    player: Player,
    position: (usize, usize),
    index: usize,
    now: u64,
    t: u64,
)
    requires
        m.can_place(player, index, now),
        0 < m.players.spec_get(player).placements[index as int].cooldown.duration,
        t < now + m.players.spec_get(player).placements[index as int].cooldown.duration,
    ensures
        !m.place(player, position, index, now).can_place(player, index, t),
{
    let used = m.place(player, position, index, now).players.spec_get(player).placements[
        index as int
    ];
    crate::cooldown::lemma_cooldown_cycle(used.cooldown, now, t);
}

/// An ascending scan reports the first occupied column of its range, or
/// none when the whole range is empty.
pub proof fn lemma_scan_ascending_range(m: GameModel, row: int, from: int, until: int)
    ensures
        m.scan_ascending(row, from, until) matches Some(column) ==> {
            &&& from <= column < until
            &&& m.cells[m.settings.index_of(row, column)].is_occupied()
            &&& forall|c: int|
                from <= c < column ==> !(#[trigger] m.cells[m.settings.index_of(
                    row,
                    c,
                )]).is_occupied()
        },
        m.scan_ascending(row, from, until) is None ==> forall|c: int|
            from <= c < until ==> !(#[trigger] m.cells[m.settings.index_of(
                row,
                c,
            )]).is_occupied(),
    decreases until - from,
{
    if from >= until {
    } else if !m.cells[m.settings.index_of(row, from)].is_occupied() {
        lemma_scan_ascending_range(m, row, from + 1, until);
    }
}

/// A descending scan reports the highest occupied column of `[0, from]`,
/// or none when all of them are empty.
pub proof fn lemma_scan_descending_range(m: GameModel, row: int, from: int)
    ensures
        m.scan_descending(row, from) matches Some(column) ==> {
            &&& 0 <= column <= from
            &&& m.cells[m.settings.index_of(row, column)].is_occupied()
            &&& forall|c: int|
                column < c <= from ==> !(#[trigger] m.cells[m.settings.index_of(
                    row,
                    c,
                )]).is_occupied()
        },
        m.scan_descending(row, from) is None ==> forall|c: int|
            0 <= c <= from ==> !(#[trigger] m.cells[m.settings.index_of(row, c)]).is_occupied(),
    decreases from + 1,
{
    if from < 0 {
    } else if !m.cells[m.settings.index_of(row, from)].is_occupied() {
        lemma_scan_descending_range(m, row, from - 1);
    }
}

/// A fire object hits the occupied cell nearest the division line: when a
/// target column is reported, that cell is occupied and every cell of the
/// victim's side strictly between the division line and the target is
/// empty; when no target is reported, the victim's whole side of the row
/// is empty.
pub proof fn lemma_find_target_nearest(m: GameModel, row: int, victim: Player)
    requires
        m.settings.wf(),
    ensures
        m.find_target(row, victim) matches Some(column) ==> {
            &&& m.settings.side_offset(victim) <= column < m.settings.side_offset(victim)
                + m.settings.n_columns
            &&& m.cells[m.settings.index_of(row, column)].is_occupied()
            &&& match victim {
                Player::Left => forall|c: int|
                    column < c < m.settings.n_columns ==> !(#[trigger] m.cells[
                        m.settings.index_of(row, c)
                    ]).is_occupied(),
                Player::Right => forall|c: int|
                    m.settings.n_columns <= c < column ==> !(#[trigger] m.cells[
                        m.settings.index_of(row, c)
                    ]).is_occupied(),
            }
        },
        m.find_target(row, victim) is None ==> forall|c: int|
            m.settings.side_offset(victim) <= c < m.settings.side_offset(victim)
                + m.settings.n_columns ==> !(#[trigger] m.cells[m.settings.index_of(
                row,
                c,
            )]).is_occupied(),
{
    match victim {
        Player::Left => lemma_scan_descending_range(m, row, m.settings.n_columns - 1),
        Player::Right => lemma_scan_ascending_range(
            m,
            row,
            m.settings.n_columns as int,
            m.settings.total_columns(),
        ),
    }
}

/// The game state.
///
/// Use the [`Builder`] API to build a game.
#[derive(Debug)]
pub struct Game {
    /// The game settings.
    pub settings: Settings,
    /// The cells, row-major; see [`GameModel::cells`].
    pub cells: Vec<Cell>,
    /// The players.
    pub players: Players<Data>,
}

impl View for Game {
    type V = GameModel;

    open spec fn view(&self) -> GameModel {
        GameModel {
            settings: self.settings,
            cells: self.cells@,
            players: Players { left: self.players.left@, right: self.players.right@ },
        }
    }
}

impl Game {
    /// The game invariant; see [`GameModel::wf`].
    pub open spec fn wf(&self) -> bool {
        self@.wf()
    }

    /// Returns the game settings.
    pub fn settings(&self) -> (settings: &Settings)
        ensures
            *settings == self@.settings,
    {
        &self.settings
    }

    /// Returns the cells, row-major: the cell at `(row, column)` sits at
    /// index `row * 2 * n_columns + column`.
    pub fn cells(&self) -> (cells: &Vec<Cell>)
        ensures
            cells@ == self@.cells,
    {
        &self.cells
    }

    /// Returns the players.
    pub fn players(&self) -> (players: &Players<Data>)
        ensures
            players.left@ == self@.players.left,
            players.right@ == self@.players.right,
    {
        &self.players
    }

    /// Returns the cell at the specified position, or `None` when the
    /// position lies outside the board.
    pub fn cell(&self, position: (usize, usize)) -> (cell: Option<&Cell>)
        requires
            self.wf(),
        ensures
            self@.settings.in_bounds(position) ==> (cell matches Some(c) && *c
                == self@.cells[self@.settings.cell_index(position)]),
            !self@.settings.in_bounds(position) ==> cell is None,
    {
        let (row, column) = position;
        if row < self.settings.n_rows && column < 2 * self.settings.n_columns {
            proof {
                lemma_index_in_area(self.settings, row as int, column as int);
            }
            Some(&self.cells[row * (2 * self.settings.n_columns) + column])
        } else {
            None
        }
    }

    /// Clears the cell at the specified position.
    ///
    /// Clearing an already-empty cell succeeds and changes nothing; only an
    /// out-of-bounds position fails, with no mutation.
    pub fn clear_cell(&mut self, _player: Player, position: (usize, usize)) -> (result: Result<
        (),
        GameError,
    >)
        requires
            old(self).wf(),
        ensures
            final(self).wf(),
            old(self)@.settings.in_bounds(position) ==> result == Ok::<(), GameError>(())
                && final(self)@ == old(self)@.clear(position),
            !old(self)@.settings.in_bounds(position) ==> result == Err::<(), GameError>(
                GameError::OutOfBounds,
            ) && *final(self) == *old(self),
    {
        let (row, column) = position;
        if row < self.settings.n_rows && column < 2 * self.settings.n_columns {
            proof {
                lemma_index_in_area(self.settings, row as int, column as int);
            }
            let i = row * (2 * self.settings.n_columns) + column;
            self.cells[i] = Cell { object: None };
            Ok(())
        } else {
            Err(GameError::OutOfBounds)
        }
    }

    /// Places an object at the specified position according to the
    /// specified index into the player's placement catalog.
    ///
    /// All preconditions are checked before anything is mutated: the
    /// position must be in bounds (a hard failure otherwise), the index must
    /// be valid, the placement's cooldown must be over, and the player must
    /// have enough keys (soft failures: `false` with no observable
    /// mutation). On success the placement's cooldown is reset, the cost is
    /// deducted from the player's keys, and a fresh object owned by the
    /// player is written into the cell, overwriting any previous occupant.
    pub fn place_object(
        &mut self,
        player: Player,
        position: (usize, usize),
        index: usize,
        now: u64,
    ) -> (result: Result<bool, GameError>)
        requires
            old(self).wf(),
        ensures
            final(self).wf(),
            !old(self)@.settings.in_bounds(position) ==> result == Err::<bool, GameError>(
                GameError::OutOfBounds,
            ) && *final(self) == *old(self),
            old(self)@.settings.in_bounds(position) && !old(self)@.can_place(player, index, now)
                ==> result == Ok::<bool, GameError>(false) && *final(self) == *old(self),
            old(self)@.settings.in_bounds(position) && old(self)@.can_place(player, index, now)
                ==> result == Ok::<bool, GameError>(true) && final(self)@ == old(self)@.place(
                player,
                position,
                index,
                now,
            ),
    {
        let (row, column) = position;
        if !(row < self.settings.n_rows && column < 2 * self.settings.n_columns) {
            return Err(GameError::OutOfBounds);
        }
        proof {
            lemma_index_in_area(self.settings, row as int, column as int);
        }
        let i = row * (2 * self.settings.n_columns) + column;

        let data = self.players.get(player);
        if index >= data.placements.len() {
            return Ok(false);
        }
        let placement = data.placements[index];
        if !placement.cooldown.is_over(now) {
            return Ok(false);
        }
        let keys = data.keys;
        if keys < placement.cost {
            return Ok(false);
        }

        let mut used = placement;
        used.cooldown.reset(now);
        let object = placement.generate_object(now);
        match player {
            Player::Left => {
                self.players.left.placements[index] = used;
                self.players.left.keys = keys - placement.cost;
            }
            Player::Right => {
                self.players.right.placements[index] = used;
                self.players.right.keys = keys - placement.cost;
            }
        }
        self.cells[i] = Cell { object: Some(OwnedObject { object, owner: player }) };
        proof {
            assert(self@ =~~= old(self)@.place(player, position, index, now));
        }
        Ok(true)
    }

    /// Updates the state of the game: one simulation tick at `now`.
    ///
    /// Every cell is visited in row-major order and dispatched by the kind
    /// of the object it holds, as [`GameModel::tick_cell`] describes; the
    /// effects of earlier cells are visible to later cells of the same
    /// pass.
    pub fn update(&mut self, now: u64) -> (result: Result<(), GameError>)
        requires
            old(self).wf(),
        ensures
            final(self).wf(),
            result == Ok::<(), GameError>(()),
            final(self)@ == old(self)@.tick(now),
    {
        let ghost orig = self@;
        let total = 2 * self.settings.n_columns;
        let max_keys = self.settings.max_keys;
        let n = self.cells.len();
        let mut i: usize = 0;
        while i < n
            invariant
                self.wf(),
                orig.wf(),
                self@ == orig.tick_prefix(i as int, now),
                self@.settings == orig.settings,
                total == orig.settings.total_columns(),
                max_keys == orig.settings.max_keys,
                n == orig.cells.len(),
                n == self@.cells.len(),
                i <= n,
            decreases n - i,
        {
            let ghost prev = self@;
            proof {
                lemma_row_of_index(self.settings, i as int);
            }
            let cell = self.cells[i];
            match cell.object {
                None => {}
                Some(owned) => {
                    let row = i / total;
                    match owned.object.kind {
                        ObjectKind::Key { generation, cooldown } => {
                            if cooldown.is_over(now) {
                                let mut ticked_cooldown = cooldown;
                                ticked_cooldown.reset(now);
                                self.cells[i] = Cell {
                                    object: Some(
                                        OwnedObject {
                                            object: Object {
                                                kind: ObjectKind::Key {
                                                    generation,
                                                    cooldown: ticked_cooldown,
                                                },
                                                health: owned.object.health,
                                                max_health: owned.object.max_health,
                                            },
                                            owner: owned.owner,
                                        },
                                    ),
                                };
                                let keys = match owned.owner {
                                    Player::Left => self.players.left.keys,
                                    Player::Right => self.players.right.keys,
                                };
                                let sum = keys as u64 + generation as u64;
                                let gained = if sum <= max_keys as u64 {
                                    sum as u32
                                } else {
                                    max_keys
                                };
                                match owned.owner {
                                    Player::Left => self.players.left.keys = gained,
                                    Player::Right => self.players.right.keys = gained,
                                }
                                proof {
                                    assert(self@ =~~= prev.tick_cell(i as int, now));
                                }
                            }
                        }
                        ObjectKind::Fire { damage, cooldown } => {
                            if cooldown.is_over(now) {
                                let mut ticked_cooldown = cooldown;
                                ticked_cooldown.reset(now);
                                self.cells[i] = Cell {
                                    object: Some(
                                        OwnedObject {
                                            object: Object {
                                                kind: ObjectKind::Fire {
                                                    damage,
                                                    cooldown: ticked_cooldown,
                                                },
                                                health: owned.object.health,
                                                max_health: owned.object.max_health,
                                            },
                                            owner: owned.owner,
                                        },
                                    ),
                                };
                                proof {
                                    assert(self.wf()) by {
                                        assert(forall|k: int|
                                            0 <= k < self@.cells.len() ==> (
                                            #[trigger] self@.cells[k]).wf());
                                    }
                                }
                                match self.find_target(row, owned.owner.toggle()) {
                                    None => {
                                        proof {
                                            assert(self@ =~~= prev.tick_cell(i as int, now));
                                        }
                                    }
                                    Some(column) => {
                                        proof {
                                            lemma_index_in_area(
                                                self.settings,
                                                row as int,
                                                column as int,
                                            );
                                        }
                                        let j = row * total + column;
                                        let mut target = self.cells[j];
                                        target.receive_damage(damage);
                                        self.cells[j] = target;
                                        proof {
                                            assert(self@ =~~= prev.tick_cell(i as int, now));
                                        }
                                    }
                                }
                            }
                        }
                        ObjectKind::Barrier {  } => {}
                    }
                }
            }
            proof {
                lemma_tick_cell_wf(prev, i as int, now);
                assert(self@ == prev.tick_cell(i as int, now));
            }
            i = i + 1;
        }
        Ok(())
    }

    /// Find a target on the specified row.
    ///
    /// `player` specifies the targeted player: the result is the column of
    /// the occupied cell on that player's side nearest the division line.
    fn find_target(&self, row: usize, player: Player) -> (target: Option<usize>)
        requires
            self.wf(),
            row < self@.settings.n_rows,
        ensures
            target matches Some(column) ==> self@.find_target(row as int, player) == Some(
                column as int,
            ) && column < self@.settings.total_columns(),
            target is None ==> self@.find_target(row as int, player) is None,
    {
        let n_columns = self.settings.n_columns;
        match player {
            Player::Left => {
                let mut column = n_columns;
                while column > 0
                    invariant
                        self.wf(),
                        row < self@.settings.n_rows,
                        player == Player::Left,
                        n_columns == self@.settings.n_columns,
                        column <= n_columns,
                        self@.scan_descending(row as int, n_columns - 1) == self@.scan_descending(
                            row as int,
                            column - 1,
                        ),
                    decreases column,
                {
                    let c = column - 1;
                    proof {
                        lemma_index_in_area(self.settings, row as int, c as int);
                    }
                    let i = row * (2 * self.settings.n_columns) + c;
                    if self.cells[i].object.is_some() {
                        return Some(c);
                    }
                    column = c;
                }
                None
            }
            Player::Right => {
                let total = 2 * n_columns;
                let mut column = n_columns;
                while column < total
                    invariant
                        self.wf(),
                        row < self@.settings.n_rows,
                        player == Player::Right,
                        n_columns == self@.settings.n_columns,
                        total == self@.settings.total_columns(),
                        n_columns <= column <= total,
                        self@.scan_ascending(row as int, n_columns as int, total as int)
                            == self@.scan_ascending(row as int, column as int, total as int),
                    decreases total - column,
                {
                    proof {
                        lemma_index_in_area(self.settings, row as int, column as int);
                    }
                    let i = row * (2 * self.settings.n_columns) + column;
                    if self.cells[i].object.is_some() {
                        return Some(column);
                    }
                    column = column + 1;
                }
                None
            }
        }
    }
}

/// Builds a game.
///
/// The builder validates the settings before any board exists, lets the
/// caller preset objects and the initial player economy, and produces the
/// game at the end.
#[derive(Debug)]
pub struct Builder {
    /// The validated settings.
    pub settings: Settings,
    /// The cells, row-major; see [`GameModel::cells`].
    pub cells: Vec<Cell>,
    /// The player data, once provided.
    pub players: Option<Players<Data>>,
}

impl Builder {
    /// The builder invariant: valid settings, a board of well-formed cells,
    /// and well-formed catalogs once player data is provided.
    pub open spec fn wf(&self) -> bool {
        &&& self.settings.wf()
        &&& self.cells@.len() == self.settings.n_cells()
        &&& forall|i: int| 0 <= i < self.cells@.len() ==> (#[trigger] self.cells@[i]).wf()
        &&& self.players matches Some(players) ==> players.left@.wf() && players.right@.wf()
    }

    /// Creates a new game builder with an empty board.
    ///
    /// Construction fails fast, before any board exists, on settings with no
    /// columns or rows, an empty or out-of-range base span, or a board too
    /// large for `usize` to address.
    pub fn new(settings: Settings) -> (result: Result<Builder, BuildError>)
        ensures
            ({
                if settings.n_columns == 0 {
                    result == Err::<Builder, BuildError>(BuildError::NoColumns)
                } else if settings.n_rows == 0 {
                    result == Err::<Builder, BuildError>(BuildError::NoRows)
                } else if settings.base_span.start >= settings.base_span.end {
                    result == Err::<Builder, BuildError>(BuildError::EmptyBaseSpan)
                } else if settings.base_span.end > settings.n_rows {
                    result == Err::<Builder, BuildError>(BuildError::BaseSpanOutOfRange)
                } else if !settings.wf() {
                    result == Err::<Builder, BuildError>(BuildError::TooManyCells)
                } else {
                    &&& result matches Ok(builder)
                    &&& builder.wf()
                    &&& builder.settings == settings
                    &&& builder.cells@ == Seq::new(
                        settings.n_cells() as nat,
                        |i: int| (Cell { object: None }),
                    )
                    &&& builder.players is None
                }
            }),
    {
        if settings.n_columns == 0 {
            return Err(BuildError::NoColumns);
        }
        if settings.n_rows == 0 {
            return Err(BuildError::NoRows);
        }
        if settings.base_span.start >= settings.base_span.end {
            return Err(BuildError::EmptyBaseSpan);
        }
        if settings.base_span.end > settings.n_rows {
            return Err(BuildError::BaseSpanOutOfRange);
        }
        let total_columns = match settings.n_columns.checked_mul(2) {
            None => return Err(BuildError::TooManyCells),
            Some(t) => t,
        };
        let n_cells = match settings.n_rows.checked_mul(total_columns) {
            None => return Err(BuildError::TooManyCells),
            Some(n) => n,
        };

        let mut cells: Vec<Cell> = Vec::new();
        let mut i: usize = 0;
        while i < n_cells
            invariant
                i <= n_cells,
                cells@.len() == i,
                forall|j: int| 0 <= j < i ==> cells@[j] == (Cell { object: None }),
            decreases n_cells - i,
        {
            cells.push(Cell { object: None });
            i = i + 1;
        }
        proof {
            assert(cells@ =~= Seq::new(settings.n_cells() as nat, |i: int| (Cell { object: None })));
        }
        Ok(Builder { settings, cells, players: None })
    }

    /// Presets an object.
    ///
    /// Fails when the position lies outside the board, leaving the builder
    /// behind.
    pub fn object(self, index: (usize, usize), owned_object: OwnedObject) -> (result: Result<
        Builder,
        BuildError,
    >)
        requires
            self.wf(),
            owned_object.object.wf(),
        ensures
            self.settings.in_bounds(index) ==> (result matches Ok(builder) && {
                &&& builder.wf()
                &&& builder.settings == self.settings
                &&& builder.cells@ == self.cells@.update(
                    self.settings.cell_index(index),
                    Cell { object: Some(owned_object) },
                )
                &&& builder.players == self.players
            }),
            !self.settings.in_bounds(index) ==> result == Err::<Builder, BuildError>(
                BuildError::PresetOutOfBounds,
            ),
    {
        let (row, column) = index;
        if row < self.settings.n_rows && column < 2 * self.settings.n_columns {
            proof {
                lemma_index_in_area(self.settings, row as int, column as int);
            }
            let mut builder = self;
            let i = row * (2 * builder.settings.n_columns) + column;
            builder.cells[i] = Cell { object: Some(owned_object) };
            Ok(builder)
        } else {
            Err(BuildError::PresetOutOfBounds)
        }
    }

    /// Sets player data.
    pub fn players(self, players: Players<Data>) -> (builder: Builder)
        requires
            players.left@.wf(),
            players.right@.wf(),
        ensures
            builder.settings == self.settings,
            builder.cells == self.cells,
            builder.players == Some(players),
    {
        Builder { settings: self.settings, cells: self.cells, players: Some(players) }
    }

    /// Builds a game.
    ///
    /// Fails when no player data was provided.
    pub fn finish(self) -> (result: Result<Game, BuildError>)
        requires
            self.wf(),
        ensures
            self.players is Some <==> result is Ok,
            result matches Ok(game) ==> {
                &&& game.wf()
                &&& game.settings == self.settings
                &&& game.cells == self.cells
                &&& Some(game.players) == self.players
            },
            result matches Err(e) ==> e == BuildError::MissingPlayers,
    {
        match self.players {
            None => Err(BuildError::MissingPlayers),
            Some(players) => Ok(
                Game { settings: self.settings, cells: self.cells, players },
            ),
        }
    }
}

} // verus!
