//! The world: everything that one frame of the game reads and changes.
use crate::entity::{Enemy, Particle, Pickup, PickupType, Projectile, TWO_PI};
use crate::fixed::{Vec3, ONE};
use crate::level::{cell_before, cell_center, Level, LevelView, CELL_SIZE, HALF_CELL};
use crate::maps::level_view;
use crate::player::{Player, PLAYER_HEIGHT};
use crate::weapon::STAT_LIMIT;
use vstd::prelude::*;

verus! {

#[derive(Clone, Copy, Debug, PartialEq, Eq, Structural)]
pub enum GameState {
    Menu,
    Playing,
    Paused,
    Dead,
    Victory,
}

pub struct World {
    pub player: Player,
    pub enemies: Vec<Enemy>,
    pub projectiles: Vec<Projectile>,
    pub particles: Vec<Particle>,
    pub pickups: Vec<Pickup>,
    pub level: Level,
    pub current_level: usize,
    pub state: GameState,
    pub screen_shake: i64,
    pub muzzle_flash: i64,
    pub hit_marker: i64,
    /// Kills in the current streak.
    pub combo: i32,
    /// Time left until the streak ends, in microseconds.
    pub combo_timer: i64,
    pub total_kills: i32,
}

/// The mathematical content of a `World`.
pub struct WorldView {
    pub player: Player,
    pub enemies: Seq<Enemy>,
    pub projectiles: Seq<Projectile>,
    pub particles: Seq<Particle>,
    pub pickups: Seq<Pickup>,
    pub level: LevelView,
    pub current_level: usize,
    pub state: GameState,
    pub screen_shake: i64,
    pub muzzle_flash: i64,
    pub hit_marker: i64,
    pub combo: i32,
    pub combo_timer: i64,
    pub total_kills: i32,
}

/// The enemy that the symbol `c` in the cell around (x, z) calls for.
pub open spec fn enemy_for(c: char, x: int, z: int) -> Option<Enemy> {
    if c == 'G' {
        Some(Enemy::grunt(x as i64, z as i64))
    } else if c == 'H' {
        Some(Enemy::heavy(x as i64, z as i64))
    } else if c == 'D' {
        Some(Enemy::demon(x as i64, z as i64))
    } else {
        None
    }
}

/// The kind of pickup that the symbol `c` calls for.
pub open spec fn pickup_for(c: char) -> Option<PickupType> {
    if c == '+' {
        Some(PickupType::Health)
    } else if c == 'A' {
        Some(PickupType::Ammo)
    } else if c == 'S' {
        Some(PickupType::SpeedBoost)
    } else if c == 'B' {
        Some(PickupType::DamageBoost)
    } else if c == 'R' {
        Some(PickupType::Armor)
    } else {
        None
    }
}

/// The enemies that the first `n` cells of row `y` call for, left to right.
pub open spec fn row_enemies(row: Seq<char>, y: int, n: nat) -> Seq<Enemy>
    decreases n,
{
    if n == 0 {
        Seq::empty()
    } else {
        let before = row_enemies(row, y, (n - 1) as nat);
        match enemy_for(row[n - 1], cell_center(n - 1), cell_center(y)) {
            Some(e) => before.push(e),
            None => before,
        }
    }
}

/// The enemies that the first `n` rows call for, top to bottom.
pub open spec fn grid_enemies(grid: Seq<Seq<char>>, n: nat) -> Seq<Enemy>
    decreases n,
{
    if n == 0 {
        Seq::empty()
    } else {
        grid_enemies(grid, (n - 1) as nat) + row_enemies(grid[n - 1], n - 1, grid[n - 1].len())
    }
}

/// The pickups that the first `n` cells of row `y` call for, left to right,
/// each at phase 0.
pub open spec fn row_pickups(row: Seq<char>, y: int, n: nat) -> Seq<Pickup>
    decreases n,
{
    if n == 0 {
        Seq::empty()
    } else {
        let before = row_pickups(row, y, (n - 1) as nat);
        match pickup_for(row[n - 1]) {
            Some(kind) => before.push(
                Pickup::with_phase(cell_center(n - 1) as i64, cell_center(y) as i64, kind, 0),
            ),
            None => before,
        }
    }
}

/// The pickups that the first `n` rows call for, top to bottom, each at
/// phase 0.
pub open spec fn grid_pickups(grid: Seq<Seq<char>>, n: nat) -> Seq<Pickup>
    decreases n,
{
    if n == 0 {
        Seq::empty()
    } else {
        grid_pickups(grid, (n - 1) as nat) + row_pickups(grid[n - 1], n - 1, grid[n - 1].len())
    }
}

/// The two runs of pickups agree in everything but the phase of their
/// hovering, which is a fresh draw from a full turn.
pub open spec fn same_but_phase(drawn: Seq<Pickup>, marked: Seq<Pickup>) -> bool {
    &&& drawn.len() == marked.len()
    &&& forall|i: int|
        0 <= i < drawn.len() ==> #[trigger] drawn[i] == (Pickup {
            bob_offset: drawn[i].bob_offset,
            ..marked[i]
        }) && 0 <= drawn[i].bob_offset <= TWO_PI
}

/// The number of enemies among the first `n` that are alive.
pub open spec fn alive_among(enemies: Seq<Enemy>, n: nat) -> nat
    decreases n,
{
    if n == 0 {
        0
    } else {
        alive_among(enemies, (n - 1) as nat) + if enemies[n - 1].dead {
            0nat
        } else {
            1nat
        }
    }
}

impl LevelView {
    /// The middle of the first cell that holds `c`, reading row by row, or
    /// the point (8.0, 8.0) where no cell holds it.
    pub open spec fn marker(self, c: char) -> (int, int) {
        if self.has_symbol(c) {
            let (x, y) = choose|x: int, y: int| self.is_first(c, x, y);
            (cell_center(x), cell_center(y))
        } else {
            (2 * CELL_SIZE, 2 * CELL_SIZE)
        }
    }

    /// The enemies that the level starts with.
    pub open spec fn enemies(self) -> Seq<Enemy> {
        grid_enemies(self.grid, self.height)
    }

    /// The pickups that the level starts with, each at phase 0.
    pub open spec fn pickups(self) -> Seq<Pickup> {
        grid_pickups(self.grid, self.height)
    }

    /// Where the player starts.
    pub open spec fn start(self) -> Vec3 {
        Vec3 { x: self.marker('P').0 as i64, y: PLAYER_HEIGHT, z: self.marker('P').1 as i64 }
    }
}

impl WorldView {
    pub open spec fn wf(self) -> bool {
        &&& self.player.wf()
        &&& self.level.wf()
        &&& forall|i: int| 0 <= i < self.enemies.len() ==> (#[trigger] self.enemies[i]).wf()
        &&& forall|i: int| 0 <= i < self.projectiles.len() ==> (#[trigger] self.projectiles[i]).wf()
        &&& forall|i: int| 0 <= i < self.particles.len() ==> (#[trigger] self.particles[i]).wf()
        &&& forall|i: int| 0 <= i < self.pickups.len() ==> (#[trigger] self.pickups[i]).wf()
        &&& 0 <= self.screen_shake <= ONE
        &&& 0 <= self.muzzle_flash <= ONE
        &&& 0 <= self.hit_marker <= ONE
        &&& -STAT_LIMIT <= self.combo_timer <= STAT_LIMIT
    }

    /// The number of enemies that are alive.
    pub open spec fn alive_enemies(self) -> nat {
        alive_among(self.enemies, self.enemies.len())
    }
}

impl View for World {
    type V = WorldView;

    open spec fn view(&self) -> WorldView {
        WorldView {
            player: self.player,
            enemies: self.enemies@,
            projectiles: self.projectiles@,
            particles: self.particles@,
            pickups: self.pickups@,
            level: self.level@,
            current_level: self.current_level,
            state: self.state,
            screen_shake: self.screen_shake,
            muzzle_flash: self.muzzle_flash,
            hit_marker: self.hit_marker,
            combo: self.combo,
            combo_timer: self.combo_timer,
            total_kills: self.total_kills,
        }
    }
}

/// A symbol has no more than one first cell.
pub proof fn lemma_first_is_unique(l: LevelView, c: char, x1: int, y1: int, x2: int, y2: int)
    requires
        l.is_first(c, x1, y1),
        l.is_first(c, x2, y2),
    ensures
        x1 == x2,
        y1 == y2,
{
    assert(l.holds(c, x1, y1));
    assert(l.holds(c, x2, y2));
    assert(!cell_before(x1, y1, x2, y2));
    assert(!cell_before(x2, y2, x1, y1));
}

/// Where (x, y) is the first cell that holds `c`, the marker is its middle.
pub proof fn lemma_marker_at(l: LevelView, c: char, x: int, y: int)
    requires
        l.is_first(c, x, y),
    ensures
        l.marker(c) == (cell_center(x), cell_center(y)),
{
    assert(l.holds(c, x, y));
    let (cx, cy) = choose|cx: int, cy: int| l.is_first(c, cx, cy);
    lemma_first_is_unique(l, c, x, y, cx, cy);
}

/// The marker of any symbol lies within a well-formed level's limits.
pub proof fn lemma_marker_bounds(l: LevelView, c: char)
    requires
        l.wf(),
    ensures
        0 <= l.marker(c).0 <= 0x10000 * CELL_SIZE,
        0 <= l.marker(c).1 <= 0x10000 * CELL_SIZE,
{
    if l.has_symbol(c) {
        let (x0, y0) = choose|x: int, y: int| l.holds(c, x, y);
        lemma_first_exists(l, c, x0, y0);
        let (x, y) = choose|x: int, y: int| l.is_first(c, x, y);
        assert(l.holds(c, x, y));
    }
}

/// Where some cell holds `c`, one of them is the first.
pub proof fn lemma_first_exists(l: LevelView, c: char, x: int, y: int)
    requires
        l.wf(),
        l.holds(c, x, y),
    ensures
        exists|fx: int, fy: int| l.is_first(c, fx, fy),
    decreases y * (l.width + 1) + x,
{
    if l.is_first(c, x, y) {
    } else {
        let (x2, y2) = choose|x2: int, y2: int| l.holds(c, x2, y2) && cell_before(x2, y2, x, y);
        assert(y2 * (l.width + 1) + x2 < y * (l.width + 1) + x) by (nonlinear_arith)
            requires
                0 <= x2 < l.width,
                0 <= x < l.width,
                0 <= y2,
                y2 < y || (y2 == y && x2 < x),
        ;
        assert(0 <= y2 * (l.width + 1) + x2) by (nonlinear_arith)
            requires
                0 <= x2,
                0 <= y2,
                0 <= l.width,
        ;
        lemma_first_exists(l, c, x2, y2);
    }
}

impl World {
    pub open spec fn wf(&self) -> bool {
        self@.wf()
    }

    /// Whether the world is well-formed: the level is a rectangle, and
    /// everything in it lies within the limits of the arithmetic.
    pub fn is_valid(&self) -> (b: bool)
        ensures
            b == self.wf(),
    {
        if !self.player.is_valid() || !self.level.is_valid() {
            return false;
        }
        let mut i: usize = 0;
        while i < self.enemies.len()
            invariant
                i <= self.enemies@.len(),
                forall|k: int| 0 <= k < i ==> (#[trigger] self@.enemies[k]).wf(),
            decreases self.enemies@.len() - i,
        {
            if !self.enemies[i].is_valid() {
                assert(!self@.enemies[i as int].wf());
                return false;
            }
            i += 1;
        }
        let mut i: usize = 0;
        while i < self.projectiles.len()
            invariant
                i <= self.projectiles@.len(),
                forall|k: int| 0 <= k < i ==> (#[trigger] self@.projectiles[k]).wf(),
            decreases self.projectiles@.len() - i,
        {
            if !self.projectiles[i].is_valid() {
                assert(!self@.projectiles[i as int].wf());
                return false;
            }
            i += 1;
        }
        let mut i: usize = 0;
        while i < self.particles.len()
            invariant
                i <= self.particles@.len(),
                forall|k: int| 0 <= k < i ==> (#[trigger] self@.particles[k]).wf(),
            decreases self.particles@.len() - i,
        {
            if !self.particles[i].is_valid() {
                assert(!self@.particles[i as int].wf());
                return false;
            }
            i += 1;
        }
        let mut i: usize = 0;
        while i < self.pickups.len()
            invariant
                i <= self.pickups@.len(),
                forall|k: int| 0 <= k < i ==> (#[trigger] self@.pickups[k]).wf(),
            decreases self.pickups@.len() - i,
        {
            if !self.pickups[i].is_valid() {
                assert(!self@.pickups[i as int].wf());
                return false;
            }
            i += 1;
        }
        0 <= self.screen_shake && self.screen_shake <= ONE && 0 <= self.muzzle_flash
            && self.muzzle_flash <= ONE && 0 <= self.hit_marker && self.hit_marker <= ONE
            && -STAT_LIMIT <= self.combo_timer && self.combo_timer <= STAT_LIMIT
    }

    /// The middle of the first cell of the level that holds `c`, reading row
    /// by row; (8.0, 8.0) where no cell holds it.
    pub fn find_char(level: &Level, c: char) -> (at: (i64, i64))
        requires
            level.wf(),
        ensures
            (at.0 as int, at.1 as int) == level@.marker(c),
    {
        let mut y: usize = 0;
        while y < level.height
            invariant
                level.wf(),
                y <= level.height,
                forall|x2: int, y2: int| 0 <= y2 < y ==> !#[trigger] level@.holds(c, x2, y2),
            decreases level.height - y,
        {
            let mut x: usize = 0;
            while x < level.width
                invariant
                    level.wf(),
                    y < level.height,
                    x <= level.width,
                    forall|x2: int, y2: int| 0 <= y2 < y ==> !#[trigger] level@.holds(c, x2, y2),
                    forall|x2: int| 0 <= x2 < x ==> !#[trigger] level@.holds(c, x2, y as int),
                decreases level.width - x,
            {
                assert(level@.grid[y as int] == level.grid@[y as int]@);
                if level.grid[y][x] == c {
                    proof {
                        assert(level@.holds(c, x as int, y as int));
                        assert(level@.is_first(c, x as int, y as int));
                        lemma_marker_at(level@, c, x as int, y as int);
                    }
                    return (
                        x as i64 * CELL_SIZE + HALF_CELL,
                        y as i64 * CELL_SIZE + HALF_CELL,
                    );
                }
                x += 1;
            }
            y += 1;
        }
        assert(!level@.has_symbol(c));
        (CELL_SIZE * 2, CELL_SIZE * 2)
    }

    /// The number of enemies that are alive.
    pub fn alive_enemies(&self) -> (n: usize)
        ensures
            n == self@.alive_enemies(),
    {
        let mut n: usize = 0;
        let mut i: usize = 0;
        while i < self.enemies.len()
            invariant
                i <= self.enemies.len(),
                n <= i,
                n == alive_among(self.enemies@, i as nat),
            decreases self.enemies.len() - i,
        {
            if !self.enemies[i].dead {
                n += 1;
            }
            i += 1;
        }
        n
    }
}

/// The enemies that a level starts with: one for each spawn symbol, in the
/// order in which the grid is read.
fn enemies_of(level: &Level) -> (enemies: Vec<Enemy>)
    requires
        level.wf(),
    ensures
        enemies@ == level@.enemies(),
        forall|i: int| 0 <= i < enemies@.len() ==> (#[trigger] enemies@[i]).wf(),
{
    let mut enemies: Vec<Enemy> = Vec::new();
    let mut y: usize = 0;
    while y < level.height
        invariant
            level.wf(),
            y <= level.height,
            enemies@ == grid_enemies(level@.grid, y as nat),
            forall|i: int| 0 <= i < enemies@.len() ==> (#[trigger] enemies@[i]).wf(),
        decreases level.height - y,
    {
        let ghost above = enemies@;
        let ghost row = level@.grid[y as int];
        let mut x: usize = 0;
        while x < level.width
            invariant
                level.wf(),
                y < level.height,
                x <= level.width,
                row == level@.grid[y as int],
                above == grid_enemies(level@.grid, y as nat),
                enemies@ == above + row_enemies(row, y as int, x as nat),
                forall|i: int| 0 <= i < enemies@.len() ==> (#[trigger] enemies@[i]).wf(),
            decreases level.width - x,
        {
            assert(level@.grid[y as int] == level.grid@[y as int]@);
            let cell = level.grid[y][x];
            let wx = x as i64 * CELL_SIZE + HALF_CELL;
            let wz = y as i64 * CELL_SIZE + HALF_CELL;
            let ghost before = row_enemies(row, y as int, x as nat);
            if cell == 'G' {
                enemies.push(Enemy::grunt(wx, wz));
                assert(enemies@ =~= above + before.push(Enemy::grunt(wx, wz)));
            } else if cell == 'H' {
                enemies.push(Enemy::heavy(wx, wz));
                assert(enemies@ =~= above + before.push(Enemy::heavy(wx, wz)));
            } else if cell == 'D' {
                enemies.push(Enemy::demon(wx, wz));
                assert(enemies@ =~= above + before.push(Enemy::demon(wx, wz)));
            }
            x += 1;
        }
        y += 1;
    }
    enemies
}

/// The pickups that a level starts with: one for each pickup symbol, in the
/// order in which the grid is read.
fn pickups_of(level: &Level) -> (pickups: Vec<Pickup>)
    requires
        level.wf(),
    ensures
        same_but_phase(pickups@, level@.pickups()),
        forall|i: int| 0 <= i < pickups@.len() ==> (#[trigger] pickups@[i]).wf(),
{
    let mut pickups: Vec<Pickup> = Vec::new();
    let mut y: usize = 0;
    while y < level.height
        invariant
            level.wf(),
            y <= level.height,
            same_but_phase(pickups@, grid_pickups(level@.grid, y as nat)),
            forall|i: int| 0 <= i < pickups@.len() ==> (#[trigger] pickups@[i]).wf(),
        decreases level.height - y,
    {
        let ghost above = grid_pickups(level@.grid, y as nat);
        let ghost row = level@.grid[y as int];
        let mut x: usize = 0;
        while x < level.width
            invariant
                level.wf(),
                y < level.height,
                x <= level.width,
                row == level@.grid[y as int],
                above == grid_pickups(level@.grid, y as nat),
                same_but_phase(pickups@, above + row_pickups(row, y as int, x as nat)),
                forall|i: int| 0 <= i < pickups@.len() ==> (#[trigger] pickups@[i]).wf(),
            decreases level.width - x,
        {
            assert(level@.grid[y as int] == level.grid@[y as int]@);
            let cell = level.grid[y][x];
            let wx = x as i64 * CELL_SIZE + HALF_CELL;
            let wz = y as i64 * CELL_SIZE + HALF_CELL;
            let kind = pickup_kind(cell);
            let ghost before = row_pickups(row, y as int, x as nat);
            match kind {
                Some(kind) => {
                    let pickup = Pickup::new(wx, wz, kind);
                    pickups.push(pickup);
                    assert(above + before.push(Pickup::with_phase(wx, wz, kind, 0)) =~= (above
                        + before).push(Pickup::with_phase(wx, wz, kind, 0)));
                },
                None => {},
            }
            x += 1;
        }
        y += 1;
    }
    pickups
}

/// The kind of pickup that a cell symbol calls for.
pub fn pickup_kind(c: char) -> (kind: Option<PickupType>)
    ensures
        kind == pickup_for(c),
{
    if c == '+' {
        Some(PickupType::Health)
    } else if c == 'A' {
        Some(PickupType::Ammo)
    } else if c == 'S' {
        Some(PickupType::SpeedBoost)
    } else if c == 'B' {
        Some(PickupType::DamageBoost)
    } else if c == 'R' {
        Some(PickupType::Armor)
    } else {
        None
    }
}

/// The level with the given number; the first level stands in for any
/// number outside 1 to 5.
pub fn level_number(num: usize) -> (l: Level)
    ensures
        l@ == level_view(num as int),
        l.wf(),
{
    if num == 2 {
        Level::level_2()
    } else if num == 3 {
        Level::level_3()
    } else if num == 4 {
        Level::level_4()
    } else if num == 5 {
        Level::level_5()
    } else {
        Level::level_1()
    }
}

impl WorldView {
    /// The world after the level with the given number is loaded, but for
    /// the phases of the new pickups: the player stands at the level's start
    /// and looks along the x axis, the level's enemies and pickups take the
    /// place of the old, and nothing is left in flight. Score, kills,
    /// weapons, health, armor and boosts are kept.
    pub open spec fn load_level(self, num: usize) -> WorldView {
        let level = level_view(num as int);
        WorldView {
            level,
            current_level: num,
            player: Player { pos: level.start(), yaw: 0, pitch: 0, ..self.player },
            enemies: level.enemies(),
            pickups: level.pickups(),
            projectiles: Seq::empty(),
            particles: Seq::empty(),
            ..self
        }
    }

    /// The world at the start of a run, but for the phases of the pickups:
    /// a fresh player in the first level, the game in play.
    pub open spec fn restart(self) -> WorldView {
        let fresh = Player::spec_new(0, 0);
        let reset = WorldView {
            player: Player {
                health: fresh.health,
                armor: fresh.armor,
                score: fresh.score,
                kills: fresh.kills,
                speed_boost: fresh.speed_boost,
                damage_boost: fresh.damage_boost,
                weapons: fresh.weapons,
                current_weapon: fresh.current_weapon,
                ..self.player
            },
            combo: 0,
            combo_timer: 0,
            total_kills: 0,
            ..self
        };
        WorldView { state: GameState::Playing, ..reset.load_level(1) }
    }

    /// The world as the program starts with it, but for the phases of the
    /// pickups: the first level, the menu showing.
    pub open spec fn initial() -> WorldView {
        let level = level_view(1);
        WorldView {
            player: Player::spec_new(level.marker('P').0 as i64, level.marker('P').1 as i64),
            enemies: level.enemies(),
            projectiles: Seq::empty(),
            particles: Seq::empty(),
            pickups: level.pickups(),
            level,
            current_level: 1,
            state: GameState::Menu,
            screen_shake: 0,
            muzzle_flash: 0,
            hit_marker: 0,
            combo: 0,
            combo_timer: 0,
            total_kills: 0,
        }
    }

    /// `self` is `other` but for the phases of the pickups, which are fresh
    /// draws.
    pub open spec fn is_but_phases(self, other: WorldView) -> bool {
        &&& self == (WorldView { pickups: self.pickups, ..other })
        &&& same_but_phase(self.pickups, other.pickups)
    }
}

impl World {
    /// The world as the program starts with it: the first level, the menu showing.
    pub fn new() -> (world: World)
        ensures
            world@.is_but_phases(WorldView::initial()),
            world.wf(),
    {
        let level = Level::level_1();
        let (px, pz) = Self::find_char(&level, 'P');
        let enemies = enemies_of(&level);
        let pickups = pickups_of(&level);
        proof {
            lemma_marker_bounds(level@, 'P');
        }
        World {
            player: Player::new(px, pz),
            enemies,
            projectiles: Vec::new(),
            particles: Vec::new(),
            pickups,
            level,
            current_level: 1,
            state: GameState::Menu,
            screen_shake: 0,
            muzzle_flash: 0,
            hit_marker: 0,
            combo: 0,
            combo_timer: 0,
            total_kills: 0,
        }
    }

    /// Puts the enemies of the level in place of the present ones.
    pub fn spawn_enemies(&mut self)
        requires
            old(self).level.wf(),
        ensures
            final(self)@ == (WorldView { enemies: old(self)@.level.enemies(), ..old(self)@ }),
            forall|i: int| 0 <= i < final(self)@.enemies.len() ==> (#[trigger] final(self)@.enemies[i]).wf(),
    {
        self.enemies = enemies_of(&self.level);
    }

    /// Puts the pickups of the level in place of the present ones.
    pub fn spawn_pickups(&mut self)
        requires
            old(self).level.wf(),
        ensures
            final(self)@.is_but_phases(WorldView { pickups: old(self)@.level.pickups(), ..old(self)@ }),
            forall|i: int| 0 <= i < final(self)@.pickups.len() ==> (#[trigger] final(self)@.pickups[i]).wf(),
    {
        self.pickups = pickups_of(&self.level);
    }

    /// Loads the level with the given number and puts the player at its
    /// start. What the player carries and has scored is kept.
    pub fn load_level(&mut self, num: usize)
        requires
            old(self).wf(),
        ensures
            final(self)@.is_but_phases(old(self)@.load_level(num)),
            final(self).wf(),
    {
        self.level = level_number(num);
        self.current_level = num;
        let (px, pz) = Self::find_char(&self.level, 'P');
        proof {
            lemma_marker_bounds(self.level@, 'P');
        }
        self.player.pos = Vec3 { x: px, y: PLAYER_HEIGHT, z: pz };
        self.player.yaw = 0;
        self.player.pitch = 0;
        self.spawn_enemies();
        self.spawn_pickups();
        self.projectiles.clear();
        self.particles.clear();
    }

    /// Starts a run: score, kills, health, armor, boosts and weapons are as
    /// new, the first level is loaded and the game is in play.
    pub fn restart(&mut self)
        requires
            old(self).wf(),
        ensures
            final(self)@.is_but_phases(old(self)@.restart()),
            final(self).wf(),
    {
        let fresh = Player::new(0, 0);
        self.player = Player {
            health: fresh.health,
            armor: fresh.armor,
            score: fresh.score,
            kills: fresh.kills,
            speed_boost: fresh.speed_boost,
            damage_boost: fresh.damage_boost,
            weapons: fresh.weapons,
            current_weapon: fresh.current_weapon,
            ..self.player
        };
        self.combo = 0;
        self.combo_timer = 0;
        self.total_kills = 0;
        self.state = GameState::Playing;
        self.load_level(1);
    }
}

} // verus!
