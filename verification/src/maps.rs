//! The five authored levels.
//!
//! A level is drawn as rows of symbols: `#` wall, `.` floor, `P` player
//! start, `X` exit, `G` `H` `D` the spawn of a grunt, a heavy, a demon, and
//! `+` `A` `S` `B` `R` a health, ammo, speed, damage or armor pickup.
use crate::level::{Level, LevelView};
use vstd::prelude::*;

verus! {

/// Number of levels in a run.
pub const LEVEL_COUNT: usize = 5;

/// The first level: a hall with a few pillars.
pub const LEVEL_1_ROWS: [&'static str; 20] = [
    "####################",
    "#.G..........+.....#",
    "#..................#",
    "#......G.....G..A..#",
    "#..................#",
    "#...#......#.......#",
    "#...#..+...#...G...#",
    "#...#......#.......#",
    "#..........A.......#",
    "#......H...........#",
    "#..................#",
    "#.........G....+...#",
    "#...#......#.......#",
    "#...#......#.......#",
    "#...#..D...#.......#",
    "#..................#",
    "#..A...............#",
    "#.........X........#",
    "#P.................#",
    "####################",
];

/// The second level: an open hall of demons.
pub const LEVEL_2_ROWS: [&'static str; 20] = [
    "##########################",
    "#.........+..............#",
    "#..G..G..G..G..G..G..G...#",
    "#........................#",
    "#..A.................A...#",
    "#.....H.......H.......D..#",
    "#........................#",
    "#...........S............#",
    "#........................#",
    "#..+.................+...#",
    "#..D..D..D..D..D..D......#",
    "#........................#",
    "#..A.................A...#",
    "#.....H.......H.......H..#",
    "#........................#",
    "#...........B............#",
    "#........................#",
    "#.......+.....X....+.....#",
    "#P.......................#",
    "##########################",
];

/// The third level: rank upon rank of enemies.
pub const LEVEL_3_ROWS: [&'static str; 21] = [
    "##############################",
    "#..+.........R..........+....#",
    "#..H..H..H..H..H..H..H..H....#",
    "#............................#",
    "#..A....................A....#",
    "#............................#",
    "#..G.G.G.G.G.G.G.G.G.G.G.G...#",
    "#............................#",
    "#..+........S...........+....#",
    "#............................#",
    "#..D..D..D..D..D..D..D..D....#",
    "#............................#",
    "#..A........B...........A....#",
    "#............................#",
    "#..H.H.H.H.H.H.H.H.H.H.H.H...#",
    "#............................#",
    "#..+....................+....#",
    "#............................#",
    "#..............X.............#",
    "#P...........................#",
    "##############################",
];

/// The fourth level: rooms on raised platforms.
pub const LEVEL_4_ROWS: [&'static str; 21] = [
    "####################################",
    "#..................................#",
    "#..G..G..+..G..G..A..G..G..+..G.G..#",
    "#..................................#",
    "#..###..###..###..###..###..###....#",
    "#..#.+..#.A..#.+..#.A..#.+..#......#",
    "#..#....#....#....#....#....#......#",
    "#..###..###..###..###..###..###....#",
    "#..................................#",
    "#..H..H..H..H..H..H..H..H..S..B....#",
    "#..................................#",
    "#..###..###..###..###..###..###....#",
    "#..#....#....#....#....#....#......#",
    "#..#.R..#.+..#.A..#.+..#.A..#......#",
    "#..###..###..###..###..###..###....#",
    "#..................................#",
    "#..D..D..D..D..D..D..D..D..+..A....#",
    "#..................................#",
    "#................X.................#",
    "#P.................................#",
    "####################################",
];

/// The fifth level: a terraced arena.
pub const LEVEL_5_ROWS: [&'static str; 21] = [
    "########################################",
    "#......................................#",
    "#..H..H..H..H..H..H..H..H..H..H..H..H..#",
    "#......................................#",
    "#..+..A..+..A..+..A..+..A..+..A..+..A..#",
    "#......................................#",
    "#..D..D..D..D..D..D..D..D..D..D..D..D..#",
    "#......................................#",
    "#..R..S..B..R..S..B..R..S..B..R..S..B..#",
    "#......................................#",
    "#..G..G..G..G..G..G..G..G..G..G..G..G..#",
    "#......................................#",
    "#..+..A..+..A..+..A..+..A..+..A..+..A..#",
    "#......................................#",
    "#..H..H..H..H..H..H..H..H..H..H..H..H..#",
    "#......................................#",
    "#..D..D..D..D..D..D..D..D..D..D..D..D..#",
    "#......................................#",
    "#..................X...................#",
    "#P.....................................#",
    "########################################",
];

/// Floor heights of the fourth level: two bands of raised platforms, each
/// reached by a ramp of half their height in the tenth column.
pub open spec fn level_4_floor(x: int, y: int) -> int {
    if (4 <= y <= 7) || (11 <= y <= 14) {
        if x == 9 {
            750_000
        } else if (3 <= x <= 8) || (10 <= x <= 15) || (17 <= x <= 22) || (24 <= x <= 29) {
            1_500_000
        } else {
            0
        }
    } else {
        0
    }
}

/// Floor heights of the fifth level: terraces two rows deep that step down
/// by half a unit from 3.0 at the far end.
pub open spec fn level_5_floor(x: int, y: int) -> int {
    if 1 <= x <= 38 && 2 <= y <= 13 {
        3_000_000 - 500_000 * ((y - 2) / 2)
    } else {
        0
    }
}

/// A flat floor at height 0.
pub open spec fn flat_floor(x: int, y: int) -> int {
    0
}

/// The level that the rows, the floor function and the name describe.
pub open spec fn authored(
    rows: Seq<&'static str>,
    width: nat,
    floor: spec_fn(int, int) -> int,
    name: Seq<char>,
) -> LevelView {
    LevelView {
        width,
        height: rows.len(),
        grid: Seq::new(rows.len(), |y: int| rows[y]@),
        floor_heights: Seq::new(
            rows.len(),
            |y: int| Seq::new(width, |x: int| floor(x, y) as i64),
        ),
        name,
    }
}

/// The level that `Level::level_1` builds.
pub open spec fn level_1_view() -> LevelView {
    authored(LEVEL_1_ROWS@, 20, |x: int, y: int| flat_floor(x, y), "THE BEGINNING"@)
}

/// The level that `Level::level_2` builds.
pub open spec fn level_2_view() -> LevelView {
    authored(LEVEL_2_ROWS@, 26, |x: int, y: int| flat_floor(x, y), "DEMON'S LAIR"@)
}

/// The level that `Level::level_3` builds.
pub open spec fn level_3_view() -> LevelView {
    authored(LEVEL_3_ROWS@, 30, |x: int, y: int| flat_floor(x, y), "THE GAUNTLET"@)
}

/// The level that `Level::level_4` builds.
pub open spec fn level_4_view() -> LevelView {
    authored(LEVEL_4_ROWS@, 36, |x: int, y: int| level_4_floor(x, y), "THE MAZE OF CLARKSON"@)
}

/// The level that `Level::level_5` builds.
pub open spec fn level_5_view() -> LevelView {
    authored(LEVEL_5_ROWS@, 40, |x: int, y: int| level_5_floor(x, y), "CLARKSON'S FINAL STAND"@)
}

/// The view of the level with the given number; the first level stands in
/// for any number outside 1 to 5.
pub open spec fn level_view(num: int) -> LevelView {
    if num == 2 {
        level_2_view()
    } else if num == 3 {
        level_3_view()
    } else if num == 4 {
        level_4_view()
    } else if num == 5 {
        level_5_view()
    } else {
        level_1_view()
    }
}

proof fn lemma_level_1_rows()
    ensures
        forall|y: int| 0 <= y < 20 ==> (#[trigger] LEVEL_1_ROWS[y])@.len() == 20,
{
    reveal_strlit("####################");
    reveal_strlit("#.G..........+.....#");
    reveal_strlit("#..................#");
    reveal_strlit("#......G.....G..A..#");
    reveal_strlit("#...#......#.......#");
    reveal_strlit("#...#..+...#...G...#");
    reveal_strlit("#..........A.......#");
    reveal_strlit("#......H...........#");
    reveal_strlit("#.........G....+...#");
    reveal_strlit("#...#..D...#.......#");
    reveal_strlit("#..A...............#");
    reveal_strlit("#.........X........#");
    reveal_strlit("#P.................#");
    assert(LEVEL_1_ROWS[0]@.len() == 20);
    assert(LEVEL_1_ROWS[1]@.len() == 20);
    assert(LEVEL_1_ROWS[2]@.len() == 20);
    assert(LEVEL_1_ROWS[3]@.len() == 20);
    assert(LEVEL_1_ROWS[4]@.len() == 20);
    assert(LEVEL_1_ROWS[5]@.len() == 20);
    assert(LEVEL_1_ROWS[6]@.len() == 20);
    assert(LEVEL_1_ROWS[7]@.len() == 20);
    assert(LEVEL_1_ROWS[8]@.len() == 20);
    assert(LEVEL_1_ROWS[9]@.len() == 20);
    assert(LEVEL_1_ROWS[10]@.len() == 20);
    assert(LEVEL_1_ROWS[11]@.len() == 20);
    assert(LEVEL_1_ROWS[12]@.len() == 20);
    assert(LEVEL_1_ROWS[13]@.len() == 20);
    assert(LEVEL_1_ROWS[14]@.len() == 20);
    assert(LEVEL_1_ROWS[15]@.len() == 20);
    assert(LEVEL_1_ROWS[16]@.len() == 20);
    assert(LEVEL_1_ROWS[17]@.len() == 20);
    assert(LEVEL_1_ROWS[18]@.len() == 20);
    assert(LEVEL_1_ROWS[19]@.len() == 20);
}

proof fn lemma_level_2_rows()
    ensures
        forall|y: int| 0 <= y < 20 ==> (#[trigger] LEVEL_2_ROWS[y])@.len() == 26,
{
    reveal_strlit("##########################");
    reveal_strlit("#.........+..............#");
    reveal_strlit("#..G..G..G..G..G..G..G...#");
    reveal_strlit("#........................#");
    reveal_strlit("#..A.................A...#");
    reveal_strlit("#.....H.......H.......D..#");
    reveal_strlit("#...........S............#");
    reveal_strlit("#..+.................+...#");
    reveal_strlit("#..D..D..D..D..D..D......#");
    reveal_strlit("#.....H.......H.......H..#");
    reveal_strlit("#...........B............#");
    reveal_strlit("#.......+.....X....+.....#");
    reveal_strlit("#P.......................#");
    assert(LEVEL_2_ROWS[0]@.len() == 26);
    assert(LEVEL_2_ROWS[1]@.len() == 26);
    assert(LEVEL_2_ROWS[2]@.len() == 26);
    assert(LEVEL_2_ROWS[3]@.len() == 26);
    assert(LEVEL_2_ROWS[4]@.len() == 26);
    assert(LEVEL_2_ROWS[5]@.len() == 26);
    assert(LEVEL_2_ROWS[6]@.len() == 26);
    assert(LEVEL_2_ROWS[7]@.len() == 26);
    assert(LEVEL_2_ROWS[8]@.len() == 26);
    assert(LEVEL_2_ROWS[9]@.len() == 26);
    assert(LEVEL_2_ROWS[10]@.len() == 26);
    assert(LEVEL_2_ROWS[11]@.len() == 26);
    assert(LEVEL_2_ROWS[12]@.len() == 26);
    assert(LEVEL_2_ROWS[13]@.len() == 26);
    assert(LEVEL_2_ROWS[14]@.len() == 26);
    assert(LEVEL_2_ROWS[15]@.len() == 26);
    assert(LEVEL_2_ROWS[16]@.len() == 26);
    assert(LEVEL_2_ROWS[17]@.len() == 26);
    assert(LEVEL_2_ROWS[18]@.len() == 26);
    assert(LEVEL_2_ROWS[19]@.len() == 26);
}

proof fn lemma_level_3_rows()
    ensures
        forall|y: int| 0 <= y < 21 ==> (#[trigger] LEVEL_3_ROWS[y])@.len() == 30,
{
    reveal_strlit("##############################");
    reveal_strlit("#..+.........R..........+....#");
    reveal_strlit("#..H..H..H..H..H..H..H..H....#");
    reveal_strlit("#............................#");
    reveal_strlit("#..A....................A....#");
    reveal_strlit("#..G.G.G.G.G.G.G.G.G.G.G.G...#");
    reveal_strlit("#..+........S...........+....#");
    reveal_strlit("#..D..D..D..D..D..D..D..D....#");
    reveal_strlit("#..A........B...........A....#");
    reveal_strlit("#..H.H.H.H.H.H.H.H.H.H.H.H...#");
    reveal_strlit("#..+....................+....#");
    reveal_strlit("#..............X.............#");
    reveal_strlit("#P...........................#");
    assert(LEVEL_3_ROWS[0]@.len() == 30);
    assert(LEVEL_3_ROWS[1]@.len() == 30);
    assert(LEVEL_3_ROWS[2]@.len() == 30);
    assert(LEVEL_3_ROWS[3]@.len() == 30);
    assert(LEVEL_3_ROWS[4]@.len() == 30);
    assert(LEVEL_3_ROWS[5]@.len() == 30);
    assert(LEVEL_3_ROWS[6]@.len() == 30);
    assert(LEVEL_3_ROWS[7]@.len() == 30);
    assert(LEVEL_3_ROWS[8]@.len() == 30);
    assert(LEVEL_3_ROWS[9]@.len() == 30);
    assert(LEVEL_3_ROWS[10]@.len() == 30);
    assert(LEVEL_3_ROWS[11]@.len() == 30);
    assert(LEVEL_3_ROWS[12]@.len() == 30);
    assert(LEVEL_3_ROWS[13]@.len() == 30);
    assert(LEVEL_3_ROWS[14]@.len() == 30);
    assert(LEVEL_3_ROWS[15]@.len() == 30);
    assert(LEVEL_3_ROWS[16]@.len() == 30);
    assert(LEVEL_3_ROWS[17]@.len() == 30);
    assert(LEVEL_3_ROWS[18]@.len() == 30);
    assert(LEVEL_3_ROWS[19]@.len() == 30);
    assert(LEVEL_3_ROWS[20]@.len() == 30);
}

proof fn lemma_level_4_rows()
    ensures
        forall|y: int| 0 <= y < 21 ==> (#[trigger] LEVEL_4_ROWS[y])@.len() == 36,
{
    reveal_strlit("####################################");
    reveal_strlit("#..................................#");
    reveal_strlit("#..G..G..+..G..G..A..G..G..+..G.G..#");
    reveal_strlit("#..###..###..###..###..###..###....#");
    reveal_strlit("#..#.+..#.A..#.+..#.A..#.+..#......#");
    reveal_strlit("#..#....#....#....#....#....#......#");
    reveal_strlit("#..H..H..H..H..H..H..H..H..S..B....#");
    reveal_strlit("#..#.R..#.+..#.A..#.+..#.A..#......#");
    reveal_strlit("#..D..D..D..D..D..D..D..D..+..A....#");
    reveal_strlit("#................X.................#");
    reveal_strlit("#P.................................#");
    assert(LEVEL_4_ROWS[0]@.len() == 36);
    assert(LEVEL_4_ROWS[1]@.len() == 36);
    assert(LEVEL_4_ROWS[2]@.len() == 36);
    assert(LEVEL_4_ROWS[3]@.len() == 36);
    assert(LEVEL_4_ROWS[4]@.len() == 36);
    assert(LEVEL_4_ROWS[5]@.len() == 36);
    assert(LEVEL_4_ROWS[6]@.len() == 36);
    assert(LEVEL_4_ROWS[7]@.len() == 36);
    assert(LEVEL_4_ROWS[8]@.len() == 36);
    assert(LEVEL_4_ROWS[9]@.len() == 36);
    assert(LEVEL_4_ROWS[10]@.len() == 36);
    assert(LEVEL_4_ROWS[11]@.len() == 36);
    assert(LEVEL_4_ROWS[12]@.len() == 36);
    assert(LEVEL_4_ROWS[13]@.len() == 36);
    assert(LEVEL_4_ROWS[14]@.len() == 36);
    assert(LEVEL_4_ROWS[15]@.len() == 36);
    assert(LEVEL_4_ROWS[16]@.len() == 36);
    assert(LEVEL_4_ROWS[17]@.len() == 36);
    assert(LEVEL_4_ROWS[18]@.len() == 36);
    assert(LEVEL_4_ROWS[19]@.len() == 36);
    assert(LEVEL_4_ROWS[20]@.len() == 36);
}

proof fn lemma_level_5_rows()
    ensures
        forall|y: int| 0 <= y < 21 ==> (#[trigger] LEVEL_5_ROWS[y])@.len() == 40,
{
    reveal_strlit("########################################");
    reveal_strlit("#......................................#");
    reveal_strlit("#..H..H..H..H..H..H..H..H..H..H..H..H..#");
    reveal_strlit("#..+..A..+..A..+..A..+..A..+..A..+..A..#");
    reveal_strlit("#..D..D..D..D..D..D..D..D..D..D..D..D..#");
    reveal_strlit("#..R..S..B..R..S..B..R..S..B..R..S..B..#");
    reveal_strlit("#..G..G..G..G..G..G..G..G..G..G..G..G..#");
    reveal_strlit("#..................X...................#");
    reveal_strlit("#P.....................................#");
    assert(LEVEL_5_ROWS[0]@.len() == 40);
    assert(LEVEL_5_ROWS[1]@.len() == 40);
    assert(LEVEL_5_ROWS[2]@.len() == 40);
    assert(LEVEL_5_ROWS[3]@.len() == 40);
    assert(LEVEL_5_ROWS[4]@.len() == 40);
    assert(LEVEL_5_ROWS[5]@.len() == 40);
    assert(LEVEL_5_ROWS[6]@.len() == 40);
    assert(LEVEL_5_ROWS[7]@.len() == 40);
    assert(LEVEL_5_ROWS[8]@.len() == 40);
    assert(LEVEL_5_ROWS[9]@.len() == 40);
    assert(LEVEL_5_ROWS[10]@.len() == 40);
    assert(LEVEL_5_ROWS[11]@.len() == 40);
    assert(LEVEL_5_ROWS[12]@.len() == 40);
    assert(LEVEL_5_ROWS[13]@.len() == 40);
    assert(LEVEL_5_ROWS[14]@.len() == 40);
    assert(LEVEL_5_ROWS[15]@.len() == 40);
    assert(LEVEL_5_ROWS[16]@.len() == 40);
    assert(LEVEL_5_ROWS[17]@.len() == 40);
    assert(LEVEL_5_ROWS[18]@.len() == 40);
    assert(LEVEL_5_ROWS[19]@.len() == 40);
    assert(LEVEL_5_ROWS[20]@.len() == 40);
}

/// The symbols of a row, one by one.
fn chars_of(s: &str) -> (v: Vec<char>)
    ensures
        v@ == s@,
{
    let n = s.unicode_len();
    let mut v: Vec<char> = Vec::new();
    let mut i: usize = 0;
    while i < n
        invariant
            n == s@.len(),
            i <= n,
            v@ == s@.subrange(0, i as int),
        decreases n - i,
    {
        v.push(s.get_char(i));
        assert(v@ =~= s@.subrange(0, i + 1));
        i += 1;
    }
    assert(s@.subrange(0, n as int) =~= s@);
    v
}

fn grid_from_rows<const N: usize>(rows: &[&'static str; N]) -> (g: Vec<Vec<char>>)
    ensures
        g@.len() == N,
        forall|y: int| 0 <= y < N ==> (#[trigger] g@[y])@ == rows[y]@,
{
    let mut g: Vec<Vec<char>> = Vec::new();
    let mut y: usize = 0;
    while y < N
        invariant
            y <= N,
            g@.len() == y,
            forall|k: int| 0 <= k < y ==> (#[trigger] g@[k])@ == rows[k]@,
        decreases N - y,
    {
        g.push(chars_of(rows[y]));
        y += 1;
    }
    g
}

/// Sets the floor height `h` in the columns `x0..=x1` of the rows `y0..=y1`.
fn fill_rect(t: &mut Vec<Vec<i64>>, width: usize, x0: usize, x1: usize, y0: usize, y1: usize, h: i64)
    requires
        x0 <= x1 < width,
        y0 <= y1 < old(t)@.len(),
        forall|y: int| 0 <= y < old(t)@.len() ==> (#[trigger] old(t)@[y])@.len() == width,
    ensures
        final(t)@.len() == old(t)@.len(),
        forall|y: int| 0 <= y < old(t)@.len() ==> (#[trigger] final(t)@[y])@.len() == width,
        forall|x: int, y: int|
            0 <= y < old(t)@.len() && 0 <= x < width ==> (#[trigger] final(t)@[y]@[x]) == (if x0 <= x
                <= x1 && y0 <= y <= y1 {
                h
            } else {
                old(t)@[y]@[x]
            }),
{
    let rows = t.len();
    let mut y: usize = y0;
    while y <= y1
        invariant
            rows == t@.len(),
            x0 <= x1 < width,
            y0 <= y <= y1 + 1,
            y1 < old(t)@.len(),
            t@.len() == old(t)@.len(),
            forall|k: int| 0 <= k < t@.len() ==> (#[trigger] t@[k])@.len() == width,
            forall|x: int, k: int|
                0 <= k < old(t)@.len() && 0 <= x < width ==> (#[trigger] t@[k]@[x]) == (if x0 <= x <= x1
                    && y0 <= k < y {
                    h
                } else {
                    old(t)@[k]@[x]
                }),
        decreases y1 + 1 - y,
    {
        let mut x: usize = x0;
        while x <= x1
            invariant
                rows == t@.len(),
                x0 <= x <= x1 + 1,
                x1 < width,
                y0 <= y <= y1,
                y1 < old(t)@.len(),
                t@.len() == old(t)@.len(),
                forall|k: int| 0 <= k < t@.len() ==> (#[trigger] t@[k])@.len() == width,
                forall|c: int, k: int|
                    0 <= k < old(t)@.len() && 0 <= c < width ==> (#[trigger] t@[k]@[c]) == (if (x0 <= c
                        <= x1 && y0 <= k < y) || (k == y && x0 <= c < x) {
                        h
                    } else {
                        old(t)@[k]@[c]
                    }),
            decreases x1 + 1 - x,
        {
            t[y][x] = h;
            x += 1;
        }
        y += 1;
    }
}

/// Puts rows, floor heights and name together, and shows that the result is
/// the authored level.
fn assemble<const N: usize>(
    rows: &[&'static str; N],
    width: usize,
    floor_heights: Vec<Vec<i64>>,
    name: &'static str,
    Ghost(floor): Ghost<spec_fn(int, int) -> int>,
) -> (l: Level)
    requires
        N <= 0x10000,
        width <= 0x10000,
        forall|y: int| 0 <= y < N ==> (#[trigger] rows[y])@.len() == width,
        floor_heights@.len() == N,
        forall|y: int| 0 <= y < N ==> (#[trigger] floor_heights@[y])@.len() == width,
        forall|x: int, y: int|
            0 <= y < N && 0 <= x < width ==> (#[trigger] floor_heights@[y]@[x]) == floor(x, y),
        forall|x: int, y: int| -0x80_0000_0000 <= #[trigger] floor(x, y) <= 0x80_0000_0000,
    ensures
        l@ == authored(rows@, width as nat, floor, name@),
        l.wf(),
{
    let grid = grid_from_rows(rows);
    let l = Level { width, height: N, grid, floor_heights, name: name.to_owned() };
    proof {
        let a = authored(rows@, width as nat, floor, name@);
        assert(l@.grid =~= a.grid);
        assert forall|y: int| 0 <= y < N implies #[trigger] l@.floor_heights[y] == a.floor_heights[y] by {
            assert(l@.floor_heights[y] =~= a.floor_heights[y]);
        }
        assert(l@.floor_heights =~= a.floor_heights);
    }
    l
}

impl Level {

    /// The first level.
    pub fn level_1() -> (l: Level)
        ensures
            l@ == level_1_view(),
            l.wf(),
    {
        proof {
            lemma_level_1_rows();
        }
        let floor_heights = Self::uniform_heights(20, 20, 0);
        assemble(
            &LEVEL_1_ROWS,
            20,
            floor_heights,
            "THE BEGINNING",
            Ghost(|x: int, y: int| flat_floor(x, y)),
        )
    }


    /// The second level.
    pub fn level_2() -> (l: Level)
        ensures
            l@ == level_2_view(),
            l.wf(),
    {
        proof {
            lemma_level_2_rows();
        }
        let floor_heights = Self::uniform_heights(26, 20, 0);
        assemble(
            &LEVEL_2_ROWS,
            26,
            floor_heights,
            "DEMON'S LAIR",
            Ghost(|x: int, y: int| flat_floor(x, y)),
        )
    }


    /// The third level.
    pub fn level_3() -> (l: Level)
        ensures
            l@ == level_3_view(),
            l.wf(),
    {
        proof {
            lemma_level_3_rows();
        }
        let floor_heights = Self::uniform_heights(30, 21, 0);
        assemble(
            &LEVEL_3_ROWS,
            30,
            floor_heights,
            "THE GAUNTLET",
            Ghost(|x: int, y: int| flat_floor(x, y)),
        )
    }


    /// A level on two storeys: raised platforms with ramps leading up.
    pub fn level_4() -> (l: Level)
        ensures
            l@ == level_4_view(),
            l.wf(),
    {
        proof {
            lemma_level_4_rows();
        }
        let mut floor_heights = Self::uniform_heights(36, 21, 0);
        fill_rect(&mut floor_heights, 36, 3, 8, 4, 7, 1_500_000);
        fill_rect(&mut floor_heights, 36, 10, 15, 4, 7, 1_500_000);
        fill_rect(&mut floor_heights, 36, 17, 22, 4, 7, 1_500_000);
        fill_rect(&mut floor_heights, 36, 24, 29, 4, 7, 1_500_000);
        fill_rect(&mut floor_heights, 36, 3, 8, 11, 14, 1_500_000);
        fill_rect(&mut floor_heights, 36, 10, 15, 11, 14, 1_500_000);
        fill_rect(&mut floor_heights, 36, 17, 22, 11, 14, 1_500_000);
        fill_rect(&mut floor_heights, 36, 24, 29, 11, 14, 1_500_000);
        fill_rect(&mut floor_heights, 36, 9, 9, 4, 7, 750_000);
        fill_rect(&mut floor_heights, 36, 9, 9, 11, 14, 750_000);
        assemble(
            &LEVEL_4_ROWS,
            36,
            floor_heights,
            "THE MAZE OF CLARKSON",
            Ghost(|x: int, y: int| level_4_floor(x, y)),
        )
    }

    /// The last level: a terraced arena.
    pub fn level_5() -> (l: Level)
        ensures
            l@ == level_5_view(),
            l.wf(),
    {
        proof {
            lemma_level_5_rows();
        }
        let mut floor_heights = Self::uniform_heights(40, 21, 0);
        fill_rect(&mut floor_heights, 40, 1, 38, 2, 3, 3_000_000);
        fill_rect(&mut floor_heights, 40, 1, 38, 4, 5, 2_500_000);
        fill_rect(&mut floor_heights, 40, 1, 38, 6, 7, 2_000_000);
        fill_rect(&mut floor_heights, 40, 1, 38, 8, 9, 1_500_000);
        fill_rect(&mut floor_heights, 40, 1, 38, 10, 11, 1_000_000);
        fill_rect(&mut floor_heights, 40, 1, 38, 12, 13, 500_000);
        assemble(
            &LEVEL_5_ROWS,
            40,
            floor_heights,
            "CLARKSON'S FINAL STAND",
            Ghost(|x: int, y: int| level_5_floor(x, y)),
        )
    }
}

} // verus!
