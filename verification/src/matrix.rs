//! The tile matrix: rows of tiles, and the passes over them that raise and
//! lower flags.

use vstd::prelude::*;

use crate::model::{last_below, with_column_added};
use crate::tile::Tile;

verus! {

/// The matrix that a vector of rows holds.
pub open spec fn matrix_of(tiles: Vec<Vec<Tile>>) -> Seq<Seq<Tile>> {
    Seq::new(tiles@.len(), |r: int| tiles@[r]@)
}

/// A row of `columns` blank tiles.
pub(crate) fn blank_row(columns: usize) -> (row: Vec<Tile>)
    ensures
        row@ == Seq::new(columns as nat, |c: int| Tile::blank()),
{
    let mut row: Vec<Tile> = Vec::new();
    let mut c: usize = 0;
    while c < columns
        invariant
            c <= columns,
            row@ == Seq::new(c as nat, |c: int| Tile::blank()),
        decreases columns - c,
    {
        row.push(Tile::default());
        c += 1;
        assert(row@ =~= Seq::new(c as nat, |c: int| Tile::blank()));
    }
    row
}

/// Appends a blank tile to every row.
pub(crate) fn push_column(tiles: &mut Vec<Vec<Tile>>)
    ensures
        matrix_of(*final(tiles)) == with_column_added(matrix_of(*old(tiles))),
{
    let rows = tiles.len();
    let mut r: usize = 0;
    while r < rows
        invariant
            r <= rows,
            rows == tiles@.len(),
            rows == old(tiles)@.len(),
            forall|i: int|
                0 <= i < r ==> (#[trigger] tiles@[i])@ == old(tiles)@[i]@.push(Tile::blank()),
            forall|i: int| r <= i < rows ==> (#[trigger] tiles@[i])@ == old(tiles)@[i]@,
        decreases rows - r,
    {
        tiles[r].push(Tile::default());
        r += 1;
    }
    assert(matrix_of(*tiles) =~= with_column_added(matrix_of(*old(tiles))));
}

/// Takes the last tile off every row; no row may be empty.
pub(crate) fn pop_column(tiles: &mut Vec<Vec<Tile>>)
    requires
        forall|i: int| 0 <= i < old(tiles)@.len() ==> (#[trigger] old(tiles)@[i])@.len() > 0,
    ensures
        matrix_of(*final(tiles)) == Seq::new(
            old(tiles)@.len(),
            |r: int| matrix_of(*old(tiles))[r].drop_last(),
        ),
{
    let rows = tiles.len();
    let mut r: usize = 0;
    while r < rows
        invariant
            r <= rows,
            rows == tiles@.len(),
            rows == old(tiles)@.len(),
            forall|i: int| 0 <= i < rows ==> (#[trigger] old(tiles)@[i])@.len() > 0,
            forall|i: int|
                0 <= i < r ==> (#[trigger] tiles@[i])@ == old(tiles)@[i]@.drop_last(),
            forall|i: int| r <= i < rows ==> (#[trigger] tiles@[i])@ == old(tiles)@[i]@,
        decreases rows - r,
    {
        tiles[r].pop();
        r += 1;
    }
    assert(matrix_of(*tiles) =~= Seq::new(
        old(tiles)@.len(),
        |r: int| matrix_of(*old(tiles))[r].drop_last(),
    ));
}

/// Which rows, or which columns, an operation marks.
#[derive(Clone, Copy)]
pub(crate) enum Axis {
    /// None of them.
    Never,
    /// Those from `lo` to `hi`, both included.
    Between { lo: usize, hi: usize },
    /// Those whose tiles, `size` wide and `margins` apart, reach over the
    /// coordinate `at`.
    Hit { margins: u8, size: u32, at: i32 },
}

impl Axis {
    pub(crate) open spec fn holds(self, i: int) -> bool {
        match self {
            Axis::Never => false,
            Axis::Between { lo, hi } => lo <= i <= hi,
            Axis::Hit { margins, size, at } => {
                let start = i * size + (i + 1) * margins;
                start <= at <= start + size
            },
        }
    }

    pub(crate) fn test(&self, i: usize) -> (marked: bool)
        ensures
            marked == self.holds(i as int),
    {
        match *self {
            Axis::Never => false,
            Axis::Between { lo, hi } => lo <= i && i <= hi,
            Axis::Hit { margins, size, at } => {
                let index: i128 = i as i128;
                let width: i128 = size as i128;
                let gap: i128 = margins as i128;
                assert(0 <= index * width <= 0x1_0000_0000_0000_0000 * 0x1_0000_0000)
                    by (nonlinear_arith)
                    requires
                        0 <= index <= 0x1_0000_0000_0000_0000,
                        0 <= width <= 0x1_0000_0000,
                ;
                assert(0 <= (index + 1) * gap <= 0x1_0000_0000_0000_0001 * 0x100)
                    by (nonlinear_arith)
                    requires
                        0 <= index + 1 <= 0x1_0000_0000_0000_0001,
                        0 <= gap <= 0x100,
                ;
                let start: i128 = index * width + (index + 1) * gap;
                start <= at as i128 && at as i128 <= start + width
            },
        }
    }
}

/// The greatest index below `n` that `axis` marks.
pub(crate) fn last_marked(n: usize, axis: Axis) -> (last: Option<usize>)
    ensures
        match last {
            Some(i) => last_below(n as int, |i: int| axis.holds(i)) == Some(i as int),
            None => last_below(n as int, |i: int| axis.holds(i)) is None,
        },
{
    let mut last: Option<usize> = None;
    let mut i: usize = 0;
    while i < n
        invariant
            i <= n,
            match last {
                Some(l) => last_below(i as int, |i: int| axis.holds(i)) == Some(l as int),
                None => last_below(i as int, |i: int| axis.holds(i)) is None,
            },
        decreases n - i,
    {
        if axis.test(i) {
            last = Some(i);
        }
        i += 1;
    }
    last
}

/// A tile with one of its flags set anew: raised where `mark` holds, and
/// otherwise kept as it was if `keep` says so, else lowered.
pub(crate) open spec fn remarked_tile(tile: Tile, mark: bool, selection: bool, keep: bool) -> Tile {
    if selection {
        Tile { selected: mark || (keep && tile.selected), hovered: tile.hovered }
    } else {
        Tile { selected: tile.selected, hovered: mark || (keep && tile.hovered) }
    }
}

pub(crate) open spec fn remarked_row(
    row: Seq<Tile>,
    in_row: bool,
    columns: Axis,
    selection: bool,
    keep: bool,
) -> Seq<Tile> {
    Seq::new(
        row.len(),
        |c: int| remarked_tile(row[c], in_row && columns.holds(c), selection, keep),
    )
}

pub(crate) open spec fn remarked(
    tiles: Seq<Seq<Tile>>,
    rows: Axis,
    columns: Axis,
    selection: bool,
    keep: bool,
) -> Seq<Seq<Tile>> {
    Seq::new(
        tiles.len(),
        |r: int| remarked_row(tiles[r], rows.holds(r), columns, selection, keep),
    )
}

fn remark_row(row: &mut Vec<Tile>, in_row: bool, columns: Axis, selection: bool, keep: bool)
    ensures
        final(row)@ == remarked_row(old(row)@, in_row, columns, selection, keep),
{
    let n = row.len();
    let mut c: usize = 0;
    while c < n
        invariant
            c <= n,
            n == row@.len(),
            n == old(row)@.len(),
            forall|i: int|
                0 <= i < c ==> #[trigger] row@[i] == remarked_tile(
                    old(row)@[i],
                    in_row && columns.holds(i),
                    selection,
                    keep,
                ),
            forall|i: int| c <= i < n ==> #[trigger] row@[i] == old(row)@[i],
        decreases n - c,
    {
        let mark = in_row && columns.test(c);
        let tile = row[c];
        let marked = if selection {
            Tile { selected: mark || (keep && tile.selected), hovered: tile.hovered }
        } else {
            Tile { selected: tile.selected, hovered: mark || (keep && tile.hovered) }
        };
        row[c] = marked;
        c += 1;
    }
    assert(row@ =~= remarked_row(old(row)@, in_row, columns, selection, keep));
}

/// Sets one flag of every tile anew: the selection flag if `selection` says
/// so, else the hover flag. The flag is raised on the tiles whose row and
/// column are both marked; on the others it stays if `keep` says so and is
/// lowered if not.
pub(crate) fn remark(tiles: &mut Vec<Vec<Tile>>, rows: Axis, columns: Axis, selection: bool, keep: bool)
    ensures
        matrix_of(*final(tiles)) == remarked(
            matrix_of(*old(tiles)),
            rows,
            columns,
            selection,
            keep,
        ),
{
    let n = tiles.len();
    let mut r: usize = 0;
    while r < n
        invariant
            r <= n,
            n == tiles@.len(),
            n == old(tiles)@.len(),
            forall|i: int|
                0 <= i < r ==> (#[trigger] tiles@[i])@ == remarked_row(
                    old(tiles)@[i]@,
                    rows.holds(i),
                    columns,
                    selection,
                    keep,
                ),
            forall|i: int| r <= i < n ==> (#[trigger] tiles@[i])@ == old(tiles)@[i]@,
        decreases n - r,
    {
        let in_row = rows.test(r);
        remark_row(&mut tiles[r], in_row, columns, selection, keep);
        r += 1;
    }
    assert(matrix_of(*tiles) =~= remarked(matrix_of(*old(tiles)), rows, columns, selection, keep));
}

/// Whether two matrices hold the same tiles in the same shape.
pub(crate) fn same_tiles(a: &Vec<Vec<Tile>>, b: &Vec<Vec<Tile>>) -> (same: bool)
    ensures
        same == (matrix_of(*a) == matrix_of(*b)),
{
    if a.len() != b.len() {
        assert(matrix_of(*a).len() != matrix_of(*b).len());
        return false;
    }
    let n = a.len();
    let mut r: usize = 0;
    while r < n
        invariant
            r <= n,
            n == a@.len(),
            n == b@.len(),
            forall|i: int| 0 <= i < r ==> (#[trigger] a@[i])@ == b@[i]@,
        decreases n - r,
    {
        if a[r].len() != b[r].len() {
            assert(matrix_of(*a)[r as int].len() != matrix_of(*b)[r as int].len());
            return false;
        }
        let m = a[r].len();
        let mut c: usize = 0;
        while c < m
            invariant
                c <= m,
                r < n,
                n == a@.len(),
                n == b@.len(),
                m == a@[r as int]@.len(),
                m == b@[r as int]@.len(),
                forall|j: int| 0 <= j < c ==> #[trigger] a@[r as int]@[j] == b@[r as int]@[j],
            decreases m - c,
        {
            let x = a[r][c];
            let y = b[r][c];
            if x.selected != y.selected || x.hovered != y.hovered {
                assert(matrix_of(*a)[r as int][c as int] != matrix_of(*b)[r as int][c as int]);
                return false;
            }
            c += 1;
        }
        assert(a@[r as int]@ =~= b@[r as int]@);
        r += 1;
    }
    assert(matrix_of(*a) =~= matrix_of(*b));
    true
}

/// A copy of the matrix.
pub(crate) fn copy_tiles(tiles: &Vec<Vec<Tile>>) -> (copy: Vec<Vec<Tile>>)
    ensures
        matrix_of(copy) == matrix_of(*tiles),
{
    let mut copy: Vec<Vec<Tile>> = Vec::new();
    let n = tiles.len();
    let mut r: usize = 0;
    while r < n
        invariant
            r <= n,
            n == tiles@.len(),
            copy@.len() == r,
            forall|i: int| 0 <= i < r ==> (#[trigger] copy@[i])@ == tiles@[i]@,
        decreases n - r,
    {
        let mut row: Vec<Tile> = Vec::new();
        let m = tiles[r].len();
        let mut c: usize = 0;
        while c < m
            invariant
                c <= m,
                r < n,
                n == tiles@.len(),
                m == tiles@[r as int]@.len(),
                row@.len() == c,
                forall|j: int| 0 <= j < c ==> #[trigger] row@[j] == tiles@[r as int]@[j],
            decreases m - c,
        {
            row.push(tiles[r][c]);
            c += 1;
        }
        assert(row@ =~= tiles@[r as int]@);
        copy.push(row);
        r += 1;
    }
    assert(matrix_of(copy) =~= matrix_of(*tiles));
    copy
}

} // verus!
