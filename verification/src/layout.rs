//! The page layout engine: remaps canvas grid cells onto printable pages.
//!
//! A page is a 4-by-3 grid of `B`-by-`B` pixel cells, each wrapped in a
//! `MARGIN` border, with `GAP` pixels of whitespace between neighbouring
//! cells. A [`ReOder`] names one canvas cell (`from`, in canvas cell
//! indices) and the page cell it is copied to (`to`, in page cell indices).
//! Twelve of them make up one page; three such collections cut the whole
//! canvas into three printable pages.

use crate::errors::MapError;
use crate::image_ops::img_dims;
use crate::image_ops::img_pixels;
use crate::image_ops::img_wf;
use crate::image_ops::Raster;
use vstd::prelude::*;
use vstd::string::StringExecFns;

verus! {

/// Whitespace between two neighbouring page cells, in pixels.
pub const GAP: u32 = 10;

/// Border around each page cell, in pixels.
pub const MARGIN: u32 = 40;

/// Page cell columns.
pub const PAGE_COLS: u32 = 4;

/// Page cell rows.
pub const PAGE_ROWS: u32 = 3;

/// Canvas cell columns.
pub const CANVAS_CELL_COLS: u32 = 11;

/// Canvas cell rows.
pub const CANVAS_CELL_ROWS: u32 = 9;

/// Width of an output page in pixels: `cell_extent(PAGE_COLS)`.
pub const PAGE_W: u32 = crate::B * PAGE_COLS + MARGIN * PAGE_COLS * 2 + GAP * (PAGE_COLS - 1);

/// Height of an output page in pixels: `cell_extent(PAGE_ROWS)`.
pub const PAGE_H: u32 = crate::B * PAGE_ROWS + MARGIN * PAGE_ROWS * 2 + GAP * (PAGE_ROWS - 1);

/// One cell remap: the canvas cell `from` lands on the page cell `to`.
#[derive(Clone, Copy, Debug)]
pub struct ReOder {
    /// Canvas cell index pair (column, row).
    pub from: (u32, u32),
    /// Page cell index pair (column, row).
    pub to: (u32, u32),
}

/// Total pixel span of `n` page cells along one axis, margins and the gaps
/// between the cells included.
pub open spec fn cell_extent(n: int) -> int {
    (crate::B as int) * n + (MARGIN as int) * n * 2 + (GAP as int) * (
    if n > 0 {
        n - 1
    } else {
        0
    })
}

/// Pixel offset of the i-th page cell's content (inside its margin) along
/// one axis.
pub open spec fn cell_origin(i: int) -> int {
    (crate::B as int) * i + (MARGIN as int) * (2 * i + 1) + (GAP as int) * i
}

impl ReOder {
    /// Pairs a canvas cell with the page cell it is copied to.
    pub fn new(from: (u32, u32), to: (u32, u32)) -> (r: ReOder)
        ensures
            r.from == from,
            r.to == to,
    {
        ReOder { from, to }
    }

    /// Total pixel span of `i` page cells along one axis.
    pub fn to_size(i: u32) -> (r: u32)
        requires
            cell_extent(i as int) <= u32::MAX,
        ensures
            r as int == cell_extent(i as int),
    {
        if i == 0 {
            0
        } else {
            crate::B * i + MARGIN * i * 2 + GAP * (i - 1)
        }
    }

    /// Pixel offset of the i-th page cell's content along one axis.
    pub fn to_pos(i: u32) -> (r: u32)
        requires
            cell_origin(i as int) <= u32::MAX,
        ensures
            r as int == cell_origin(i as int),
    {
        crate::B * i + MARGIN * (2 * i + 1) + GAP * i
    }

    /// Canvas pixel column of this remap's source cell.
    pub fn from_x_pix(&self) -> (r: u32)
        requires
            (crate::B as int) * (self.from.0 as int) <= u32::MAX,
        ensures
            r as int == (crate::B as int) * (self.from.0 as int),
    {
        crate::B * self.from.0
    }

    /// Canvas pixel row of this remap's source cell.
    pub fn from_y_pix(&self) -> (r: u32)
        requires
            (crate::B as int) * (self.from.1 as int) <= u32::MAX,
        ensures
            r as int == (crate::B as int) * (self.from.1 as int),
    {
        crate::B * self.from.1
    }

    /// Page pixel column of this remap's destination cell content.
    pub fn to_x_pix(&self) -> (r: u32)
        requires
            cell_origin(self.to.0 as int) <= u32::MAX,
        ensures
            r as int == cell_origin(self.to.0 as int),
    {
        Self::to_pos(self.to.0)
    }

    /// Page pixel row of this remap's destination cell content.
    pub fn to_y_pix(&self) -> (r: u32)
        requires
            cell_origin(self.to.1 as int) <= u32::MAX,
        ensures
            r as int == cell_origin(self.to.1 as int),
    {
        Self::to_pos(self.to.1)
    }

    /// A one-line rendering of the remap, for reporting: the two cell index
    /// pairs followed by the four pixel coordinates they come to. The
    /// preconditions keep the pixel computations inside u32.
    pub fn describe(&self) -> (s: String)
        requires
            (crate::B as int) * (self.from.0 as int) <= u32::MAX,
            (crate::B as int) * (self.from.1 as int) <= u32::MAX,
            cell_origin(self.to.0 as int) <= u32::MAX,
            cell_origin(self.to.1 as int) <= u32::MAX,
        ensures
            s@ == "(("@ + dec_spec(self.from.0 as int) + ", "@ + dec_spec(self.from.1 as int)
                + "), ("@ + dec_spec(self.to.0 as int) + ", "@ + dec_spec(self.to.1 as int)
                + ")) => (("@ + dec_spec((crate::B as int) * (self.from.0 as int)) + ", "@
                + dec_spec((crate::B as int) * (self.from.1 as int)) + "),("@ + dec_spec(
                cell_origin(self.to.0 as int),
            ) + ", "@ + dec_spec(cell_origin(self.to.1 as int)) + "))"@,
    {
        let mut s = String::new();
        s.append("((");
        s.append(u32_dec(self.from.0).as_str());
        s.append(", ");
        s.append(u32_dec(self.from.1).as_str());
        s.append("), (");
        s.append(u32_dec(self.to.0).as_str());
        s.append(", ");
        s.append(u32_dec(self.to.1).as_str());
        s.append(")) => ((");
        s.append(u32_dec(self.from_x_pix()).as_str());
        s.append(", ");
        s.append(u32_dec(self.from_y_pix()).as_str());
        s.append("),(");
        s.append(u32_dec(self.to_x_pix()).as_str());
        s.append(", ");
        s.append(u32_dec(self.to_y_pix()).as_str());
        s.append("))");
        proof {
            assert(s@ =~= "(("@ + dec_spec(self.from.0 as int) + ", "@ + dec_spec(
                self.from.1 as int,
            ) + "), ("@ + dec_spec(self.to.0 as int) + ", "@ + dec_spec(self.to.1 as int)
                + ")) => (("@ + dec_spec((crate::B as int) * (self.from.0 as int)) + ", "@
                + dec_spec((crate::B as int) * (self.from.1 as int)) + "),("@ + dec_spec(
                cell_origin(self.to.0 as int),
            ) + ", "@ + dec_spec(cell_origin(self.to.1 as int)) + "))"@);
        }
        s
    }
}

/// The decimal digits of `n`, most significant first.
pub open spec fn dec_spec(n: int) -> Seq<char>
    decreases n,
{
    if n < 10 {
        seq![dec_digit(n)]
    } else {
        dec_spec(n / 10).push(dec_digit(n % 10))
    }
}

/// The character of one decimal digit.
pub open spec fn dec_digit(d: int) -> char {
    if d == 0 {
        '0'
    } else if d == 1 {
        '1'
    } else if d == 2 {
        '2'
    } else if d == 3 {
        '3'
    } else if d == 4 {
        '4'
    } else if d == 5 {
        '5'
    } else if d == 6 {
        '6'
    } else if d == 7 {
        '7'
    } else if d == 8 {
        '8'
    } else {
        '9'
    }
}

/// One decimal digit as a string slice.
fn digit_str(d: u32) -> (s: &'static str)
    requires
        d < 10,
    ensures
        s@ == seq![dec_digit(d as int)],
{
    proof {
        reveal_strlit("0");
        reveal_strlit("1");
        reveal_strlit("2");
        reveal_strlit("3");
        reveal_strlit("4");
        reveal_strlit("5");
        reveal_strlit("6");
        reveal_strlit("7");
        reveal_strlit("8");
        reveal_strlit("9");
    }
    match d {
        0 => "0",
        1 => "1",
        2 => "2",
        3 => "3",
        4 => "4",
        5 => "5",
        6 => "6",
        7 => "7",
        8 => "8",
        _ => "9",
    }
}

/// The decimal rendering of `n`.
pub fn u32_dec(n: u32) -> (s: String)
    ensures
        s@ == dec_spec(n as int),
    decreases n,
{
    if n < 10 {
        let mut s = String::new();
        s.append(digit_str(n));
        s
    } else {
        let mut s = u32_dec(n / 10);
        s.append(digit_str(n % 10));
        proof {
            assert(s@ == dec_spec((n / 10) as int).push(dec_digit((n % 10) as int)));
        }
        s
    }
}

/// A coarse bound on the length of a decimal rendering, enough to bound
/// the label strings handed to the text renderer.
pub proof fn lemma_dec_len_linear(n: int)
    requires
        0 <= n,
    ensures
        dec_spec(n).len() <= n + 1,
    decreases n,
{
    if n >= 10 {
        lemma_dec_len_linear(n / 10);
    }
}

/// Every cell content lies inside the extent of its row of cells, and
/// consecutive cell contents do not overlap.
pub proof fn lemma_cells_fit(i: int, n: int)
    requires
        0 <= i < n,
    ensures
        cell_origin(i) + crate::B <= cell_extent(n),
        cell_origin(i + 1) >= cell_origin(i) + crate::B,
{
}

/// The remap's source cell lies on the canvas cell grid and its destination
/// cell on the page cell grid.
pub open spec fn remap_fits(r: ReOder) -> bool {
    &&& (r.from.0 as int) < CANVAS_CELL_COLS
    &&& (r.from.1 as int) < CANVAS_CELL_ROWS
    &&& (r.to.0 as int) < PAGE_COLS
    &&& (r.to.1 as int) < PAGE_ROWS
}

/// The page pixel (x, y) lies in the destination cell content of `r`.
pub open spec fn covers(r: ReOder, x: int, y: int) -> bool {
    &&& cell_origin(r.to.0 as int) <= x < cell_origin(r.to.0 as int) + crate::B
    &&& cell_origin(r.to.1 as int) <= y < cell_origin(r.to.1 as int) + crate::B
}

/// The canvas pixel that `r` copies to the page pixel (x, y).
pub open spec fn source_pixel(
    canvas: Map<(int, int), (u8, u8, u8, u8)>,
    r: ReOder,
    x: int,
    y: int,
) -> (u8, u8, u8, u8) {
    canvas[
        (
            x - cell_origin(r.to.0 as int) + (crate::B as int) * (r.from.0 as int),
            y - cell_origin(r.to.1 as int) + (crate::B as int) * (r.from.1 as int),
        )
    ]
}

/// The pixel a laid-out page holds at (x, y): the canvas block of the last
/// remap whose destination cell content contains (x, y), and transparent
/// black where no remap does.
pub open spec fn page_pixel_spec(
    canvas: Map<(int, int), (u8, u8, u8, u8)>,
    rs: Seq<ReOder>,
    x: int,
    y: int,
) -> (u8, u8, u8, u8)
    decreases rs.len(),
{
    if rs.len() == 0 {
        (0u8, 0u8, 0u8, 0u8)
    } else if covers(rs.last(), x, y) {
        source_pixel(canvas, rs.last(), x, y)
    } else {
        page_pixel_spec(canvas, rs.drop_last(), x, y)
    }
}

/// No two remaps of the collection share a source cell.
pub open spec fn no_dup_from(rs: Seq<ReOder>) -> bool {
    forall|i: int, j: int|
        0 <= i < j < rs.len() ==> (#[trigger] rs[i]).from != (#[trigger] rs[j]).from
}

/// No two remaps of the collection share a destination cell.
pub open spec fn no_dup_to(rs: Seq<ReOder>) -> bool {
    forall|i: int, j: int| 0 <= i < j < rs.len() ==> (#[trigger] rs[i]).to != (#[trigger] rs[j]).to
}

/// A page's remap collection is sound: twelve remaps, each on both grids,
/// with no source cell and no destination cell used twice.
pub open spec fn collection_ok(rs: Seq<ReOder>) -> bool {
    &&& rs.len() == 12
    &&& forall|i: int| 0 <= i < rs.len() ==> remap_fits(#[trigger] rs[i])
    &&& no_dup_from(rs)
    &&& no_dup_to(rs)
}

/// The two collections draw on distinct source cells.
pub open spec fn disjoint_froms(a: Seq<ReOder>, b: Seq<ReOder>) -> bool {
    forall|i: int, j: int|
        0 <= i < a.len() && 0 <= j < b.len() ==> (#[trigger] a[i]).from != (#[trigger] b[j]).from
}

/// The three page collections partition their source cells: each is sound
/// on its own and no canvas cell is copied onto two pages.
pub open spec fn pages_partition(a: Seq<ReOder>, b: Seq<ReOder>, c: Seq<ReOder>) -> bool {
    &&& collection_ok(a)
    &&& collection_ok(b)
    &&& collection_ok(c)
    &&& disjoint_froms(a, b)
    &&& disjoint_froms(a, c)
    &&& disjoint_froms(b, c)
}

/// The two cell index pairs are the same cell.
fn cell_eq(a: (u32, u32), b: (u32, u32)) -> (r: bool)
    ensures
        r == (a == b),
{
    a.0 == b.0 && a.1 == b.1
}

/// One remap lies on both grids.
fn remap_fits_exec(rm: &ReOder) -> (r: bool)
    ensures
        r == remap_fits(*rm),
{
    rm.from.0 < CANVAS_CELL_COLS && rm.from.1 < CANVAS_CELL_ROWS && rm.to.0 < PAGE_COLS && rm.to.1
        < PAGE_ROWS
}

/// One page collection is sound on its own.
fn check_collection(v: &Vec<ReOder>) -> (ok: bool)
    ensures
        ok == collection_ok(v@),
{
    let n: usize = v.len();
    if n != 12 {
        return false;
    }
    let mut i: usize = 0;
    while i < n
        invariant
            n == v@.len(),
            0 <= i <= n,
            forall|k: int| 0 <= k < i ==> remap_fits(#[trigger] v@[k]),
        decreases n - i,
    {
        if !remap_fits_exec(&v[i]) {
            return false;
        }
        i = i + 1;
    }
    let mut i: usize = 0;
    while i < n
        invariant
            n == v@.len(),
            0 <= i <= n,
            forall|k1: int, k2: int|
                0 <= k1 < k2 < n && k1 < i ==> (#[trigger] v@[k1]).from != (#[trigger] v@[k2]).from
                    && v@[k1].to != v@[k2].to,
        decreases n - i,
    {
        let mut j: usize = i + 1;
        while j < n
            invariant
                n == v@.len(),
                0 <= i < j <= n,
                forall|k2: int| i < k2 < j ==> (#[trigger] v@[k2]).from != v@[i as int].from
                    && v@[k2].to != v@[i as int].to,
            decreases n - j,
        {
            if cell_eq(v[i].from, v[j].from) || cell_eq(v[i].to, v[j].to) {
                return false;
            }
            j = j + 1;
        }
        i = i + 1;
    }
    true
}

/// The two collections draw on distinct source cells.
fn check_disjoint(a: &Vec<ReOder>, b: &Vec<ReOder>) -> (ok: bool)
    ensures
        ok == disjoint_froms(a@, b@),
{
    let mut i: usize = 0;
    while i < a.len()
        invariant
            0 <= i <= a@.len(),
            forall|k: int, j: int|
                0 <= k < i && 0 <= j < b@.len() ==> (#[trigger] a@[k]).from != (
                #[trigger] b@[j]).from,
        decreases a.len() - i,
    {
        let mut j: usize = 0;
        while j < b.len()
            invariant
                0 <= i < a@.len(),
                0 <= j <= b@.len(),
                forall|j0: int| 0 <= j0 < j ==> a@[i as int].from != (#[trigger] b@[j0]).from,
            decreases b.len() - j,
        {
            if cell_eq(a[i].from, b[j].from) {
                return false;
            }
            j = j + 1;
        }
        i = i + 1;
    }
    true
}

/// The three page collections together cut the canvas soundly: each is a
/// sound collection and no canvas cell is copied onto two pages.
pub fn remaps_partition_ok(a: &Vec<ReOder>, b: &Vec<ReOder>, c: &Vec<ReOder>) -> (ok: bool)
    ensures
        ok == pages_partition(a@, b@, c@),
{
    check_collection(a) && check_collection(b) && check_collection(c) && check_disjoint(a, b)
        && check_disjoint(a, c) && check_disjoint(b, c)
}

/// The remap collection of the first output page.
pub open spec fn page_one_spec() -> Seq<ReOder> {
    seq![
        ReOder { from: (1, 1), to: (0, 0) },
        ReOder { from: (2, 1), to: (0, 1) },
        ReOder { from: (7, 4), to: (0, 2) },
        ReOder { from: (6, 5), to: (1, 0) },
        ReOder { from: (4, 2), to: (1, 1) },
        ReOder { from: (9, 6), to: (1, 2) },
        ReOder { from: (2, 2), to: (2, 0) },
        ReOder { from: (8, 5), to: (2, 1) },
        ReOder { from: (4, 3), to: (2, 2) },
        ReOder { from: (3, 2), to: (3, 0) },
        ReOder { from: (9, 4), to: (3, 1) },
        ReOder { from: (7, 6), to: (3, 2) },
    ]
}

/// The remap collection of the second output page.
pub open spec fn page_two_spec() -> Seq<ReOder> {
    seq![
        ReOder { from: (3, 1), to: (0, 0) },
        ReOder { from: (6, 4), to: (0, 1) },
        ReOder { from: (10, 8), to: (0, 2) },
        ReOder { from: (0, 1), to: (1, 0) },
        ReOder { from: (10, 7), to: (1, 1) },
        ReOder { from: (2, 0), to: (1, 2) },
        ReOder { from: (7, 5), to: (2, 0) },
        ReOder { from: (10, 6), to: (2, 1) },
        ReOder { from: (0, 2), to: (2, 2) },
        ReOder { from: (5, 3), to: (3, 0) },
        ReOder { from: (1, 0), to: (3, 1) },
        ReOder { from: (5, 2), to: (3, 2) },
    ]
}

/// The remap collection of the third output page.
pub open spec fn page_three_spec() -> Seq<ReOder> {
    seq![
        ReOder { from: (6, 3), to: (0, 0) },
        ReOder { from: (1, 2), to: (0, 1) },
        ReOder { from: (9, 5), to: (0, 2) },
        ReOder { from: (9, 7), to: (1, 0) },
        ReOder { from: (7, 3), to: (1, 1) },
        ReOder { from: (3, 3), to: (1, 2) },
        ReOder { from: (8, 4), to: (2, 0) },
        ReOder { from: (8, 7), to: (2, 1) },
        ReOder { from: (5, 4), to: (2, 2) },
        ReOder { from: (4, 4), to: (3, 0) },
        ReOder { from: (6, 2), to: (3, 1) },
        ReOder { from: (8, 6), to: (3, 2) },
    ]
}

/// The remap collection of the first output page.
pub fn page_one_remaps() -> (r: Vec<ReOder>)
    ensures
        r@ == page_one_spec(),
{
    let mut v: Vec<ReOder> = Vec::new();
    v.push(ReOder::new((1, 1), (0, 0)));
    v.push(ReOder::new((2, 1), (0, 1)));
    v.push(ReOder::new((7, 4), (0, 2)));
    v.push(ReOder::new((6, 5), (1, 0)));
    v.push(ReOder::new((4, 2), (1, 1)));
    v.push(ReOder::new((9, 6), (1, 2)));
    v.push(ReOder::new((2, 2), (2, 0)));
    v.push(ReOder::new((8, 5), (2, 1)));
    v.push(ReOder::new((4, 3), (2, 2)));
    v.push(ReOder::new((3, 2), (3, 0)));
    v.push(ReOder::new((9, 4), (3, 1)));
    v.push(ReOder::new((7, 6), (3, 2)));
    proof {
        assert(v@ =~= page_one_spec());
    }
    v
}

/// The remap collection of the second output page.
pub fn page_two_remaps() -> (r: Vec<ReOder>)
    ensures
        r@ == page_two_spec(),
{
    let mut v: Vec<ReOder> = Vec::new();
    v.push(ReOder::new((3, 1), (0, 0)));
    v.push(ReOder::new((6, 4), (0, 1)));
    v.push(ReOder::new((10, 8), (0, 2)));
    v.push(ReOder::new((0, 1), (1, 0)));
    v.push(ReOder::new((10, 7), (1, 1)));
    v.push(ReOder::new((2, 0), (1, 2)));
    v.push(ReOder::new((7, 5), (2, 0)));
    v.push(ReOder::new((10, 6), (2, 1)));
    v.push(ReOder::new((0, 2), (2, 2)));
    v.push(ReOder::new((5, 3), (3, 0)));
    v.push(ReOder::new((1, 0), (3, 1)));
    v.push(ReOder::new((5, 2), (3, 2)));
    proof {
        assert(v@ =~= page_two_spec());
    }
    v
}

/// The remap collection of the third output page.
pub fn page_three_remaps() -> (r: Vec<ReOder>)
    ensures
        r@ == page_three_spec(),
{
    let mut v: Vec<ReOder> = Vec::new();
    v.push(ReOder::new((6, 3), (0, 0)));
    v.push(ReOder::new((1, 2), (0, 1)));
    v.push(ReOder::new((9, 5), (0, 2)));
    v.push(ReOder::new((9, 7), (1, 0)));
    v.push(ReOder::new((7, 3), (1, 1)));
    v.push(ReOder::new((3, 3), (1, 2)));
    v.push(ReOder::new((8, 4), (2, 0)));
    v.push(ReOder::new((8, 7), (2, 1)));
    v.push(ReOder::new((5, 4), (2, 2)));
    v.push(ReOder::new((4, 4), (3, 0)));
    v.push(ReOder::new((6, 2), (3, 1)));
    v.push(ReOder::new((8, 6), (3, 2)));
    proof {
        assert(v@ =~= page_three_spec());
    }
    v
}

/// Copies each remap's `B`-by-`B` canvas block onto a fresh page.
///
/// Returns the page when every remap fits both grids; `OutOfBounds` when
/// any source cell lies outside the canvas cell grid or any destination
/// placement would exceed the page. Where destination cells repeat, the
/// later remap wins, as the copy order dictates.
pub fn lay_out_page(canvas: &Raster, reoders: &Vec<ReOder>) -> (r: Result<Raster, MapError>)
    requires
        img_dims(*canvas) == (crate::CANVAS_W as nat, crate::CANVAS_H as nat),
    ensures
        r is Ok <==> (forall|k: int| 0 <= k < reoders@.len() ==> #[trigger] remap_fits(reoders@[k])),
        r is Err ==> r == Result::<Raster, MapError>::Err(MapError::OutOfBounds),
        r is Ok ==> img_dims(r->Ok_0) == (PAGE_W as nat, PAGE_H as nat),
        r is Ok ==> img_wf(r->Ok_0),
        r is Ok ==> forall|x: int, y: int|
            0 <= x < PAGE_W && 0 <= y < PAGE_H ==> #[trigger] img_pixels(r->Ok_0)[(x, y)]
                == page_pixel_spec(img_pixels(*canvas), reoders@, x, y),
{
    let n: usize = reoders.len();
    let mut i: usize = 0;
    while i < n
        invariant
            n == reoders@.len(),
            0 <= i <= n,
            forall|k: int| 0 <= k < i ==> #[trigger] remap_fits(reoders@[k]),
        decreases n - i,
    {
        let rm = reoders[i];
        if !(rm.from.0 < CANVAS_CELL_COLS && rm.from.1 < CANVAS_CELL_ROWS && rm.to.0 < PAGE_COLS
            && rm.to.1 < PAGE_ROWS) {
            assert(!remap_fits(reoders@[i as int]));
            return Err(MapError::OutOfBounds);
        }
        i = i + 1;
    }
    proof {
        assert(cell_extent(PAGE_COLS as int) == PAGE_W as int);
        assert(cell_extent(PAGE_ROWS as int) == PAGE_H as int);
    }
    let pw = ReOder::to_size(PAGE_COLS);
    let ph = ReOder::to_size(PAGE_ROWS);
    proof {
        assert((pw as nat) * (ph as nat) * 4 <= usize::MAX as nat) by (nonlinear_arith)
            requires
                pw == 3550,
                ph == 2660,
        ;
    }
    let mut page = Raster::new_blank(pw, ph);
    assert(img_dims(page) == (PAGE_W as nat, PAGE_H as nat));
    let ghost cpix = img_pixels(*canvas);
    let mut i: usize = 0;
    while i < n
        invariant
            n == reoders@.len(),
            0 <= i <= n,
            img_dims(*canvas) == (crate::CANVAS_W as nat, crate::CANVAS_H as nat),
            cpix == img_pixels(*canvas),
            forall|k: int| 0 <= k < n ==> #[trigger] remap_fits(reoders@[k]),
            img_dims(page) == (PAGE_W as nat, PAGE_H as nat),
            img_wf(page),
            forall|x: int, y: int|
                0 <= x < PAGE_W && 0 <= y < PAGE_H ==> #[trigger] img_pixels(page)[(x, y)]
                    == page_pixel_spec(cpix, reoders@.take(i as int), x, y),
        decreases n - i,
    {
        let rm = reoders[i];
        proof {
            assert(remap_fits(reoders@[i as int]));
        }
        let sx = rm.from_x_pix();
        let sy = rm.from_y_pix();
        let dx = rm.to_x_pix();
        let dy = rm.to_y_pix();
        page.copy_region(canvas, sx, sy, crate::B, crate::B, dx, dy);
        proof {
            let pre = reoders@.take(i as int);
            let cur = reoders@.take(i as int + 1);
            assert(cur.drop_last() =~= pre);
            assert(cur.last() == reoders@[i as int]);
            assert forall|x: int, y: int| 0 <= x < PAGE_W && 0 <= y < PAGE_H implies #[trigger]
            img_pixels(page)[(x, y)] == page_pixel_spec(cpix, cur, x, y) by {
                if covers(reoders@[i as int], x, y) {
                    assert(img_pixels(page)[(x, y)] == img_pixels(*canvas)[
                        (x - dx + sx, y - dy + sy)]);
                } else {
                    assert(img_pixels(page)[(x, y)] == page_pixel_spec(cpix, pre, x, y));
                }
            }
        }
        i = i + 1;
    }
    proof {
        assert(reoders@.take(n as int) =~= reoders@);
    }
    Ok(page)
}

} // verus!
