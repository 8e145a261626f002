use vstd::prelude::*;

use crate::grid::board::{
    Board, Grid, coord_in, col_major_lt, in_square, lemma_board_ext, lemma_painted_at, law_set_then_get,
    lemma_push_contains, painted, sorted_col_major, span_hi, span_lo,
};
use crate::grid::types::{CellType, Faction, GridCoord};
use crate::patterns::{get_pattern_by_name, named_pattern};
use crate::state::config::ZoneBrushConfig;

verus! {

/// Whether the simulator's pointer draws or erases.
#[derive(Clone, Copy, PartialEq, Eq, Debug, Structural)]
pub enum DrawMode {
    Draw,
    Erase,
}

impl Default for DrawMode {
    fn default() -> (r: DrawMode)
        ensures
            r == DrawMode::Draw,
    {
        DrawMode::Draw
    }
}

/// Most recent strokes last; each stroke lists the cells it wrote with their earlier content.
pub struct DrawHistory {
    pub history: Vec<Vec<(GridCoord, CellType)>>,
}

impl Default for DrawHistory {
    fn default() -> (r: DrawHistory)
        ensures
            r.history@.len() == 0,
    {
        DrawHistory { history: Vec::new() }
    }
}

/// The most strokes the history keeps.
pub const MAX_HISTORY: usize = 100;

/// Radius of a brush of the given size: one less than the size, at least zero.
pub open spec fn brush_radius(size: u32) -> int {
    if size == 0 {
        0
    } else {
        size - 1
    }
}

/// The on-grid cells covered by a square brush of `size` centred at `center`, column by column.
pub fn get_brush_coords(center: GridCoord, size: u32, grid: &Grid) -> (r: Vec<GridCoord>)
    ensures
        sorted_col_major(r@),
        forall|c: GridCoord|
            #[trigger] r@.contains(c) <==> (grid@.in_bounds(c.x as int, c.y as int)
                && in_square(c, center.x as int, center.y as int, brush_radius(size))),
{
    let radius: usize = if size == 0 { 0 } else { (size - 1) as usize };
    let cx = center.x;
    let cy = center.y;
    let xlo = if cx >= radius { cx - radius } else { 0 };
    let ylo = if cy >= radius { cy - radius } else { 0 };
    let xhi = if cx < grid.width && radius < grid.width - cx { cx + radius + 1 } else { grid.width };
    let yhi = if cy < grid.height && radius < grid.height - cy { cy + radius + 1 } else { grid.height };
    let mut result: Vec<GridCoord> = Vec::new();
    let mut x: usize = xlo;
    while x < xhi
        invariant
            radius == brush_radius(size),
            xlo == span_lo(cx as int, radius as int),
            xhi == span_hi(cx as int, radius as int, grid.width as int),
            ylo == span_lo(cy as int, radius as int),
            yhi == span_hi(cy as int, radius as int, grid.height as int),
            xlo <= x,
            sorted_col_major(result@),
            forall|i: int| 0 <= i < result@.len() ==> (#[trigger] result@[i]).x < x,
            forall|c: GridCoord| #[trigger] result@.contains(c) <==> ((grid@.in_bounds(c.x as int, c.y as int)
                && in_square(c, cx as int, cy as int, radius as int)) && c.x < x),
        decreases xhi - x,
    {
        let mut y: usize = ylo;
        while y < yhi
            invariant
                radius == brush_radius(size),
                xlo == span_lo(cx as int, radius as int),
                xhi == span_hi(cx as int, radius as int, grid.width as int),
                ylo == span_lo(cy as int, radius as int),
                yhi == span_hi(cy as int, radius as int, grid.height as int),
                xlo <= x < xhi,
                ylo <= y,
                sorted_col_major(result@),
                forall|i: int| 0 <= i < result@.len() ==> col_major_lt(#[trigger] result@[i], GridCoord { x, y }),
                forall|c: GridCoord| #[trigger] result@.contains(c) <==> ((grid@.in_bounds(c.x as int, c.y as int)
                    && in_square(c, cx as int, cy as int, radius as int)) && (c.x < x || (c.x == x && c.y < y))),
            decreases yhi - y,
        {
            let c = GridCoord::new(x, y);
            let ghost before = result@;
            proof {
                lemma_push_contains(result@, c);
            }
            result.push(c);
            proof {
                assert forall|d: GridCoord| #[trigger] result@.contains(d) <==> ((grid@.in_bounds(d.x as int, d.y as int)
                    && in_square(d, cx as int, cy as int, radius as int)) && (d.x < x || (d.x == x && d.y < y + 1))) by {
                    assert(before.push(c).contains(d) <==> (before.contains(d) || d == c));
                    if d.y == y && d.x == x {
                        assert(d == c);
                    }
                }
            }
            y = y + 1;
        }
        x = x + 1;
    }
    result
}

/// `z` with each of `cs`, in order, appended when not already there.
pub open spec fn add_all(z: Seq<GridCoord>, cs: Seq<GridCoord>) -> Seq<GridCoord>
    decreases cs.len(),
{
    if cs.len() == 0 {
        z
    } else {
        let prev = add_all(z, cs.drop_last());
        if prev.contains(cs.last()) {
            prev
        } else {
            prev.push(cs.last())
        }
    }
}

/// `z` without the coordinates of `cs`, in order.
pub open spec fn remove_all(z: Seq<GridCoord>, cs: Seq<GridCoord>) -> Seq<GridCoord>
    decreases z.len(),
{
    if z.len() == 0 {
        z
    } else {
        let prev = remove_all(z.drop_last(), cs);
        if cs.contains(z.last()) {
            prev
        } else {
            prev.push(z.last())
        }
    }
}

/// Painting the zone adds the brush's cells: afterwards the zone holds exactly its old cells
/// and the brush's, and a zone without repeats stays without repeats.
pub proof fn law_zone_add(z: Seq<GridCoord>, cs: Seq<GridCoord>)
    ensures
        forall|c: GridCoord| #[trigger] add_all(z, cs).contains(c) <==> (z.contains(c) || cs.contains(c)),
        crate::grid::board::distinct(z) ==> crate::grid::board::distinct(add_all(z, cs)),
    decreases cs.len(),
{
    if cs.len() > 0 {
        let p = cs.drop_last();
        law_zone_add(z, p);
        let prev = add_all(z, p);
        assert forall|c: GridCoord| #[trigger] cs.contains(c) <==> (p.contains(c) || c == cs.last()) by {
            if cs.contains(c) {
                let i = choose|i: int| 0 <= i < cs.len() && cs[i] == c;
                if i < cs.len() - 1 {
                    assert(p[i] == c);
                }
            }
            if p.contains(c) {
                let i = choose|i: int| 0 <= i < p.len() && p[i] == c;
                assert(cs[i] == c);
            }
        }
        if !prev.contains(cs.last()) {
            assert forall|c: GridCoord| #[trigger] prev.push(cs.last()).contains(c) <==> (prev.contains(c) || c
                == cs.last()) by {
                if prev.push(cs.last()).contains(c) {
                    let i = choose|i: int| 0 <= i < prev.len() + 1 && prev.push(cs.last())[i] == c;
                    if i < prev.len() {
                        assert(prev[i] == c);
                    }
                }
                if c == cs.last() {
                    assert(prev.push(cs.last())[prev.len() as int] == c);
                }
                if prev.contains(c) {
                    let i = choose|i: int| 0 <= i < prev.len() && prev[i] == c;
                    assert(prev.push(cs.last())[i] == c);
                }
            }
        }
    }
}

/// Erasing the zone removes the brush's cells: afterwards the zone holds exactly its old cells
/// that the brush does not cover.
pub proof fn law_zone_remove(z: Seq<GridCoord>, cs: Seq<GridCoord>)
    ensures
        forall|c: GridCoord| #[trigger] remove_all(z, cs).contains(c) <==> (z.contains(c) && !cs.contains(c)),
    decreases z.len(),
{
    if z.len() > 0 {
        let p = z.drop_last();
        law_zone_remove(p, cs);
        let prev = remove_all(p, cs);
        assert forall|c: GridCoord| #[trigger] z.contains(c) <==> (p.contains(c) || c == z.last()) by {
            if z.contains(c) {
                let i = choose|i: int| 0 <= i < z.len() && z[i] == c;
                if i < z.len() - 1 {
                    assert(p[i] == c);
                }
            }
            if p.contains(c) {
                let i = choose|i: int| 0 <= i < p.len() && p[i] == c;
                assert(z[i] == c);
            }
        }
        if !cs.contains(z.last()) {
            assert forall|c: GridCoord| #[trigger] prev.push(z.last()).contains(c) <==> (prev.contains(c) || c
                == z.last()) by {
                if prev.push(z.last()).contains(c) {
                    let i = choose|i: int| 0 <= i < prev.len() + 1 && prev.push(z.last())[i] == c;
                    if i < prev.len() {
                        assert(prev[i] == c);
                    }
                }
                if c == z.last() {
                    assert(prev.push(z.last())[prev.len() as int] == c);
                }
                if prev.contains(c) {
                    let i = choose|i: int| 0 <= i < prev.len() && prev[i] == c;
                    assert(prev.push(z.last())[i] == c);
                }
            }
        }
    }
}

/// Adds each brush coordinate to the zone unless it is already there.
pub fn add_to_zone(zone: &mut Vec<GridCoord>, coords: &[GridCoord])
    ensures
        final(zone)@ == add_all(old(zone)@, coords@),
{
    let ghost z0 = zone@;
    let mut i: usize = 0;
    while i < coords.len()
        invariant
            i <= coords@.len(),
            zone@ == add_all(z0, coords@.subrange(0, i as int)),
        decreases coords@.len() - i,
    {
        let c = coords[i];
        proof {
            assert(coords@.subrange(0, i + 1).drop_last() =~= coords@.subrange(0, i as int));
            assert(coords@.subrange(0, i + 1).last() == c);
        }
        if !coord_in(c, zone.as_slice()) {
            zone.push(c);
        }
        i = i + 1;
    }
    proof {
        assert(coords@.subrange(0, coords@.len() as int) =~= coords@);
    }
}

/// Removes every brush coordinate from the zone, keeping the order of the rest.
pub fn remove_from_zone(zone: &mut Vec<GridCoord>, coords: &[GridCoord])
    ensures
        final(zone)@ == remove_all(old(zone)@, coords@),
{
    let mut kept: Vec<GridCoord> = Vec::new();
    let mut i: usize = 0;
    while i < zone.len()
        invariant
            i <= zone@.len(),
            zone@ == old(zone)@,
            kept@ == remove_all(zone@.subrange(0, i as int), coords@),
        decreases zone@.len() - i,
    {
        let q = zone[i];
        proof {
            assert(zone@.subrange(0, i + 1).drop_last() =~= zone@.subrange(0, i as int));
            assert(zone@.subrange(0, i + 1).last() == q);
        }
        if !coord_in(q, coords) {
            kept.push(q);
        }
        i = i + 1;
    }
    proof {
        assert(zone@.subrange(0, zone@.len() as int) =~= zone@);
    }
    *zone = kept;
}

/// The pointer state of one frame while editing in the simulator.
pub struct DrawInput {
    /// The grid cell under the pointer, if it is over the grid.
    pub cursor: Option<GridCoord>,
    pub left_pressed: bool,
    pub right_pressed: bool,
    pub left_just_pressed: bool,
    pub right_just_pressed: bool,
    pub right_just_released: bool,
}

/// The stroke a draw action records: each written cell with its content as read just before
/// that cell was written.
pub open spec fn recorded(b: Board, cells: Seq<(GridCoord, CellType)>) -> Seq<(GridCoord, CellType)> {
    Seq::new(cells.len(), |i: int| (cells[i].0, painted(b, cells.subrange(0, i)).at(cells[i].0.x as int, cells[i].0.y as int)))
}

/// Writes the cells in order and returns the stroke to undo it.
fn paint_recorded(grid: &mut Grid, cells: &[(GridCoord, CellType)]) -> (stroke: Vec<(GridCoord, CellType)>)
    requires
        old(grid).wf(),
    ensures
        final(grid).wf(),
        final(grid)@ == painted(old(grid)@, cells@),
        stroke@ == recorded(old(grid)@, cells@),
{
    let ghost b = grid@;
    let mut stroke: Vec<(GridCoord, CellType)> = Vec::new();
    let mut i: usize = 0;
    while i < cells.len()
        invariant
            grid.wf(),
            i <= cells@.len(),
            grid@ == painted(b, cells@.subrange(0, i as int)),
            stroke@ == recorded(b, cells@).subrange(0, i as int),
        decreases cells@.len() - i,
    {
        let (c, v) = cells[i];
        let before = grid.get(c);
        stroke.push((c, before));
        grid.set(c, v);
        proof {
            assert(cells@.subrange(0, i + 1).drop_last() =~= cells@.subrange(0, i as int));
            assert(stroke@ =~= recorded(b, cells@).subrange(0, i + 1));
        }
        i = i + 1;
    }
    proof {
        assert(cells@.subrange(0, cells@.len() as int) =~= cells@);
        assert(stroke@ =~= recorded(b, cells@));
    }
    stroke
}

/// Adds a stroke to the history, dropping the oldest beyond `MAX_HISTORY`.
pub fn push_history(history: &mut DrawHistory, stroke: Vec<(GridCoord, CellType)>)
    ensures
        old(history).history@.len() < MAX_HISTORY ==> final(history).history@ == old(history).history@.push(stroke),
        old(history).history@.len() >= MAX_HISTORY ==> final(history).history@ == old(history).history@.push(stroke).drop_first(),
        final(history).history@.len() > 0,
        final(history).history@.last() == stroke,
        final(history).history@.len() == (if old(history).history@.len() < MAX_HISTORY {
            old(history).history@.len() + 1int
        } else {
            old(history).history@.len() as int
        }),
        final(history).history@.drop_last() == (if old(history).history@.len() < MAX_HISTORY {
            old(history).history@
        } else {
            old(history).history@.drop_first()
        }),
{
    let ghost h0 = history.history@;
    history.history.push(stroke);
    if history.history.len() > MAX_HISTORY {
        let _oldest = history.history.remove(0);
        proof {
            assert(history.history@ =~= h0.push(stroke).drop_first());
            assert(history.history@.drop_last() =~= h0.drop_first());
        }
    } else {
        proof {
            assert(history.history@.drop_last() =~= h0);
        }
    }
}

/// The board after writing back a recorded stroke, last pair first.
pub open spec fn painted_backwards(b: Board, stroke: Seq<(GridCoord, CellType)>) -> Board
    decreases stroke.len(),
{
    if stroke.len() == 0 {
        b
    } else {
        let (c, v) = stroke.last();
        painted_backwards(b.with_cell(c.x as int, c.y as int, v), stroke.drop_last())
    }
}

/// Writes each pair of `stroke` back, from the last to the first.
fn paint_backwards(grid: &mut Grid, stroke: &[(GridCoord, CellType)])
    requires
        old(grid).wf(),
    ensures
        final(grid).wf(),
        final(grid)@ == painted_backwards(old(grid)@, stroke@),
{
    let ghost b = grid@;
    let mut k: usize = stroke.len();
    assert(stroke@.subrange(0, k as int) =~= stroke@);
    while k > 0
        invariant
            grid.wf(),
            k <= stroke@.len(),
            painted_backwards(b, stroke@) == painted_backwards(grid@, stroke@.subrange(0, k as int)),
        decreases k,
    {
        let (c, v) = stroke[k - 1];
        proof {
            let s = stroke@.subrange(0, k as int);
            assert(s.drop_last() =~= stroke@.subrange(0, k - 1));
            assert(s.last() == (c, v));
        }
        grid.set(c, v);
        k = k - 1;
    }
    proof {
        assert(stroke@.subrange(0, 0) =~= Seq::<(GridCoord, CellType)>::empty());
    }
}

/// Undoes the latest stroke: writes back the contents it recorded, last write first.
pub fn undo_last_draw(grid: &mut Grid, draw_history: &mut DrawHistory)
    requires
        old(grid).wf(),
    ensures
        final(grid).wf(),
        old(draw_history).history@.len() == 0 ==> *final(grid) == *old(grid) && final(draw_history).history@ == old(draw_history).history@,
        old(draw_history).history@.len() > 0 ==> final(draw_history).history@ == old(draw_history).history@.drop_last()
            && final(grid)@ == painted_backwards(old(grid)@, old(draw_history).history@.last()@),
{
    if let Some(last_changes) = draw_history.history.pop() {
        paint_backwards(grid, last_changes.as_slice());
    }
}

/// The brush stroke's coordinates: exactly the cells of `get_brush_coords`.
pub open spec fn brush_cells(bs: Seq<GridCoord>, b: Board, center: GridCoord, size: u32) -> bool {
    &&& sorted_col_major(bs)
    &&& forall|c: GridCoord| #[trigger] bs.contains(c) <==> (b.in_bounds(c.x as int, c.y as int)
        && in_square(c, center.x as int, center.y as int, brush_radius(size)))
}

/// The draw mode after this frame's right-button events.
pub open spec fn next_mode(mode: DrawMode, input: DrawInput) -> DrawMode {
    if input.right_just_released {
        DrawMode::Draw
    } else if input.right_just_pressed {
        DrawMode::Erase
    } else {
        mode
    }
}

/// Whether the held left button writes this frame: on a click, or on entering another cell.
pub open spec fn draw_acts(last: Option<GridCoord>, input: DrawInput) -> bool {
    input.left_pressed && (last != input.cursor || input.left_just_pressed)
}

/// The cells a write puts down at the pointer: when erasing, an empty cell; with a preset
/// pattern selected, the red pattern, on a click only; otherwise the selected element, on an
/// empty cell (an empty element on any cell). `None` when nothing is written.
pub open spec fn stroke_cells(
    b: Board,
    mode: DrawMode,
    input: DrawInput,
    selected_element: CellType,
    selected_pattern: Option<String>,
) -> Option<Seq<(GridCoord, CellType)>> {
    let c = input.cursor->0;
    if next_mode(mode, input) == DrawMode::Erase {
        Some(seq![(c, CellType::Empty)])
    } else if selected_pattern is Some {
        if input.left_just_pressed {
            named_pattern(selected_pattern->0@, c, Faction::Red)
        } else {
            None
        }
    } else if (b.in_bounds(c.x as int, c.y as int) && b.at(c.x as int, c.y as int) is Empty)
        || selected_element == CellType::Empty {
        Some(seq![(c, selected_element)])
    } else {
        None
    }
}

/// One frame of editing in the simulator. With the zone brush on, holding the left button adds
/// the brush's cells to the deployment zone and holding the right one removes them, once per
/// cell the pointer enters. Otherwise the right button switches to erasing while held, and
/// holding the left button writes, once per cell the pointer enters: erasing empties the cell;
/// a selected preset pattern is stamped (red, on the click only); else the selected element is
/// written on an empty cell (an empty element on any cell). Each write is recorded in the
/// history for undo.
pub fn drawing_step(
    grid: &mut Grid,
    zone: &mut Vec<GridCoord>,
    mode: &mut DrawMode,
    last_draw: &mut Option<GridCoord>,
    history: &mut DrawHistory,
    editing: bool,
    input: &DrawInput,
    selected_element: CellType,
    selected_pattern: &Option<String>,
    zone_brush: &ZoneBrushConfig,
)
    requires
        old(grid).wf(),
    ensures
        final(grid).wf(),
        !editing || input.cursor is None ==> *final(last_draw) is None && *final(grid) == *old(grid)
            && final(zone)@ == old(zone)@ && *final(mode) == *old(mode) && final(history).history@ == old(history).history@,
        editing && input.cursor is Some && zone_brush.active ==> {
            let c = input.cursor->0;
            &&& *final(grid) == *old(grid)
            &&& *final(mode) == *old(mode)
            &&& final(history).history@ == old(history).history@
            &&& !input.left_pressed && !input.right_pressed ==> *final(last_draw) is None && final(zone)@ == old(zone)@
            &&& (input.left_pressed || input.right_pressed) && *old(last_draw) == Some(c) ==> *final(last_draw) == Some(c)
                && final(zone)@ == old(zone)@
            &&& (input.left_pressed || input.right_pressed) && *old(last_draw) != Some(c) ==> *final(last_draw) == Some(c)
                && exists|bs: Seq<GridCoord>| #[trigger] brush_cells(bs, old(grid)@, c, zone_brush.size)
                    && final(zone)@ == (if input.left_pressed { add_all(old(zone)@, bs) } else { remove_all(old(zone)@, bs) })
        },
        editing && input.cursor is Some && !zone_brush.active ==> *final(mode) == next_mode(*old(mode), *input)
            && final(zone)@ == old(zone)@,
        editing && input.cursor is Some && !zone_brush.active && !input.left_pressed ==> *final(last_draw) is None
            && *final(grid) == *old(grid) && final(history).history@ == old(history).history@,
        editing && input.cursor is Some && !zone_brush.active && input.left_pressed && !draw_acts(*old(last_draw), *input)
            ==> *final(last_draw) == *old(last_draw) && *final(grid) == *old(grid)
            && final(history).history@ == old(history).history@,
        editing && input.cursor is Some && !zone_brush.active && draw_acts(*old(last_draw), *input)
            ==> *final(last_draw) == input.cursor,
        editing && input.cursor is Some && !zone_brush.active && draw_acts(*old(last_draw), *input)
            && stroke_cells(old(grid)@, *old(mode), *input, selected_element, *selected_pattern) is None
            ==> *final(grid) == *old(grid) && final(history).history@ == old(history).history@,
        editing && input.cursor is Some && !zone_brush.active && draw_acts(*old(last_draw), *input)
            && stroke_cells(old(grid)@, *old(mode), *input, selected_element, *selected_pattern) is Some ==> {
            let cells = stroke_cells(old(grid)@, *old(mode), *input, selected_element, *selected_pattern)->0;
            &&& final(grid)@ == painted(old(grid)@, cells)
            &&& final(history).history@.last()@ == recorded(old(grid)@, cells)
            &&& final(history).history@.len() == (if old(history).history@.len() < MAX_HISTORY {
                old(history).history@.len() + 1int
            } else {
                old(history).history@.len() as int
            })
            &&& final(history).history@.drop_last() == (if old(history).history@.len() < MAX_HISTORY {
                old(history).history@
            } else {
                old(history).history@.drop_first()
            })
        },
{
    if !editing {
        *last_draw = None;
        return;
    }
    let coord = match input.cursor {
        Some(c) => c,
        None => {
            *last_draw = None;
            return;
        },
    };
    if zone_brush.active {
        if !input.left_pressed && !input.right_pressed {
            *last_draw = None;
            return;
        }
        if *last_draw == Some(coord) {
            return;
        }
        *last_draw = Some(coord);
        let brush = get_brush_coords(coord, zone_brush.size, grid);
        assert(brush_cells(brush@, grid@, coord, zone_brush.size));
        if input.left_pressed {
            add_to_zone(zone, brush.as_slice());
        } else {
            remove_from_zone(zone, brush.as_slice());
        }
        return;
    }
    if input.right_just_pressed {
        *mode = DrawMode::Erase;
    }
    if input.right_just_released {
        *mode = DrawMode::Draw;
    }
    if !input.left_pressed {
        *last_draw = None;
        return;
    }
    if *last_draw == Some(coord) && !input.left_just_pressed {
        return;
    }
    *last_draw = Some(coord);
    if *mode == DrawMode::Erase {
        let cells: Vec<(GridCoord, CellType)> = vec![(coord, CellType::Empty)];
        assert(cells@ =~= seq![(coord, CellType::Empty)]);
        let stroke = paint_recorded(grid, cells.as_slice());
        push_history(history, stroke);
        assert(grid@ == painted(old(grid)@, seq![(coord, CellType::Empty)]));
    } else if let Some(name) = selected_pattern {
        if input.left_just_pressed {
            if let Some(cells) = get_pattern_by_name(name.as_str(), coord, Faction::Red) {
                let stroke = paint_recorded(grid, cells.as_slice());
                push_history(history, stroke);
                assert(grid@ == painted(old(grid)@, cells@));
            }
        }
    } else {
        let element = selected_element;
        if grid.is_empty(coord) || element == CellType::Empty {
            let cells: Vec<(GridCoord, CellType)> = vec![(coord, element)];
            assert(cells@ =~= seq![(coord, element)]);
            let stroke = paint_recorded(grid, cells.as_slice());
            push_history(history, stroke);
            assert(grid@ == painted(old(grid)@, seq![(coord, element)]));
        }
    }
}


/// Writing a cell and then writing back what it held leaves the board as it was.
proof fn lemma_write_back(p: Board, c: GridCoord, v: CellType)
    requires
        p.wf(),
    ensures
        p.with_cell(c.x as int, c.y as int, v).with_cell(c.x as int, c.y as int, p.at(c.x as int, c.y as int)) == p,
{
    let x = c.x as int;
    let y = c.y as int;
    let q = p.with_cell(x, y, v);
    law_set_then_get(p, x, y, v);
    law_set_then_get(q, x, y, p.at(x, y));
    let r = q.with_cell(x, y, p.at(x, y));
    assert forall|i: int, j: int| r.in_bounds(i, j) implies #[trigger] r.at(i, j) == p.at(i, j) by {
        assert(r.at(i, j) == q.at(i, j) || (i == x && j == y));
    }
    lemma_board_ext(r, p);
}

/// Undo gives back the board a stroke was drawn on: for any stroke, writing back the recorded
/// earlier contents, last write first, restores the board from before the stroke, also where
/// the stroke wrote one cell more than once.
pub proof fn law_undo_restores(b: Board, cells: Seq<(GridCoord, CellType)>)
    requires
        b.wf(),
    ensures
        painted_backwards(painted(b, cells), recorded(b, cells)) == b,
    decreases cells.len(),
{
    if cells.len() > 0 {
        let t = cells.drop_last();
        let (c, v) = cells.last();
        let p = painted(b, t);
        lemma_painted_at(b, t, 0, 0);
        let r = recorded(b, cells);
        assert(r.drop_last() =~= recorded(b, t)) by {
            assert forall|i: int| 0 <= i < t.len() implies cells.subrange(0, i) == #[trigger] t.subrange(0, i) by {
                assert(cells.subrange(0, i) =~= t.subrange(0, i));
            }
        }
        assert(cells.subrange(0, cells.len() - 1) =~= t);
        assert(r.last() == (c, p.at(c.x as int, c.y as int)));
        lemma_write_back(p, c, v);
        law_undo_restores(b, t);
    }
}

/// A preset pattern is stamped once per click: with a pattern selected and the pointer drawing
/// (not erasing), a held left button that was not just pressed writes nothing, while a fresh
/// click writes the red pattern of that name at the pointer.
pub proof fn law_pattern_stamped_on_click(
    b: Board,
    mode: DrawMode,
    input: DrawInput,
    selected_element: CellType,
    name: String,
)
    requires
        input.right_just_released || (!input.right_just_pressed && mode == DrawMode::Draw),
    ensures
        !input.left_just_pressed ==> stroke_cells(b, mode, input, selected_element, Some(name)) is None,
        input.left_just_pressed ==> stroke_cells(b, mode, input, selected_element, Some(name))
            == named_pattern(name@, input.cursor->0, Faction::Red),
{
}

/// What one write at the pointer puts down. The right button switches to erasing while held
/// (its release switches back); erasing empties the cell under the pointer, whatever it held.
/// Drawing with no pattern selected writes the selected element, once, on an empty on-grid
/// cell, and an empty element on any cell; anything else is left as it is.
pub proof fn law_stroke_rules(
    b: Board,
    mode: DrawMode,
    input: DrawInput,
    selected_element: CellType,
    selected_pattern: Option<String>,
)
    ensures
        ({
            let c = input.cursor->0;
            let erasing = !input.right_just_released && (input.right_just_pressed || mode == DrawMode::Erase);
            let s = stroke_cells(b, mode, input, selected_element, selected_pattern);
            &&& erasing ==> s == Some(seq![(c, CellType::Empty)])
            &&& !erasing && selected_pattern is None && ((b.in_bounds(c.x as int, c.y as int)
                && b.at(c.x as int, c.y as int) == CellType::Empty) || selected_element == CellType::Empty)
                ==> s == Some(seq![(c, selected_element)])
            &&& !erasing && selected_pattern is None && !((b.in_bounds(c.x as int, c.y as int)
                && b.at(c.x as int, c.y as int) == CellType::Empty) || selected_element == CellType::Empty)
                ==> s is None
        }),
{
}

} // verus!
