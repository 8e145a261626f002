use vstd::prelude::*;

use crate::grid::board::{Board, Grid};
use crate::grid::types::{CellType, GridCoord};
use crate::level::data::LevelData;
use crate::state::config::{DeploymentZoneData, DialogMessage, EvolutionConfig, SimulatorDeployConfig, copy_coords};
use crate::state::deployment::{level_board, level_cell, load_level_to_grid};
use crate::text::{concat_text, push_char, same_text};

verus! {

/// The grid's cells as rows, `rows[y][x]`.
pub open spec fn rows_of(b: Board) -> Seq<Seq<CellType>> {
    Seq::new(b.height as nat, |y: int| Seq::new(b.width as nat, |x: int| b.at(x, y)))
}

/// The characters of each row.
pub open spec fn row_views(rows: Seq<Vec<CellType>>) -> Seq<Seq<CellType>> {
    rows.map_values(|r: Vec<CellType>| r@)
}

/// The grid's cells as rows (`rows[y][x]`), the layout of a level file.
pub fn grid_to_initial_cells(grid: &Grid) -> (rows: Vec<Vec<CellType>>)
    requires
        grid.wf(),
    ensures
        row_views(rows@) == rows_of(grid@),
{
    let w = grid.width;
    let h = grid.height;
    let mut rows: Vec<Vec<CellType>> = Vec::with_capacity(h);
    let mut y: usize = 0;
    while y < h
        invariant
            grid.wf(),
            w == grid.width,
            h == grid.height,
            y <= h,
            rows@.len() == y,
            forall|j: int| 0 <= j < y ==> (#[trigger] rows@[j])@ == rows_of(grid@)[j],
        decreases h - y,
    {
        let mut row: Vec<CellType> = Vec::with_capacity(w);
        let mut x: usize = 0;
        while x < w
            invariant
                grid.wf(),
                w == grid.width,
                h == grid.height,
                y < h,
                x <= w,
                row@.len() == x,
                forall|i: int| 0 <= i < x ==> #[trigger] row@[i] == grid@.at(i, y as int),
            decreases w - x,
        {
            assert(grid.cells@[x as int]@ == grid@.cells[x as int]);
            row.push(grid.cells[x][y]);
            x = x + 1;
        }
        assert(row@ =~= rows_of(grid@)[y as int]);
        rows.push(row);
        y = y + 1;
    }
    assert(row_views(rows@) =~= rows_of(grid@));
    rows
}

/// A level saved from the edited grid, zone and unit counts under `id` and `name`: format
/// version 1, the grid's size and rows, and 200 steps per deployment.
pub open spec fn saved_level(
    data: LevelData,
    grid: Grid,
    zone: Seq<GridCoord>,
    config: SimulatorDeployConfig,
    id: Seq<char>,
    name: Seq<char>,
) -> bool {
    &&& data.id@ == id
    &&& data.name@ == name
    &&& data.version == 1
    &&& data.width == grid.width
    &&& data.height == grid.height
    &&& row_views(data.initial_cells@) == rows_of(grid@)
    &&& data.deployment_zone@ == zone
    &&& data.max_gliders == config.max_gliders
    &&& data.max_lwss == config.max_lwss
    &&& data.evolution_steps == 200
}

/// A level made from the edited grid, zone and unit counts (see `saved_level`).
pub fn build_level_data(
    grid: &Grid,
    zone: &[GridCoord],
    deploy_config: &SimulatorDeployConfig,
    id: &str,
    name: &str,
) -> (data: LevelData)
    requires
        grid.wf(),
    ensures
        saved_level(data, *grid, zone@, *deploy_config, id@, name@),
{
    LevelData {
        id: id.to_owned(),
        name: name.to_owned(),
        version: 1,
        width: grid.width,
        height: grid.height,
        initial_cells: grid_to_initial_cells(grid),
        deployment_zone: copy_coords(zone),
        max_gliders: deploy_config.max_gliders,
        max_lwss: deploy_config.max_lwss,
        evolution_steps: 200,
    }
}

/// Saving a grid as a level and loading that level gives back the same grid.
pub proof fn law_save_then_load(b: Board, data: LevelData)
    requires
        b.wf(),
        data.width as int == b.width,
        data.height as int == b.height,
        row_views(data.initial_cells@) == rows_of(b),
    ensures
        level_board(data) == b,
{
    let lb = level_board(data);
    assert(row_views(data.initial_cells@).len() == data.initial_cells@.len());
    assert(rows_of(b).len() == b.height);
    assert forall|x: int, y: int| lb.in_bounds(x, y) implies #[trigger] lb.at(x, y) == b.at(x, y) by {
        assert(row_views(data.initial_cells@)[y] == data.initial_cells@[y]@);
        assert(rows_of(b)[y].len() == b.width);
        assert(rows_of(b)[y][x] == b.at(x, y));
        assert(level_cell(data.initial_cells@, x, y) == data.initial_cells@[y]@[x]);
    }
    crate::grid::board::lemma_board_ext(lb, b);
}

/// Loading a level whose rows fill its size exactly and saving the grid gives back its rows.
pub proof fn law_load_then_save(data: LevelData)
    requires
        data.initial_cells@.len() == data.height,
        forall|y: int| 0 <= y < data.height ==> (#[trigger] data.initial_cells@[y])@.len() == data.width,
    ensures
        rows_of(level_board(data)) == row_views(data.initial_cells@),
{
    let lb = level_board(data);
    let rv = row_views(data.initial_cells@);
    assert forall|y: int| 0 <= y < data.height implies #[trigger] rows_of(lb)[y] =~= rv[y] by {
        assert forall|x: int| 0 <= x < data.width implies rows_of(lb)[y][x] == rv[y][x] by {
            assert(lb.at(x, y) == level_cell(data.initial_cells@, x, y));
        }
    }
    assert(rows_of(lb) =~= rv);
}

// ---- Level ids ----

pub open spec fn is_ascii_alnum(c: char) -> bool {
    ('0' <= c && c <= '9') || ('a' <= c && c <= 'z') || ('A' <= c && c <= 'Z')
}

/// Characters kept in an id: ASCII letters and digits, `_` and `-`; anything else becomes `_`.
pub open spec fn slug_char(c: char) -> char {
    if is_ascii_alnum(c) || c == '_' || c == '-' {
        c
    } else {
        '_'
    }
}

pub open spec fn slug(s: Seq<char>) -> Seq<char> {
    s.map_values(|c: char| slug_char(c))
}

/// Index of the first character at or after `i` that is not `_` (the length when none).
pub open spec fn first_kept(t: Seq<char>, i: int) -> int
    decreases t.len() - i,
{
    if i >= t.len() || i < 0 {
        t.len() as int
    } else if t[i] != '_' {
        i
    } else {
        first_kept(t, i + 1)
    }
}

/// One past the last character before `j` that is not `_` (zero when none).
pub open spec fn last_kept_end(t: Seq<char>, j: int) -> int
    decreases j,
{
    if j <= 0 || j > t.len() {
        0
    } else if t[j - 1] != '_' {
        j
    } else {
        last_kept_end(t, j - 1)
    }
}

/// `t` without leading and trailing underscores.
pub open spec fn trim_underscores(t: Seq<char>) -> Seq<char> {
    let a = first_kept(t, 0);
    let b = last_kept_end(t, t.len() as int);
    if a < b {
        t.subrange(a, b)
    } else {
        Seq::empty()
    }
}

/// The id derived from a level name.
pub open spec fn id_of_name(name: Seq<char>) -> Seq<char> {
    let t = trim_underscores(slug(name));
    if t.len() == 0 {
        "custom_level"@
    } else {
        t
    }
}

proof fn lemma_first_kept(t: Seq<char>, i: int)
    requires
        0 <= i <= t.len(),
    ensures
        i <= first_kept(t, i) <= t.len(),
        first_kept(t, i) < t.len() ==> t[first_kept(t, i)] != '_',
        forall|k: int| i <= k < first_kept(t, i) ==> t[k] == '_',
    decreases t.len() - i,
{
    if i < t.len() && t[i] == '_' {
        lemma_first_kept(t, i + 1);
    }
}

proof fn lemma_last_kept_end(t: Seq<char>, j: int)
    requires
        0 <= j <= t.len(),
    ensures
        0 <= last_kept_end(t, j) <= j,
        last_kept_end(t, j) > 0 ==> t[last_kept_end(t, j) - 1] != '_',
        forall|k: int| last_kept_end(t, j) <= k < j ==> t[k] == '_',
    decreases j,
{
    if j > 0 && t[j - 1] == '_' {
        lemma_last_kept_end(t, j - 1);
    }
}

/// An id for a level name: ASCII letters, digits, `_` and `-` are kept, every other character
/// becomes `_`, and leading and trailing `_` are dropped; `custom_level` when nothing is left.
pub fn id_from_name(name: &str) -> (id: String)
    ensures
        id@ == id_of_name(name@),
{
    let mut mapped: Vec<char> = Vec::new();
    for c in it: name.chars()
        invariant
            mapped@ == slug(it.seq().take(it.index() as int)),
    {
        let keep = ('0' <= c && c <= '9') || ('a' <= c && c <= 'z') || ('A' <= c && c <= 'Z') || c == '_' || c == '-';
        let ghost before = mapped@;
        mapped.push(if keep { c } else { '_' });
        proof {
            let s = it.seq().take(it.index() as int);
            assert(it.seq().take(it.index() + 1) =~= s.push(c));
            assert(mapped@ =~= slug(s.push(c)));
        }
    }
    let ghost t = slug(name@);
    let n = mapped.len();
    let mut a: usize = 0;
    while a < n && mapped[a] == '_'
        invariant
            mapped@ == t,
            n == t.len(),
            a <= n,
            first_kept(t, 0) == first_kept(t, a as int),
        decreases n - a,
    {
        a = a + 1;
    }
    let mut b: usize = n;
    while b > 0 && mapped[b - 1] == '_'
        invariant
            mapped@ == t,
            n == t.len(),
            b <= n,
            last_kept_end(t, n as int) == last_kept_end(t, b as int),
        decreases b,
    {
        b = b - 1;
    }
    if a >= b {
        return "custom_level".to_owned();
    }
    let mut out = String::new();
    let mut i: usize = a;
    while i < b
        invariant
            mapped@ == t,
            a <= i <= b <= n,
            n == t.len(),
            out@ == t.subrange(a as int, i as int),
        decreases b - i,
    {
        push_char(&mut out, mapped[i]);
        i = i + 1;
        assert(out@ =~= t.subrange(a as int, i as int));
    }
    proof {
        assert(trim_underscores(t) == t.subrange(a as int, b as int));
    }
    out
}


/// A sequence without leading or trailing underscores is its own trim.
proof fn lemma_trim_clean(r: Seq<char>)
    requires
        r.len() > 0,
        r[0] != '_',
        r[r.len() - 1] != '_',
    ensures
        trim_underscores(r) == r,
{
    assert(first_kept(r, 0) == 0);
    assert(last_kept_end(r, r.len() as int) == r.len());
    assert(r.subrange(0, r.len() as int) =~= r);
}

/// A sequence made of id characters is left alone by the character mapping.
proof fn lemma_slug_clean(r: Seq<char>)
    requires
        forall|i: int| 0 <= i < r.len() ==> slug_char(#[trigger] r[i]) == r[i],
    ensures
        slug(r) == r,
{
    assert(slug(r) =~= r);
}

/// Deriving an id from an id changes nothing.
pub proof fn law_id_from_name_idempotent(name: Seq<char>)
    ensures
        id_of_name(id_of_name(name)) == id_of_name(name),
{
    let t = slug(name);
    let a = first_kept(t, 0);
    let b = last_kept_end(t, t.len() as int);
    lemma_first_kept(t, 0);
    lemma_last_kept_end(t, t.len() as int);
    let r = id_of_name(name);
    if a < b {
        assert(r == t.subrange(a, b));
        assert forall|i: int| 0 <= i < r.len() implies slug_char(#[trigger] r[i]) == r[i] by {
            assert(r[i] == t[a + i]);
            assert(t[a + i] == slug_char(name[a + i]));
        }
        lemma_slug_clean(r);
        assert(r[0] == t[a]);
        assert(r[r.len() - 1] == t[b - 1]);
        lemma_trim_clean(r);
    } else {
        reveal_strlit("custom_level");
        assert(r == "custom_level"@);
        assert(r.len() == 12);
        assert forall|i: int| 0 <= i < r.len() implies slug_char(#[trigger] r[i]) == r[i] by {}
        lemma_slug_clean(r);
        lemma_trim_clean(r);
    }
}


/// Whether a character may stand in an id: an ASCII letter or digit, `_` or `-`.
pub open spec fn id_char(c: char) -> bool {
    is_ascii_alnum(c) || c == '_' || c == '-'
}

/// The shape of every id derived from a name: it is not empty, it is made of ASCII letters,
/// digits, `_` and `-`, and it neither starts nor ends with `_`. It is `custom_level` exactly
/// when the name holds no ASCII letter, digit or `-`; otherwise it is the mapped name without
/// its leading and trailing underscores.
pub proof fn law_id_shape(name: Seq<char>)
    ensures
        id_of_name(name).len() > 0,
        forall|i: int| 0 <= i < id_of_name(name).len() ==> id_char(#[trigger] id_of_name(name)[i]),
        id_of_name(name)[0] != '_',
        id_of_name(name)[id_of_name(name).len() - 1] != '_',
        (forall|i: int| 0 <= i < name.len() ==> !(is_ascii_alnum(#[trigger] name[i]) || name[i] == '-'))
            ==> id_of_name(name) == "custom_level"@,
        (exists|i: int| 0 <= i < name.len() && (is_ascii_alnum(#[trigger] name[i]) || name[i] == '-'))
            ==> id_of_name(name) == trim_underscores(slug(name)),
{
    let t = slug(name);
    let a = first_kept(t, 0);
    let b = last_kept_end(t, t.len() as int);
    lemma_first_kept(t, 0);
    lemma_last_kept_end(t, t.len() as int);
    let r = id_of_name(name);
    reveal_strlit("custom_level");
    if a < b {
        assert(r == t.subrange(a, b));
        assert forall|i: int| 0 <= i < r.len() implies id_char(#[trigger] r[i]) by {
            assert(r[i] == t[a + i]);
            assert(t[a + i] == slug_char(name[a + i]));
        }
        assert(r[0] == t[a]);
        assert(r[r.len() - 1] == t[b - 1]);
        assert(t[a] == slug_char(name[a]));
        assert(is_ascii_alnum(name[a]) || name[a] == '-');
    } else {
        assert(r == "custom_level"@);
        assert(r.len() == 12);
        assert forall|i: int| 0 <= i < name.len() implies !(is_ascii_alnum(#[trigger] name[i]) || name[i] == '-') by {
            assert(t[i] == slug_char(name[i]));
            if t[i] != '_' {
                assert(a <= i);
                assert(i < b);
            }
        }
    }
}

// ---- Level files ----

/// The simulator's level: its name and the file it was saved to or opened from, if any.
pub struct SimulatorLevelMeta {
    pub name: String,
    pub file_path: Option<String>,
}

impl Default for SimulatorLevelMeta {
    /// An unnamed level ("未命名关卡") that has no file yet.
    fn default() -> (r: SimulatorLevelMeta)
        ensures
            r.name@ == "未命名关卡"@,
            r.file_path is None,
    {
        SimulatorLevelMeta { name: "未命名关卡".to_owned(), file_path: None }
    }
}

/// The save dialog: whether it is open, the name and path being typed, and a level read from a
/// file that waits to be loaded into the editor. (The native file browser running in the
/// background is the application's.)
pub struct LevelFileDialogState {
    pub save_modal_open: bool,
    pub draft_name: String,
    pub draft_path: String,
    pub pending_load: Option<LevelData>,
}

impl Default for LevelFileDialogState {
    fn default() -> (r: LevelFileDialogState)
        ensures
            !r.save_modal_open,
            r.draft_name@.len() == 0,
            r.draft_path@.len() == 0,
            r.pending_load is None,
    {
        LevelFileDialogState {
            save_modal_open: false,
            draft_name: String::new(),
            draft_path: String::new(),
            pending_load: None,
        }
    }
}

/// Unicode White_Space: the characters `char::is_whitespace` accepts, which `str::trim` drops.
pub open spec fn is_white_space(c: char) -> bool {
    ||| ('\u{9}' <= c && c <= '\u{d}')
    ||| c == ' '
    ||| c == '\u{85}'
    ||| c == '\u{a0}'
    ||| c == '\u{1680}'
    ||| ('\u{2000}' <= c && c <= '\u{200a}')
    ||| c == '\u{2028}'
    ||| c == '\u{2029}'
    ||| c == '\u{202f}'
    ||| c == '\u{205f}'
    ||| c == '\u{3000}'
}

fn white_space(c: char) -> (r: bool)
    ensures
        r == is_white_space(c),
{
    ('\u{9}' <= c && c <= '\u{d}') || c == ' ' || c == '\u{85}' || c == '\u{a0}' || c == '\u{1680}'
        || ('\u{2000}' <= c && c <= '\u{200a}') || c == '\u{2028}' || c == '\u{2029}' || c == '\u{202f}'
        || c == '\u{205f}' || c == '\u{3000}'
}

/// Index of the first character at or after `i` that is not whitespace (the length when none).
pub open spec fn first_solid(t: Seq<char>, i: int) -> int
    decreases t.len() - i,
{
    if i >= t.len() || i < 0 {
        t.len() as int
    } else if !is_white_space(t[i]) {
        i
    } else {
        first_solid(t, i + 1)
    }
}

/// One past the last character before `j` that is not whitespace (zero when none).
pub open spec fn last_solid_end(t: Seq<char>, j: int) -> int
    decreases j,
{
    if j <= 0 || j > t.len() {
        0
    } else if !is_white_space(t[j - 1]) {
        j
    } else {
        last_solid_end(t, j - 1)
    }
}

/// The text without leading and trailing whitespace, as `str::trim` gives it.
pub open spec fn trimmed(s: Seq<char>) -> Seq<char> {
    let a = first_solid(s, 0);
    let b = last_solid_end(s, s.len() as int);
    if a < b {
        s.subrange(a, b)
    } else {
        Seq::empty()
    }
}

/// The text without leading and trailing whitespace.
fn trim_text(s: &str) -> (r: String)
    ensures
        r@ == trimmed(s@),
{
    let mut chars: Vec<char> = Vec::new();
    for c in it: s.chars()
        invariant
            chars@ == it.seq().take(it.index() as int),
    {
        chars.push(c);
        proof {
            assert(it.seq().take(it.index() + 1) =~= it.seq().take(it.index() as int).push(c));
        }
    }
    let ghost t = s@;
    let n = chars.len();
    let mut a: usize = 0;
    while a < n && white_space(chars[a])
        invariant
            chars@ == t,
            n == t.len(),
            a <= n,
            first_solid(t, 0) == first_solid(t, a as int),
        decreases n - a,
    {
        a = a + 1;
    }
    let mut b: usize = n;
    while b > 0 && white_space(chars[b - 1])
        invariant
            chars@ == t,
            n == t.len(),
            b <= n,
            last_solid_end(t, n as int) == last_solid_end(t, b as int),
        decreases b,
    {
        b = b - 1;
    }
    let mut out = String::new();
    if a >= b {
        return out;
    }
    let mut i: usize = a;
    while i < b
        invariant
            chars@ == t,
            a <= i <= b <= n,
            n == t.len(),
            out@ == t.subrange(a as int, i as int),
        decreases b - i,
    {
        push_char(&mut out, chars[i]);
        i = i + 1;
        assert(out@ =~= t.subrange(a as int, i as int));
    }
    out
}

/// What `Path::file_stem` gives for a path, as text. Which characters separate components is
/// fixed by the platform the program is built for, so for a given build the stem is a function
/// of the path alone.
pub uninterp spec fn path_file_stem(path: Seq<char>) -> Option<Seq<char>>;

/// `Path::file_stem` of a path, as text; its result is named `path_file_stem`.
#[verifier::external_body]
fn file_stem(path: &str) -> (r: Option<String>)
    ensures
        r is Some == path_file_stem(path@) is Some,
        r matches Some(s) ==> path_file_stem(path@) == Some(s@),
{
    match std::path::Path::new(path).file_stem() {
        Some(stem) => match stem.to_str() {
            Some(t) => Some(t.to_string()),
            None => None,
        },
        None => None,
    }
}

/// What `Path::extension` gives for a path, as text (the platform's path syntax, fixed for a
/// build).
pub uninterp spec fn path_extension(path: Seq<char>) -> Option<Seq<char>>;

/// `Path::extension` of a path, as text; its result is named `path_extension`.
#[verifier::external_body]
fn file_extension(path: &str) -> (r: Option<String>)
    ensures
        r is Some == path_extension(path@) is Some,
        r matches Some(e) ==> path_extension(path@) == Some(e@),
{
    match std::path::Path::new(path).extension() {
        Some(ext) => match ext.to_str() {
            Some(t) => Some(t.to_string()),
            None => None,
        },
        None => None,
    }
}

/// What `Path::with_json_extension(path)` gives: the path with its extension set to `json`,
/// as text (the platform's path syntax, fixed for a build).
pub uninterp spec fn path_with_json_extension(path: Seq<char>) -> Seq<char>;

/// `Path::with_extension` with the extension `json`, as text; its result is named
/// `path_with_json_extension`. (The extension is fixed: std panics on an extension holding a
/// path separator, and `json` holds none.)
#[verifier::external_body]
fn with_json_extension(path: &str) -> (r: String)
    ensures
        r@ == path_with_json_extension(path@),
{
    std::path::Path::new(path).with_extension("json").display().to_string()
}

/// What `Path::join` gives: `file` inside directory `dir`, as text (the platform's path syntax,
/// fixed for a build).
pub uninterp spec fn path_join(dir: Seq<char>, file: Seq<char>) -> Seq<char>;

/// `Path::join`, as text; its result is named `path_join`.
#[verifier::external_body]
fn join_path(dir: &str, file: &str) -> (r: String)
    ensures
        r@ == path_join(dir@, file@),
{
    std::path::Path::new(dir).join(file).display().to_string()
}

/// The id for a file stem: the id of the stem's text (see `id_from_name`), or `custom_level`
/// without a stem.
pub fn id_from_stem(stem: &Option<String>) -> (id: String)
    ensures
        id@ == match stem {
            Some(s) => id_of_name(s@),
            None => "custom_level"@,
        },
{
    match stem {
        Some(s) => id_from_name(s.as_str()),
        None => "custom_level".to_owned(),
    }
}

/// The id for a level file: derived from the file's stem (see `id_from_stem`).
pub fn id_from_path(path: &str) -> (id: String)
    ensures
        id@ == match path_file_stem(path@) {
            Some(s) => id_of_name(s),
            None => "custom_level"@,
        },
{
    let stem = file_stem(path);
    id_from_stem(&stem)
}

/// The path a level is written to: the path itself when its extension is `json`, otherwise the
/// path with its extension set to `json`.
pub open spec fn json_path(path: Seq<char>) -> Seq<char> {
    if path_extension(path) == Some("json"@) {
        path
    } else {
        path_with_json_extension(path)
    }
}

/// The path to write a level to (see `json_path`; extensions as the platform reads them).
pub fn ensure_json_extension(path: &str) -> (r: String)
    ensures
        r@ == json_path(path@),
{
    let ext = file_extension(path);
    match ext {
        Some(e) => {
            if same_text(e.as_str(), "json") {
                path.to_owned()
            } else {
                with_json_extension(path)
            }
        },
        None => with_json_extension(path),
    }
}

/// The default file name for a level name: its id with the `.json` extension.
pub fn default_save_filename(name: &str) -> (r: String)
    ensures
        r@ == id_of_name(name@) + ".json"@,
{
    let id = id_from_name(name);
    concat_text(id.as_str(), ".json")
}

/// Opens the save dialog for the simulator's level: the name is the level's, the path the
/// level's file or, without one, its default file name in `levels_dir`.
pub fn open_save_modal(dialog_state: &mut LevelFileDialogState, meta: &SimulatorLevelMeta, levels_dir: &str)
    ensures
        final(dialog_state).save_modal_open,
        final(dialog_state).draft_name@ == meta.name@,
        final(dialog_state).draft_path@ == match meta.file_path {
            Some(p) => p@,
            None => path_join(levels_dir@, id_of_name(meta.name@) + ".json"@),
        },
        final(dialog_state).pending_load == old(dialog_state).pending_load,
{
    dialog_state.draft_name = meta.name.clone();
    dialog_state.draft_path = match &meta.file_path {
        Some(p) => p.clone(),
        None => {
            let file = default_save_filename(meta.name.as_str());
            join_path(levels_dir, file.as_str())
        },
    };
    dialog_state.save_modal_open = true;
}


/// The level to save under `name` to a file whose stem is `stem`: its id is derived from the
/// stem, or from the name when the path has no stem.
pub fn level_to_save(
    stem: &Option<String>,
    name: &str,
    grid: &Grid,
    zone: &DeploymentZoneData,
    deploy_config: &SimulatorDeployConfig,
) -> (data: LevelData)
    requires
        grid.wf(),
    ensures
        saved_level(data, *grid, zone.zone@, *deploy_config, match stem {
            Some(s) => id_of_name(s@),
            None => id_of_name(name@),
        }, name@),
{
    let id = match stem {
        Some(s) => id_from_name(s.as_str()),
        None => id_from_name(name),
    };
    build_level_data(grid, zone.zone.as_slice(), deploy_config, id.as_str(), name)
}

/// Saving from the dialog: the name typed, without surrounding whitespace, must not be empty
/// ("请填写关卡名称" otherwise). The level is saved under that name (see `level_to_save`) to the
/// path typed, with the `json` extension (see `ensure_json_extension`). Returns the path and
/// the level; writing the file is left to the caller.
pub fn commit_save(
    dialog_state: &LevelFileDialogState,
    grid: &Grid,
    zone: &DeploymentZoneData,
    deploy_config: &SimulatorDeployConfig,
) -> (r: Result<(String, LevelData), String>)
    requires
        grid.wf(),
    ensures
        r is Err == (trimmed(dialog_state.draft_name@).len() == 0),
        r matches Err(m) ==> m@ == "请填写关卡名称"@,
        r matches Ok((p, data)) ==> {
            &&& p@ == json_path(dialog_state.draft_path@)
            &&& saved_level(data, *grid, zone.zone@, *deploy_config, match path_file_stem(
                json_path(dialog_state.draft_path@),
            ) {
                Some(s) => id_of_name(s),
                None => id_of_name(trimmed(dialog_state.draft_name@)),
            }, trimmed(dialog_state.draft_name@))
        },
{
    let path = ensure_json_extension(dialog_state.draft_path.as_str());
    let name = trim_text(dialog_state.draft_name.as_str());
    if name.as_str().is_empty() {
        return Err("请填写关卡名称".to_owned());
    }
    let stem = file_stem(path.as_str());
    let data = level_to_save(&stem, name.as_str(), grid, zone, deploy_config);
    Ok((path, data))
}

/// Takes a path chosen in the file browser into the save dialog: `path` becomes the path typed,
/// and `stem`, the path's file stem, becomes the name typed when there is a nonempty one.
pub fn take_browsed_path(dialog_state: &mut LevelFileDialogState, path: String, stem: Option<String>)
    ensures
        final(dialog_state).draft_path@ == path@,
        final(dialog_state).draft_name@ == match stem {
            Some(s) => if s@.len() > 0 {
                s@
            } else {
                old(dialog_state).draft_name@
            },
            None => old(dialog_state).draft_name@,
        },
        final(dialog_state).save_modal_open == old(dialog_state).save_modal_open,
        final(dialog_state).pending_load == old(dialog_state).pending_load,
{
    dialog_state.draft_path = path;
    if let Some(s) = stem {
        if !s.as_str().is_empty() {
            dialog_state.draft_name = s;
        }
    }
}

/// After the file browser chose where to save: the path, with the `json` extension (see
/// `json_path`), becomes the path typed, and its file stem, when there is a nonempty one, the
/// name typed (see `take_browsed_path`).
pub fn apply_save_browse(dialog_state: &mut LevelFileDialogState, chosen: &str)
    ensures
        final(dialog_state).draft_path@ == json_path(chosen@),
        final(dialog_state).draft_name@ == match path_file_stem(json_path(chosen@)) {
            Some(s) => if s.len() > 0 {
                s
            } else {
                old(dialog_state).draft_name@
            },
            None => old(dialog_state).draft_name@,
        },
        final(dialog_state).save_modal_open == old(dialog_state).save_modal_open,
        final(dialog_state).pending_load == old(dialog_state).pending_load,
{
    let path = ensure_json_extension(chosen);
    let stem = file_stem(path.as_str());
    take_browsed_path(dialog_state, path, stem);
}

/// After a level file was chosen to open and read (`read`, the level or the reason it could not
/// be read): a level read becomes the simulator's level, named after it and tied to `path`, and
/// waits to be loaded into the editor, with the message "已打开: " and the path; otherwise the
/// reason is the message.
pub fn apply_opened_level(
    dialog_state: &mut LevelFileDialogState,
    meta: &mut SimulatorLevelMeta,
    message: &mut DialogMessage,
    path: &str,
    read: Result<LevelData, String>,
)
    ensures
        match read {
            Ok(data) => {
                &&& final(meta).name@ == data.name@
                &&& final(meta).file_path matches Some(p) && p@ == path@
                &&& final(dialog_state).pending_load == Some(data)
                &&& final(message).0 matches Some(m) && m@ == "已打开: "@ + path@
            },
            Err(e) => {
                &&& *final(meta) == *old(meta)
                &&& final(dialog_state).pending_load == old(dialog_state).pending_load
                &&& final(message).0 == Some(e)
            },
        },
        final(dialog_state).save_modal_open == old(dialog_state).save_modal_open,
        final(dialog_state).draft_name == old(dialog_state).draft_name,
        final(dialog_state).draft_path == old(dialog_state).draft_path,
{
    match read {
        Ok(data) => {
            meta.name = data.name.clone();
            meta.file_path = Some(path.to_owned());
            dialog_state.pending_load = Some(data);
            message.0 = Some(concat_text("已打开: ", path));
        },
        Err(e) => {
            message.0 = Some(e);
        },
    }
}

/// After a save was attempted (`saved`, the path and level written, or the reason it failed):
/// a saved level names the simulator's level and ties it to the path, the message is "已保存: "
/// and the path, and the dialog closes; otherwise the reason is the message and the dialog
/// stays open.
pub fn finish_save(
    dialog_state: &mut LevelFileDialogState,
    meta: &mut SimulatorLevelMeta,
    message: &mut DialogMessage,
    saved: Result<(String, LevelData), String>,
)
    ensures
        match saved {
            Ok((p, data)) => {
                &&& final(meta).name@ == data.name@
                &&& final(meta).file_path matches Some(q) && q@ == p@
                &&& final(message).0 matches Some(m) && m@ == "已保存: "@ + p@
                &&& !final(dialog_state).save_modal_open
            },
            Err(e) => {
                &&& *final(meta) == *old(meta)
                &&& final(message).0 == Some(e)
                &&& final(dialog_state).save_modal_open == old(dialog_state).save_modal_open
            },
        },
        final(dialog_state).draft_name == old(dialog_state).draft_name,
        final(dialog_state).draft_path == old(dialog_state).draft_path,
        final(dialog_state).pending_load == old(dialog_state).pending_load,
{
    match saved {
        Ok((p, data)) => {
            meta.name = data.name.clone();
            message.0 = Some(concat_text("已保存: ", p.as_str()));
            meta.file_path = Some(p);
            dialog_state.save_modal_open = false;
        },
        Err(e) => {
            message.0 = Some(e);
        },
    }
}

/// Loads the level waiting in the dialog, if any, into the editor: its name becomes the
/// simulator level's, its grid, unit counts and zone the edited ones, and its steps per
/// deployment the evolution's. Without a waiting level nothing changes.
pub fn apply_pending_level_load(
    dialog_state: &mut LevelFileDialogState,
    grid: &mut Grid,
    deploy_config: &mut SimulatorDeployConfig,
    zone_data: &mut DeploymentZoneData,
    meta: &mut SimulatorLevelMeta,
    evo_config: &mut EvolutionConfig,
)
    requires
        old(grid).wf(),
    ensures
        final(grid).wf(),
        final(dialog_state).pending_load is None,
        final(dialog_state).save_modal_open == old(dialog_state).save_modal_open,
        final(dialog_state).draft_name == old(dialog_state).draft_name,
        final(dialog_state).draft_path == old(dialog_state).draft_path,
        final(meta).file_path == old(meta).file_path,
        final(evo_config).current_step == old(evo_config).current_step,
        final(evo_config).is_paused == old(evo_config).is_paused,
        match old(dialog_state).pending_load {
            Some(data) => {
                &&& final(meta).name@ == data.name@
                &&& final(grid)@ == level_board(data)
                &&& final(deploy_config).max_gliders == data.max_gliders
                &&& final(deploy_config).max_lwss == data.max_lwss
                &&& final(zone_data).zone@ == data.deployment_zone@
                &&& final(evo_config).steps_per_deployment == data.evolution_steps
            },
            None => {
                &&& *final(grid) == *old(grid)
                &&& *final(deploy_config) == *old(deploy_config)
                &&& final(zone_data).zone@ == old(zone_data).zone@
                &&& *final(meta) == *old(meta)
                &&& *final(evo_config) == *old(evo_config)
            },
        },
{
    let data = match dialog_state.pending_load.take() {
        Some(d) => d,
        None => return,
    };
    meta.name = data.name.clone();
    load_level_to_grid(grid, &data);
    deploy_config.max_gliders = data.max_gliders;
    deploy_config.max_lwss = data.max_lwss;
    zone_data.zone = copy_coords(data.deployment_zone.as_slice());
    evo_config.steps_per_deployment = data.evolution_steps;
}

} // verus!
