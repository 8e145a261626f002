use vstd::prelude::*;

use crate::grid::board::Grid;
use crate::grid::types::GridCoord;
use crate::level::data::SaveData;
use crate::level::loader::LevelRegistry;
use crate::state::config::{CurrentLevelId, DeploymentZoneData, SimulatorSnapshot, copy_coords};

verus! {

/// The characters of each string.
pub open spec fn views(ss: Seq<String>) -> Seq<Seq<char>> {
    ss.map_values(|s: String| s@)
}

/// Index of the first string equal to `id`, at or after `i`.
pub open spec fn first_pos_from(ids: Seq<Seq<char>>, id: Seq<char>, i: int) -> Option<int>
    decreases ids.len() - i,
{
    if i >= ids.len() || i < 0 {
        None
    } else if ids[i] == id {
        Some(i)
    } else {
        first_pos_from(ids, id, i + 1)
    }
}

/// Index of the first string equal to `id`.
pub open spec fn first_pos(ids: Seq<Seq<char>>, id: Seq<char>) -> Option<int> {
    first_pos_from(ids, id, 0)
}

/// `list` with `id` appended, unless it already holds it.
pub open spec fn with_id(list: Seq<Seq<char>>, id: Seq<char>) -> Seq<Seq<char>> {
    if list.contains(id) {
        list
    } else {
        list.push(id)
    }
}

/// The level after `id` in the order, when `id` is in the order and not last.
pub open spec fn next_level_id(ids: Seq<Seq<char>>, id: Seq<char>) -> Option<Seq<char>> {
    match first_pos(ids, id) {
        Some(k) => if k + 1 < ids.len() {
            Some(ids[k + 1])
        } else {
            None
        },
        None => None,
    }
}

/// Completed and unlocked lists after completing level `id`: `id` is completed and the
/// level after it, if any, unlocked.
pub open spec fn progress_after(
    completed: Seq<Seq<char>>,
    unlocked: Seq<Seq<char>>,
    ids: Seq<Seq<char>>,
    id: Seq<char>,
) -> (Seq<Seq<char>>, Seq<Seq<char>>) {
    (
        with_id(completed, id),
        match next_level_id(ids, id) {
            Some(next) => with_id(unlocked, next),
            None => unlocked,
        },
    )
}

pub(crate) proof fn lemma_first_pos_from(ids: Seq<Seq<char>>, id: Seq<char>, i: int)
    requires
        0 <= i,
    ensures
        first_pos_from(ids, id, i) matches Some(k) ==> i <= k < ids.len() && ids[k] == id
            && forall|j: int| i <= j < k ==> ids[j] != id,
        first_pos_from(ids, id, i) is None ==> forall|j: int| i <= j < ids.len() ==> ids[j] != id,
    decreases ids.len() - i,
{
    if i < ids.len() && ids[i] != id {
        lemma_first_pos_from(ids, id, i + 1);
    }
}

/// Whether `list` holds a string equal to `id`.
pub(crate) fn holds(list: &Vec<String>, id: &String) -> (r: bool)
    ensures
        r == views(list@).contains(id@),
{
    let mut i: usize = 0;
    while i < list.len()
        invariant
            i <= list@.len(),
            forall|j: int| 0 <= j < i ==> list@[j]@ != id@,
        decreases list@.len() - i,
    {
        if list[i] == *id {
            assert(views(list@)[i as int] == id@);
            return true;
        }
        i = i + 1;
    }
    proof {
        if views(list@).contains(id@) {
            let j = choose|j: int| 0 <= j < views(list@).len() && views(list@)[j] == id@;
            assert(list@[j]@ == id@);
        }
    }
    false
}

/// Index of the first string equal to `id`.
pub(crate) fn position_of(list: &Vec<String>, id: &String) -> (r: Option<usize>)
    ensures
        match first_pos(views(list@), id@) {
            Some(k) => r matches Some(i) && i == k,
            None => r is None,
        },
{
    let ghost ids = views(list@);
    let mut i: usize = 0;
    while i < list.len()
        invariant
            ids == views(list@),
            i <= list@.len(),
            first_pos(ids, id@) == first_pos_from(ids, id@, i as int),
        decreases list@.len() - i,
    {
        if list[i] == *id {
            return Some(i);
        }
        i = i + 1;
    }
    None
}

/// Appends `id` unless the list already holds it.
fn add_once(list: &mut Vec<String>, id: &String)
    ensures
        views(final(list)@) == with_id(views(old(list)@), id@),
{
    if !holds(list, id) {
        let ghost before = list@;
        list.push(id.clone());
        proof {
            assert(views(list@) =~= views(before).push(id@));
        }
    }
}

/// Records the completion of the current level: it is marked completed and the level after it
/// in the registry's order is unlocked. Returns whether there is a next level. Without a
/// current level nothing changes and the result is `false`. Writing the progress to disk is
/// left to the caller.
pub fn save_level_progress(
    current_level_id: &CurrentLevelId,
    save_data: &mut SaveData,
    registry: &LevelRegistry,
) -> (has_next: bool)
    ensures
        final(save_data).version == old(save_data).version,
        match current_level_id.0 {
            None => !has_next && views(final(save_data).completed_levels@) == views(old(save_data).completed_levels@)
                && views(final(save_data).unlocked_levels@) == views(old(save_data).unlocked_levels@),
            Some(id) => {
                &&& has_next == next_level_id(views(registry.ordered_ids@), id@) is Some
                &&& (views(final(save_data).completed_levels@), views(final(save_data).unlocked_levels@))
                    == progress_after(views(old(save_data).completed_levels@), views(old(save_data).unlocked_levels@),
                        views(registry.ordered_ids@), id@)
            },
        },
{
    let id = match &current_level_id.0 {
        Some(id) => id,
        None => return false,
    };
    add_once(&mut save_data.completed_levels, id);
    let ghost ids = views(registry.ordered_ids@);
    proof {
        lemma_first_pos_from(ids, id@, 0);
    }
    match position_of(&registry.ordered_ids, id) {
        Some(idx) => {
            assert(ids.len() == registry.ordered_ids@.len());
            assert(first_pos(ids, id@) is Some);
            assert(idx < ids.len());
            let n = registry.ordered_ids.len();
            if idx + 1 < n {
                let next_id = &registry.ordered_ids[idx + 1];
                assert(ids[idx + 1] == next_id@);
                add_once(&mut save_data.unlocked_levels, next_id);
                true
            } else {
                false
            }
        },
        None => false,
    }
}

/// Completing the same level twice records nothing more than completing it once.
pub proof fn law_completion_idempotent(
    completed: Seq<Seq<char>>,
    unlocked: Seq<Seq<char>>,
    ids: Seq<Seq<char>>,
    id: Seq<char>,
)
    ensures
        ({
            let once = progress_after(completed, unlocked, ids, id);
            progress_after(once.0, once.1, ids, id) == once
        }),
        progress_after(completed, unlocked, ids, id).0.contains(id),
{
    let once = progress_after(completed, unlocked, ids, id);
    if !completed.contains(id) {
        assert(completed.push(id)[completed.len() as int] == id);
    }
    assert(once.0.contains(id));
    match next_level_id(ids, id) {
        Some(next) => {
            if !unlocked.contains(next) {
                assert(unlocked.push(next)[unlocked.len() as int] == next);
            }
            assert(once.1.contains(next));
        },
        None => {},
    }
}

/// Progress is never lost: completing a level keeps every level completed or unlocked before.
pub proof fn law_progress_kept(
    completed: Seq<Seq<char>>,
    unlocked: Seq<Seq<char>>,
    ids: Seq<Seq<char>>,
    id: Seq<char>,
)
    ensures
        ({
            let after = progress_after(completed, unlocked, ids, id);
            &&& forall|c: Seq<char>| completed.contains(c) ==> #[trigger] after.0.contains(c)
            &&& forall|u: Seq<char>| unlocked.contains(u) ==> #[trigger] after.1.contains(u)
        }),
{
    let after = progress_after(completed, unlocked, ids, id);
    assert forall|c: Seq<char>| completed.contains(c) implies #[trigger] after.0.contains(c) by {
        let i = choose|i: int| 0 <= i < completed.len() && completed[i] == c;
        if !completed.contains(id) {
            assert(completed.push(id)[i] == c);
        }
    }
    assert forall|u: Seq<char>| unlocked.contains(u) implies #[trigger] after.1.contains(u) by {
        let i = choose|i: int| 0 <= i < unlocked.len() && unlocked[i] == u;
        match next_level_id(ids, id) {
            Some(next) => {
                if !unlocked.contains(next) {
                    assert(unlocked.push(next)[i] == u);
                }
            },
            None => {},
        }
    }
}

/// A victory waiting for the effects to finish before it is shown.
pub struct PendingVictory {
    pub kind: Option<PendingVictoryKind>,
    /// Whether the settle delay is running.
    pub settling: bool,
}

#[derive(Clone, Copy, PartialEq, Eq, Debug, Structural)]
pub enum PendingVictoryKind {
    Level,
    Trial,
}

impl Default for PendingVictory {
    fn default() -> (r: PendingVictory)
        ensures
            r.kind is None,
            !r.settling,
    {
        PendingVictory { kind: None, settling: false }
    }
}

impl PendingVictory {
    pub fn is_pending(&self) -> (r: bool)
        ensures
            r == self.kind is Some,
    {
        self.kind.is_some()
    }

    /// Waits for the settle delay before showing a victory of this kind.
    pub fn schedule(&mut self, kind: PendingVictoryKind)
        ensures
            final(self).kind == Some(kind),
            final(self).settling,
    {
        self.kind = Some(kind);
        self.settling = true;
    }

    pub fn clear(&mut self)
        ensures
            final(self).kind is None,
            !final(self).settling,
    {
        self.kind = None;
        self.settling = false;
    }
}

/// The victory overlay (a level or a simulator trial).
pub struct GameplayVictoryOverlay {
    pub kind: Option<VictoryKind>,
}

#[derive(Clone, Copy, PartialEq, Eq, Debug, Structural)]
pub enum VictoryKind {
    Level { has_next_level: bool },
    Trial,
}

impl Default for GameplayVictoryOverlay {
    fn default() -> (r: GameplayVictoryOverlay)
        ensures
            r.kind is None,
    {
        GameplayVictoryOverlay { kind: None }
    }
}

impl GameplayVictoryOverlay {
    pub fn is_active(&self) -> (r: bool)
        ensures
            r == self.kind is Some,
    {
        self.kind.is_some()
    }

    pub fn clear(&mut self)
        ensures
            final(self).kind is None,
    {
        self.kind = None;
    }
}

/// What showing a level victory does: the completion of the current level is recorded
/// (see `progress_after`; nothing without a current level), and the overlay shows a level
/// victory that offers the next level when there is one.
pub open spec fn level_victory_shown(
    current: Option<String>,
    ids: Seq<String>,
    before: SaveData,
    after: SaveData,
    kind: Option<VictoryKind>,
) -> bool {
    &&& after.version == before.version
    &&& match current {
        None => kind == Some(VictoryKind::Level { has_next_level: false })
            && views(after.completed_levels@) == views(before.completed_levels@)
            && views(after.unlocked_levels@) == views(before.unlocked_levels@),
        Some(id) => {
            &&& kind == Some(VictoryKind::Level { has_next_level: next_level_id(views(ids), id@) is Some })
            &&& (views(after.completed_levels@), views(after.unlocked_levels@))
                == progress_after(views(before.completed_levels@), views(before.unlocked_levels@), views(ids), id@)
        },
    }
}

/// Shows a level victory after recording the level's completion (see `save_level_progress`).
pub fn trigger_level_victory(
    overlay: &mut GameplayVictoryOverlay,
    current_level_id: &CurrentLevelId,
    save_data: &mut SaveData,
    registry: &LevelRegistry,
)
    ensures
        level_victory_shown(current_level_id.0, registry.ordered_ids@, *old(save_data), *final(save_data),
            final(overlay).kind),
{
    let has_next = save_level_progress(current_level_id, save_data, registry);
    overlay.kind = Some(VictoryKind::Level { has_next_level: has_next });
}

/// Shows a simulator trial victory.
pub fn trigger_trial_victory(overlay: &mut GameplayVictoryOverlay)
    ensures
        final(overlay).kind == Some(VictoryKind::Trial),
{
    overlay.kind = Some(VictoryKind::Trial);
}

/// The defeat overlay (a level or a simulator trial).
pub struct GameplayDefeatOverlay {
    pub kind: Option<DefeatKind>,
}

#[derive(Clone, Copy, PartialEq, Eq, Debug, Structural)]
pub enum DefeatKind {
    Level,
    Trial,
}

impl Default for GameplayDefeatOverlay {
    fn default() -> (r: GameplayDefeatOverlay)
        ensures
            r.kind is None,
    {
        GameplayDefeatOverlay { kind: None }
    }
}

impl GameplayDefeatOverlay {
    pub fn is_active(&self) -> (r: bool)
        ensures
            r == self.kind is Some,
    {
        self.kind.is_some()
    }

    pub fn clear(&mut self)
        ensures
            final(self).kind is None,
    {
        self.kind = None;
    }
}

pub fn trigger_level_defeat(overlay: &mut GameplayDefeatOverlay)
    ensures
        final(overlay).kind == Some(DefeatKind::Level),
{
    overlay.kind = Some(DefeatKind::Level);
}

pub fn trigger_trial_defeat(overlay: &mut GameplayDefeatOverlay)
    ensures
        final(overlay).kind == Some(DefeatKind::Trial),
{
    overlay.kind = Some(DefeatKind::Trial);
}

/// Whether a victory or a defeat overlay is showing (and so blocks input).
pub fn any_gameplay_overlay_active(victory: &GameplayVictoryOverlay, defeat: &GameplayDefeatOverlay) -> (r: bool)
    ensures
        r == (victory.kind is Some || defeat.kind is Some),
{
    victory.is_active() || defeat.is_active()
}

/// The victory and defeat overlays, read together.
pub struct GameplayOverlayState<'a> {
    pub victory: &'a GameplayVictoryOverlay,
    pub defeat: &'a GameplayDefeatOverlay,
}

impl<'a> GameplayOverlayState<'a> {
    /// Whether an overlay shows, which blocks input to the game below it.
    pub fn blocks_input(&self) -> (r: bool)
        ensures
            r == (self.victory.kind is Some || self.defeat.kind is Some),
    {
        any_gameplay_overlay_active(self.victory, self.defeat)
    }
}

/// Ends a pending victory once its settle delay has `finished`: shows the victory of the
/// pending kind. A pending victory without a running delay is dropped. Returns whether a
/// level's completion was recorded (so that the caller writes the progress).
pub fn settle_pending_victory(
    pending: &mut PendingVictory,
    finished: bool,
    overlay: &mut GameplayVictoryOverlay,
    current_level_id: &CurrentLevelId,
    save_data: &mut SaveData,
    registry: &LevelRegistry,
) -> (recorded: bool)
    ensures
        old(pending).kind is None ==> *final(pending) == *old(pending) && !recorded
            && final(overlay).kind == old(overlay).kind && *final(save_data) == *old(save_data),
        old(pending).kind is Some && !old(pending).settling ==> final(pending).kind is None && !final(pending).settling
            && !recorded && final(overlay).kind == old(overlay).kind && *final(save_data) == *old(save_data),
        old(pending).kind is Some && old(pending).settling && !finished ==> *final(pending) == *old(pending)
            && !recorded && final(overlay).kind == old(overlay).kind && *final(save_data) == *old(save_data),
        old(pending).kind is Some && old(pending).settling && finished ==> {
            &&& final(pending).kind is None
            &&& !final(pending).settling
            &&& recorded == (old(pending).kind == Some(PendingVictoryKind::Level))
            &&& old(pending).kind == Some(PendingVictoryKind::Trial) ==> final(overlay).kind == Some(VictoryKind::Trial)
                && *final(save_data) == *old(save_data)
            &&& old(pending).kind == Some(PendingVictoryKind::Level) ==> level_victory_shown(current_level_id.0,
                registry.ordered_ids@, *old(save_data), *final(save_data), final(overlay).kind)
        },
{
    if pending.kind.is_none() {
        return false;
    }
    if !pending.settling {
        pending.clear();
        return false;
    }
    if !finished {
        return false;
    }
    let kind = pending.kind;
    pending.kind = None;
    pending.settling = false;
    match kind {
        Some(PendingVictoryKind::Level) => {
            trigger_level_victory(overlay, current_level_id, save_data, registry);
            true
        },
        Some(PendingVictoryKind::Trial) => {
            trigger_trial_victory(overlay);
            false
        },
        None => false,
    }
}

/// After the last high-value target fell: when this step destroyed some, the victory waits
/// for their effects (it becomes pending); otherwise it is shown at once.
pub fn resolve_high_value_victory(
    destroyed_high_values: &[GridCoord],
    pending: &mut PendingVictory,
    overlay: &mut GameplayVictoryOverlay,
    kind: PendingVictoryKind,
    current_level_id: &CurrentLevelId,
    save_data: &mut SaveData,
    registry: &LevelRegistry,
)
    ensures
        destroyed_high_values@.len() > 0 ==> final(pending).kind == Some(kind) && final(pending).settling
            && final(overlay).kind == old(overlay).kind && *final(save_data) == *old(save_data),
        destroyed_high_values@.len() == 0 ==> *final(pending) == *old(pending),
        destroyed_high_values@.len() == 0 && kind == PendingVictoryKind::Trial ==> final(overlay).kind == Some(VictoryKind::Trial)
            && *final(save_data) == *old(save_data),
        destroyed_high_values@.len() == 0 && kind == PendingVictoryKind::Level ==> level_victory_shown(
            current_level_id.0, registry.ordered_ids@, *old(save_data), *final(save_data), final(overlay).kind),
{
    if destroyed_high_values.len() == 0 {
        match kind {
            PendingVictoryKind::Level => {
                trigger_level_victory(overlay, current_level_id, save_data, registry);
            },
            PendingVictoryKind::Trial => {
                trigger_trial_victory(overlay);
            },
        }
    } else {
        pending.schedule(kind);
    }
}

/// Restores the grid and the deployment zone saved when the trial started, keeping the
/// snapshot for another restart. Returns `false`, changing nothing, when there is none.
pub fn apply_trial_snapshot(snapshot: &SimulatorSnapshot, grid: &mut Grid, zone_data: &mut DeploymentZoneData) -> (r: bool)
    ensures
        r == snapshot.grid is Some,
        !r ==> *final(grid) == *old(grid) && final(zone_data).zone@ == old(zone_data).zone@,
        r ==> final(grid)@ == snapshot.grid->0@,
        r ==> final(zone_data).zone@ == match snapshot.zone {
            Some(z) => z@,
            None => old(zone_data).zone@,
        },
{
    let saved_grid = match &snapshot.grid {
        Some(g) => g,
        None => return false,
    };
    grid.restore(saved_grid);
    if let Some(zone) = &snapshot.zone {
        zone_data.zone = copy_coords(zone.as_slice());
    }
    true
}

} // verus!
