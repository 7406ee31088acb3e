//! Virtual-desktop topology: designating the primary display and moving one
//! display without changing its mode.
//!
//! The operating-system convention is that the primary display's origin is
//! the global origin: making a display primary re-bases the whole topology by
//! subtracting that display's current offset from every source-mode position.
//! A move rewrites only the position sub-field of the display's current mode.

use vstd::prelude::*;

use crate::display::DisplayInfo;
use crate::display::MonitorReport;
use crate::display::find_properties;
use crate::display::primary_flag;
use crate::display::reports_wf;
use crate::errors::DisplayError;
use crate::errors::OsCall;

verus! {

/// What making a display primary requires of the topology: nothing when it
/// already is primary, otherwise a re-base of every source mode by the
/// display's current offset.
#[derive(Debug, Clone, Copy, PartialEq, Eq, Structural)]
pub enum PrimaryPlan {
    AlreadyPrimary,
    Rebase { offset_x: i32, offset_y: i32 },
}

/// Plan `setPrimary` for the display at `index`. An already-primary display
/// needs no topology mutation at all; any other display is re-based by its
/// current virtual-desktop offset.
pub fn set_primary_display(reports: &Vec<MonitorReport>, index: u32) -> (res: Result<
    PrimaryPlan,
    DisplayError,
>)
    requires
        reports@.len() <= u32::MAX,
        reports_wf(reports@),
    ensures
        match res {
            Ok(plan) => {
                &&& index < reports@.len()
                &&& primary_flag(reports@[index as int].flags) ==> plan == PrimaryPlan::AlreadyPrimary
                &&& !primary_flag(reports@[index as int].flags) ==> plan == PrimaryPlan::Rebase {
                    offset_x: reports@[index as int].rect.left,
                    offset_y: reports@[index as int].rect.top,
                }
            },
            Err(e) => index >= reports@.len() && e == DisplayError::NotFound { index },
        },
{
    match find_properties(reports, index) {
        Ok(d) => {
            if d.is_primary {
                Ok(PrimaryPlan::AlreadyPrimary)
            } else {
                Ok(PrimaryPlan::Rebase { offset_x: d.position.left, offset_y: d.position.top })
            }
        },
        Err(e) => Err(e),
    }
}

/// One topology mode descriptor, as far as the re-base reads it: whether it
/// is a source-mode entry, and its position in the virtual desktop.
#[derive(Debug, Clone, Copy, PartialEq, Eq, Structural)]
pub struct SourceMode {
    pub is_source: bool,
    pub x: i32,
    pub y: i32,
}

/// Every source-mode position, shifted by the offset, still fits an `i32`.
pub open spec fn rebase_fits(modes: Seq<SourceMode>, off_x: i32, off_y: i32) -> bool {
    forall|i: int|
        0 <= i < modes.len() && (#[trigger] modes[i]).is_source ==> {
            &&& i32::MIN <= modes[i].x - off_x <= i32::MAX
            &&& i32::MIN <= modes[i].y - off_y <= i32::MAX
        }
}

/// `after` is `before` with every source mode shifted by `(-off_x, -off_y)`
/// and every other descriptor untouched.
pub open spec fn rebased(before: Seq<SourceMode>, after: Seq<SourceMode>, off_x: i32, off_y: i32) -> bool {
    &&& after.len() == before.len()
    &&& forall|i: int|
        0 <= i < before.len() ==> {
            &&& (#[trigger] after[i]).is_source == before[i].is_source
            &&& before[i].is_source ==> after[i].x == before[i].x - off_x && after[i].y == before[i].y
                - off_y
            &&& !before[i].is_source ==> after[i] == before[i]
        }
}

/// Re-base the queried topology so that the display whose offset is
/// `(off_x, off_y)` becomes the global origin: subtract the offset from every
/// source mode's position, leaving all other descriptors as queried.
pub fn rebase_modes(modes: &mut Vec<SourceMode>, off_x: i32, off_y: i32)
    requires
        rebase_fits(old(modes)@, off_x, off_y),
    ensures
        rebased(old(modes)@, final(modes)@, off_x, off_y),
{
    let n = modes.len();
    let mut k: usize = 0;
    while k < n
        invariant
            k <= n,
            n == modes@.len(),
            modes@.len() == old(modes)@.len(),
            rebase_fits(old(modes)@, off_x, off_y),
            forall|i: int| k <= i < modes@.len() ==> modes@[i] == old(modes)@[i],
            forall|i: int|
                0 <= i < k ==> {
                    &&& (#[trigger] modes@[i]).is_source == old(modes)@[i].is_source
                    &&& old(modes)@[i].is_source ==> modes@[i].x == old(modes)@[i].x - off_x
                        && modes@[i].y == old(modes)@[i].y - off_y
                    &&& !old(modes)@[i].is_source ==> modes@[i] == old(modes)@[i]
                },
        decreases n - k,
    {
        let m = modes[k];
        if m.is_source {
            modes.set(k, SourceMode { is_source: true, x: m.x - off_x, y: m.y - off_y });
        }
        k = k + 1;
    }
}

/// Law: re-basing moves a source mode that sat at the subtracted offset to
/// the origin, and shifts every source mode by the same delta, so the
/// pairwise offsets between displays are preserved.
pub proof fn lemma_rebase_shifts(
    before: Seq<SourceMode>,
    after: Seq<SourceMode>,
    off_x: i32,
    off_y: i32,
    i: int,
    j: int,
)
    requires
        rebased(before, after, off_x, off_y),
        0 <= i < before.len(),
        0 <= j < before.len(),
        before[i].is_source,
        before[j].is_source,
    ensures
        before[i].x == off_x && before[i].y == off_y ==> after[i].x == 0 && after[i].y == 0,
        after[i].x - after[j].x == before[i].x - before[j].x,
        after[i].y - after[j].y == before[i].y - before[j].y,
{
}

/// Translate the result code of the topology-set call: zero is the success
/// code, anything else surfaces as an operating-system failure.
pub fn topology_result(code: i32) -> (res: Result<(), DisplayError>)
    ensures
        code == 0 ==> res == Ok::<(), DisplayError>(()),
        code != 0 ==> res == Err::<(), DisplayError>(
            DisplayError::OsCallFailed { code: code as u32, call: OsCall::TopologySet },
        ),
{
    if code == 0 {
        Ok(())
    } else {
        Err(DisplayError::OsCallFailed { code: code as u32, call: OsCall::TopologySet })
    }
}

/// Everything a position-only move applies: the device and the new origin of
/// its display area.
#[derive(Debug, Clone, PartialEq, Eq)]
pub struct MovePlan {
    pub device: String,
    pub x: i32,
    pub y: i32,
}

/// Plan a position-only move of the display at `index` to `(x, y)`: resolve
/// the device of the current pass, or fail with `NotFound`.
pub fn move_display(reports: &Vec<MonitorReport>, index: u32, x: i32, y: i32) -> (res: Result<
    MovePlan,
    DisplayError,
>)
    requires
        reports@.len() <= u32::MAX,
        reports_wf(reports@),
    ensures
        match res {
            Ok(p) => index < reports@.len() && p.device@ == reports@[index as int].name@ && p.x == x
                && p.y == y,
            Err(e) => index >= reports@.len() && e == DisplayError::NotFound { index },
        },
{
    match find_properties(reports, index) {
        Ok(d) => Ok(MovePlan { device: d.name, x, y }),
        Err(e) => Err(e),
    }
}

/// The full current mode descriptor of one display, as far as the mover
/// reads and writes it: dimensions, refresh rate, and position.
#[derive(Debug, Clone, Copy, PartialEq, Eq, Structural)]
pub struct CurrentMode {
    pub width: u32,
    pub height: u32,
    pub freq: u32,
    pub x: i32,
    pub y: i32,
}

/// Rewrite only the position sub-field of a queried current mode: the move
/// never changes dimensions or refresh rate.
pub fn position_update(m: &CurrentMode, x: i32, y: i32) -> (r: CurrentMode)
    ensures
        r.x == x,
        r.y == y,
        r.width == m.width,
        r.height == m.height,
        r.freq == m.freq,
{
    CurrentMode { width: m.width, height: m.height, freq: m.freq, x, y }
}

/// The least `position.left` over the displays of one pass, or zero when the
/// pass is empty: the left edge of the virtual desktop.
pub fn leftmost_edge(displays: &Vec<DisplayInfo>) -> (r: i32)
    ensures
        displays@.len() == 0 ==> r == 0,
        displays@.len() > 0 ==> (exists|i: int|
            0 <= i < displays@.len() && (#[trigger] displays@[i]).position.left == r),
        forall|i: int| 0 <= i < displays@.len() ==> r <= (#[trigger] displays@[i]).position.left,
{
    let mut r: i32 = 0;
    if displays.len() > 0 {
        r = displays[0].position.left;
        let mut k: usize = 1;
        while k < displays.len()
            invariant
                displays@.len() > 0,
                1 <= k <= displays@.len(),
                exists|i: int| 0 <= i < k && (#[trigger] displays@[i]).position.left == r,
                forall|i: int| 0 <= i < k ==> r <= (#[trigger] displays@[i]).position.left,
            decreases displays@.len() - k,
        {
            if displays[k].position.left < r {
                r = displays[k].position.left;
            }
            k = k + 1;
        }
    }
    r
}

/// The greatest `position.right` over the displays of one pass, or zero when
/// the pass is empty: the right edge of the virtual desktop.
pub fn rightmost_edge(displays: &Vec<DisplayInfo>) -> (r: i32)
    ensures
        displays@.len() == 0 ==> r == 0,
        displays@.len() > 0 ==> (exists|i: int|
            0 <= i < displays@.len() && (#[trigger] displays@[i]).position.right == r),
        forall|i: int| 0 <= i < displays@.len() ==> r >= (#[trigger] displays@[i]).position.right,
{
    let mut r: i32 = 0;
    if displays.len() > 0 {
        r = displays[0].position.right;
        let mut k: usize = 1;
        while k < displays.len()
            invariant
                displays@.len() > 0,
                1 <= k <= displays@.len(),
                exists|i: int| 0 <= i < k && (#[trigger] displays@[i]).position.right == r,
                forall|i: int| 0 <= i < k ==> r >= (#[trigger] displays@[i]).position.right,
            decreases displays@.len() - k,
        {
            if displays[k].position.right > r {
                r = displays[k].position.right;
            }
            k = k + 1;
        }
    }
    r
}

} // verus!
