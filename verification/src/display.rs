//! Monitor enumeration and per-display property snapshots.
//!
//! An enumeration pass over the windowing subsystem yields one raw
//! `MonitorReport` per monitor, in the order the subsystem reports them.
//! From those reports the library assigns ordinals, derives each display's
//! geometry and primary flag, and builds its resolution catalogue. Ordinals
//! are valid only for the lifetime of one pass: nothing is cached across
//! calls.

use vstd::prelude::*;

use crate::errors::DisplayError;
use crate::modes::ModeEntry;
use crate::modes::Resolutions;
use crate::modes::is_catalog;
use crate::modes::modes_catalog;

verus! {

/// A rectangle in virtual-desktop coordinates.
#[derive(Debug, Clone, Copy, PartialEq, Eq, Structural)]
pub struct Rect {
    pub left: i32,
    pub top: i32,
    pub right: i32,
    pub bottom: i32,
}

/// The dimensions of one display's current mode, in pixels.
#[derive(Debug, Clone, Copy, PartialEq, Eq, Hash, Structural)]
pub struct Resolution {
    pub w: i32,
    pub h: i32,
}

/// What one enumeration pass yields for one monitor, as plain values: the
/// device name, the bounding rectangle, the per-monitor info flags, an opaque
/// token standing for the logical monitor handle, and the raw mode list the
/// driver reports for the device.
#[derive(Debug, Clone, PartialEq, Eq)]
pub struct MonitorReport {
    pub name: String,
    pub rect: Rect,
    pub flags: u32,
    pub handle: u64,
    pub modes: Vec<ModeEntry>,
}

/// One entry of the display list: the ordinal of the current pass and the
/// device name. The ordinal is not a persistent identity.
#[derive(Debug, PartialEq, Eq)]
pub struct DisplaySummary {
    pub index: u32,
    pub name: String,
}

/// The full property snapshot of one display, derived from a fresh
/// enumeration pass and never cached.
#[derive(Debug, PartialEq, Eq)]
pub struct DisplayInfo {
    pub index: u32,
    pub name: String,
    pub position: Rect,
    pub resolution: Resolution,
    pub is_primary: bool,
    pub hmonitor: u64,
    pub supported_resolutions: Vec<Resolutions>,
}

/// A monitor's bounding rectangle is ordered and its extent fits the pixel
/// arithmetic below.
pub open spec fn rect_wf(r: Rect) -> bool {
    &&& r.left <= r.right
    &&& r.top <= r.bottom
    &&& r.right - r.left <= i32::MAX
    &&& r.bottom - r.top <= i32::MAX
}

pub open spec fn rect_width(r: Rect) -> int {
    r.right - r.left
}

pub open spec fn rect_height(r: Rect) -> int {
    r.bottom - r.top
}

/// The primary flag of a monitor: the lowest bit of its info flags.
pub open spec fn primary_flag(flags: u32) -> bool {
    flags & 1 != 0
}

/// Every report of the pass carries a well-formed bounding rectangle.
pub open spec fn reports_wf(reports: Seq<MonitorReport>) -> bool {
    forall|i: int| 0 <= i < reports.len() ==> rect_wf((#[trigger] reports[i]).rect)
}

/// List the displays of one enumeration pass: one summary per report, with
/// ordinals assigned as the running count, in the reported order.
pub fn list_displays(reports: &Vec<MonitorReport>) -> (out: Vec<DisplaySummary>)
    requires
        reports@.len() <= u32::MAX,
    ensures
        out@.len() == reports@.len(),
        forall|i: int|
            0 <= i < out@.len() ==> (#[trigger] out@[i]).index == i && out@[i].name@ == reports@[i].name@,
{
    let mut out: Vec<DisplaySummary> = Vec::new();
    let mut k: usize = 0;
    while k < reports.len()
        invariant
            k <= reports@.len(),
            reports@.len() <= u32::MAX,
            out@.len() == k,
            forall|i: int|
                0 <= i < k ==> (#[trigger] out@[i]).index == i && out@[i].name@ == reports@[i].name@,
        decreases reports@.len() - k,
    {
        out.push(DisplaySummary { index: k as u32, name: reports[k].name.clone() });
        k = k + 1;
    }
    out
}

/// `d` is the property snapshot built from report `rep` under ordinal
/// `index`: geometry from the bounding rectangle, the primary flag from the
/// info flags, and the deduplicated, sorted resolution catalogue.
pub open spec fn display_built(d: DisplayInfo, index: u32, rep: MonitorReport) -> bool {
    &&& d.index == index
    &&& d.name@ == rep.name@
    &&& d.position == rep.rect
    &&& d.resolution.w == rect_width(rep.rect)
    &&& d.resolution.h == rect_height(rep.rect)
    &&& d.is_primary == primary_flag(rep.flags)
    &&& d.hmonitor == rep.handle
    &&& is_catalog(d.supported_resolutions@, rep.modes@)
}

fn build_display(index: u32, rep: &MonitorReport) -> (d: DisplayInfo)
    requires
        rect_wf(rep.rect),
    ensures
        display_built(d, index, *rep),
{
    let width = rep.rect.right - rep.rect.left;
    let height = rep.rect.bottom - rep.rect.top;
    DisplayInfo {
        index,
        name: rep.name.clone(),
        position: rep.rect,
        resolution: Resolution { w: width, h: height },
        is_primary: rep.flags & 1 != 0,
        hmonitor: rep.handle,
        supported_resolutions: modes_catalog(&rep.modes),
    }
}

/// Resolve one display by the ordinal of the current pass and build its full
/// property snapshot; an ordinal beyond the pass fails with `NotFound`.
pub fn find_properties(reports: &Vec<MonitorReport>, index: u32) -> (res: Result<
    DisplayInfo,
    DisplayError,
>)
    requires
        reports@.len() <= u32::MAX,
        reports_wf(reports@),
    ensures
        match res {
            Ok(d) => index < reports@.len() && display_built(d, index, reports@[index as int]),
            Err(e) => index >= reports@.len() && e == DisplayError::NotFound { index },
        },
{
    if (index as usize) < reports.len() {
        Ok(build_display(index, &reports[index as usize]))
    } else {
        Err(DisplayError::NotFound { index })
    }
}

} // verus!
