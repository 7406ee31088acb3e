//! Mode cataloguing and mode switching.
//!
//! The driver reports one raw mode entry per (width, height, refresh) triple.
//! The catalogue deduplicates the dimension pairs and orders them by
//! descending height (descending width among equal heights, so the order is
//! deterministic). A mode switch picks, among the raw entries that match the
//! requested dimensions exactly and have a positive refresh rate, the first
//! entry carrying the lowest refresh rate: the most broadly compatible tier.

use vstd::prelude::*;

use crate::display::MonitorReport;
use crate::errors::DisplayError;
use crate::errors::OsCall;

verus! {

/// One raw mode entry as the driver reports it.
#[derive(Debug, Clone, Copy, PartialEq, Eq, Structural)]
pub struct ModeEntry {
    pub sw: u32,
    pub sh: u32,
    pub freq: u32,
}

/// A deduplicated mode dimension pair of the catalogue.
#[derive(Debug, Clone, Copy, PartialEq, Eq, Hash, Structural)]
pub struct Resolutions {
    pub sw: u32,
    pub sh: u32,
}

/// The dimension pair of a raw mode entry.
pub open spec fn dims_of(m: ModeEntry) -> Resolutions {
    Resolutions { sw: m.sw, sh: m.sh }
}

/// Strict catalogue order: taller first, wider first among equal heights.
pub open spec fn res_above(a: Resolutions, b: Resolutions) -> bool {
    a.sh > b.sh || (a.sh == b.sh && a.sw > b.sw)
}

/// `cat` is the catalogue of `modes`: it holds exactly the dimension pairs
/// occurring in `modes`, each once, in strictly descending catalogue order.
pub open spec fn is_catalog(cat: Seq<Resolutions>, modes: Seq<ModeEntry>) -> bool {
    &&& forall|i: int, j: int| 0 <= i < j < cat.len() ==> res_above(cat[i], cat[j])
    &&& forall|r: Resolutions|
        #[trigger] cat.contains(r) <==> exists|k: int| 0 <= k < modes.len() && dims_of(#[trigger] modes[k]) == r
}

/// Build the catalogue of a raw mode list: deduplicate the dimension pairs
/// and keep them sorted in descending catalogue order.
pub fn modes_catalog(modes: &Vec<ModeEntry>) -> (cat: Vec<Resolutions>)
    ensures
        is_catalog(cat@, modes@),
{
    let mut cat: Vec<Resolutions> = Vec::new();
    let mut k: usize = 0;
    while k < modes.len()
        invariant
            k <= modes@.len(),
            forall|i: int, j: int| 0 <= i < j < cat@.len() ==> res_above(cat@[i], cat@[j]),
            forall|r: Resolutions|
                #[trigger] cat@.contains(r) <==> exists|t: int| 0 <= t < k && dims_of(#[trigger] modes@[t]) == r,
        decreases modes@.len() - k,
    {
        let r = Resolutions { sw: modes[k].sw, sh: modes[k].sh };
        let ghost old_cat = cat@;
        let mut pos: usize = 0;
        while pos < cat.len() && (cat[pos].sh > r.sh || (cat[pos].sh == r.sh && cat[pos].sw > r.sw))
            invariant
                pos <= cat@.len(),
                cat@ == old_cat,
                forall|i: int| 0 <= i < pos ==> res_above(cat@[i], r),
            decreases cat@.len() - pos,
        {
            pos = pos + 1;
        }
        if pos == cat.len() || !(cat[pos].sw == r.sw && cat[pos].sh == r.sh) {
            cat.insert(pos, r);
            proof {
                assert forall|i: int, j: int| 0 <= i < j < cat@.len() implies res_above(cat@[i], cat@[j]) by {
                    if j == pos {
                        assert(cat@[j] == r);
                    } else if i == pos {
                        assert(cat@[i] == r);
                        assert(cat@[j] == old_cat[j - 1]);
                        if pos < old_cat.len() {
                            assert(res_above(r, old_cat[pos as int]));
                            if j - 1 > pos {
                                assert(res_above(old_cat[pos as int], old_cat[j - 1]));
                            }
                        }
                    } else if i < pos && j < pos {
                        assert(cat@[i] == old_cat[i] && cat@[j] == old_cat[j]);
                    } else if i < pos {
                        assert(cat@[i] == old_cat[i] && cat@[j] == old_cat[j - 1]);
                        assert(res_above(old_cat[i], r) || i == pos);
                        if j - 1 == pos {
                            assert(res_above(r, old_cat[pos as int]));
                        }
                    } else {
                        assert(cat@[i] == old_cat[i - 1] && cat@[j] == old_cat[j - 1]);
                    }
                }
                assert forall|x: Resolutions| #[trigger] cat@.contains(x) implies (exists|t: int|
                    0 <= t < k + 1 && dims_of(#[trigger] modes@[t]) == x) by {
                    let i = choose|i: int| 0 <= i < cat@.len() && cat@[i] == x;
                    if i == pos {
                        assert(dims_of(modes@[k as int]) == x);
                    } else if i < pos {
                        assert(old_cat[i] == x);
                        assert(old_cat.contains(x));
                    } else {
                        assert(old_cat[i - 1] == x);
                        assert(old_cat.contains(x));
                    }
                }
                assert forall|t: int| 0 <= t < k + 1 implies cat@.contains(dims_of(#[trigger] modes@[t])) by {
                    if t == k {
                        assert(cat@[pos as int] == r);
                    } else {
                        assert(old_cat.contains(dims_of(modes@[t])));
                        let i = choose|i: int| 0 <= i < old_cat.len() && old_cat[i] == dims_of(modes@[t]);
                        if i < pos {
                            assert(cat@[i] == dims_of(modes@[t]));
                        } else {
                            assert(cat@[i + 1] == dims_of(modes@[t]));
                        }
                    }
                }
            }
        } else {
            proof {
                assert(cat@[pos as int] == r);
                assert(cat@.contains(r));
                assert forall|t: int| 0 <= t < k + 1 implies cat@.contains(dims_of(#[trigger] modes@[t])) by {
                    if t == k {
                        assert(dims_of(modes@[k as int]) == r);
                    }
                }
            }
        }
        k = k + 1;
    }
    cat
}

/// Whether a raw entry matches a requested (width, height) and can be driven.
pub open spec fn mode_matches(m: ModeEntry, w: u32, h: u32) -> bool {
    m.sw == w && m.sh == h && m.freq > 0
}

/// Index `i` points at the entry that a switch to `w` x `h` applies: a
/// matching entry whose refresh rate is lowest among all matching entries,
/// and the first one carrying that rate.
pub open spec fn is_selected(modes: Seq<ModeEntry>, w: u32, h: u32, i: int) -> bool {
    &&& 0 <= i < modes.len()
    &&& mode_matches(modes[i], w, h)
    &&& forall|j: int|
        0 <= j < modes.len() && mode_matches(#[trigger] modes[j], w, h) ==> modes[i].freq <= modes[j].freq
    &&& forall|j: int| 0 <= j < i && mode_matches(#[trigger] modes[j], w, h) ==> modes[i].freq < modes[j].freq
}

/// Scan the raw mode list and pick the entry a switch to `w` x `h` applies,
/// or report that no entry matches.
pub fn select_mode(modes: &Vec<ModeEntry>, w: u32, h: u32) -> (sel: Option<usize>)
    ensures
        match sel {
            Some(i) => is_selected(modes@, w, h, i as int),
            None => forall|j: int| 0 <= j < modes@.len() ==> !mode_matches(modes@[j], w, h),
        },
{
    let mut best: Option<usize> = None;
    let mut k: usize = 0;
    while k < modes.len()
        invariant
            k <= modes@.len(),
            match best {
                Some(i) => i < k && is_selected(modes@.take(k as int), w, h, i as int),
                None => forall|j: int| 0 <= j < k ==> !mode_matches(modes@[j], w, h),
            },
        decreases modes@.len() - k,
    {
        let m = modes[k];
        if m.sw == w && m.sh == h && m.freq > 0 {
            let better = match best {
                None => true,
                Some(i) => m.freq < modes[i].freq,
            };
            if better {
                best = Some(k);
            }
        }
        proof {
            assert(modes@.take(k + 1).drop_last() =~= modes@.take(k as int));
            assert(modes@.take(k + 1)[k as int] == modes@[k as int]);
            assert forall|j: int| 0 <= j < k + 1 implies modes@.take(k + 1)[j] == modes@[j] by {}
        }
        k = k + 1;
    }
    proof {
        assert(modes@.take(modes@.len() as int) =~= modes@);
    }
    best
}

/// Everything a mode change applies: the device, the index of the raw entry
/// to submit, and the dimensions and refresh rate being set.
#[derive(Debug, Clone, PartialEq, Eq)]
pub struct ModeChange {
    pub device: String,
    pub mode_index: usize,
    pub width: u32,
    pub height: u32,
    pub freq: u32,
}

/// Plan a resolution switch for the display at `index`: resolve the device,
/// pick the raw mode entry with the lowest matching refresh rate, and report
/// an unsupported resolution or a missing index as the typed failure.
pub fn set_resolution(reports: &Vec<MonitorReport>, index: u32, w: u32, h: u32) -> (res: Result<
    ModeChange,
    DisplayError,
>)
    ensures
        match res {
            Ok(mc) => {
                &&& index < reports@.len()
                &&& mc.device@ == reports@[index as int].name@
                &&& mc.width == w
                &&& mc.height == h
                &&& is_selected(reports@[index as int].modes@, w, h, mc.mode_index as int)
                &&& mc.freq == reports@[index as int].modes@[mc.mode_index as int].freq
            },
            Err(e) => match e {
                DisplayError::NotFound { index: i } => i == index && index >= reports@.len(),
                DisplayError::UnsupportedMode { width, height, device } => {
                    &&& index < reports@.len()
                    &&& width == w
                    &&& height == h
                    &&& device@ == reports@[index as int].name@
                    &&& forall|j: int|
                        0 <= j < reports@[index as int].modes@.len() ==> !mode_matches(
                            reports@[index as int].modes@[j],
                            w,
                            h,
                        )
                },
                _ => false,
            },
        },
{
    if (index as usize) < reports.len() {
        let rep = &reports[index as usize];
        match select_mode(&rep.modes, w, h) {
            Some(i) => Ok(
                ModeChange {
                    device: rep.name.clone(),
                    mode_index: i,
                    width: w,
                    height: h,
                    freq: rep.modes[i].freq,
                },
            ),
            None => Err(DisplayError::UnsupportedMode { width: w, height: h, device: rep.name.clone() }),
        }
    } else {
        Err(DisplayError::NotFound { index })
    }
}

/// Law: a planned mode change always targets a resolution that the catalogue
/// of the same raw mode list carries.
pub proof fn lemma_selected_in_catalog(modes: Seq<ModeEntry>, cat: Seq<Resolutions>, w: u32, h: u32, i: int)
    requires
        is_catalog(cat, modes),
        is_selected(modes, w, h, i),
    ensures
        cat.contains(Resolutions { sw: w, sh: h }),
{
    assert(dims_of(modes[i]) == Resolutions { sw: w, sh: h });
}

/// Translate the result code of the mode-change call: zero is the success
/// code, anything else surfaces as an operating-system failure.
pub fn change_result(code: i32) -> (res: Result<(), DisplayError>)
    ensures
        code == 0 ==> res == Ok::<(), DisplayError>(()),
        code != 0 ==> res == Err::<(), DisplayError>(
            DisplayError::OsCallFailed { code: code as u32, call: OsCall::ModeChange },
        ),
{
    if code == 0 {
        Ok(())
    } else {
        Err(DisplayError::OsCallFailed { code: code as u32, call: OsCall::ModeChange })
    }
}

} // verus!
