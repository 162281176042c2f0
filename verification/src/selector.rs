//! Device selection: queue-family resolution, suitability scoring, and
//! the pick of the single best candidate.

use vstd::prelude::*;
use crate::model::{DeviceCandidate, QueueFamilyIndices, QueueFamilyProps};

verus! {

/// Resolves the queue family assignment from the per-family support
/// flags, scanning by index ascending: the first graphics-capable index
/// fills the graphics role, the first presentation-capable index fills
/// the presentation role, and the scan stops once both are filled.
pub fn get_queue_families(families: &Vec<QueueFamilyProps>) -> (r: QueueFamilyIndices)
    requires
        families.len() <= u32::MAX,
    ensures
        match r.graphics_family {
            Some(i) => i < families.len() && families@[i as int].supports_graphics
                && forall|j: int| 0 <= j < i ==> !families@[j].supports_graphics,
            None => forall|j: int| 0 <= j < families.len() ==> !families@[j].supports_graphics,
        },
        match r.present_family {
            Some(i) => i < families.len() && families@[i as int].supports_present
                && forall|j: int| 0 <= j < i ==> !families@[j].supports_present,
            None => forall|j: int| 0 <= j < families.len() ==> !families@[j].supports_present,
        },
{
    let mut indices = QueueFamilyIndices { graphics_family: None, present_family: None };
    let mut i: usize = 0;
    while i < families.len()
        invariant
            i <= families.len(),
            families.len() <= u32::MAX,
            match indices.graphics_family {
                Some(g) => g < i && families@[g as int].supports_graphics
                    && forall|j: int| 0 <= j < g ==> !families@[j].supports_graphics,
                None => forall|j: int| 0 <= j < i ==> !families@[j].supports_graphics,
            },
            match indices.present_family {
                Some(p) => p < i && families@[p as int].supports_present
                    && forall|j: int| 0 <= j < p ==> !families@[j].supports_present,
                None => forall|j: int| 0 <= j < i ==> !families@[j].supports_present,
            },
        decreases families.len() - i,
    {
        if indices.graphics_family.is_none() && families[i].supports_graphics {
            indices.graphics_family = Some(i as u32);
        }
        if indices.present_family.is_none() && families[i].supports_present {
            indices.present_family = Some(i as u32);
        }
        if indices.graphics_family.is_some() && indices.present_family.is_some() {
            return indices;
        }
        i = i + 1;
    }
    indices
}

/// The deterministic suitability score of a probed candidate: zero when
/// any hard requirement fails, else the discrete-GPU base bonus plus the
/// maximum 2D image dimension as tie-break.
pub open spec fn suitability_score(c: DeviceCandidate) -> int {
    if !c.supports_geometry_shader || !c.queue_families.spec_is_complete()
        || !c.extensions_satisfied || c.surface_format_count == 0 || c.present_mode_count == 0 {
        0
    } else {
        (if c.discrete_gpu { 1000int } else { 0int }) + c.max_image_dimension_2d
    }
}

/// Computes the suitability score of one candidate.
pub fn rate_device_suitability(c: &DeviceCandidate) -> (score: u64)
    ensures
        score == suitability_score(*c),
{
    if !c.supports_geometry_shader {
        return 0;
    }
    if !c.queue_families.is_complete() {
        return 0;
    }
    if !c.extensions_satisfied {
        return 0;
    }
    if c.surface_format_count == 0 || c.present_mode_count == 0 {
        return 0;
    }
    let base: u64 = if c.discrete_gpu { 1000 } else { 0 };
    base + c.max_image_dimension_2d as u64
}

/// A candidate that lacks a queue-family role, misses a required
/// extension, or exposes no surface format or no present mode scores
/// exactly zero, regardless of its other attributes.
pub proof fn lemma_unsuitable_candidate_scores_zero(c: DeviceCandidate)
    requires
        !c.queue_families.spec_is_complete() || !c.extensions_satisfied
            || c.surface_format_count == 0 || c.present_mode_count == 0,
    ensures
        suitability_score(c) == 0,
{
}

/// The candidate invariant: a positive suitability score means every
/// hard requirement held — geometry shaders, both queue-family roles,
/// the extension set, and at least one surface format and one present
/// mode.
pub proof fn lemma_positive_score_meets_every_requirement(c: DeviceCandidate)
    requires
        suitability_score(c) > 0,
    ensures
        c.supports_geometry_shader,
        c.queue_families.spec_is_complete(),
        c.extensions_satisfied,
        c.surface_format_count > 0,
        c.present_mode_count > 0,
{
}

/// Why device selection failed: either the environment exposes no
/// device at all, or none of the devices meets the minimum contract.
#[derive(Clone, Copy, Debug, PartialEq, Eq, Structural)]
pub enum SelectionError {
    NoDevices,
    NoSuitableDevice,
}

impl SelectionError {
    /// A diagnostic line distinguishing "no GPU" from "no suitable GPU".
    pub fn message(&self) -> (r: String)
        ensures
            *self is NoDevices ==> r@ == "failed to find gpus with vulkan support"@,
            *self is NoSuitableDevice ==> r@ == "failed to find a suitable gpu"@,
    {
        match self {
            SelectionError::NoDevices => "failed to find gpus with vulkan support".to_owned(),
            SelectionError::NoSuitableDevice => "failed to find a suitable gpu".to_owned(),
        }
    }
}

/// Picks the candidate with the strictly maximum suitability score;
/// among candidates of equal maximum score the first in enumeration
/// order wins. Fails with a distinct error when no device exists or
/// when the maximum score is zero.
pub fn pick_physical_device(candidates: &Vec<DeviceCandidate>) -> (r: Result<
    usize,
    SelectionError,
>)
    ensures
        candidates.len() == 0 ==> r == Err::<usize, SelectionError>(SelectionError::NoDevices),
        (candidates.len() > 0 && forall|i: int|
            0 <= i < candidates.len() ==> suitability_score(candidates@[i]) == 0) ==> r == Err::<
            usize,
            SelectionError,
        >(SelectionError::NoSuitableDevice),
        (exists|i: int| 0 <= i < candidates.len() && suitability_score(candidates@[i]) > 0)
            ==> r is Ok,
        r matches Ok(best) ==> {
            &&& best < candidates.len()
            &&& suitability_score(candidates@[best as int]) > 0
            &&& forall|j: int|
                0 <= j < candidates.len() ==> suitability_score(candidates@[j])
                    <= suitability_score(candidates@[best as int])
            &&& forall|j: int|
                0 <= j < best ==> suitability_score(candidates@[j]) < suitability_score(
                    candidates@[best as int],
                )
        },
{
    if candidates.len() == 0 {
        return Err(SelectionError::NoDevices);
    }
    let mut best_index: usize = 0;
    let mut best_score: u64 = rate_device_suitability(&candidates[0]);
    let mut i: usize = 1;
    while i < candidates.len()
        invariant
            1 <= i <= candidates.len(),
            best_index < i,
            best_score == suitability_score(candidates@[best_index as int]),
            forall|j: int| 0 <= j < i ==> suitability_score(candidates@[j]) <= best_score,
            forall|j: int| 0 <= j < best_index ==> suitability_score(candidates@[j]) < best_score,
        decreases candidates.len() - i,
    {
        let score = rate_device_suitability(&candidates[i]);
        if score > best_score {
            best_score = score;
            best_index = i;
        }
        i = i + 1;
    }
    if best_score == 0 {
        return Err(SelectionError::NoSuitableDevice);
    }
    Ok(best_index)
}

} // verus!
