//! The choice of the physical device and of its queue family.
//!
//! Both choices are "first match in enumeration order". No other preference
//! among several matches exists.

use crate::candidate::{Candidate, CandidateView, PresentMode, QueueFamily};
use crate::earliest::{
    earliest, is_earliest, lemma_earliest_characterized, lemma_earliest_exists, none_satisfies,
};
use crate::error::BootstrapError;
use vstd::prelude::*;

verus! {

/// The predicate "meets the selection requirements" on candidates.
pub open spec fn qualifying() -> spec_fn(CandidateView) -> bool {
    |candidate: CandidateView| candidate.qualifies()
}

/// The predicate "can both draw and present" on queue families.
pub open spec fn drawing_and_presenting() -> spec_fn(QueueFamily) -> bool {
    |family: QueueFamily| family.draws_and_presents()
}

/// The device that the selection picks: the first candidate, in enumeration
/// order, that meets the selection requirements.
pub open spec fn selected_device(candidates: Seq<CandidateView>) -> Option<int> {
    earliest(candidates, qualifying())
}

/// The queue family that is picked on a device: the first one, in the
/// driver's order, that can both draw and present.
pub open spec fn selected_queue_family(families: Seq<QueueFamily>) -> Option<int> {
    earliest(families, drawing_and_presenting())
}

/// An executable position as a mathematical one.
pub open spec fn position(found: Option<usize>) -> Option<int> {
    match found {
        Some(i) => Some(i as int),
        None => None,
    }
}

/// Scans the candidates in enumeration order and returns the position of the
/// first one that meets the selection requirements, or `None` if none does.
///
/// A candidate whose capability query failed does not qualify and is passed
/// over; the scan goes on with the next one.
pub fn find_physical_device(candidates: &Vec<Candidate>) -> (found: Option<usize>)
    ensures
        position(found) == selected_device(candidates.deep_view()),
        found matches Some(i) ==> is_earliest(candidates.deep_view(), qualifying(), i as int),
        found is None ==> none_satisfies(candidates.deep_view(), qualifying()),
{
    let ghost views = candidates.deep_view();
    let mut i: usize = 0;
    while i < candidates.len()
        invariant
            i <= candidates.len(),
            views == candidates.deep_view(),
            forall|j: int| 0 <= j < i ==> !(#[trigger] views[j]).qualifies(),
        decreases candidates.len() - i,
    {
        if candidates[i].is_suitable() {
            proof {
                assert(is_earliest(views, qualifying(), i as int));
                lemma_earliest_characterized(views, qualifying());
            }
            return Some(i);
        }
        i += 1;
    }
    proof {
        lemma_earliest_characterized(views, qualifying());
    }
    None
}

/// Scans the queue families of a device in the driver's order and returns the
/// position of the first one that can both draw and present, or `None` if none
/// can.
pub fn find_queue_family(families: &Vec<QueueFamily>) -> (found: Option<usize>)
    ensures
        position(found) == selected_queue_family(families@),
        found matches Some(k) ==> is_earliest(families@, drawing_and_presenting(), k as int),
        found is None ==> none_satisfies(families@, drawing_and_presenting()),
{
    let mut k: usize = 0;
    while k < families.len()
        invariant
            k <= families.len(),
            forall|j: int| 0 <= j < k ==> !(#[trigger] families@[j]).draws_and_presents(),
        decreases families.len() - k,
    {
        if families[k].can_draw_and_present() {
            proof {
                assert(is_earliest(families@, drawing_and_presenting(), k as int));
                lemma_earliest_characterized(families@, drawing_and_presenting());
            }
            return Some(k);
        }
        k += 1;
    }
    proof {
        lemma_earliest_characterized(families@, drawing_and_presenting());
    }
    None
}

/// The device to create the logical device from, and the queue family to
/// create its queue in. Both are positions: `device` in the candidate list,
/// `queue_family` in that candidate's list of families.
#[derive(Clone, Copy, Debug, PartialEq, Eq)]
pub struct Selection {
    pub device: usize,
    pub queue_family: usize,
}

/// What the bootstrap settles on for a list of candidates: the selected
/// device with its selected queue family, or the reason why there is none.
pub open spec fn settled(candidates: Seq<CandidateView>) -> Result<(int, int), BootstrapError> {
    match selected_device(candidates) {
        None => Err(BootstrapError::NoSuitableDevice),
        Some(device) => match selected_queue_family(candidates[device].queue_families) {
            None => Err(BootstrapError::NoQueueFamily),
            Some(queue_family) => Ok((device, queue_family)),
        },
    }
}

/// An executable outcome as a mathematical one.
pub open spec fn positions(outcome: Result<Selection, BootstrapError>) -> Result<
    (int, int),
    BootstrapError,
> {
    match outcome {
        Ok(selection) => Ok((selection.device as int, selection.queue_family as int)),
        Err(error) => Err(error),
    }
}

/// Selects the device and then, on that device alone, the queue family.
///
/// The device is selected without regard to whether one of its families can
/// present. When the selected device has no family that can both draw and
/// present, the result is `NoQueueFamily`: later candidates are not tried.
pub fn select_device(candidates: &Vec<Candidate>) -> (outcome: Result<Selection, BootstrapError>)
    ensures
        positions(outcome) == settled(candidates.deep_view()),
        outcome matches Ok(selection) ==> {
            &&& selection.device < candidates.len()
            &&& selection.queue_family < candidates[selection.device as int].queue_families.len()
        },
{
    match find_physical_device(candidates) {
        None => Err(BootstrapError::NoSuitableDevice),
        Some(device) => {
            match find_queue_family(&candidates[device].queue_families) {
                None => Err(BootstrapError::NoQueueFamily),
                Some(queue_family) => Ok(Selection { device, queue_family }),
            }
        },
    }
}

/// Where no candidate has a graphics-capable queue family, nothing is
/// selected.
pub proof fn selects_nothing_without_graphics(candidates: Seq<CandidateView>)
    requires
        forall|j: int|
            0 <= j < candidates.len() ==> !(#[trigger] candidates[j]).has_graphics_family(),
    ensures
        selected_device(candidates) is None,
{
    lemma_earliest_characterized(candidates, qualifying());
}

/// Where exactly one candidate meets the selection requirements, that
/// candidate is selected.
pub proof fn selects_the_only_qualifier(candidates: Seq<CandidateView>, only: int)
    requires
        0 <= only < candidates.len(),
        forall|j: int|
            0 <= j < candidates.len() ==> ((#[trigger] candidates[j]).qualifies() <==> j == only),
    ensures
        selected_device(candidates) == Some(only),
{
    assert(is_earliest(candidates, qualifying(), only));
    lemma_earliest_characterized(candidates, qualifying());
}

/// Where any candidate meets the selection requirements, the one selected is
/// the earliest of them in enumeration order: it qualifies, nothing before it
/// does, and so it stands at or before every other qualifier.
pub proof fn selects_the_earliest_qualifier(candidates: Seq<CandidateView>, qualifier: int)
    requires
        0 <= qualifier < candidates.len(),
        candidates[qualifier].qualifies(),
    ensures
        selected_device(candidates) matches Some(first) && {
            &&& 0 <= first <= qualifier
            &&& candidates[first].qualifies()
            &&& forall|j: int| 0 <= j < first ==> !(#[trigger] candidates[j]).qualifies()
        },
{
    lemma_earliest_exists(candidates, qualifying(), qualifier);
    lemma_earliest_characterized(candidates, qualifying());
}

/// A candidate without the `Fifo` present mode is never selected, whatever
/// else it offers.
pub proof fn never_selects_without_fifo(candidates: Seq<CandidateView>, k: int)
    requires
        0 <= k < candidates.len(),
        candidates[k].capabilities matches Some(capabilities)
            ==> !capabilities.present_modes.contains(PresentMode::Fifo),
    ensures
        selected_device(candidates) != Some(k),
{
    lemma_earliest_characterized(candidates, qualifying());
}

/// A candidate with an empty list of supported formats is never selected.
pub proof fn never_selects_without_format(candidates: Seq<CandidateView>, k: int)
    requires
        0 <= k < candidates.len(),
        candidates[k].capabilities matches Some(capabilities)
            ==> capabilities.supported_formats.len() == 0,
    ensures
        selected_device(candidates) != Some(k),
{
    lemma_earliest_characterized(candidates, qualifying());
}

/// Where a position lies once the element at `gap` has been put back into a
/// sequence from which it had been removed.
pub open spec fn restored(found: int, gap: int) -> int {
    if found < gap {
        found
    } else {
        found + 1
    }
}

/// A candidate whose capability query failed is skipped, and its failure is
/// no failure of the selection: it is never selected, and both the selected
/// device and the settled outcome are what they would be if that candidate
/// had not been enumerated at all.
pub proof fn skips_failed_query(candidates: Seq<CandidateView>, k: int)
    requires
        0 <= k < candidates.len(),
        candidates[k].capabilities is None,
    ensures
        selected_device(candidates) != Some(k),
        selected_device(candidates) == match selected_device(candidates.remove(k)) {
            Some(device) => Some(restored(device, k)),
            None => None,
        },
        settled(candidates) == match settled(candidates.remove(k)) {
            Ok((device, queue_family)) => Ok((restored(device, k), queue_family)),
            Err(error) => Err(error),
        },
{
    let others = candidates.remove(k);
    lemma_earliest_characterized(candidates, qualifying());
    lemma_earliest_characterized(others, qualifying());
    assert forall|j: int| 0 <= j < others.len() implies #[trigger] others[j]
        == candidates[restored(j, k)] by {}
    assert forall|j: int| 0 <= j < k implies #[trigger] candidates[j] == others[j] by {}
    assert forall|j: int| k < j < candidates.len() implies #[trigger] candidates[j]
        == others[j - 1] by {}
    if let Some(device) = selected_device(others) {
        assert(is_earliest(candidates, qualifying(), restored(device, k)));
    }
}

} // verus!
