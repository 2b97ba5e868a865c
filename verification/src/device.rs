//! The device context's selection logic: finding a queue family that can
//! both draw and present, probing device extension support, and picking the
//! first suitable physical adapter. Failure to find any of these is fatal at
//! startup — there is no degraded mode — so the callers abort on the empty
//! results these functions report.

use vstd::prelude::*;

verus! {

/// The queue family indices found so far; minus one marks "not found yet".
#[derive(Clone, Copy, PartialEq, Eq, Structural, Debug)]
pub struct QueueFamilyIndices {
    pub graphics_family: i32,
    pub present_family: i32,
}

impl QueueFamilyIndices {
    /// Both families still unfound.
    pub fn new() -> (r: QueueFamilyIndices)
        ensures
            r == (QueueFamilyIndices { graphics_family: -1i32, present_family: -1i32 }),
    {
        QueueFamilyIndices { graphics_family: -1, present_family: -1 }
    }

    /// A graphics family and a present family have both been found.
    pub fn is_complete(&self) -> (r: bool)
        ensures
            r == (self.graphics_family >= 0 && self.present_family >= 0),
    {
        self.graphics_family >= 0 && self.present_family >= 0
    }
}

/// The device extensions the engine requires of an adapter.
pub struct DeviceExtension {
    pub names: [&'static str; 1],
}

/// One queue family as the selection logic reads it.
#[derive(Clone, Copy, PartialEq, Eq, Structural, Debug)]
pub struct QueueFamilyDesc {
    pub queue_count: u32,
    pub supports_graphics: bool,
    pub supports_present: bool,
}

/// One scan step of the queue family search: a non-empty graphics-capable
/// family claims the graphics slot, a non-empty present-capable family the
/// present slot.
pub open spec fn spec_family_step(acc: QueueFamilyIndices, f: QueueFamilyDesc, i: int) -> QueueFamilyIndices {
    let with_graphics = if f.queue_count > 0 && f.supports_graphics {
        QueueFamilyIndices { graphics_family: i as i32, ..acc }
    } else {
        acc
    };
    if f.queue_count > 0 && f.supports_present {
        QueueFamilyIndices { present_family: i as i32, ..with_graphics }
    } else {
        with_graphics
    }
}

/// The queue family scan from index `i` with the indices found so far: it
/// stops as soon as both slots are filled.
pub open spec fn spec_find_queue_family(
    families: Seq<QueueFamilyDesc>,
    i: int,
    acc: QueueFamilyIndices,
) -> QueueFamilyIndices
    decreases families.len() - i,
{
    if i < 0 || i >= families.len() || (acc.graphics_family >= 0 && acc.present_family >= 0) {
        acc
    } else {
        spec_find_queue_family(families, i + 1, spec_family_step(acc, families[i], i))
    }
}

/// Scans the adapter's queue families for one that can draw and one that can
/// present, stopping at the first point both are found.
pub fn find_queue_family(families: &Vec<QueueFamilyDesc>) -> (r: QueueFamilyIndices)
    requires
        families@.len() <= i32::MAX,
    ensures
        r == spec_find_queue_family(
            families@,
            0,
            QueueFamilyIndices { graphics_family: -1i32, present_family: -1i32 },
        ),
{
    let mut indices = QueueFamilyIndices::new();
    let mut i: usize = 0;
    while i < families.len()
        invariant
            i <= families@.len(),
            families@.len() <= i32::MAX,
            spec_find_queue_family(
                families@,
                0,
                QueueFamilyIndices { graphics_family: -1i32, present_family: -1i32 },
            ) == spec_find_queue_family(families@, i as int, indices),
            !(indices.graphics_family >= 0 && indices.present_family >= 0),
        decreases families@.len() - i,
    {
        let family = families[i];
        let ghost pre = indices;
        if family.queue_count > 0 && family.supports_graphics {
            indices.graphics_family = i as i32;
        }
        if family.queue_count > 0 && family.supports_present {
            indices.present_family = i as i32;
        }
        proof {
            assert(indices == spec_family_step(pre, families@[i as int], i as int));
            assert(spec_find_queue_family(families@, i as int, pre) == spec_find_queue_family(
                families@,
                i + 1,
                indices,
            ));
        }
        if indices.is_complete() {
            return indices;
        }
        i = i + 1;
    }
    indices
}

/// A queue family that can serve the engine's single queue: it has queues
/// and supports both graphics work and presentation to the surface.
pub open spec fn spec_family_serves_both(f: QueueFamilyDesc) -> bool {
    f.queue_count > 0 && f.supports_graphics && f.supports_present
}

/// Picks the one queue family the device is opened with: the first that
/// supports both graphics and presentation, as the device context requires.
/// None is the fatal no-suitable-family case.
pub fn select_queue_family(families: &Vec<QueueFamilyDesc>) -> (r: Option<usize>)
    ensures
        match r {
            Some(i) => {
                &&& i < families@.len()
                &&& spec_family_serves_both(families@[i as int])
                &&& forall|j: int|
                    0 <= j < i ==> !spec_family_serves_both(#[trigger] families@[j])
            },
            None => forall|j: int|
                0 <= j < families@.len() ==> !spec_family_serves_both(#[trigger] families@[j]),
        },
{
    let mut i: usize = 0;
    while i < families.len()
        invariant
            i <= families@.len(),
            forall|j: int| 0 <= j < i ==> !spec_family_serves_both(#[trigger] families@[j]),
        decreases families@.len() - i,
    {
        let f = families[i];
        if f.queue_count > 0 && f.supports_graphics && f.supports_present {
            return Some(i);
        }
        i = i + 1;
    }
    None
}

/// A name occurs in the list.
pub open spec fn contains_name(names: Seq<String>, name: Seq<char>) -> bool {
    exists|j: int| 0 <= j < names.len() && (#[trigger] names[j])@ == name
}

/// Every required extension name occurs among the available ones.
pub open spec fn spec_extensions_supported(available: Seq<String>, required: Seq<String>) -> bool {
    forall|i: int| 0 <= i < required.len() ==> contains_name(available, (#[trigger] required[i])@)
}

/// Whether one name occurs in the list.
fn contains_string(names: &Vec<String>, name: &String) -> (r: bool)
    ensures
        r == contains_name(names@, name@),
{
    let mut j: usize = 0;
    while j < names.len()
        invariant
            j <= names@.len(),
            forall|jj: int| 0 <= jj < j ==> (#[trigger] names@[jj])@ != name@,
        decreases names@.len() - j,
    {
        if names[j] == *name {
            return true;
        }
        j = j + 1;
    }
    false
}

/// Whether every required extension name occurs among the available ones.
pub fn check_device_extension_support(available: &Vec<String>, required: &Vec<String>) -> (r: bool)
    ensures
        r == spec_extensions_supported(available@, required@),
{
    let mut i: usize = 0;
    while i < required.len()
        invariant
            i <= required@.len(),
            forall|k: int| 0 <= k < i ==> contains_name(available@, (#[trigger] required@[k])@),
        decreases required@.len() - i,
    {
        if !contains_string(available, &required[i]) {
            return false;
        }
        i = i + 1;
    }
    true
}

/// One candidate adapter as the picker reads it.
#[derive(Clone, Copy, PartialEq, Eq, Structural, Debug)]
pub struct AdapterSuitability {
    pub queue_families_complete: bool,
    pub extensions_supported: bool,
    pub formats_nonempty: bool,
    pub present_modes_nonempty: bool,
}

/// An adapter is suitable when its queue families are complete, the required
/// extensions are supported and the surface reports at least one format and
/// one present mode.
pub open spec fn spec_suitable(a: AdapterSuitability) -> bool {
    a.queue_families_complete && a.extensions_supported && a.formats_nonempty
        && a.present_modes_nonempty
}

/// Whether one probed adapter can run the engine.
pub fn is_physical_device_suitable(a: AdapterSuitability) -> (r: bool)
    ensures
        r == spec_suitable(a),
{
    a.queue_families_complete && a.extensions_supported && a.formats_nonempty
        && a.present_modes_nonempty
}

/// Picks the first suitable adapter; None is the fatal no-suitable-GPU case.
pub fn pick_physical_device(candidates: &Vec<AdapterSuitability>) -> (r: Option<usize>)
    ensures
        match r {
            Some(i) => {
                &&& i < candidates@.len()
                &&& spec_suitable(candidates@[i as int])
                &&& forall|j: int| 0 <= j < i ==> !spec_suitable(#[trigger] candidates@[j])
            },
            None => forall|j: int|
                0 <= j < candidates@.len() ==> !spec_suitable(#[trigger] candidates@[j]),
        },
{
    let mut i: usize = 0;
    while i < candidates.len()
        invariant
            i <= candidates@.len(),
            forall|j: int| 0 <= j < i ==> !spec_suitable(#[trigger] candidates@[j]),
        decreases candidates@.len() - i,
    {
        if is_physical_device_suitable(candidates[i]) {
            return Some(i);
        }
        i = i + 1;
    }
    None
}

} // verus!
