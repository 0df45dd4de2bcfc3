//! Reduction of an enumerated list of graphics adapters to one summary text.
use std::collections::HashSet;
use vstd::prelude::*;
use crate::decimal::{decimal, push_decimal};

verus! {

broadcast use vstd::std_specs::hash::group_hash_axioms;

/// Bytes in one mebibyte.
pub const MIB: u64 = 1048576;

/// What an adapter enumeration reports of one adapter.
pub struct AdapterDescriptor {
    /// The adapter's name.
    pub name: String,
    /// The label of the graphics backend that reported it.
    pub backend_label: String,
    /// The device identity; adapters with equal identities are one device.
    pub device: u32,
    /// The largest storage-buffer binding, in bytes; it stands in for the
    /// video memory, which the enumeration does not report.
    pub max_binding_size: u64,
}

/// The plain values of an [`AdapterDescriptor`].
pub struct AdapterView {
    pub name: Seq<char>,
    pub backend_label: Seq<char>,
    pub device: u32,
    pub max_binding_size: u64,
}

impl View for AdapterDescriptor {
    type V = AdapterView;

    open spec fn view(&self) -> AdapterView {
        AdapterView {
            name: self.name@,
            backend_label: self.backend_label@,
            device: self.device,
            max_binding_size: self.max_binding_size,
        }
    }
}

/// The views of a list of descriptors.
pub open spec fn adapter_views(adapters: Seq<AdapterDescriptor>) -> Seq<AdapterView> {
    adapters.map_values(|a: AdapterDescriptor| a@)
}

/// The device identities of a list of adapters, in order.
pub open spec fn device_ids(adapters: Seq<AdapterView>) -> Seq<u32> {
    adapters.map_values(|a: AdapterView| a.device)
}

/// The identity at `i` appears nowhere before `i`.
pub open spec fn is_novel(ids: Seq<u32>, i: int) -> bool {
    forall|j: int| 0 <= j < i ==> ids[j] != ids[i]
}

/// The first index at or after `i` whose identity is novel, if any.
pub open spec fn first_novel_from(ids: Seq<u32>, i: int) -> Option<int>
    decreases ids.len() - i,
{
    if i < 0 || i >= ids.len() {
        None
    } else if is_novel(ids, i) {
        Some(i)
    } else {
        first_novel_from(ids, i + 1)
    }
}

/// The adapter that a summary describes: the first whose identity is novel.
pub open spec fn selected_adapter(adapters: Seq<AdapterView>) -> Option<int> {
    first_novel_from(device_ids(adapters), 0)
}

/// The three-line description of one adapter.
pub open spec fn adapter_text(a: AdapterView) -> Seq<char> {
    "GPU: "@ + a.name + " ("@ + a.backend_label + ")\nVRAM: "@ + decimal(
        (a.max_binding_size / MIB) as nat,
    ) + " MB\nClock Speed: N/A (requires vendor-specific APIs)"@
}

/// The summary text of an adapter list: a fixed notice for an empty list,
/// otherwise the description of the selected adapter.
pub open spec fn gpu_info_text(adapters: Seq<AdapterView>) -> Seq<char> {
    if adapters.len() == 0 {
        "No GPU adapters found"@
    } else {
        match selected_adapter(adapters) {
            Some(i) => adapter_text(adapters[i]),
            None => Seq::empty(),
        }
    }
}

/// The three-line description of `a`.
pub fn adapter_summary(a: &AdapterDescriptor) -> (r: String)
    ensures
        r@ == adapter_text(a@),
{
    let mut s = String::from_str("GPU: ");
    s.append(a.name.as_str());
    s.append(" (");
    s.append(a.backend_label.as_str());
    s.append(")\nVRAM: ");
    push_decimal(&mut s, a.max_binding_size / MIB);
    s.append(" MB\nClock Speed: N/A (requires vendor-specific APIs)");
    s
}

/// Summarises an enumerated adapter list: the first adapter whose device
/// identity has not appeared before it is described, and the rest ignored.
pub fn get_gpu_info(adapters: &Vec<AdapterDescriptor>) -> (r: String)
    ensures
        r@ == gpu_info_text(adapter_views(adapters@)),
{
    let ghost views = adapter_views(adapters@);
    let ghost ids = device_ids(views);
    if adapters.len() == 0 {
        return String::from_str("No GPU adapters found");
    }
    let mut seen: HashSet<u32> = HashSet::new();
    let mut i: usize = 0;
    while i < adapters.len()
        invariant
            views == adapter_views(adapters@),
            ids == device_ids(views),
            adapters@.len() > 0,
            0 <= i <= adapters@.len(),
            forall|x: u32| seen@.contains(x) <==> exists|j: int| 0 <= j < i && ids[j] == x,
            first_novel_from(ids, 0) == first_novel_from(ids, i as int),
        decreases adapters@.len() - i,
    {
        let a = &adapters[i];
        if !seen.contains(&a.device) {
            proof {
                assert(is_novel(ids, i as int)) by {
                    assert forall|j: int| 0 <= j < i implies ids[j] != ids[i as int] by {
                        if ids[j] == ids[i as int] {
                            assert(seen@.contains(ids[j]));
                        }
                    }
                }
                assert(views[i as int] == a@);
            }
            return adapter_summary(a);
        }
        proof {
            let k = choose|j: int| 0 <= j < i && ids[j] == a.device;
            assert(ids[k] == ids[i as int]);
            assert(!is_novel(ids, i as int));
        }
        seen.insert(a.device);
        i += 1;
    }
    String::new()
}

/// The summary selects the first adapter whose identity does not appear
/// earlier in the list, and for a non-empty list that is the first adapter.
pub proof fn lemma_selection_is_first_novel(adapters: Seq<AdapterView>)
    requires
        adapters.len() > 0,
    ensures
        selected_adapter(adapters) == Some(0int),
        is_novel(device_ids(adapters), 0),
        gpu_info_text(adapters) == adapter_text(adapters[0]),
{
    let ids = device_ids(adapters);
    assert(is_novel(ids, 0));
}

/// Summaries depend on the adapter list's plain values alone: equal lists give
/// equal texts, and an empty list gives the fixed notice.
pub proof fn lemma_gpu_info_deterministic(a: Seq<AdapterView>, b: Seq<AdapterView>)
    requires
        a =~= b,
    ensures
        gpu_info_text(a) == gpu_info_text(b),
        a.len() == 0 ==> gpu_info_text(a) == "No GPU adapters found"@,
{
}

} // verus!
