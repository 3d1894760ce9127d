//! The usage view: one intensity strip of the selected file system's
//! used-space history, scaled to the device's total capacity, plus two
//! static columns of identity and size facts.

use vstd::prelude::*;
use vstd::string::StringExecFns;
use crate::bytefmt::{byte_label, byte_string};
use crate::lookup::used_lookup;
use crate::model::{DetailPane, DiskDevice, LabeledValue, PanelColor, SeriesStore, Strip, free_tenths};
use crate::text::{center10, center_in_10, tenths_rep, tenths_to_dec};

verus! {

/// The title line of the usage strip: the device name, then used, free and
/// total bytes as centered byte labels, the first two with their percentages
/// to one decimal place.
pub open spec fn usage_title(d: DiskDevice) -> Seq<char> {
    d.name@ + "  \u{2193}Used ["@ + center10(byte_label(d.spec_used_bytes())) + " ("@
        + tenths_rep(((1000 - free_tenths(d.available_bytes, d.size_bytes)) as nat)) + "%)] Free ["@
        + center10(byte_label(d.available_bytes)) + " ("@ + tenths_rep(
        free_tenths(d.available_bytes, d.size_bytes),
    ) + "%)] Size ["@ + center10(byte_label(d.size_bytes)) + "]"@
}

/// The identity column: name, file-system type and mount point of the
/// selected device, labels padded as the panel draws them.
pub open spec fn identity_rows_ok(rows: Seq<LabeledValue>, d: DiskDevice) -> bool {
    &&& rows.len() == 3
    &&& rows[0].label@ == "Name:                  "@
    &&& rows[0].value@ == d.name@
    &&& rows[1].label@ == "File System            "@
    &&& rows[1].value@ == d.file_system@
    &&& rows[2].label@ == "Mount Point:           "@
    &&& rows[2].value@ == d.mount_point@
}

/// The size column: total, used and free bytes of the selected device as
/// byte labels.
pub open spec fn size_rows_ok(rows: Seq<LabeledValue>, d: DiskDevice) -> bool {
    &&& rows.len() == 3
    &&& rows[0].label@ == "Size:                  "@
    &&& rows[0].value@ == byte_label(d.size_bytes)
    &&& rows[1].label@ == "Used                   "@
    &&& rows[1].value@ == byte_label(d.spec_used_bytes())
    &&& rows[2].label@ == "Free:                  "@
    &&& rows[2].value@ == byte_label(d.available_bytes)
}

/// What the usage view must produce: nothing when the selected index is out
/// of range or the device's used-space window is absent; otherwise a strip
/// scaled to the device's capacity (floored at one) and the two fact columns.
pub open spec fn is_usage_pane(
    r: DetailPane,
    disks: Seq<DiskDevice>,
    index: int,
    store: SeriesStore,
) -> bool {
    if index < 0 || index >= disks.len() {
        r is Empty
    } else {
        let d = disks[index];
        match used_lookup(store.used_space@, d.name@) {
            None => r is Empty,
            Some(window) => match r {
                DetailPane::Usage { strip, identity, size_facts } => {
                    &&& strip.data@ == window
                    &&& strip.scale == (if d.size_bytes == 0 {
                        1u64
                    } else {
                        d.size_bytes
                    })
                    &&& strip.title@ == usage_title(d)
                    &&& strip.color == PanelColor::LightYellow
                    &&& identity_rows_ok(identity@, d)
                    &&& size_rows_ok(size_facts@, d)
                },
                _ => false,
            },
        }
    }
}

/// Renders the usage view for the selected file system; an out-of-range
/// index or an untracked used-space series draws nothing, never an error.
pub fn usage_view(disks: &Vec<DiskDevice>, index: usize, store: &SeriesStore) -> (r: DetailPane)
    requires
        forall|i: int| 0 <= i < disks@.len() ==> (#[trigger] disks@[i]).wf(),
    ensures
        is_usage_pane(r, disks@, index as int, *store),
{
    if index >= disks.len() {
        return DetailPane::Empty;
    }
    let d = &disks[index];
    let window = match store.get_used(&d.name) {
        Some(w) => w,
        None => {
            return DetailPane::Empty;
        },
    };
    let used = d.get_used_bytes();
    let used_label = byte_string(used);
    let free_label = byte_string(d.available_bytes);
    let size_label = byte_string(d.size_bytes);
    let used_tenths = d.percent_used_tenths();
    let free_tenths_val = d.percent_free_tenths();

    let mut title = d.name.clone();
    title.append("  \u{2193}Used [");
    let used_centered = center_in_10(used_label);
    title.append(used_centered.as_str());
    title.append(" (");
    let used_pct = tenths_to_dec(used_tenths);
    title.append(used_pct.as_str());
    title.append("%)] Free [");
    let free_centered = center_in_10(free_label);
    title.append(free_centered.as_str());
    title.append(" (");
    let free_pct = tenths_to_dec(free_tenths_val);
    title.append(free_pct.as_str());
    title.append("%)] Size [");
    let size_centered = center_in_10(size_label);
    title.append(size_centered.as_str());
    title.append("]");
    proof {
        assert(title@ =~= usage_title(*d));
    }

    let scale: u64 = if d.size_bytes == 0 {
        1
    } else {
        d.size_bytes
    };
    let data = crate::model::copy_samples(window);
    let strip = Strip { title, data, scale, color: PanelColor::LightYellow };

    let mut identity: Vec<LabeledValue> = Vec::new();
    identity.push(LabeledValue { label: String::from_str("Name:                  "), value: d.name.clone() });
    identity.push(
        LabeledValue { label: String::from_str("File System            "), value: d.file_system.clone() },
    );
    identity.push(
        LabeledValue { label: String::from_str("Mount Point:           "), value: d.mount_point.clone() },
    );

    let mut size_facts: Vec<LabeledValue> = Vec::new();
    size_facts.push(
        LabeledValue { label: String::from_str("Size:                  "), value: byte_string(d.size_bytes) },
    );
    size_facts.push(
        LabeledValue { label: String::from_str("Used                   "), value: byte_string(used) },
    );
    size_facts.push(
        LabeledValue { label: String::from_str("Free:                  "), value: byte_string(d.available_bytes) },
    );

    DetailPane::Usage { strip, identity, size_facts }
}

} // verus!
