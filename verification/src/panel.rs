//! The panel dispatcher: renders the file-system selector list with
//! per-entry emphasis and picks the detail renderer by display mode.

use vstd::prelude::*;
use vstd::string::StringExecFns;
use crate::activity::{activity_view, is_activity_pane};
use crate::model::{
    alert_style, healthy_style, free_whole, DiskDevice, DiskPanel, DisplayMode, DiskSnapshot,
    SelectorEntry, SeriesStore, TextStyle,
};
use crate::text::{right3, u64_right3};
use crate::usage::{is_usage_pane, usage_view};

verus! {

/// One selector line: a marker glyph on the selected entry, the free-space
/// percent right-aligned in three columns, and the mount point.
pub open spec fn selector_line(d: DiskDevice, selected: bool) -> Seq<char> {
    (if selected {
        "\u{2192}"@
    } else {
        " "@
    }) + right3(free_whole(d.available_bytes, d.size_bytes)) + "%: "@ + d.mount_point@
}

/// The style of one selector entry: alert when the disk is low on free
/// space, healthy otherwise — never dependent on which entry is selected.
pub open spec fn entry_style(d: DiskDevice) -> TextStyle {
    if d.low_free() {
        alert_style()
    } else {
        healthy_style()
    }
}

/// The whole selector list as (text, style) pairs: one entry per disk, in
/// snapshot order, with the marker on the selected index.
pub open spec fn selector_model(disks: Seq<DiskDevice>, sel: int) -> Seq<(Seq<char>, TextStyle)> {
    Seq::new(disks.len(), |i: int| (selector_line(disks[i], i == sel), entry_style(disks[i])))
}

/// Builds one selector entry.
fn selector_entry(d: &DiskDevice, selected: bool) -> (r: SelectorEntry)
    requires
        d.wf(),
    ensures
        r.text@ == selector_line(*d, selected),
        r.style == entry_style(*d),
{
    let pct = d.percent_free_whole();
    let mut text = if selected {
        String::from_str("\u{2192}")
    } else {
        String::from_str(" ")
    };
    let pct_text = u64_right3(pct);
    text.append(pct_text.as_str());
    text.append("%: ");
    text.append(d.mount_point.as_str());
    proof {
        assert(text@ =~= selector_line(*d, selected));
    }
    let style = if d.is_low_free() {
        TextStyle { color: crate::model::PanelColor::Red, bold: true }
    } else {
        TextStyle { color: crate::model::PanelColor::Green, bold: false }
    };
    SelectorEntry { text, style }
}

/// Renders the disk panel for one frame: the selector list over all disks of
/// the snapshot, and the detail pane picked by display mode. An out-of-range
/// selected index never faults: the selector still renders completely, with
/// no entry marked, and the usage detail pane stays empty.
pub fn render_disk(
    snap: &DiskSnapshot,
    store: &SeriesStore,
    display_mode: DisplayMode,
    selected_index: usize,
) -> (r: DiskPanel)
    requires
        forall|i: int| 0 <= i < snap.disks@.len() ==> (#[trigger] snap.disks@[i]).wf(),
    ensures
        r.selector@.len() == snap.disks@.len(),
        forall|i: int|
            0 <= i < snap.disks@.len() ==> (#[trigger] r.selector@[i]).text@ == selector_model(
                snap.disks@,
                selected_index as int,
            )[i].0,
        forall|i: int|
            0 <= i < snap.disks@.len() ==> (#[trigger] r.selector@[i]).style == selector_model(
                snap.disks@,
                selected_index as int,
            )[i].1,
        r.selector_title@ == "File Systems [(a)ctivity/usage]"@,
        display_mode == DisplayMode::Activity ==> is_activity_pane(r.detail, *snap, *store),
        display_mode == DisplayMode::Usage ==> is_usage_pane(
            r.detail,
            snap.disks@,
            selected_index as int,
            *store,
        ),
        display_mode == DisplayMode::Usage && selected_index >= snap.disks@.len()
            ==> r.detail is Empty,
{
    let detail = if let DisplayMode::Activity = display_mode {
        activity_view(snap, store)
    } else {
        usage_view(&snap.disks, selected_index, store)
    };

    let mut selector: Vec<SelectorEntry> = Vec::new();
    let mut i: usize = 0;
    while i < snap.disks.len()
        invariant
            0 <= i <= snap.disks@.len(),
            selector@.len() == i,
            forall|i: int|
                0 <= i < snap.disks@.len() ==> (#[trigger] snap.disks@[i]).wf(),
            forall|j: int|
                0 <= j < i ==> (#[trigger] selector@[j]).text@ == selector_line(
                    snap.disks@[j],
                    j == selected_index as int,
                ),
            forall|j: int|
                0 <= j < i ==> (#[trigger] selector@[j]).style == entry_style(snap.disks@[j]),
        decreases snap.disks@.len() - i,
    {
        let entry = selector_entry(&snap.disks[i], i == selected_index);
        selector.push(entry);
        i = i + 1;
    }

    let selector_title = String::from_str("File Systems [(a)ctivity/usage]");
    DiskPanel { selector_title, selector, detail }
}

} // verus!
