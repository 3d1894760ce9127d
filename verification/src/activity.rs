//! The activity view: two intensity strips of aggregate disk read and write
//! throughput, each scaled to its own recent maximum and labeled with the
//! current rate, the windowed peak rate, and the top-consuming process.

use vstd::prelude::*;
use vstd::string::StringExecFns;
use crate::bytefmt::{byte_label, byte_string};
use crate::lookup::{attribution, attribution_label};
use crate::model::{DetailPane, DiskSnapshot, PanelColor, SeriesStore, Strip};
use crate::scale::{local_max, local_max_spec, scale_of, strip_scale};
use crate::text::{center10, center_in_10};

verus! {

/// The title line of one activity strip: the direction prefix, the current
/// rate, the windowed peak rate (both centered byte labels), and the
/// attribution of the top-consuming process.
pub open spec fn activity_title(
    prefix: Seq<char>,
    current: u64,
    window: Seq<u64>,
    attr: Seq<char>,
) -> Seq<char> {
    prefix + "["@ + center10(byte_label(current)) + "/s] Max ["@ + center10(
        byte_label(local_max_spec(window)),
    ) + "/s] "@ + attr
}

/// What the activity view must produce: either both strips, each scaled to
/// its own window's maximum, or nothing at all when either history window is
/// absent — never a partial frame.
pub open spec fn is_activity_pane(r: DetailPane, snap: DiskSnapshot, store: SeriesStore) -> bool {
    match r {
        DetailPane::Activity { read, write } => {
            &&& store.io_read is Some
            &&& store.io_write is Some
            &&& read.data@ == store.io_read->Some_0@
            &&& read.scale == strip_scale(store.io_read->Some_0@)
            &&& read.title@ == activity_title(
                "R "@,
                snap.disk_read,
                store.io_read->Some_0@,
                attribution_label(snap.processes@, snap.top_disk_reader_pid),
            )
            &&& read.color == PanelColor::LightYellow
            &&& write.data@ == store.io_write->Some_0@
            &&& write.scale == strip_scale(store.io_write->Some_0@)
            &&& write.title@ == activity_title(
                "W "@,
                snap.disk_write,
                store.io_write->Some_0@,
                attribution_label(snap.processes@, snap.top_disk_writer_pid),
            )
            &&& write.color == PanelColor::LightMagenta
        },
        DetailPane::Empty => store.io_read is None || store.io_write is None,
        _ => false,
    }
}

/// Builds one activity strip from its direction prefix, the current rate,
/// the fetched history window and the attribution label.
fn activity_strip(prefix: &str, current: u64, window: &Vec<u64>, attr: String, color: PanelColor)
    -> (r: Strip)
    ensures
        r.data@ == window@,
        r.scale == strip_scale(window@),
        r.title@ == activity_title(prefix@, current, window@, attr@),
        r.color == color,
{
    let cur_label = byte_string(current);
    let peak = local_max(window);
    let peak_label = byte_string(peak);
    let mut title = String::from_str(prefix);
    title.append("[");
    let cur_centered = center_in_10(cur_label);
    title.append(cur_centered.as_str());
    title.append("/s] Max [");
    let peak_centered = center_in_10(peak_label);
    title.append(peak_centered.as_str());
    title.append("/s] ");
    title.append(attr.as_str());
    let scale = scale_of(window);
    let data = crate::model::copy_samples(window);
    proof {
        assert(title@ =~= activity_title(prefix@, current, window@, attr@));
    }
    Strip { title, data, scale, color }
}

/// Renders the activity view: fetches the read and write history windows and
/// produces both strips, or nothing when either window is absent.
pub fn activity_view(snap: &DiskSnapshot, store: &SeriesStore) -> (r: DetailPane)
    ensures
        is_activity_pane(r, *snap, *store),
{
    let h_read = match &store.io_read {
        Some(h) => h,
        None => {
            return DetailPane::Empty;
        },
    };
    let h_write = match &store.io_write {
        Some(h) => h,
        None => {
            return DetailPane::Empty;
        },
    };
    let top_reader = attribution(&snap.processes, snap.top_disk_reader_pid);
    let read = activity_strip(
        "R ",
        snap.disk_read,
        h_read,
        top_reader,
        PanelColor::LightYellow,
    );
    let top_writer = attribution(&snap.processes, snap.top_disk_writer_pid);
    let write = activity_strip(
        "W ",
        snap.disk_write,
        h_write,
        top_writer,
        PanelColor::LightMagenta,
    );
    DetailPane::Activity { read, write }
}

} // verus!
