//! Laws of the panel stated across its pieces and proved once for all
//! inputs.

use vstd::prelude::*;
use crate::model::{alert_style, healthy_style, DiskDevice};
use crate::panel::{entry_style, selector_model};

verus! {

/// The selector list has exactly one entry per input disk, and an entry is
/// alert-styled exactly when its disk's free-space ratio is below ten
/// percent — whatever index is selected: two renders of the same disks that
/// differ only in selection style every entry alike.
pub proof fn lemma_selector_styles(disks: Seq<DiskDevice>, sel1: int, sel2: int)
    ensures
        selector_model(disks, sel1).len() == disks.len(),
        forall|i: int|
            0 <= i < disks.len() ==> #[trigger] selector_model(disks, sel1)[i].1 == selector_model(
                disks,
                sel2,
            )[i].1,
        forall|i: int|
            0 <= i < disks.len() ==> (#[trigger] selector_model(disks, sel1)[i].1 == alert_style()
                <==> disks[i].low_free()),
{
    assert forall|i: int| 0 <= i < disks.len() implies (#[trigger] selector_model(disks, sel1)[i].1
        == alert_style() <==> disks[i].low_free()) by {
        assert(entry_style(disks[i]) == if disks[i].low_free() {
            alert_style()
        } else {
            healthy_style()
        });
        assert(alert_style() != healthy_style());
    }
}

} // verus!
