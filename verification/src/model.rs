//! Data model: the immutable inputs the renderer reads (disks, history
//! windows, process table, display state) and the panel description it
//! produces.

use vstd::prelude::*;

verus! {

/// The colors the panel uses for emphasis.
#[derive(Clone, Copy, Debug, PartialEq, Eq, Structural)]
pub enum PanelColor {
    Red,
    Green,
    LightYellow,
    LightMagenta,
}

/// Style of one piece of text: a color and an optional bold modifier.
#[derive(Clone, Copy, Debug, PartialEq, Eq, Structural)]
pub struct TextStyle {
    pub color: PanelColor,
    pub bold: bool,
}

/// Style of a selector entry whose file system is low on free space.
pub open spec fn alert_style() -> TextStyle {
    TextStyle { color: PanelColor::Red, bold: true }
}

/// Style of a selector entry with a healthy amount of free space.
pub open spec fn healthy_style() -> TextStyle {
    TextStyle { color: PanelColor::Green, bold: false }
}

/// Which detail renderer runs: live I/O activity or static usage facts.
#[derive(Clone, Copy, Debug, PartialEq, Eq, Structural)]
pub enum DisplayMode {
    Activity,
    Usage,
}

/// One file system of the snapshot: identity plus capacity figures.
/// Rebuilt wholesale by the external collector every polling cycle; the
/// renderer only reads it.
pub struct DiskDevice {
    pub name: String,
    pub file_system: String,
    pub mount_point: String,
    pub size_bytes: u64,
    pub available_bytes: u64,
}

/// Free space as a permille-style figure: tenths of a percent, rounded to
/// nearest (half away from zero). A device of size zero reports zero.
pub open spec fn free_tenths(avail: u64, size: u64) -> nat {
    if size == 0 {
        0
    } else {
        ((avail * 1000 + size / 2) / (size as int)) as nat
    }
}

/// Free space as a whole percent, rounded to nearest (half away from zero).
pub open spec fn free_whole(avail: u64, size: u64) -> nat {
    if size == 0 {
        0
    } else {
        ((avail * 100 + size / 2) / (size as int)) as nat
    }
}

impl DiskDevice {
    /// The invariant the external collector maintains: a disk never reports
    /// more available space than its capacity.
    pub open spec fn wf(self) -> bool {
        self.available_bytes <= self.size_bytes
    }

    pub open spec fn spec_used_bytes(self) -> u64
        recommends
            self.wf(),
    {
        (self.size_bytes - self.available_bytes) as u64
    }

    pub fn get_used_bytes(&self) -> (r: u64)
        requires
            self.wf(),
        ensures
            r == self.spec_used_bytes(),
    {
        self.size_bytes - self.available_bytes
    }

    /// Whether the exact free-space ratio is below ten percent, the selector
    /// list's alert threshold. A device of size zero counts as low.
    pub open spec fn low_free(self) -> bool {
        self.size_bytes == 0 || self.available_bytes * 10 < self.size_bytes
    }

    pub fn is_low_free(&self) -> (r: bool)
        ensures
            r == self.low_free(),
    {
        self.size_bytes == 0 || (self.available_bytes as u128) * 10 < (self.size_bytes as u128)
    }

    /// Percent of free space in rounded tenths of a percent.
    pub fn percent_free_tenths(&self) -> (r: u64)
        requires
            self.wf(),
        ensures
            r == free_tenths(self.available_bytes, self.size_bytes),
            r <= 1000,
    {
        if self.size_bytes == 0 {
            0
        } else {
            let s: u128 = self.size_bytes as u128;
            let num: u128 = (self.available_bytes as u128) * 1000 + s / 2;
            let q: u128 = num / s;
            proof {
                vstd::arithmetic::mul::lemma_mul_inequality(
                    self.available_bytes as int,
                    self.size_bytes as int,
                    1000,
                );
                vstd::arithmetic::div_mod::lemma_div_is_strictly_smaller(
                    self.size_bytes as int,
                    2,
                );
                vstd::arithmetic::div_mod::lemma_multiply_divide_lt(
                    num as int,
                    self.size_bytes as int,
                    1001,
                );
            }
            q as u64
        }
    }

    /// Percent of free space rounded to a whole number.
    pub fn percent_free_whole(&self) -> (r: u64)
        requires
            self.wf(),
        ensures
            r == free_whole(self.available_bytes, self.size_bytes),
            r <= 100,
    {
        if self.size_bytes == 0 {
            0
        } else {
            let s: u128 = self.size_bytes as u128;
            let num: u128 = (self.available_bytes as u128) * 100 + s / 2;
            let q: u128 = num / s;
            proof {
                vstd::arithmetic::mul::lemma_mul_inequality(
                    self.available_bytes as int,
                    self.size_bytes as int,
                    100,
                );
                vstd::arithmetic::div_mod::lemma_div_is_strictly_smaller(
                    self.size_bytes as int,
                    2,
                );
                vstd::arithmetic::div_mod::lemma_multiply_divide_lt(
                    num as int,
                    self.size_bytes as int,
                    101,
                );
            }
            q as u64
        }
    }

    /// Percent of used space in rounded tenths of a percent: the complement
    /// of the free-space figure.
    pub fn percent_used_tenths(&self) -> (r: u64)
        requires
            self.wf(),
        ensures
            r == 1000 - free_tenths(self.available_bytes, self.size_bytes),
    {
        let f = self.percent_free_tenths();
        1000 - f
    }
}

/// Copies a history window's samples into the panel description.
pub fn copy_samples(w: &Vec<u64>) -> (r: Vec<u64>)
    ensures
        r@ == w@,
{
    let mut r: Vec<u64> = Vec::new();
    let mut i: usize = 0;
    while i < w.len()
        invariant
            0 <= i <= w@.len(),
            r@ == w@.take(i as int),
        decreases w@.len() - i,
    {
        r.push(w[i]);
        proof {
            assert(w@.take(i + 1) =~= w@.take(i as int).push(w@[i as int]));
        }
        i = i + 1;
    }
    proof {
        assert(w@.take(w@.len() as int) =~= w@);
    }
    r
}

/// One process of the process table, as far as attribution labels need it.
pub struct ProcessInfo {
    pub pid: u32,
    pub name: String,
    pub user_name: String,
}

/// One file system's used-space history window, keyed by device name.
pub struct UsedSeries {
    pub name: String,
    pub data: Vec<u64>,
}

/// The history windows the external time-series store answered for this
/// frame: aggregate read and write throughput, and used space per device.
/// A series the store does not track yet is simply absent.
pub struct SeriesStore {
    pub io_read: Option<Vec<u64>>,
    pub io_write: Option<Vec<u64>>,
    pub used_space: Vec<UsedSeries>,
}

/// The immutable metrics snapshot one render pass reads.
pub struct DiskSnapshot {
    pub disks: Vec<DiskDevice>,
    pub disk_read: u64,
    pub disk_write: u64,
    pub top_disk_reader_pid: Option<u32>,
    pub top_disk_writer_pid: Option<u32>,
    pub processes: Vec<ProcessInfo>,
}

/// One line of the file-system selector list.
pub struct SelectorEntry {
    pub text: String,
    pub style: TextStyle,
}

/// One intensity strip: its title line, the samples to draw, the scale
/// denominator (never zero), and its color.
pub struct Strip {
    pub title: String,
    pub data: Vec<u64>,
    pub scale: u64,
    pub color: PanelColor,
}

/// One row of the usage readout's static columns; the value is drawn in
/// green, distinct from its label.
pub struct LabeledValue {
    pub label: String,
    pub value: String,
}

/// What the detail area shows this frame. `Empty` is the silent-degradation
/// path: a missing history window or an out-of-range selection draws nothing.
pub enum DetailPane {
    Activity { read: Strip, write: Strip },
    Usage { strip: Strip, identity: Vec<LabeledValue>, size_facts: Vec<LabeledValue> },
    Empty,
}

/// The full panel description for one frame.
pub struct DiskPanel {
    pub selector_title: String,
    pub selector: Vec<SelectorEntry>,
    pub detail: DetailPane,
}

} // verus!
