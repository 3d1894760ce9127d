use disk_panel::model::{
    DetailPane, DiskDevice, DiskPanel, DiskSnapshot, DisplayMode, PanelColor, ProcessInfo,
    SeriesStore, TextStyle, UsedSeries,
};
use disk_panel::render_disk;
use disk_panel::scale::{local_max, scale_of};

fn disk(name: &str, mount: &str, size: u64, avail: u64) -> DiskDevice {
    DiskDevice {
        name: String::from(name),
        file_system: String::from("ext4"),
        mount_point: String::from(mount),
        size_bytes: size,
        available_bytes: avail,
    }
}

fn empty_store() -> SeriesStore {
    SeriesStore { io_read: None, io_write: None, used_space: Vec::new() }
}

fn snapshot(disks: Vec<DiskDevice>) -> DiskSnapshot {
    DiskSnapshot {
        disks,
        disk_read: 0,
        disk_write: 0,
        top_disk_reader_pid: None,
        top_disk_writer_pid: None,
        processes: Vec::new(),
    }
}

fn alert() -> TextStyle {
    TextStyle { color: PanelColor::Red, bold: true }
}

fn healthy() -> TextStyle {
    TextStyle { color: PanelColor::Green, bold: false }
}

#[test]
fn selector_one_entry_per_disk_alert_iff_low_free() {
    let snap = snapshot(vec![
        disk("d0", "/a", 1000, 50),
        disk("d1", "/b", 1000, 900),
        disk("d2", "/c", 1000, 100),
        disk("d3", "/z", 0, 0),
    ]);
    let store = empty_store();
    let panel: DiskPanel = render_disk(&snap, &store, DisplayMode::Activity, 0);
    assert_eq!(panel.selector.len(), 4);
    assert_eq!(panel.selector_title, "File Systems [(a)ctivity/usage]");
    assert_eq!(panel.selector[0].text, "→  5%: /a");
    assert_eq!(panel.selector[0].style, alert());
    assert_eq!(panel.selector[1].text, "  90%: /b");
    assert_eq!(panel.selector[1].style, healthy());
    // exactly ten percent free is not low
    assert_eq!(panel.selector[2].text, "  10%: /c");
    assert_eq!(panel.selector[2].style, healthy());
    // a zero-size device counts as low on space
    assert_eq!(panel.selector[3].text, "   0%: /z");
    assert_eq!(panel.selector[3].style, alert());
}

#[test]
fn selector_styles_do_not_depend_on_selection() {
    let disks = vec![disk("d0", "/a", 1000, 50), disk("d1", "/b", 1000, 900)];
    let snap = snapshot(disks);
    let store = empty_store();
    let p0 = render_disk(&snap, &store, DisplayMode::Activity, 0);
    let p1 = render_disk(&snap, &store, DisplayMode::Activity, 1);
    for i in 0..2 {
        assert_eq!(p0.selector[i].style, p1.selector[i].style);
    }
    assert_eq!(p0.selector[0].text, "→  5%: /a");
    assert_eq!(p1.selector[0].text, "   5%: /a");
    assert_eq!(p0.selector[1].text, "  90%: /b");
    assert_eq!(p1.selector[1].text, "→ 90%: /b");
}

#[test]
fn out_of_bounds_selection_renders_selector_but_no_detail() {
    let snap = snapshot(vec![disk("d0", "/a", 1000, 500)]);
    let mut store = empty_store();
    store.used_space.push(UsedSeries { name: String::from("d0"), data: vec![1, 2, 3] });
    let panel = render_disk(&snap, &store, DisplayMode::Usage, 7);
    assert!(matches!(panel.detail, DetailPane::Empty));
    assert_eq!(panel.selector.len(), 1);
    assert_eq!(panel.selector[0].text, "  50%: /a");
    assert_eq!(panel.selector[0].style, healthy());
}

#[test]
fn activity_local_max_is_window_maximum() {
    assert_eq!(local_max(&vec![10, 50, 30]), 50);
    assert_eq!(local_max(&vec![5, 5, 5]), 5);
    assert_eq!(local_max(&vec![]), 1);
    assert_eq!(scale_of(&vec![]), 1);
    assert_eq!(scale_of(&vec![0, 0, 0]), 1);
    assert_eq!(scale_of(&vec![10, 50, 30]), 50);
}

#[test]
fn activity_absent_read_series_draws_nothing() {
    let snap = snapshot(vec![disk("d0", "/a", 1000, 500)]);
    let store = SeriesStore {
        io_read: None,
        io_write: Some(vec![5, 5, 5]),
        used_space: Vec::new(),
    };
    let panel = render_disk(&snap, &store, DisplayMode::Activity, 0);
    assert!(matches!(panel.detail, DetailPane::Empty));
}

#[test]
fn activity_absent_write_series_draws_nothing() {
    let snap = snapshot(vec![disk("d0", "/a", 1000, 500)]);
    let store = SeriesStore {
        io_read: Some(vec![10, 50, 30]),
        io_write: None,
        used_space: Vec::new(),
    };
    let panel = render_disk(&snap, &store, DisplayMode::Activity, 0);
    assert!(matches!(panel.detail, DetailPane::Empty));
}

#[test]
fn activity_empty_window_scales_by_one() {
    let snap = snapshot(vec![disk("d0", "/a", 1000, 500)]);
    let store = SeriesStore {
        io_read: Some(vec![]),
        io_write: Some(vec![0, 0]),
        used_space: Vec::new(),
    };
    let panel = render_disk(&snap, &store, DisplayMode::Activity, 0);
    match panel.detail {
        DetailPane::Activity { read, write } => {
            assert_eq!(read.scale, 1);
            assert_eq!(read.data, Vec::<u64>::new());
            // an all-zero window is also floored at one
            assert_eq!(write.scale, 1);
            assert_eq!(write.data, vec![0, 0]);
        },
        _ => panic!("expected the activity pane"),
    }
}

#[test]
fn percent_free_reported_in_tenths() {
    let low = disk("d0", "/a", 1000, 50);
    assert_eq!(low.percent_free_tenths(), 50);
    assert_eq!(low.percent_free_whole(), 5);
    assert!(low.is_low_free());
    let roomy = disk("d1", "/b", 1000, 900);
    assert_eq!(roomy.percent_free_tenths(), 900);
    assert_eq!(roomy.percent_free_whole(), 90);
    assert!(!roomy.is_low_free());
    assert_eq!(low.get_used_bytes(), 950);
}

#[test]
fn usage_end_to_end_strip_and_columns() {
    let snap = snapshot(vec![disk("d0", "/", 1000, 50), disk("d1", "/b", 1000, 900)]);
    let mut store = empty_store();
    store.used_space.push(UsedSeries { name: String::from("d0"), data: vec![100, 200, 150] });
    let panel = render_disk(&snap, &store, DisplayMode::Usage, 0);
    match panel.detail {
        DetailPane::Usage { strip, identity, size_facts } => {
            assert_eq!(strip.data, vec![100, 200, 150]);
            assert_eq!(strip.scale, 1000);
            assert_eq!(strip.color, PanelColor::LightYellow);
            assert_eq!(
                strip.title,
                "d0  ↓Used [   950B    (95.0%)] Free [   50B     (5.0%)] Size [  1000B   ]",
            );
            assert_eq!(identity.len(), 3);
            assert_eq!(identity[0].label, "Name:                  ");
            assert_eq!(identity[0].value, "d0");
            assert_eq!(identity[1].label, "File System            ");
            assert_eq!(identity[1].value, "ext4");
            assert_eq!(identity[2].label, "Mount Point:           ");
            assert_eq!(identity[2].value, "/");
            assert_eq!(size_facts.len(), 3);
            assert_eq!(size_facts[0].label, "Size:                  ");
            assert_eq!(size_facts[0].value, "1000B");
            assert_eq!(size_facts[1].label, "Used                   ");
            assert_eq!(size_facts[1].value, "950B");
            assert_eq!(size_facts[2].label, "Free:                  ");
            assert_eq!(size_facts[2].value, "50B");
        },
        _ => panic!("expected the usage pane"),
    }
}

#[test]
fn usage_untracked_series_draws_nothing() {
    let snap = snapshot(vec![disk("d0", "/", 1000, 50)]);
    let mut store = empty_store();
    store.used_space.push(UsedSeries { name: String::from("other"), data: vec![1] });
    let panel = render_disk(&snap, &store, DisplayMode::Usage, 0);
    assert!(matches!(panel.detail, DetailPane::Empty));
}

#[test]
fn activity_end_to_end_titles_and_attribution() {
    let mut snap = snapshot(vec![disk("d0", "/", 1000, 500)]);
    snap.disk_read = 100;
    snap.disk_write = 200;
    snap.top_disk_reader_pid = Some(42);
    snap.processes.push(ProcessInfo {
        pid: 42,
        name: String::from("proc"),
        user_name: String::from("u"),
    });
    let store = SeriesStore {
        io_read: Some(vec![10, 50, 30]),
        io_write: Some(vec![5, 5, 5]),
        used_space: Vec::new(),
    };
    let panel = render_disk(&snap, &store, DisplayMode::Activity, 0);
    match panel.detail {
        DetailPane::Activity { read, write } => {
            assert_eq!(read.title, "R [   100B   /s] Max [   50B    /s] [42 - proc - u]");
            assert_eq!(read.data, vec![10, 50, 30]);
            assert_eq!(read.scale, 50);
            assert_eq!(read.color, PanelColor::LightYellow);
            // no top-writer pid was supplied, so the label stays empty
            assert_eq!(write.title, "W [   200B   /s] Max [    5B    /s] ");
            assert_eq!(write.data, vec![5, 5, 5]);
            assert_eq!(write.scale, 5);
            assert_eq!(write.color, PanelColor::LightMagenta);
        },
        _ => panic!("expected the activity pane"),
    }
}

#[test]
fn attribution_of_exited_process_is_empty() {
    let mut snap = snapshot(vec![disk("d0", "/", 1000, 500)]);
    snap.disk_read = 1;
    snap.top_disk_reader_pid = Some(999);
    snap.processes.push(ProcessInfo {
        pid: 42,
        name: String::from("proc"),
        user_name: String::from("u"),
    });
    let store = SeriesStore {
        io_read: Some(vec![2]),
        io_write: Some(vec![3]),
        used_space: Vec::new(),
    };
    let panel = render_disk(&snap, &store, DisplayMode::Activity, 0);
    match panel.detail {
        DetailPane::Activity { read, .. } => {
            assert_eq!(read.title, "R [    1B    /s] Max [    2B    /s] ");
        },
        _ => panic!("expected the activity pane"),
    }
}

#[test]
fn byte_labels_scale_to_the_fitting_unit() {
    let snap = snapshot(vec![disk("big", "/big", 1500000, 1024)]);
    let mut store = empty_store();
    store.used_space.push(UsedSeries { name: String::from("big"), data: vec![7] });
    let panel = render_disk(&snap, &store, DisplayMode::Usage, 0);
    match panel.detail {
        DetailPane::Usage { size_facts, .. } => {
            assert_eq!(size_facts[0].value, "1.50MB");
            assert_eq!(size_facts[1].value, "1.50MB");
            assert_eq!(size_facts[2].value, "1.02KB");
        },
        _ => panic!("expected the usage pane"),
    }
}

#[test]
fn empty_disk_list_renders_empty_selector() {
    let snap = snapshot(Vec::new());
    let store = empty_store();
    let panel = render_disk(&snap, &store, DisplayMode::Usage, 0);
    assert_eq!(panel.selector.len(), 0);
    assert!(matches!(panel.detail, DetailPane::Empty));
}

#[test]
fn byte_label_boundaries() {
    let snap = snapshot(vec![disk("b", "/b", 1023, 0)]);
    let mut store = empty_store();
    store.used_space.push(UsedSeries { name: String::from("b"), data: vec![1] });
    let panel = render_disk(&snap, &store, DisplayMode::Usage, 0);
    match panel.detail {
        DetailPane::Usage { size_facts, .. } => {
            // just past the decimal unit boundary
            assert_eq!(size_facts[0].value, "1.02KB");
            assert_eq!(size_facts[1].value, "1.02KB");
            assert_eq!(size_facts[2].value, "0B");
        },
        _ => panic!("expected the usage pane"),
    }
}

#[test]
fn zero_size_device_scales_by_one() {
    let snap = snapshot(vec![disk("z", "/z", 0, 0)]);
    let mut store = empty_store();
    store.used_space.push(UsedSeries { name: String::from("z"), data: vec![0, 0] });
    let panel = render_disk(&snap, &store, DisplayMode::Usage, 0);
    match panel.detail {
        DetailPane::Usage { strip, .. } => {
            assert_eq!(strip.scale, 1);
            assert_eq!(
                strip.title,
                "z  ↓Used [    0B     (100.0%)] Free [    0B     (0.0%)] Size [    0B    ]",
            );
        },
        _ => panic!("expected the usage pane"),
    }
}

#[test]
fn duplicate_series_names_resolve_to_the_first() {
    let snap = snapshot(vec![disk("d0", "/", 1000, 500)]);
    let mut store = empty_store();
    store.used_space.push(UsedSeries { name: String::from("d0"), data: vec![1, 2] });
    store.used_space.push(UsedSeries { name: String::from("d0"), data: vec![9, 9] });
    let panel = render_disk(&snap, &store, DisplayMode::Usage, 0);
    match panel.detail {
        DetailPane::Usage { strip, .. } => {
            assert_eq!(strip.data, vec![1, 2]);
        },
        _ => panic!("expected the usage pane"),
    }
}

#[test]
fn duplicate_pids_resolve_to_the_first() {
    let mut snap = snapshot(vec![disk("d0", "/", 1000, 500)]);
    snap.disk_read = 1;
    snap.top_disk_reader_pid = Some(7);
    snap.processes.push(ProcessInfo {
        pid: 7,
        name: String::from("first"),
        user_name: String::from("a"),
    });
    snap.processes.push(ProcessInfo {
        pid: 7,
        name: String::from("second"),
        user_name: String::from("b"),
    });
    let store = SeriesStore {
        io_read: Some(vec![1]),
        io_write: Some(vec![1]),
        used_space: Vec::new(),
    };
    let panel = render_disk(&snap, &store, DisplayMode::Activity, 0);
    match panel.detail {
        DetailPane::Activity { read, .. } => {
            assert_eq!(read.title, "R [    1B    /s] Max [    1B    /s] [7 - first - a]");
        },
        _ => panic!("expected the activity pane"),
    }
}
