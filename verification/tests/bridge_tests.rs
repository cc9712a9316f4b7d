use loopfetch::driver::LoopFetch;
use loopfetch::script_bridge::{ScriptBridge, ScriptError, layout_name, order_names};
use loopfetch::settings::{Layout, Order, Settings};
use loopfetch::snapshot::TelemetrySnapshot;
use loopfetch::style::Word;

const END_TO_END_SRC: &str = r##"
SETTINGS = { layout = "vertical" }
INFO_LINES = { { { text = "hi", style = { fg = "#00ff00" } } } }
"##;

fn settings_fields(s: &Settings) -> (u32, u32, u32, Layout, Order, String) {
    (s.fps, s.tps, s.rps, s.layout, s.order, s.vars.comp.clone())
}

fn flatten(lines: &Vec<Vec<Word>>) -> Vec<(String, Option<(u8, u8, u8)>, Option<(u8, u8, u8)>, bool, bool)> {
    let mut out = Vec::new();
    for line in lines {
        for w in line {
            out.push((w.text.clone(), w.style.fg, w.style.bg, w.style.bold, w.style.italic));
        }
    }
    out
}

#[test]
fn end_to_end_cycle() {
    let mut app = LoopFetch::init(END_TO_END_SRC);
    app.set_snapshot(TelemetrySnapshot::default());
    let r = app.run_script_pass();
    assert!(matches!(r, Ok(0)));
    assert_eq!(app.settings.layout(), Layout::Vertical);
    assert_eq!(app.settings.fps(), 24);
    assert_eq!(app.info_box.lines.len(), 1);
    assert_eq!(app.info_box.lines[0].len(), 1);
    let w = &app.info_box.lines[0][0];
    assert_eq!(w.text.as_str(), "hi");
    assert_eq!(w.style.fg, Some((0, 255, 0)));
    assert_eq!(w.style.bg, None);
    assert!(!w.style.bold);
    assert_eq!(app.info_box.max_len, 2);
    assert_eq!(app.asci_box.lines.len(), 10);
    assert_eq!(app.asci_box.max_len, 30);
}

#[test]
fn reload_same_source_is_idempotent() {
    let bridge = ScriptBridge::new(END_TO_END_SRC);
    assert!(bridge.evaluate().is_ok());
    let (s0, l0) = bridge.pull();
    let base_s = settings_fields(&s0);
    let base_l = flatten(&l0);
    let mut bridge = bridge;
    for _ in 0..3 {
        bridge.reload(END_TO_END_SRC);
        assert!(bridge.evaluate().is_ok());
        let (s, l) = bridge.pull();
        assert_eq!(settings_fields(&s), base_s);
        assert_eq!(flatten(&l), base_l);
    }
}

#[test]
fn reload_discards_script_state() {
    // The script counts its own evaluations; a reload must reset the count.
    let src = "COUNT = (COUNT or 0) + 1\nSETTINGS = { fps = COUNT }";
    let mut bridge = ScriptBridge::new(src);
    assert!(bridge.evaluate().is_ok());
    assert!(bridge.evaluate().is_ok());
    let (s, _) = bridge.pull();
    assert_eq!(s.fps, 2);
    bridge.reload(src);
    assert!(bridge.evaluate().is_ok());
    let (s, _) = bridge.pull();
    assert_eq!(s.fps, 1);
}

#[test]
fn broken_script_is_reported_and_recovered() {
    let mut app = LoopFetch::init("this is not a lua program ((");
    let r = app.run_script_pass();
    match r {
        Err(ScriptError::Load(msg)) => assert!(!msg.is_empty()),
        other => panic!("expected a load error, got {:?}", other.is_ok()),
    }
    // Prior settings stay in force.
    assert_eq!(app.settings.fps(), 24);
    assert_eq!(app.settings.layout(), Layout::Horizontal);
    assert_eq!(app.info_box.lines.len(), 0);
}

#[test]
fn runtime_error_in_entry_point_is_reported() {
    let src = "function Update() error('boom') end";
    let bridge = ScriptBridge::new(src);
    match bridge.evaluate() {
        Err(ScriptError::Runtime(msg)) => assert!(msg.contains("boom")),
        _ => panic!("expected a runtime error"),
    }
}

#[test]
fn entry_point_is_invoked_when_present() {
    let src = "function Update() SETTINGS = { fps = 99 } end";
    let bridge = ScriptBridge::new(src);
    assert!(bridge.evaluate().is_ok());
    let (s, _) = bridge.pull();
    assert_eq!(s.fps, 99);
}

#[test]
fn entry_point_absence_is_not_an_error() {
    let bridge = ScriptBridge::new("SETTINGS = { tps = 7 }");
    assert!(bridge.evaluate().is_ok());
    let (s, _) = bridge.pull();
    assert_eq!(s.tps, 7);
}

#[test]
fn pull_of_empty_environment_yields_defaults() {
    let bridge = ScriptBridge::new("");
    assert!(bridge.evaluate().is_ok());
    let (s, lines) = bridge.pull();
    assert_eq!(s.fps, 24);
    assert_eq!(s.tps, 12);
    assert_eq!(s.rps, 3);
    assert_eq!(s.layout, Layout::Horizontal);
    assert_eq!(s.order, Order::InfoFirst);
    assert_eq!(s.vars.comp.as_str(), "unknown");
    assert!(lines.is_empty());
}

#[test]
fn malformed_fields_fall_back_one_by_one() {
    let src = r#"
SETTINGS = { fps = 12.5, tps = 48, rps = 0, layout = 17, order = { "ascii" }, vars = { comp = "picom" } }
"#;
    let bridge = ScriptBridge::new(src);
    assert!(bridge.evaluate().is_ok());
    let (s, _) = bridge.pull();
    assert_eq!(s.fps, 24, "a fractional cadence is malformed and defaults");
    assert_eq!(s.tps, 48);
    assert_eq!(s.rps, 1, "a zero divisor is clamped");
    assert_eq!(s.order, Order::AsciiFirst);
    assert_eq!(s.vars.comp.as_str(), "picom");
}

#[test]
fn malformed_line_entries_keep_indices() {
    let src = r#"
INFO_LINES = { 5, { "nope", { text = "ok", style = {} } }, { { text = "tail" } } }
"#;
    let bridge = ScriptBridge::new(src);
    assert!(bridge.evaluate().is_ok());
    let (_, lines) = bridge.pull();
    assert_eq!(lines.len(), 3);
    assert_eq!(lines[0].len(), 0, "a non-table line degrades to an empty line");
    assert_eq!(lines[1].len(), 2);
    assert_eq!(lines[1][0].text.as_str(), "", "a non-table span degrades to a default span");
    assert_eq!(lines[1][1].text.as_str(), "ok");
    assert_eq!(lines[2][0].text.as_str(), "tail");
    assert_eq!(lines[2][0].style.fg, None);
}

#[test]
fn push_makes_the_snapshot_visible() {
    let src = r#"
INFO_LINES = { { { text = Info.user .. "@" .. Info.host, style = {} },
                { text = Info.disks[1].name, style = {} },
                { text = tostring(Info.ram.total), style = {} } } }
SETTINGS = { vars = { comp = Info.comp } }
"#;
    let mut app = LoopFetch::init(src);
    let mut snap = TelemetrySnapshot::default();
    snap.user = String::from("alice");
    snap.host = String::from("box");
    snap.ram = loopfetch::snapshot::Mem { avail: 1, total: 4096 };
    snap.disks = vec![loopfetch::snapshot::Disk {
        mnt: String::from("/"),
        name: String::from("root"),
        mem: loopfetch::snapshot::Mem { avail: 1, total: 2 },
    }];
    app.set_snapshot(snap);
    let r = app.run_script_pass();
    assert!(matches!(r, Ok(0)));
    assert_eq!(app.info_box.lines[0][0].text.as_str(), "alice@box");
    assert_eq!(app.info_box.lines[0][1].text.as_str(), "root");
    assert_eq!(app.info_box.lines[0][2].text.as_str(), "4096");
    // The free-form slot round-trips: settings -> snapshot -> script -> settings.
    assert_eq!(app.settings.vars().comp.as_str(), "unknown");
}

#[test]
fn settings_are_pushed_for_the_script_to_read() {
    let src = r#"
SETTINGS = { fps = SETTINGS.fps + 1, layout = SETTINGS.layout, order = SETTINGS.order }
"#;
    let mut app = LoopFetch::init(src);
    app.set_snapshot(TelemetrySnapshot::default());
    let r = app.run_script_pass();
    assert!(r.is_ok());
    assert_eq!(app.settings.fps(), 25, "the script saw the pushed default");
    assert_eq!(app.settings.layout(), Layout::Horizontal);
    assert_eq!(app.settings.order(), Order::InfoFirst);
}

#[test]
fn axis_encodings_are_fixed() {
    assert_eq!(layout_name(Layout::Horizontal), "horizontal");
    assert_eq!(layout_name(Layout::Vertical), "vertical");
    assert_eq!(order_names(Order::InfoFirst), ("info", "ascii"));
    assert_eq!(order_names(Order::AsciiFirst), ("ascii", "info"));
}

#[test]
fn wrong_typed_style_flags_fall_back() {
    let src = r#"INFO_LINES = { { { text = "x", style = { bold = "yes", italic = 1 } } } }"#;
    let bridge = ScriptBridge::new(src);
    assert!(bridge.evaluate().is_ok());
    let (_, lines) = bridge.pull();
    assert!(!lines[0][0].style.bold, "a wrong-typed flag falls back to unset");
    assert!(!lines[0][0].style.italic);

    let src = r#"INFO_LINES = { { { text = "x", style = { bold = true } } } }"#;
    let bridge = ScriptBridge::new(src);
    assert!(bridge.evaluate().is_ok());
    let (_, lines) = bridge.pull();
    assert!(lines[0][0].style.bold);
}

#[test]
fn comp_round_trips_through_the_cycle() {
    let mut app = LoopFetch::init(r#"SETTINGS = { vars = { comp = "picom" } }"#);
    app.set_snapshot(TelemetrySnapshot::default());
    assert!(app.run_script_pass().is_ok());
    assert_eq!(app.settings.vars().comp.as_str(), "picom");
    // The next snapshot re-sources the slot from the settings, unchanged.
    app.set_snapshot(TelemetrySnapshot::default());
    assert_eq!(app.snapshot.comp.as_str(), "picom");
}

#[test]
fn request_reload_swaps_program_and_pulses() {
    let mut app = LoopFetch::init("SETTINGS = { fps = 30 }");
    app.set_snapshot(TelemetrySnapshot::default());
    assert!(app.run_script_pass().is_ok());
    assert_eq!(app.settings.fps(), 30);
    app.request_reload("SETTINGS = { fps = 60 }");
    assert!(app.reload.is_reloading());
    assert!(app.run_script_pass().is_ok());
    assert_eq!(app.settings.fps(), 60);
    // The next pass settles the pulse; settings survive the reload.
    let _ = app.begin_tick();
    assert!(!app.reload.is_reloading());
    assert_eq!(app.settings.fps(), 60);
}
