//! The bidirectional native/script bridge.
//!
//! The bridge is the sole owner of the embedded script environment. It
//! pushes the telemetry snapshot and the script-controllable settings into
//! well-known global tables, re-executes the stored script source, and
//! defensively pulls settings and a styled line set back out. Every pull
//! of a script-declared field substitutes a default on absence, wrong type
//! or emptiness, so a broken or no-op script can never crash or freeze a
//! pass; at worst the display degrades to defaults while the telemetry
//! loop keeps running.
//!
//! Within one logic pass the order is fixed: input handling first, then
//! push, evaluate and pull, so the script-pull step is the last writer of
//! the settings each pass.

use vstd::prelude::*;
use vstd::string::*;
use crate::lua_api::{
    call_function, error_message, exec_source, globals_table, new_lua, table_get_bool,
    table_get_function, table_get_str, table_get_str_at, table_get_table, table_get_table_at,
    table_get_u32, table_raw_len, table_set_bool, table_set_i64, table_set_str, table_set_str_at,
    table_set_u32, table_set_u64,
};
use crate::settings::{Layout, Order, RawSettings, Settings, settings_from_raw};
use crate::snapshot::TelemetrySnapshot;
use crate::style::{RawSpan, Word, lines_from_raw};
use crate::text::u64_to_string;

verus! {

/// A recovered script failure: none of these is ever fatal to the process.
pub enum ScriptError {
    /// The script text failed to parse or compile.
    Load(String),
    /// The entry-point call threw during execution.
    Runtime(String),
    /// A native value could not be represented in the script environment.
    Marshal(String),
}

impl ScriptError {
    /// A readable description of the failure.
    pub fn message(&self) -> (r: &str)
        ensures
            (match self {
                ScriptError::Load(m) => r@ == m@,
                ScriptError::Runtime(m) => r@ == m@,
                ScriptError::Marshal(m) => r@ == m@,
            }),
    {
        match self {
            ScriptError::Load(m) => m.as_str(),
            ScriptError::Runtime(m) => m.as_str(),
            ScriptError::Marshal(m) => m.as_str(),
        }
    }
}

/// Saturating counter bump for tallying skipped fields.
fn bump(c: usize) -> (r: usize)
    ensures
        r == if c < usize::MAX {
            c + 1
        } else {
            c as int
        },
{
    if c < usize::MAX {
        c + 1
    } else {
        c
    }
}

/// The script-facing encoding of the layout axis.
pub fn layout_name(l: Layout) -> (s: &'static str)
    ensures
        l == Layout::Horizontal ==> s@ == "horizontal"@,
        l == Layout::Vertical ==> s@ == "vertical"@,
{
    match l {
        Layout::Horizontal => "horizontal",
        Layout::Vertical => "vertical",
    }
}

/// The script-facing encoding of the order axis: the first and second
/// entry of the order list.
pub fn order_names(o: Order) -> (r: (&'static str, &'static str))
    ensures
        o == Order::InfoFirst ==> r.0@ == "info"@ && r.1@ == "ascii"@,
        o == Order::AsciiFirst ==> r.0@ == "ascii"@ && r.1@ == "info"@,
{
    match o {
        Order::InfoFirst => ("info", "ascii"),
        Order::AsciiFirst => ("ascii", "info"),
    }
}

/// Owns the embedded script environment and the current script source.
///
/// The mathematical model of the bridge is the stored source text alone;
/// the environment itself is opaque, and everything read from it flows
/// through the defensive parsing layer.
pub struct ScriptBridge {
    lua: mlua::Lua,
    source: String,
}

impl View for ScriptBridge {
    type V = Seq<char>;

    closed spec fn view(&self) -> Seq<char> {
        self.source@
    }
}

impl ScriptBridge {
    /// A bridge over a fresh environment, holding the given script source.
    pub fn new(source: &str) -> (b: ScriptBridge)
        ensures
            b@ == source@,
    {
        ScriptBridge { lua: new_lua(), source: source.to_owned() }
    }

    /// Atomically replace the script program: store the new source and
    /// discard the old environment for a completely fresh one, so the
    /// script keeps no memory across reloads except what is re-pushed.
    /// The native settings and telemetry state are untouched.
    pub fn reload(&mut self, new_source: &str)
        ensures
            final(self)@ == new_source@,
    {
        self.lua = new_lua();
        self.source = new_source.to_owned();
    }

    /// Serialize the snapshot and the script-controllable settings into
    /// the well-known global tables `SETTINGS` and `Info`.
    ///
    /// The nested table skeleton is installed by executing a fixed Lua
    /// chunk (sized by the disk and media counts), so that every wrapper
    /// call afterwards writes a plain leaf value into a handle of this
    /// environment; the layout and order strings come from the contracted
    /// encoders above. A field the engine rejects is skipped on its own
    /// and tallied in the result; only a skeleton that cannot be installed
    /// or fetched back yields a marshalling error. Either way the native
    /// state is untouched and the cycle continues.
    pub fn push(&self, snap: &TelemetrySnapshot, settings: &Settings) -> (r: Result<
        usize,
        ScriptError,
    >)
        ensures
            r matches Result::Err(e) ==> e is Marshal,
    {
        let mut skeleton = String::from_str(
            "SETTINGS = { order = {} }\nInfo = { ram = {}, vram = {}, disks = {}, media = {} }\n",
        );
        skeleton.append("for i = 1, ");
        skeleton.append(u64_to_string(snap.disks.len() as u64).as_str());
        skeleton.append(" do Info.disks[i] = { mem = {} } end\n");
        skeleton.append("for i = 1, ");
        skeleton.append(u64_to_string(snap.media.len() as u64).as_str());
        skeleton.append(" do Info.media[i] = {} end\n");
        match exec_source(&self.lua, skeleton.as_str()) {
            Result::Err(u) => {
                return Result::Err(
                    ScriptError::Marshal(String::from_str("cannot install script-facing tables")),
                );
            },
            Result::Ok(u) => {},
        }

        let globals = globals_table(&self.lua);
        let mut skipped: usize = 0;

        let st = match table_get_table(&globals, "SETTINGS") {
            Option::Some(t) => t,
            Option::None => {
                return Result::Err(
                    ScriptError::Marshal(String::from_str("cannot fetch settings table")),
                );
            },
        };
        if !table_set_u32(&st, "fps", settings.fps) {
            skipped = bump(skipped);
        }
        if !table_set_u32(&st, "tps", settings.tps) {
            skipped = bump(skipped);
        }
        if !table_set_u32(&st, "rps", settings.rps) {
            skipped = bump(skipped);
        }
        if !table_set_str(&st, "layout", layout_name(settings.layout)) {
            skipped = bump(skipped);
        }
        let (first, second) = order_names(settings.order);
        match table_get_table(&st, "order") {
            Option::Some(ot) => {
                if !table_set_str_at(&ot, 1, first) {
                    skipped = bump(skipped);
                }
                if !table_set_str_at(&ot, 2, second) {
                    skipped = bump(skipped);
                }
            },
            Option::None => {
                skipped = bump(skipped);
            },
        }

        let it = match table_get_table(&globals, "Info") {
            Option::Some(t) => t,
            Option::None => {
                return Result::Err(
                    ScriptError::Marshal(String::from_str("cannot fetch telemetry table")),
                );
            },
        };
        if !table_set_str(&it, "user", snap.user.as_str()) {
            skipped = bump(skipped);
        }
        if !table_set_str(&it, "host", snap.host.as_str()) {
            skipped = bump(skipped);
        }
        if !table_set_str(&it, "device", snap.device.as_str()) {
            skipped = bump(skipped);
        }
        if !table_set_str(&it, "bios", snap.bios.as_str()) {
            skipped = bump(skipped);
        }
        if !table_set_u64(&it, "uptime", snap.uptime) {
            skipped = bump(skipped);
        }
        if !table_set_str(&it, "os_n", snap.os_n.as_str()) {
            skipped = bump(skipped);
        }
        if !table_set_str(&it, "os_v", snap.os_v.as_str()) {
            skipped = bump(skipped);
        }
        if !table_set_str(&it, "kern", snap.kern.as_str()) {
            skipped = bump(skipped);
        }
        if !table_set_str(&it, "log_m", snap.log_m.as_str()) {
            skipped = bump(skipped);
        }
        match &snap.desk_e {
            Option::Some(de) => {
                if !table_set_str(&it, "desk_e", de.as_str()) {
                    skipped = bump(skipped);
                }
            },
            Option::None => {},
        }
        if !table_set_str(&it, "win_m", snap.win_m.as_str()) {
            skipped = bump(skipped);
        }
        if !table_set_str(&it, "win_p", snap.win_p.as_str()) {
            skipped = bump(skipped);
        }
        if !table_set_str(&it, "comp", snap.comp.as_str()) {
            skipped = bump(skipped);
        }
        if !table_set_str(&it, "term", snap.term.as_str()) {
            skipped = bump(skipped);
        }
        if !table_set_str(&it, "shell", snap.shell.as_str()) {
            skipped = bump(skipped);
        }
        if !table_set_str(&it, "text_e", snap.text_e.as_str()) {
            skipped = bump(skipped);
        }
        if !table_set_str(&it, "cpu_n", snap.cpu_n.as_str()) {
            skipped = bump(skipped);
        }
        if !table_set_u32(&it, "cpu_c", snap.cpu_c as u32) {
            skipped = bump(skipped);
        }
        if !table_set_u32(&it, "cpu_u", snap.cpu_u as u32) {
            skipped = bump(skipped);
        }
        if !table_set_i64(&it, "cpu_t_milli", snap.cpu_t_milli) {
            skipped = bump(skipped);
        }
        match table_get_table(&it, "ram") {
            Option::Some(rt) => {
                if !table_set_u64(&rt, "avail", snap.ram.avail) {
                    skipped = bump(skipped);
                }
                if !table_set_u64(&rt, "total", snap.ram.total) {
                    skipped = bump(skipped);
                }
            },
            Option::None => {
                skipped = bump(skipped);
            },
        }
        if !table_set_str(&it, "gpu_n", snap.gpu_n.as_str()) {
            skipped = bump(skipped);
        }
        if !table_set_u64(&it, "gpu_f_mhz", snap.gpu_f_mhz) {
            skipped = bump(skipped);
        }
        if !table_set_i64(&it, "gpu_t_milli", snap.gpu_t_milli) {
            skipped = bump(skipped);
        }
        match table_get_table(&it, "vram") {
            Option::Some(vt) => {
                if !table_set_u64(&vt, "avail", snap.vram.avail) {
                    skipped = bump(skipped);
                }
                if !table_set_u64(&vt, "total", snap.vram.total) {
                    skipped = bump(skipped);
                }
            },
            Option::None => {
                skipped = bump(skipped);
            },
        }

        match table_get_table(&it, "disks") {
            Option::Some(dt) => {
                let mut i: usize = 0;
                while i < snap.disks.len()
                    decreases snap.disks@.len() - i,
                {
                    match table_get_table_at(&dt, i + 1) {
                        Option::Some(d) => {
                            let disk = &snap.disks[i];
                            if !table_set_str(&d, "mnt", disk.mnt.as_str()) {
                                skipped = bump(skipped);
                            }
                            if !table_set_str(&d, "name", disk.name.as_str()) {
                                skipped = bump(skipped);
                            }
                            match table_get_table(&d, "mem") {
                                Option::Some(m) => {
                                    if !table_set_u64(&m, "avail", disk.mem.avail) {
                                        skipped = bump(skipped);
                                    }
                                    if !table_set_u64(&m, "total", disk.mem.total) {
                                        skipped = bump(skipped);
                                    }
                                },
                                Option::None => {
                                    skipped = bump(skipped);
                                },
                            }
                        },
                        Option::None => {
                            skipped = bump(skipped);
                        },
                    }
                    i = i + 1;
                }
            },
            Option::None => {
                skipped = bump(skipped);
            },
        }

        match table_get_table(&it, "media") {
            Option::Some(mt) => {
                let mut i: usize = 0;
                while i < snap.media.len()
                    decreases snap.media@.len() - i,
                {
                    match table_get_table_at(&mt, i + 1) {
                        Option::Some(m) => {
                            let media = &snap.media[i];
                            if !table_set_str(&m, "name", media.name.as_str()) {
                                skipped = bump(skipped);
                            }
                            if !table_set_str(&m, "song", media.song.as_str()) {
                                skipped = bump(skipped);
                            }
                            if !table_set_str(&m, "artist", media.artist.as_str()) {
                                skipped = bump(skipped);
                            }
                            if !table_set_str(&m, "album", media.album.as_str()) {
                                skipped = bump(skipped);
                            }
                            if !table_set_str(&m, "art_url", media.art_url.as_str()) {
                                skipped = bump(skipped);
                            }
                            if !table_set_u64(&m, "elapsed", media.elapsed_s) {
                                skipped = bump(skipped);
                            }
                            if !table_set_u64(&m, "length", media.length_s) {
                                skipped = bump(skipped);
                            }
                            if !table_set_bool(&m, "paused", media.paused) {
                                skipped = bump(skipped);
                            }
                        },
                        Option::None => {
                            skipped = bump(skipped);
                        },
                    }
                    i = i + 1;
                }
            },
            Option::None => {
                skipped = bump(skipped);
            },
        }

        Result::Ok(skipped)
    }

    /// Re-execute the stored source as a fresh program in the current
    /// environment, then invoke the script's `Update` entry point where
    /// one is defined; its absence is not an error but the globals-only
    /// mode. Any failure is reported and recovered: the globals from
    /// before the failed run stay in place for this pass's pull.
    pub fn evaluate(&self) -> (r: Result<(), ScriptError>)
        ensures
            r matches Result::Err(e) ==> e is Load || e is Runtime,
    {
        match exec_source(&self.lua, self.source.as_str()) {
            Result::Err(e) => Result::Err(ScriptError::Load(error_message(&e))),
            Result::Ok(u) => {
                let globals = globals_table(&self.lua);
                match table_get_function(&globals, "Update") {
                    Option::None => Result::Ok(()),
                    Option::Some(f) => match call_function(&f) {
                        Result::Ok(u2) => Result::Ok(()),
                        Result::Err(e) => Result::Err(ScriptError::Runtime(error_message(&e))),
                    },
                }
            },
        }
    }

    /// Read the script-declared settings fields, each independently:
    /// a missing table, key or mistyped value becomes `None` and thereby
    /// the field's default, never an error.
    fn read_raw_settings(&self) -> RawSettings {
        let globals = globals_table(&self.lua);
        match table_get_table(&globals, "SETTINGS") {
            Option::None => RawSettings {
                fps: Option::None,
                tps: Option::None,
                rps: Option::None,
                layout: Option::None,
                order_first: Option::None,
                comp: Option::None,
            },
            Option::Some(st) => {
                let order_first = match table_get_table(&st, "order") {
                    Option::Some(ot) => table_get_str_at(&ot, 1),
                    Option::None => Option::None,
                };
                let comp = match table_get_table(&st, "vars") {
                    Option::Some(vt) => table_get_str(&vt, "comp"),
                    Option::None => Option::None,
                };
                RawSettings {
                    fps: table_get_u32(&st, "fps"),
                    tps: table_get_u32(&st, "tps"),
                    rps: table_get_u32(&st, "rps"),
                    layout: table_get_str(&st, "layout"),
                    order_first,
                    comp,
                }
            },
        }
    }

    /// Read the script-declared line table. Every line index up to the
    /// table's length yields a line and every span index a span, malformed
    /// entries degrading to an empty line or a default span, so partial
    /// data never shifts what is rendered where.
    fn read_raw_lines(&self) -> Vec<Vec<RawSpan>> {
        let globals = globals_table(&self.lua);
        match table_get_table(&globals, "INFO_LINES") {
            Option::None => Vec::new(),
            Option::Some(lt) => {
                let n = table_raw_len(&lt);
                let mut lines: Vec<Vec<RawSpan>> = Vec::new();
                let mut i: usize = 0;
                while i < n
                    decreases n - i,
                {
                    match table_get_table_at(&lt, i + 1) {
                        Option::None => {
                            lines.push(Vec::new());
                        },
                        Option::Some(line_t) => {
                            let m = table_raw_len(&line_t);
                            let mut spans: Vec<RawSpan> = Vec::new();
                            let mut j: usize = 0;
                            while j < m
                                decreases m - j,
                            {
                                match table_get_table_at(&line_t, j + 1) {
                                    Option::None => {
                                        spans.push(
                                            RawSpan {
                                                text: Option::None,
                                                fg: Option::None,
                                                bg: Option::None,
                                                bold: Option::None,
                                                italic: Option::None,
                                            },
                                        );
                                    },
                                    Option::Some(span_t) => {
                                        let text = table_get_str(&span_t, "text");
                                        let (fg, bg, bold, italic) = match table_get_table(
                                            &span_t,
                                            "style",
                                        ) {
                                            Option::None => (
                                                Option::None,
                                                Option::None,
                                                Option::None,
                                                Option::None,
                                            ),
                                            Option::Some(sty) => (
                                                table_get_str(&sty, "fg"),
                                                table_get_str(&sty, "bg"),
                                                table_get_bool(&sty, "bold"),
                                                table_get_bool(&sty, "italic"),
                                            ),
                                        };
                                        spans.push(RawSpan { text, fg, bg, bold, italic });
                                    },
                                }
                                j = j + 1;
                            }
                            lines.push(spans);
                        },
                    }
                    i = i + 1;
                }
                lines
            },
        }
    }

    /// Pull the script-declared configuration and line set back out.
    ///
    /// Every settings field falls back independently to its default on
    /// absence, wrong type or emptiness — the exact field-by-field
    /// behaviour is the contract of `settings_from_raw` — so the result is
    /// always fully populated and its refresh divisor is always usable.
    pub fn pull(&self) -> (r: (Settings, Vec<Vec<Word>>))
        ensures
            r.0.rps >= 1,
            r.0@.comp.len() > 0,
    {
        let raw = self.read_raw_settings();
        let settings = settings_from_raw(raw);
        let raw_lines = self.read_raw_lines();
        let lines = lines_from_raw(&raw_lines);
        (settings, lines)
    }
}

} // verus!
