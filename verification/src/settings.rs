//! Typed, defaulted representation of everything the script may configure:
//! cadence knobs, the two layout/order axes, and the free-form variable bag.
//!
//! Every field has a hard-coded default; absence or malformation of any
//! script-declared field is silently replaced by that default, never an
//! error. Parsing of the two-valued axes goes by the first character of the
//! script string, case-insensitively, falling back to the default variant.

use vstd::prelude::*;
use vstd::string::*;

verus! {

/// Display layout axis: the two content boxes are stacked either
/// side by side or on top of each other.
#[derive(Clone, Copy, PartialEq, Eq, Debug, Structural)]
pub enum Layout {
    Horizontal,
    Vertical,
}

impl Layout {
    /// The other variant of this two-valued axis.
    pub open spec fn spec_toggle(self) -> Layout {
        match self {
            Layout::Horizontal => Layout::Vertical,
            Layout::Vertical => Layout::Horizontal,
        }
    }

    /// Flip the axis to its other variant.
    pub fn toggle(&mut self)
        ensures
            *final(self) == old(self).spec_toggle(),
    {
        *self = match *self {
            Layout::Horizontal => Layout::Vertical,
            Layout::Vertical => Layout::Horizontal,
        };
    }
}

/// Toggling the layout axis twice returns to the original value,
/// whatever the initial state.
pub proof fn lemma_layout_toggle_involution(l: Layout)
    ensures
        l.spec_toggle().spec_toggle() == l,
{
}

/// Ordering axis: whether the telemetry box or the secondary (ascii) box
/// comes first in the layout.
#[derive(Clone, Copy, PartialEq, Eq, Debug, Structural)]
pub enum Order {
    InfoFirst,
    AsciiFirst,
}

impl Order {
    /// The other variant of this two-valued axis.
    pub open spec fn spec_toggle(self) -> Order {
        match self {
            Order::InfoFirst => Order::AsciiFirst,
            Order::AsciiFirst => Order::InfoFirst,
        }
    }

    /// Flip the axis to its other variant.
    pub fn toggle(&mut self)
        ensures
            *final(self) == old(self).spec_toggle(),
    {
        *self = match *self {
            Order::InfoFirst => Order::AsciiFirst,
            Order::AsciiFirst => Order::InfoFirst,
        };
    }
}

/// Toggling the order axis twice returns to the original value,
/// whatever the initial state.
pub proof fn lemma_order_toggle_involution(o: Order)
    ensures
        o.spec_toggle().spec_toggle() == o,
{
}

/// Free-form variable bag the script may both read and write.
/// Currently a single slot: the compositor name.
pub struct Vars {
    pub comp: String,
}

impl Vars {
    /// Read accessor for the compositor slot.
    pub fn comp(&self) -> (r: &str)
        ensures
            r@ == self.comp@,
    {
        self.comp.as_str()
    }
}

/// Default cadence: frames per second.
pub const DEFAULT_FPS: u32 = 24;

/// Default cadence: logic ticks per second.
pub const DEFAULT_TPS: u32 = 12;

/// Default refresh divisor: telemetry is resampled every this many ticks.
pub const DEFAULT_RPS: u32 = 3;

/// Everything the script may configure, fully typed and fully defaulted.
pub struct Settings {
    pub fps: u32,
    pub tps: u32,
    pub rps: u32,
    pub layout: Layout,
    pub order: Order,
    pub vars: Vars,
}

/// Mathematical model of a [`Settings`] value.
pub ghost struct SettingsV {
    pub fps: u32,
    pub tps: u32,
    pub rps: u32,
    pub layout: Layout,
    pub order: Order,
    pub comp: Seq<char>,
}

impl View for Settings {
    type V = SettingsV;

    open spec fn view(&self) -> SettingsV {
        SettingsV {
            fps: self.fps,
            tps: self.tps,
            rps: self.rps,
            layout: self.layout,
            order: self.order,
            comp: self.vars.comp@,
        }
    }
}

/// The hard-coded default configuration.
pub open spec fn spec_default_settings() -> SettingsV {
    SettingsV {
        fps: DEFAULT_FPS,
        tps: DEFAULT_TPS,
        rps: DEFAULT_RPS,
        layout: Layout::Horizontal,
        order: Order::InfoFirst,
        comp: "unknown"@,
    }
}

impl Default for Settings {
    /// Every field takes its hard-coded default.
    fn default() -> (s: Settings)
        ensures
            s@ == spec_default_settings(),
    {
        Settings {
            fps: DEFAULT_FPS,
            tps: DEFAULT_TPS,
            rps: DEFAULT_RPS,
            layout: Layout::Horizontal,
            order: Order::InfoFirst,
            vars: Vars { comp: String::from_str("unknown") },
        }
    }
}

impl Settings {
    /// Read accessor for the variable bag.
    pub fn vars(&self) -> (r: &Vars)
        ensures
            r.comp@ == self@.comp,
    {
        &self.vars
    }
}

/// The script-declared settings fields as the bridge managed to read them:
/// `None` stands for a field that is absent or of the wrong type.
pub struct RawSettings {
    pub fps: Option<u32>,
    pub tps: Option<u32>,
    pub rps: Option<u32>,
    pub layout: Option<String>,
    pub order_first: Option<String>,
    pub comp: Option<String>,
}

/// View of an optional string as an optional character sequence.
pub open spec fn spec_opt_str(o: Option<String>) -> Option<Seq<char>> {
    match o {
        Option::Some(s) => Option::Some(s@),
        Option::None => Option::None,
    }
}

/// A numeric field: the script's value where present, else the default.
pub open spec fn spec_num_or(o: Option<u32>, d: u32) -> u32 {
    match o {
        Option::Some(v) => v,
        Option::None => d,
    }
}

/// The refresh divisor: the script's value where present, clamped to at
/// least 1 (a divisor of zero is disallowed), else the default.
pub open spec fn spec_rps_of(o: Option<u32>) -> u32 {
    match o {
        Option::Some(v) => if v == 0 { 1 } else { v },
        Option::None => DEFAULT_RPS,
    }
}

/// Layout parsing: only the first character decides, case-insensitively;
/// absence, emptiness or an unrecognized character falls back to the default.
pub open spec fn spec_parse_layout(o: Option<Seq<char>>) -> Layout {
    match o {
        Option::Some(s) => if s.len() == 0 {
            Layout::Horizontal
        } else if s[0] == 'h' || s[0] == 'H' {
            Layout::Horizontal
        } else if s[0] == 'v' || s[0] == 'V' {
            Layout::Vertical
        } else {
            Layout::Horizontal
        },
        Option::None => Layout::Horizontal,
    }
}

/// Order parsing: only the first character of the first order entry decides,
/// case-insensitively; absence or an unrecognized character falls back to
/// the default.
pub open spec fn spec_parse_order(o: Option<Seq<char>>) -> Order {
    match o {
        Option::Some(s) => if s.len() == 0 {
            Order::InfoFirst
        } else if s[0] == 'i' || s[0] == 'I' {
            Order::InfoFirst
        } else if s[0] == 'a' || s[0] == 'A' {
            Order::AsciiFirst
        } else {
            Order::InfoFirst
        },
        Option::None => Order::InfoFirst,
    }
}

/// The compositor slot: the script's value where present and non-empty,
/// else the default sentinel.
pub open spec fn spec_comp_of(o: Option<Seq<char>>) -> Seq<char> {
    match o {
        Option::Some(s) => if s.len() == 0 {
            "unknown"@
        } else {
            s
        },
        Option::None => "unknown"@,
    }
}

/// The settings a raw read yields: field-by-field fallback to defaults.
pub open spec fn spec_settings_from_raw(
    fps: Option<u32>,
    tps: Option<u32>,
    rps: Option<u32>,
    layout: Option<Seq<char>>,
    order_first: Option<Seq<char>>,
    comp: Option<Seq<char>>,
) -> SettingsV {
    SettingsV {
        fps: spec_num_or(fps, DEFAULT_FPS),
        tps: spec_num_or(tps, DEFAULT_TPS),
        rps: spec_rps_of(rps),
        layout: spec_parse_layout(layout),
        order: spec_parse_order(order_first),
        comp: spec_comp_of(comp),
    }
}

/// Parse the layout axis from the optional script string.
fn parse_layout(o: &Option<String>) -> (l: Layout)
    ensures
        l == spec_parse_layout(spec_opt_str(*o)),
{
    match o {
        Option::Some(s) => {
            if s.as_str().unicode_len() == 0 {
                Layout::Horizontal
            } else {
                let c = s.as_str().get_char(0);
                if c == 'h' || c == 'H' {
                    Layout::Horizontal
                } else if c == 'v' || c == 'V' {
                    Layout::Vertical
                } else {
                    Layout::Horizontal
                }
            }
        },
        Option::None => Layout::Horizontal,
    }
}

/// Parse the order axis from the optional first entry of the script's
/// order list.
fn parse_order(o: &Option<String>) -> (r: Order)
    ensures
        r == spec_parse_order(spec_opt_str(*o)),
{
    match o {
        Option::Some(s) => {
            if s.as_str().unicode_len() == 0 {
                Order::InfoFirst
            } else {
                let c = s.as_str().get_char(0);
                if c == 'i' || c == 'I' {
                    Order::InfoFirst
                } else if c == 'a' || c == 'A' {
                    Order::AsciiFirst
                } else {
                    Order::InfoFirst
                }
            }
        },
        Option::None => Order::InfoFirst,
    }
}

/// Build a fully-populated [`Settings`] from whatever fields the bridge
/// could read: every missing or malformed field takes its default, every
/// valid field takes the script's value, independently of the others.
pub fn settings_from_raw(raw: RawSettings) -> (s: Settings)
    ensures
        s@ == spec_settings_from_raw(
            raw.fps,
            raw.tps,
            raw.rps,
            spec_opt_str(raw.layout),
            spec_opt_str(raw.order_first),
            spec_opt_str(raw.comp),
        ),
        s.rps >= 1,
        s@.comp.len() > 0,
{
    proof {
        reveal_strlit("unknown");
    }
    let fps = match raw.fps {
        Option::Some(v) => v,
        Option::None => DEFAULT_FPS,
    };
    let tps = match raw.tps {
        Option::Some(v) => v,
        Option::None => DEFAULT_TPS,
    };
    let rps = match raw.rps {
        Option::Some(v) => if v == 0 { 1 } else { v },
        Option::None => DEFAULT_RPS,
    };
    let layout = parse_layout(&raw.layout);
    let order = parse_order(&raw.order_first);
    let comp = match raw.comp {
        Option::Some(s) => {
            if s.as_str().unicode_len() == 0 {
                String::from_str("unknown")
            } else {
                s
            }
        },
        Option::None => String::from_str("unknown"),
    };
    Settings { fps, tps, rps, layout, order, vars: Vars { comp } }
}

/// Typed store over the script-declared configuration.
///
/// All mutation goes through [`SettingsStore::apply`] (the script-pull step,
/// a full replace) or the two explicit toggles (direct user input); no other
/// writer exists.
pub struct SettingsStore {
    settings: Settings,
}

impl View for SettingsStore {
    type V = SettingsV;

    closed spec fn view(&self) -> SettingsV {
        self.settings@
    }
}

impl SettingsStore {
    /// A store holding the default configuration.
    pub fn new() -> (s: SettingsStore)
        ensures
            s@ == spec_default_settings(),
    {
        SettingsStore { settings: Settings::default() }
    }

    /// Replace the configuration wholesale with freshly parsed values.
    /// A script that declares nothing is thereby equivalent to defaults.
    pub fn apply(&mut self, s: Settings)
        ensures
            final(self)@ == s@,
    {
        self.settings = s;
    }

    /// Flip the layout axis; used by direct user input, independently of
    /// the script.
    pub fn toggle_layout(&mut self)
        ensures
            final(self)@ == (SettingsV { layout: old(self)@.layout.spec_toggle(), ..old(self)@ }),
    {
        self.settings.layout.toggle();
    }

    /// Flip the order axis; used by direct user input, independently of
    /// the script.
    pub fn toggle_order(&mut self)
        ensures
            final(self)@ == (SettingsV { order: old(self)@.order.spec_toggle(), ..old(self)@ }),
    {
        self.settings.order.toggle();
    }

    /// Read accessor for the whole configuration.
    pub fn get(&self) -> (s: &Settings)
        ensures
            s@ == self@,
    {
        &self.settings
    }

    /// Read accessor for the render cadence.
    pub fn fps(&self) -> (r: u32)
        ensures
            r == self@.fps,
    {
        self.settings.fps
    }

    /// Read accessor for the logic cadence.
    pub fn tps(&self) -> (r: u32)
        ensures
            r == self@.tps,
    {
        self.settings.tps
    }

    /// Read accessor for the refresh divisor.
    pub fn rps(&self) -> (r: u32)
        ensures
            r == self@.rps,
    {
        self.settings.rps
    }

    /// Read accessor for the layout axis.
    pub fn layout(&self) -> (r: Layout)
        ensures
            r == self@.layout,
    {
        self.settings.layout
    }

    /// Read accessor for the order axis.
    pub fn order(&self) -> (r: Order)
        ensures
            r == self@.order,
    {
        self.settings.order
    }

    /// Read accessor for the variable bag.
    pub fn vars(&self) -> (r: &Vars)
        ensures
            r.comp@ == self@.comp,
    {
        &self.settings.vars
    }
}

} // verus!
