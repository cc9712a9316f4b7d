//! The immutable-per-cycle record of machine state, and the pure logic
//! that shapes it: disk filtering under the reserved mount prefixes, the
//! media-player selection by the fixed priority table, and artist joining.
//!
//! The record is built outside this crate from plain values, replaced
//! wholesale on each refresh, and never mutated in place by the script.
//! Every string field has a non-empty fallback sentinel; no field is ever
//! left unset.

use vstd::prelude::*;
use vstd::string::*;
use crate::text::{
    after_last_slash, ascii_lowercase, spec_after_last_slash, spec_ascii_lower, spec_contains,
    spec_starts_with, str_contains, str_starts_with,
};

verus! {

/// A pair of available and total bytes.
#[derive(Clone, Copy, PartialEq, Eq, Debug, Structural)]
pub struct Mem {
    pub avail: u64,
    pub total: u64,
}

impl Mem {
    /// Bundle an available/total byte pair.
    pub fn from(avail: u64, total: u64) -> (m: Mem)
        ensures
            m.avail == avail,
            m.total == total,
    {
        Mem { avail, total }
    }
}

/// A mounted disk as enumerated by the host, before filtering.
pub struct RawDisk {
    pub mnt: String,
    pub mem: Mem,
}

/// Mathematical model of a raw disk entry.
pub ghost struct RawDiskV {
    pub mnt: Seq<char>,
    pub mem: Mem,
}

impl View for RawDisk {
    type V = RawDiskV;

    open spec fn view(&self) -> RawDiskV {
        RawDiskV { mnt: self.mnt@, mem: self.mem }
    }
}

/// A disk entry as exposed to the script: mount path, display name, usage.
pub struct Disk {
    pub mnt: String,
    pub name: String,
    pub mem: Mem,
}

/// Mathematical model of a filtered disk entry.
pub ghost struct DiskV {
    pub mnt: Seq<char>,
    pub name: Seq<char>,
    pub mem: Mem,
}

impl View for Disk {
    type V = DiskV;

    open spec fn view(&self) -> DiskV {
        DiskV { mnt: self.mnt@, name: self.name@, mem: self.mem }
    }
}

/// The reserved system mount prefixes whose disks are excluded.
pub open spec fn spec_reserved_prefixes() -> Seq<Seq<char>> {
    seq!["/run"@, "/boot"@, "/dev"@, "/proc"@, "/sys"@, "/tmp"@, "/var"@, "/snap"@]
}

/// A mount is kept exactly when it starts with none of the reserved
/// prefixes.
pub open spec fn spec_keep_disk(mnt: Seq<char>) -> bool {
    forall|k: int|
        0 <= k < spec_reserved_prefixes().len() ==> !spec_starts_with(
            mnt,
            #[trigger] spec_reserved_prefixes()[k],
        )
}

/// The display name of a mount: the root mount is always named `root`;
/// any other mount is named by its final path component, with a sentinel
/// where that component is empty.
pub open spec fn spec_disk_name(mnt: Seq<char>) -> Seq<char> {
    if mnt == "/"@ {
        "root"@
    } else if spec_after_last_slash(mnt).len() == 0 {
        "unknown"@
    } else {
        spec_after_last_slash(mnt)
    }
}

/// The filtered, named disk list derived from a raw enumeration, in input
/// order.
pub open spec fn spec_filter_disks(ds: Seq<RawDiskV>) -> Seq<DiskV>
    decreases ds.len(),
{
    if ds.len() == 0 {
        Seq::empty()
    } else {
        let init = spec_filter_disks(ds.drop_last());
        let d = ds.last();
        if spec_keep_disk(d.mnt) {
            init.push(DiskV { mnt: d.mnt, name: spec_disk_name(d.mnt), mem: d.mem })
        } else {
            init
        }
    }
}

/// The views of a raw disk sequence.
pub open spec fn spec_raw_disk_views(ds: Seq<RawDisk>) -> Seq<RawDiskV> {
    ds.map_values(|d: RawDisk| d@)
}

/// The views of a disk sequence.
pub open spec fn spec_disk_views(ds: Seq<Disk>) -> Seq<DiskV> {
    ds.map_values(|d: Disk| d@)
}

/// Whether this mount survives the reserved-prefix filter.
pub fn keep_disk(mnt: &str) -> (b: bool)
    ensures
        b == spec_keep_disk(mnt@),
{
    proof {
        assert(spec_reserved_prefixes()[0] == "/run"@);
        assert(spec_reserved_prefixes()[1] == "/boot"@);
        assert(spec_reserved_prefixes()[2] == "/dev"@);
        assert(spec_reserved_prefixes()[3] == "/proc"@);
        assert(spec_reserved_prefixes()[4] == "/sys"@);
        assert(spec_reserved_prefixes()[5] == "/tmp"@);
        assert(spec_reserved_prefixes()[6] == "/var"@);
        assert(spec_reserved_prefixes()[7] == "/snap"@);
    }
    let hit = str_starts_with(mnt, "/run") || str_starts_with(mnt, "/boot")
        || str_starts_with(mnt, "/dev") || str_starts_with(mnt, "/proc")
        || str_starts_with(mnt, "/sys") || str_starts_with(mnt, "/tmp")
        || str_starts_with(mnt, "/var") || str_starts_with(mnt, "/snap");
    if hit {
        false
    } else {
        assert forall|k: int|
            0 <= k < spec_reserved_prefixes().len() implies !spec_starts_with(
            mnt@,
            #[trigger] spec_reserved_prefixes()[k],
        ) by {
            if k == 0 || k == 1 || k == 2 || k == 3 || k == 4 || k == 5 || k == 6 || k == 7 {
            }
        }
        true
    }
}

/// The display name for a mount path.
pub fn disk_name(mnt: &str) -> (name: String)
    ensures
        name@ == spec_disk_name(mnt@),
{
    let n = mnt.unicode_len();
    proof {
        reveal_strlit("/");
    }
    if n == 1 && mnt.get_char(0) == '/' {
        proof {
            assert(mnt@ =~= "/"@);
        }
        return String::from_str("root");
    }
    proof {
        if mnt@ == "/"@ {
            assert(mnt@.len() == 1);
            assert(mnt@[0] == '/');
        }
    }
    let tail = after_last_slash(mnt);
    if tail.unicode_len() == 0 {
        String::from_str("unknown")
    } else {
        tail.to_owned()
    }
}

/// Filter a raw disk enumeration down to the script-visible disk list:
/// reserved mounts are dropped, the rest keep their order and are named by
/// their final path component, with the root mount always named `root`.
pub fn filter_disks(raw: &Vec<RawDisk>) -> (out: Vec<Disk>)
    ensures
        spec_disk_views(out@) == spec_filter_disks(spec_raw_disk_views(raw@)),
{
    let ghost all = spec_raw_disk_views(raw@);
    let mut out: Vec<Disk> = Vec::new();
    let mut i: usize = 0;
    while i < raw.len()
        invariant
            i <= raw@.len(),
            all == spec_raw_disk_views(raw@),
            spec_disk_views(out@) == spec_filter_disks(all.take(i as int)),
        decreases raw@.len() - i,
    {
        proof {
            assert(all.take(i + 1).drop_last() =~= all.take(i as int));
            assert(all.take(i + 1).last() == raw@[i as int]@);
        }
        if keep_disk(raw[i].mnt.as_str()) {
            let name = disk_name(raw[i].mnt.as_str());
            let mnt = raw[i].mnt.clone();
            let mem = raw[i].mem;
            out.push(Disk { mnt, name, mem });
            proof {
                assert(spec_disk_views(out@) =~= spec_filter_disks(all.take(i + 1)));
            }
        } else {
            proof {
                assert(spec_disk_views(out@) =~= spec_filter_disks(all.take(i + 1)));
            }
        }
        i = i + 1;
    }
    proof {
        assert(all.take(raw@.len() as int) =~= all);
    }
    out
}

/// One media player's state as exposed to the script.
pub struct Media {
    pub name: String,
    pub song: String,
    pub artist: String,
    pub album: String,
    pub art_url: String,
    pub elapsed_s: u64,
    pub length_s: u64,
    pub paused: bool,
}

/// The fixed priority table for media-player selection, best first.
pub open spec fn spec_precedence() -> Seq<Seq<char>> {
    seq!["spotify"@, "vlc"@, "mpv"@, "rhythmbox"@, "firefox"@, "chrome"@]
}

/// The priority of a player name from a given table position on: the least
/// table index whose entry occurs in the name, or the table length where
/// none does.
pub open spec fn spec_priority_from(name: Seq<char>, p: int) -> int
    decreases 6 - p,
{
    if p < 0 || p >= 6 {
        6
    } else if spec_contains(name, spec_precedence()[p]) {
        p
    } else {
        spec_priority_from(name, p + 1)
    }
}

/// The priority of a player name: the least table index whose entry occurs
/// in the name, or the table length where none does.
pub open spec fn spec_priority(name: Seq<char>) -> int {
    spec_priority_from(name, 0)
}

/// The table entry at a given position.
fn precedence_entry(p: usize) -> (r: &'static str)
    requires
        p < 6,
    ensures
        r@ == spec_precedence()[p as int],
{
    proof {
        assert(spec_precedence()[0] == "spotify"@);
        assert(spec_precedence()[1] == "vlc"@);
        assert(spec_precedence()[2] == "mpv"@);
        assert(spec_precedence()[3] == "rhythmbox"@);
        assert(spec_precedence()[4] == "firefox"@);
        assert(spec_precedence()[5] == "chrome"@);
    }
    if p == 0 {
        "spotify"
    } else if p == 1 {
        "vlc"
    } else if p == 2 {
        "mpv"
    } else if p == 3 {
        "rhythmbox"
    } else if p == 4 {
        "firefox"
    } else {
        "chrome"
    }
}

/// The priority of a player name under the fixed table.
pub fn priority_of(name: &str) -> (p: usize)
    ensures
        p == spec_priority(name@),
        p <= 6,
{
    let mut p: usize = 0;
    while p < 6
        invariant
            p <= 6,
            spec_priority(name@) == spec_priority_from(name@, p as int),
        decreases 6 - p,
    {
        if str_contains(name, precedence_entry(p)) {
            return p;
        }
        p = p + 1;
    }
    6
}

/// Select the active media player: the first list entry whose name
/// contains the highest-priority table entry; the first entry outright
/// where no name matches any table entry; no selection for an empty list.
pub fn active_media(media: &Vec<Media>) -> (r: Option<usize>)
    ensures
        r is Some <==> media@.len() > 0,
        r matches Some(i) ==> i < media@.len() && (forall|j: int|
            0 <= j < media@.len() ==> spec_priority(media@[i as int].name@) <= spec_priority(
                media@[j].name@,
            )) && (forall|j: int|
            0 <= j < i ==> spec_priority(media@[i as int].name@) < spec_priority(media@[j].name@)),
{
    if media.len() == 0 {
        return Option::None;
    }
    let mut best_idx: usize = 0;
    let mut best_p: usize = priority_of(media[0].name.as_str());
    let mut i: usize = 1;
    while i < media.len()
        invariant
            1 <= i <= media@.len(),
            best_idx < i,
            best_p == spec_priority(media@[best_idx as int].name@),
            forall|j: int| 0 <= j < i ==> best_p <= spec_priority(media@[j].name@),
            forall|j: int| 0 <= j < best_idx ==> best_p < spec_priority(media@[j].name@),
        decreases media@.len() - i,
    {
        let p = priority_of(media[i].name.as_str());
        if p < best_p {
            best_idx = i;
            best_p = p;
        }
        i = i + 1;
    }
    Option::Some(best_idx)
}

/// The artist field: the artist names joined with `", "`, or the sentinel
/// where there are none.
pub open spec fn spec_join_artists(names: Seq<Seq<char>>) -> Seq<char>
    decreases names.len(),
{
    if names.len() == 0 {
        "unknown"@
    } else if names.len() == 1 {
        names[0]
    } else {
        spec_join_artists(names.drop_last()) + ", "@ + names.last()
    }
}

/// Join a list of artist names with `", "`, falling back to the sentinel
/// for an empty list.
pub fn join_artists(names: &Vec<String>) -> (r: String)
    ensures
        r@ == spec_join_artists(names@.map_values(|s: String| s@)),
{
    let ghost views = names@.map_values(|s: String| s@);
    if names.len() == 0 {
        return String::from_str("unknown");
    }
    let mut r = String::new();
    let mut i: usize = 0;
    while i < names.len()
        invariant
            i <= names@.len(),
            1 <= names@.len(),
            views == names@.map_values(|s: String| s@),
            i == 0 ==> r@ == Seq::<char>::empty(),
            i >= 1 ==> r@ == spec_join_artists(views.take(i as int)),
        decreases names@.len() - i,
    {
        if i > 0 {
            r.append(", ");
            r.append(names[i].as_str());
            proof {
                assert(views.take(i + 1).drop_last() =~= views.take(i as int));
                assert(views.take(i + 1).last() == views[i as int]);
            }
        } else {
            r.append(names[0].as_str());
            proof {
                assert(views.take(1)[0] == views[0]);
            }
        }
        i = i + 1;
    }
    proof {
        assert(views.take(names@.len() as int) =~= views);
    }
    r
}

/// An optional metadata string: the reported value where there is one,
/// else the sentinel.
pub open spec fn spec_meta_or(o: Option<String>) -> Seq<char> {
    match o {
        Option::Some(s) => s@,
        Option::None => "unknown"@,
    }
}

/// Build one media player's entry from the raw metadata the host read:
/// the player identity is ASCII-lowercased (so the selection table
/// matches), a missing title, album or art url falls to the sentinel, the
/// artists are joined or fall to the sentinel, missing durations become
/// zero, and an unavailable playback status counts as paused.
pub fn media_from_raw(
    identity: &str,
    song: Option<String>,
    artists: &Vec<String>,
    album: Option<String>,
    art_url: Option<String>,
    elapsed_s: Option<u64>,
    length_s: Option<u64>,
    paused: Option<bool>,
) -> (m: Media)
    ensures
        m.name@ == spec_ascii_lower(identity@),
        m.song@ == spec_meta_or(song),
        m.artist@ == spec_join_artists(artists@.map_values(|s: String| s@)),
        m.album@ == spec_meta_or(album),
        m.art_url@ == spec_meta_or(art_url),
        m.elapsed_s == (match elapsed_s {
            Option::Some(v) => v,
            Option::None => 0,
        }),
        m.length_s == (match length_s {
            Option::Some(v) => v,
            Option::None => 0,
        }),
        m.paused == (match paused {
            Option::Some(b) => b,
            Option::None => true,
        }),
{
    let name = ascii_lowercase(identity);
    let song = match song {
        Option::Some(s) => s,
        Option::None => String::from_str("unknown"),
    };
    let artist = join_artists(artists);
    let album = match album {
        Option::Some(s) => s,
        Option::None => String::from_str("unknown"),
    };
    let art_url = match art_url {
        Option::Some(s) => s,
        Option::None => String::from_str("unknown"),
    };
    let elapsed_s = match elapsed_s {
        Option::Some(v) => v,
        Option::None => 0,
    };
    let length_s = match length_s {
        Option::Some(v) => v,
        Option::None => 0,
    };
    let paused = match paused {
        Option::Some(b) => b,
        Option::None => true,
    };
    Media { name, song, artist, album, art_url, elapsed_s, length_s, paused }
}

/// The per-cycle record of machine state: identity, software, compute,
/// graphics, storage and media, all as plain values. Temperatures are in
/// millidegrees Celsius and the graphics clock in megahertz, so that every
/// field is exact integer or text data.
pub struct TelemetrySnapshot {
    pub user: String,
    pub host: String,
    pub device: String,
    pub bios: String,
    pub uptime: u64,
    pub os_n: String,
    pub os_v: String,
    pub kern: String,
    pub log_m: String,
    pub desk_e: Option<String>,
    pub win_m: String,
    pub win_p: String,
    pub comp: String,
    pub term: String,
    pub shell: String,
    pub text_e: String,
    pub cpu_n: String,
    pub cpu_c: u8,
    pub cpu_u: u8,
    pub cpu_t_milli: i64,
    pub ram: Mem,
    pub gpu_n: String,
    pub gpu_f_mhz: u64,
    pub gpu_t_milli: i64,
    pub vram: Mem,
    pub disks: Vec<Disk>,
    pub media: Vec<Media>,
}

impl TelemetrySnapshot {
    /// The data-model invariant: every string field of the record holds a
    /// non-empty value — real data or the fallback sentinel — the optional
    /// desktop environment is non-empty where present, and every disk
    /// entry carries a non-empty mount path and display name. The startup
    /// record establishes it with the sentinels.
    pub open spec fn wf(self) -> bool {
        &&& self.user@.len() > 0
        &&& self.host@.len() > 0
        &&& self.device@.len() > 0
        &&& self.bios@.len() > 0
        &&& self.os_n@.len() > 0
        &&& self.os_v@.len() > 0
        &&& self.kern@.len() > 0
        &&& self.log_m@.len() > 0
        &&& (self.desk_e matches Option::Some(d) ==> d@.len() > 0)
        &&& self.win_m@.len() > 0
        &&& self.win_p@.len() > 0
        &&& self.comp@.len() > 0
        &&& self.term@.len() > 0
        &&& self.shell@.len() > 0
        &&& self.text_e@.len() > 0
        &&& self.cpu_n@.len() > 0
        &&& self.gpu_n@.len() > 0
        &&& forall|i: int|
            0 <= i < self.disks@.len() ==> (#[trigger] self.disks@[i]).mnt@.len() > 0
                && self.disks@[i].name@.len() > 0
    }
}

impl Default for TelemetrySnapshot {
    /// The startup record: every string field holds the non-empty sentinel,
    /// every number is zero, and the lists are empty.
    fn default() -> (s: TelemetrySnapshot)
        ensures
            s.wf(),
            s.user@ == "unknown"@,
            s.host@ == "unknown"@,
            s.device@ == "unknown"@,
            s.bios@ == "unknown"@,
            s.uptime == 0,
            s.os_n@ == "unknown"@,
            s.os_v@ == "unknown"@,
            s.kern@ == "unknown"@,
            s.log_m@ == "unknown"@,
            s.desk_e is None,
            s.win_m@ == "unknown"@,
            s.win_p@ == "unknown"@,
            s.comp@ == "unknown"@,
            s.term@ == "unknown"@,
            s.shell@ == "unknown"@,
            s.text_e@ == "unknown"@,
            s.cpu_n@ == "unknown"@,
            s.cpu_c == 0,
            s.cpu_u == 0,
            s.cpu_t_milli == 0,
            s.ram == (Mem { avail: 0, total: 0 }),
            s.gpu_n@ == "unknown"@,
            s.gpu_f_mhz == 0,
            s.gpu_t_milli == 0,
            s.vram == (Mem { avail: 0, total: 0 }),
            s.disks@.len() == 0,
            s.media@.len() == 0,
    {
        proof {
            reveal_strlit("unknown");
        }
        TelemetrySnapshot {
            user: String::from_str("unknown"),
            host: String::from_str("unknown"),
            device: String::from_str("unknown"),
            bios: String::from_str("unknown"),
            uptime: 0,
            os_n: String::from_str("unknown"),
            os_v: String::from_str("unknown"),
            kern: String::from_str("unknown"),
            log_m: String::from_str("unknown"),
            desk_e: Option::None,
            win_m: String::from_str("unknown"),
            win_p: String::from_str("unknown"),
            comp: String::from_str("unknown"),
            term: String::from_str("unknown"),
            shell: String::from_str("unknown"),
            text_e: String::from_str("unknown"),
            cpu_n: String::from_str("unknown"),
            cpu_c: 0,
            cpu_u: 0,
            cpu_t_milli: 0,
            ram: Mem { avail: 0, total: 0 },
            gpu_n: String::from_str("unknown"),
            gpu_f_mhz: 0,
            gpu_t_milli: 0,
            vram: Mem { avail: 0, total: 0 },
            disks: Vec::new(),
            media: Vec::new(),
        }
    }
}

} // verus!
