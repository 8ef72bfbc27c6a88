//! USB sticks with a DJ library on them: which marker files tell the two known
//! layouts apart, where sticks are mounted, and when to look again.
use crate::text::{concat2, concat3, str_eq, strs};
use crate::theme::{path_under, under};
use vstd::prelude::*;
use vstd::string::*;

verus! {

#[derive(Debug, Clone, Copy, PartialEq, Eq, Structural)]
pub enum StickKind {
    /// Engine DJ (Numark and Denon hardware).
    EngineDj,
    /// Rekordbox export (Pioneer hardware).
    Rekordbox,
}

impl StickKind {
    pub open spec fn spec_label(self) -> &'static str {
        match self {
            StickKind::EngineDj => "Engine DJ",
            StickKind::Rekordbox => "Rekordbox",
        }
    }

    pub fn label(self) -> (s: &'static str)
        ensures
            s == self.spec_label(),
    {
        match self {
            StickKind::EngineDj => "Engine DJ",
            StickKind::Rekordbox => "Rekordbox",
        }
    }
}

/// A stick that was found.
pub struct StickEntry {
    pub mount: String,
    pub kind: StickKind,
}

impl Clone for StickEntry {
    fn clone(&self) -> (c: StickEntry)
        ensures
            c == *self,
    {
        StickEntry { mount: self.mount.clone(), kind: self.kind }
    }
}

/// The files whose presence marks an Engine DJ stick.
pub const ENGINE_MARKERS: [&'static str; 3] = [
    "Engine Library/Database2/m.db",
    "Engine Library/m.db",
    "m.db",
];

/// The files whose presence marks a Rekordbox stick.
pub const REKORDBOX_MARKERS: [&'static str; 2] = ["PIONEER/rekordbox/export.pdb", "PIONEER/USBANLZ"];

/// Some of the files exist.
pub open spec fn any_present(present: Seq<bool>) -> bool {
    exists|i: int| 0 <= i < present.len() && #[trigger] present[i]
}

fn some_present(present: &Vec<bool>) -> (b: bool)
    ensures
        b == any_present(present@),
{
    let mut i: usize = 0;
    while i < present.len()
        invariant
            i <= present.len(),
            forall|j: int| 0 <= j < i ==> !#[trigger] present@[j],
        decreases present.len() - i,
    {
        if present[i] {
            return true;
        }
        i += 1;
    }
    false
}

/// The kind of a mounted disk, from which of its marker files exist. An Engine
/// DJ layout is recognised first.
pub fn detect_kind(engine: &Vec<bool>, rekordbox: &Vec<bool>) -> (r: Option<StickKind>)
    ensures
        r == (if any_present(engine@) {
            Some(StickKind::EngineDj)
        } else if any_present(rekordbox@) {
            Some(StickKind::Rekordbox)
        } else {
            None
        }),
{
    if some_present(engine) {
        return Some(StickKind::EngineDj);
    }
    if some_present(rekordbox) {
        return Some(StickKind::Rekordbox);
    }
    None
}

#[derive(Debug, Clone, Copy, PartialEq, Eq, Structural)]
pub enum Platform {
    MacOs,
    Linux,
    Windows,
    Other,
}

pub open spec fn drive(k: int) -> Seq<char> {
    seq![('D' as int + k) as u8 as char, ':', '\\']
}

/// Where removable disks are mounted.
pub open spec fn roots(platform: Platform, user: Seq<char>) -> Seq<Seq<char>> {
    match platform {
        Platform::MacOs => seq!["/Volumes"@],
        Platform::Linux => seq!["/media/"@ + user, "/run/media/"@ + user, "/media"@, "/mnt"@],
        Platform::Windows => Seq::new(23, |k: int| drive(k)),
        Platform::Other => Seq::empty(),
    }
}

pub fn mount_roots(platform: Platform, user: &str) -> (v: Vec<String>)
    ensures
        strs(v@) == roots(platform, user@),
{
    let mut v: Vec<String> = Vec::new();
    match platform {
        Platform::MacOs => {
            v.push("/Volumes".to_owned());
        },
        Platform::Linux => {
            v.push(concat2("/media/", user));
            v.push(concat2("/run/media/", user));
            v.push("/media".to_owned());
            v.push("/mnt".to_owned());
        },
        Platform::Windows => {
            let mut k: u8 = 0;
            while k < 23
                invariant
                    k <= 23,
                    strs(v@) == roots(platform, user@).take(k as int),
                    platform == Platform::Windows,
                decreases 23 - k,
            {
                let ghost before = strs(v@);
                let mut s: String = String::new();
                s.push((0x44u8 + k) as char);
                s.push(':');
                s.push('\\');
                assert(s@ == drive(k as int));
                v.push(s);
                assert(strs(v@) == before.push(drive(k as int)));
                k += 1;
                assert(roots(platform, user@).take(k as int) == roots(platform, user@).take(
                    k - 1,
                ).push(drive(k - 1)));
            }
            assert(roots(platform, user@).take(23) == roots(platform, user@));
        },
        Platform::Other => {},
    }
    assert(strs(v@) == roots(platform, user@));
    v
}

/// How long a scan counts, in milliseconds.
pub const SCAN_INTERVAL_MS: u64 = 2_000;

/// The sticks found by the last scan.
pub struct StickCache {
    pub last_scan: Option<u64>,
    pub entries: Vec<StickEntry>,
}

impl StickCache {
    pub fn new() -> (c: StickCache)
        ensures
            c.last_scan is None,
            c.entries@.len() == 0,
    {
        StickCache { last_scan: None, entries: Vec::new() }
    }

    /// The disks are to be scanned again: never done, or too long ago.
    pub fn is_stale(&self, now: u64) -> (b: bool)
        ensures
            b == (match self.last_scan {
                Some(t) => now - t >= SCAN_INTERVAL_MS,
                None => true,
            }),
    {
        match self.last_scan {
            Some(t) => now >= t && now - t >= SCAN_INTERVAL_MS,
            None => true,
        }
    }

    /// Takes over the result of a scan.
    pub fn store(&mut self, now: u64, found: Vec<StickEntry>)
        ensures
            final(self).last_scan == Some(now),
            final(self).entries == found,
    {
        self.last_scan = Some(now);
        self.entries = found;
    }
}

/// The sticks to show: those of a fresh scan where the last one was stale and
/// one was made, else those of the last one.
pub fn detected_sticks(
    cache: &mut StickCache,
    now: u64,
    scan: Option<Vec<StickEntry>>,
) -> (sticks: Vec<StickEntry>)
    ensures
        match (old(cache).last_scan, scan) {
            (Some(t), _) if now - t < SCAN_INTERVAL_MS => *final(cache) == *old(cache),
            (_, Some(found)) => final(cache).entries == found && final(cache).last_scan == Some(
                now,
            ),
            (_, None) => *final(cache) == *old(cache),
        },
        sticks@ == final(cache).entries@,
{
    if cache.is_stale(now) {
        if let Some(found) = scan {
            cache.store(now, found);
        }
    }
    let mut sticks: Vec<StickEntry> = Vec::new();
    let mut i: usize = 0;
    while i < cache.entries.len()
        invariant
            i <= cache.entries.len(),
            sticks@ == cache.entries@.take(i as int),
        decreases cache.entries.len() - i,
    {
        sticks.push(cache.entries[i].clone());
        i += 1;
        assert(cache.entries@.take(i as int) == cache.entries@.take(i - 1).push(
            cache.entries@[i - 1],
        ));
    }
    assert(cache.entries@.take(i as int) == cache.entries@);
    sticks
}

/// The library on a stick that is to be read.
pub enum StickFile {
    Engine(String),
    Rekordbox(String),
}

/// The kind of the first of the sticks that is mounted at a place.
pub open spec fn kind_at(sticks: Seq<StickEntry>, mount: Seq<char>) -> Option<StickKind>
    decreases sticks.len(),
{
    if sticks.len() == 0 {
        None
    } else if sticks[0].mount@ == mount {
        Some(sticks[0].kind)
    } else {
        kind_at(sticks.skip(1), mount)
    }
}

pub fn stick_kind_at(sticks: &Vec<StickEntry>, mount: &str) -> (k: Option<StickKind>)
    ensures
        k == kind_at(sticks@, mount@),
{
    let mut i: usize = 0;
    assert(sticks@.skip(0) =~= sticks@);
    while i < sticks.len()
        invariant
            i <= sticks.len(),
            kind_at(sticks@, mount@) == kind_at(sticks@.skip(i as int), mount@),
        decreases sticks.len() - i,
    {
        assert(sticks@.skip(i as int)[0] == sticks@[i as int]);
        assert(sticks@.skip(i as int).skip(1) =~= sticks@.skip(i + 1));
        if str_eq(sticks[i].mount.as_str(), mount) {
            return Some(sticks[i].kind);
        }
        i += 1;
    }
    assert(sticks@.skip(i as int) =~= Seq::<StickEntry>::empty());
    None
}

/// The first of some files that exists.
pub open spec fn first_present(present: Seq<bool>, i: int) -> bool {
    0 <= i < present.len() && present[i] && forall|j: int| 0 <= j < i ==> !#[trigger] present[j]
}

/// The file to read from a stick: the first database that exists, in the order of
/// the markers, or the export. `engine` says which Engine DJ markers exist, `export`
/// whether the Rekordbox export does.
pub fn stick_file(kind: Option<StickKind>, mount: &str, engine: &[bool; 3], export: bool) -> (r:
    Result<StickFile, String>)
    ensures
        match kind {
            None => r matches Err(e) && e@ == "Stick "@ + mount@ + " no longer detected"@,
            Some(StickKind::EngineDj) => if any_present(engine@) {
                r matches Ok(StickFile::Engine(p)) && exists|i: int| #[trigger]
                    first_present(engine@, i) && p@ == under(mount@, ENGINE_MARKERS@[i]@)
            } else {
                r matches Err(e) && e@ == "no Engine DB at "@ + mount@
            },
            Some(StickKind::Rekordbox) => {
                let pdb = under(mount@, "PIONEER/rekordbox/export.pdb"@);
                if export {
                    r matches Ok(StickFile::Rekordbox(p)) && p@ == pdb
                } else {
                    r matches Err(e) && e@ == "no export.pdb at "@ + pdb
                }
            },
        },
{
    match kind {
        None => Err(concat3("Stick ", mount, " no longer detected")),
        Some(StickKind::EngineDj) => {
            let mut i: usize = 0;
            while i < 3
                invariant
                    i <= 3,
                    kind == Some(StickKind::EngineDj),
                    forall|j: int| 0 <= j < i ==> !#[trigger] engine@[j],
                decreases 3 - i,
            {
                if engine[i] {
                    assert(first_present(engine@, i as int));
                    let marker: &str = ENGINE_MARKERS[i];
                    return Ok(StickFile::Engine(path_under(mount, marker)));
                }
                i += 1;
            }
            Err(concat2("no Engine DB at ", mount))
        },
        Some(StickKind::Rekordbox) => {
            let pdb: String = path_under(mount, "PIONEER/rekordbox/export.pdb");
            if export {
                Ok(StickFile::Rekordbox(pdb))
            } else {
                Err(concat2("no export.pdb at ", pdb.as_str()))
            }
        },
    }
}

} // verus!
