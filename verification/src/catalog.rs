//! Browse screens and the actions of their menus.
use crate::text::{
    concat2, concat3, decimal, decimal_str, joined, owned, split_on, split_text, str_eq, strs,
};
use crate::track::{Named, Track};
use vstd::prelude::*;
use vstd::string::*;

verus! {

pub struct Genre {
    pub id: i64,
    pub name: String,
    pub slug: String,
}

/// What choosing an entry of a menu asks for.
pub enum MenuAction {
    PushFavorites,
    PushLocalLibrary,
    PushLocalFolder(String),
    LoadLocalFolderTracks(String),
    LoadLocalLibraryRecursive(String),
    PushRekordbox,
    PushEngineDj,
    PushSerato,
    PushUsbStick(String),
    PushDiscover,
    PushTrending,
    PushGenreTrending(i64, String),
    PushDecades,
    PushGenreDecades(i64),
    PushDecade(String, String, Option<i64>),
    PushDecadeYears(String, String, Option<i64>),
    PushYear(String, String, Option<i64>),
    PushMyBeatport,
    PushMyLibrary,
    LoadReleaseTracks(i64),
    LoadChartTracks(i64),
    LoadDecadeTracks(String, Option<i64>),
    /// Any other list of the catalogue.
    Load(String),
}

pub enum Items {
    Menu(Vec<MenuAction>),
    Tracks(Vec<Track>),
    Genres(Vec<Genre>),
    Artists(Vec<Named>),
    Labels(Vec<Named>),
    Charts(Vec<Named>),
    Releases(Vec<Named>),
}

impl Items {
    pub open spec fn spec_len(&self) -> nat {
        match *self {
            Items::Menu(v) => v@.len(),
            Items::Tracks(v) => v@.len(),
            Items::Genres(v) => v@.len(),
            Items::Artists(v) => v@.len(),
            Items::Labels(v) => v@.len(),
            Items::Charts(v) => v@.len(),
            Items::Releases(v) => v@.len(),
        }
    }
}

/// One screen of the browser: a title, the items, and how each is labelled.
pub struct BrowseScreen {
    pub title: String,
    pub labels: Vec<String>,
    pub items: Items,
}

impl BrowseScreen {
    /// Every item has a label.
    pub open spec fn wf(&self) -> bool {
        self.labels@.len() == self.items.spec_len()
    }

    /// Whether every item has a label.
    pub fn is_labelled(&self) -> (b: bool)
        ensures
            b == self.wf(),
    {
        let n: usize = match &self.items {
            Items::Menu(v) => v.len(),
            Items::Tracks(v) => v.len(),
            Items::Genres(v) => v.len(),
            Items::Artists(v) => v.len(),
            Items::Labels(v) => v.len(),
            Items::Charts(v) => v.len(),
            Items::Releases(v) => v.len(),
        };
        self.labels.len() == n
    }

    pub open spec fn is_tracks(&self) -> bool {
        self.items is Tracks
    }

    pub fn item_count(&self) -> (n: usize)
        ensures
            n == self.labels@.len(),
    {
        self.labels.len()
    }

    /// The tracks of a track list.
    pub fn tracks(&self) -> (r: Option<&Vec<Track>>)
        ensures
            match r {
                Some(v) => self.items == Items::Tracks(*v),
                None => !(self.items is Tracks),
            },
    {
        match &self.items {
            Items::Tracks(v) => Some(v),
            _ => None,
        }
    }

    /// The track at a place of a track list.
    pub open spec fn spec_track_at(&self, i: int) -> Option<Track> {
        match self.items {
            Items::Tracks(v) => if 0 <= i < v@.len() {
                Some(v@[i])
            } else {
                None
            },
            _ => None,
        }
    }

    pub fn track_at(&self, i: usize) -> (r: Option<&Track>)
        ensures
            match r {
                Some(t) => self.spec_track_at(i as int) == Some(*t),
                None => self.spec_track_at(i as int) is None,
            },
    {
        match &self.items {
            Items::Tracks(v) => if i < v.len() {
                Some(&v[i])
            } else {
                None
            },
            _ => None,
        }
    }
}

/// A list title with the number of tracks behind it.
pub open spec fn counted(name: Seq<char>, count: nat) -> Seq<char> {
    name + " ("@ + decimal(count) + ")"@
}

pub fn counted_str(name: &str, count: usize) -> (s: String)
    ensures
        s@ == counted(name@, count as nat),
{
    let head: String = concat3(name, " (", decimal_str(count as u64).as_str());
    concat2(head.as_str(), ")")
}

/// The parts of a path: the root where it is absolute, then the names; empty
/// parts and `.` are left out, but for a leading `.`.
pub open spec fn kept_part(segments: Seq<Seq<char>>, i: int) -> bool {
    segments[i].len() > 0 && (segments[i] != "."@ || i == 0)
}

pub open spec fn parts_upto(segments: Seq<Seq<char>>, n: nat) -> Seq<Seq<char>>
    decreases n,
{
    if n == 0 {
        Seq::empty()
    } else {
        let before = parts_upto(segments, (n - 1) as nat);
        if kept_part(segments, n - 1) {
            before.push(segments[n - 1])
        } else {
            before
        }
    }
}

pub open spec fn path_parts(path: Seq<char>) -> Seq<Seq<char>> {
    let segments = split_on(path, '/');
    let names = parts_upto(segments, segments.len());
    if path.len() > 0 && path[0] == '/' {
        seq!["/"@] + names
    } else {
        names
    }
}

fn path_parts_of(path: &str) -> (parts: Vec<String>)
    ensures
        strs(parts@) == path_parts(path@),
{
    let segments: Vec<String> = split_text(path, '/');
    let ghost segs = strs(segments@);
    let mut parts: Vec<String> = Vec::new();
    let absolute: bool = match crate::text::first_char(path) {
        Some(c) => c == '/',
        None => false,
    };
    if absolute {
        parts.push(owned("/"));
    }
    let ghost root = strs(parts@);
    assert(root =~= if path@.len() > 0 && path@[0] == '/' {
        seq!["/"@]
    } else {
        Seq::empty()
    });
    let mut i: usize = 0;
    while i < segments.len()
        invariant
            i <= segments.len(),
            segs == strs(segments@),
            strs(parts@) == root + parts_upto(segs, i as nat),
        decreases segments.len() - i,
    {
        let s: &str = segments[i].as_str();
        let empty: bool = crate::text::char_count(s) == 0;
        let dot: bool = str_eq(s, ".");
        if !empty && (!dot || i == 0) {
            let ghost before = strs(parts@);
            parts.push(owned(s));
            assert(strs(parts@) =~= before.push(segs[i as int]));
        }
        i += 1;
        assert(strs(parts@) =~= root + parts_upto(segs, i as nat));
    }
    assert(strs(parts@) =~= path_parts(path@));
    parts
}

/// The text of a path with the given parts.
pub open spec fn path_text(parts: Seq<Seq<char>>) -> Seq<char> {
    if parts.len() > 0 && parts[0] == "/"@ {
        "/"@ + joined(parts.skip(1), "/"@)
    } else {
        joined(parts, "/"@)
    }
}

/// The name at the end of a path, or `Folder`.
pub open spec fn folder_name(parts: Seq<Seq<char>>) -> Seq<char> {
    if parts.len() > 0 && parts.last() != "/"@ && parts.last() != "."@ && parts.last() != ".."@ {
        parts.last()
    } else {
        "Folder"@
    }
}

/// The title of the tracks of a local folder: by its place below the library, or
/// by its own name where it is not in it.
pub open spec fn folder_title(path: Seq<char>, root: Seq<char>, count: nat) -> Seq<char> {
    let p = path_parts(path);
    let r = path_parts(root);
    if p == r {
        counted("Local Library"@, count)
    } else if r.len() <= p.len() && p.take(r.len() as int) == r {
        counted("Local · "@ + path_text(p.skip(r.len() as int)), count)
    } else {
        counted(folder_name(p), count)
    }
}

fn is_part_prefix(p: &Vec<String>, r: &Vec<String>) -> (b: bool)
    ensures
        b == (r@.len() <= p@.len() && strs(p@).take(r@.len() as int) == strs(r@)),
{
    if r.len() > p.len() {
        return false;
    }
    let mut i: usize = 0;
    while i < r.len()
        invariant
            i <= r.len() <= p.len(),
            forall|k: int| 0 <= k < i ==> strs(p@)[k] == #[trigger] strs(r@)[k],
        decreases r.len() - i,
    {
        if !str_eq(p[i].as_str(), r[i].as_str()) {
            assert(strs(p@).take(r@.len() as int)[i as int] != strs(r@)[i as int]);
            return false;
        }
        i += 1;
    }
    assert(strs(p@).take(r@.len() as int) =~= strs(r@));
    true
}

fn tail_of(v: &Vec<String>, from: usize) -> (r: Vec<String>)
    requires
        from <= v@.len(),
    ensures
        strs(r@) == strs(v@).skip(from as int),
{
    let mut r: Vec<String> = Vec::new();
    let mut i: usize = from;
    while i < v.len()
        invariant
            from <= i <= v.len(),
            strs(r@) == strs(v@).subrange(from as int, i as int),
        decreases v.len() - i,
    {
        let ghost before = strs(r@);
        r.push(owned(v[i].as_str()));
        assert(strs(r@) =~= before.push(v@[i as int]@));
        i += 1;
        assert(strs(r@) =~= strs(v@).subrange(from as int, i as int));
    }
    assert(strs(r@) =~= strs(v@).skip(from as int));
    r
}

fn path_text_of(parts: &Vec<String>) -> (s: String)
    ensures
        s@ == path_text(strs(parts@)),
{
    if parts.len() > 0 && str_eq(parts[0].as_str(), "/") {
        let rest: Vec<String> = tail_of(parts, 1);
        concat2("/", crate::text::join_strs(&rest, "/").as_str())
    } else {
        crate::text::join_strs(parts, "/")
    }
}

fn folder_name_of(parts: &Vec<String>) -> (s: String)
    ensures
        s@ == folder_name(strs(parts@)),
{
    let n: usize = parts.len();
    if n > 0 {
        let last: &str = parts[n - 1].as_str();
        assert(strs(parts@).last() == last@);
        if !str_eq(last, "/") && !str_eq(last, ".") && !str_eq(last, "..") {
            return owned(last);
        }
    }
    owned("Folder")
}

/// The title of all the tracks below a local folder.
pub fn recursive_title(path: &str, root_dir: &str, count: usize) -> (s: String)
    ensures
        s@ == folder_title(path@, root_dir@, count as nat) + " (recursive)"@,
{
    concat2(folder_track_list_title(path, root_dir, count).as_str(), " (recursive)")
}

/// The title of the tracks of a local folder.
pub fn folder_track_list_title(path: &str, root_dir: &str, count: usize) -> (s: String)
    ensures
        s@ == folder_title(path@, root_dir@, count as nat),
{
    let p: Vec<String> = path_parts_of(path);
    let r: Vec<String> = path_parts_of(root_dir);
    if is_part_prefix(&p, &r) {
        if p.len() == r.len() {
            assert(strs(p@).take(r@.len() as int) =~= strs(p@));
            return counted_str("Local Library", count);
        }
        assert(strs(p@).len() != strs(r@).len());
        let rest: Vec<String> = tail_of(&p, r.len());
        let name: String = concat2("Local · ", path_text_of(&rest).as_str());
        counted_str(name.as_str(), count)
    } else {
        assert(strs(p@) == strs(r@) ==> strs(p@).take(r@.len() as int) =~= strs(r@));
        counted_str(folder_name_of(&p).as_str(), count)
    }
}

} // verus!
