//! The line of hints at the bottom and the title of each screen.
use crate::app::App;
use crate::catalog::{BrowseScreen, Items};
use crate::deck::NowPlaying;
use crate::inputs::ViewMode;
use crate::nav::titles;
use crate::text::{concat2, concat3, decimal, decimal_str, joined, owned, wide_decimal_str};
use vstd::prelude::*;
use vstd::string::*;

verus! {

pub open spec fn esc_hint(depth: nat) -> Seq<char> {
    if depth <= 1 {
        "[Esc] Quit"@
    } else {
        "[Esc] Back"@
    }
}

pub open spec fn play_hint(playing: bool) -> Seq<char> {
    if playing {
        "[p] Pause"@
    } else {
        "[p] Play"@
    }
}

/// The hints on a browse screen.
pub open spec fn browse_hints(screen: BrowseScreen, column: int, esc: Seq<char>) -> Seq<char> {
    match screen.items {
        Items::Tracks(_) => if column == -1 {
            "[Enter] Release  [o] Open  [←] Back  [→] Next Column"@
        } else if column == 0 {
            "[Enter] Artist  [o] Open  [←] Back  [→] Next Column"@
        } else if column == 1 {
            "[Enter] Remixer  [o] Open  [←] Back  [→] Next Column"@
        } else if column == 2 {
            "[Enter] Label  [o] Open  [←] Back  [→] Next Column"@
        } else if column == 3 {
            "[Enter] Genre  [o] Open  [←] Back  [→] Next Column"@
        } else if column == 4 {
            "[Enter] Year  [o] Open  [←] Back"@
        } else if column > 4 {
            "[←→] Columns"@
        } else {
            "[Space] Preview  [Enter] Queue  [←→] Columns  [a] All  [f] Fav  [o] Web  [+] Playlist  [d] Dashboard  [q] Queue  [/] Search  "@
                + esc
        },
        Items::Artists(_) | Items::Labels(_) => "[Enter] Select  [o] Web  [d] Dashboard  [q] Queue  [/] Search  "@
            + esc,
        _ => "[Enter] Select  [o] Web  [q] Queue  [d] Dashboard  [,] Settings  [/] Search  "@ + esc,
    }
}

/// The hints of a screen.
pub open spec fn hints(
    view: ViewMode,
    screen: BrowseScreen,
    column: int,
    depth: nat,
    playing: bool,
) -> Seq<char> {
    let esc = esc_hint(depth);
    let play = play_hint(playing);
    match view {
        ViewMode::PlaylistPicker => "[Enter] Select  [Esc] Back"@,
        ViewMode::PlaylistNameInput => "[Type] Name  [Enter] Create  [Esc] Back"@,
        ViewMode::GenrePicker => "[Enter] Select  "@ + esc,
        ViewMode::FavoritesPicker => "[Enter] Toggle ★  "@ + esc,
        ViewMode::Settings => "[Enter] Change  [,] Close  "@ + esc,
        ViewMode::ClaudeDj => "[C] Toggle  [/] Ask  "@ + esc,
        ViewMode::Dashboard => "[?] Help  [Tab] Focus  "@ + play
            + "  [n] Skip  [t] Teleport  [T] Rewind  [w] Waveform  [c] DJ Screen  [C] Toggle DJ  [/] Ask DJ  [d] Close  "@
            + esc,
        ViewMode::Search => "[Type] Search  [↑↓] Navigate  [Space] Preview  [Enter] Queue  [Esc] Back"@,
        ViewMode::Queue => "[←→] Columns  [f] Fav  [o] Web  "@ + play
            + "  [n] Skip  [X] Clear  [d] Dashboard  [q] Close  "@ + esc,
        ViewMode::History => "[h] Close  "@ + esc,
        ViewMode::Help => esc,
        ViewMode::Mixer => "[Tab] Deck  [↑↓] Row  [←→] Adjust  [r] Reset  [R] Reset All  [Esc] Close"@,
        ViewMode::TransitionRules => "[↑↓] Nav  [Enter] Edit  [i] Insert  [D] Delete  [{/}] Reorder  [Esc] Save+Close"@,
        ViewMode::MidiLearn => "[Touch a control]  [↑↓] Pick action  [Enter] Bind  [U] Unbind  [Esc] Close"@,
        ViewMode::Browse => browse_hints(screen, column, esc),
    }
}

fn browse_hints_of(screen: &BrowseScreen, column: i32, esc: &str) -> (s: String)
    ensures
        s@ == browse_hints(*screen, column as int, esc@),
{
    match &screen.items {
        Items::Tracks(_) => {
            if column == -1 {
                owned("[Enter] Release  [o] Open  [←] Back  [→] Next Column")
            } else if column == 0 {
                owned("[Enter] Artist  [o] Open  [←] Back  [→] Next Column")
            } else if column == 1 {
                owned("[Enter] Remixer  [o] Open  [←] Back  [→] Next Column")
            } else if column == 2 {
                owned("[Enter] Label  [o] Open  [←] Back  [→] Next Column")
            } else if column == 3 {
                owned("[Enter] Genre  [o] Open  [←] Back  [→] Next Column")
            } else if column == 4 {
                owned("[Enter] Year  [o] Open  [←] Back")
            } else if column > 4 {
                owned("[←→] Columns")
            } else {
                concat2(
                    "[Space] Preview  [Enter] Queue  [←→] Columns  [a] All  [f] Fav  [o] Web  [+] Playlist  [d] Dashboard  [q] Queue  [/] Search  ",
                    esc,
                )
            }
        },
        Items::Artists(_) | Items::Labels(_) => concat2(
            "[Enter] Select  [o] Web  [d] Dashboard  [q] Queue  [/] Search  ",
            esc,
        ),
        _ => concat2(
            "[Enter] Select  [o] Web  [q] Queue  [d] Dashboard  [,] Settings  [/] Search  ",
            esc,
        ),
    }
}

/// Where the cursor is in a list: `  [3/20]`.
pub open spec fn position_text(selected: usize, count: nat) -> Seq<char> {
    if count > 0 {
        "  ["@ + decimal((selected + 1) as nat) + "/"@ + decimal(count) + "]"@
    } else {
        ""@
    }
}

fn position_str(selected: usize, count: usize) -> (s: String)
    ensures
        s@ == position_text(selected, count as nat),
{
    if count > 0 {
        let s: String = concat2("  [", wide_decimal_str(selected as u128 + 1).as_str());
        let s: String = concat3(s.as_str(), "/", decimal_str(count as u64).as_str());
        concat2(s.as_str(), "]")
    } else {
        owned("")
    }
}

/// The title of the box around a screen.
pub open spec fn outer_title(view: ViewMode, breadcrumb: Seq<char>, pos: Seq<char>, favorites: nat) -> Seq<
    char,
> {
    match view {
        ViewMode::Help => " Beatport > Help "@,
        ViewMode::Mixer => " Mixer "@,
        ViewMode::TransitionRules => " Transition Rules "@,
        ViewMode::ClaudeDj => " AI DJ "@,
        ViewMode::MidiLearn => " MIDI Learn "@,
        ViewMode::PlaylistPicker => " Add to Playlist "@,
        ViewMode::PlaylistNameInput => " New Playlist Name "@,
        ViewMode::Settings => " Beatport > Settings "@,
        ViewMode::GenrePicker => " Settings > Default Genre "@,
        ViewMode::FavoritesPicker => " Settings > Favorite Genres ("@ + decimal(favorites)
            + " selected) "@,
        ViewMode::Queue => " Queue"@ + pos + " "@,
        ViewMode::History => " History "@,
        ViewMode::Search => " "@ + breadcrumb + " > Search "@,
        ViewMode::Dashboard => " Dashboard "@,
        ViewMode::Browse => " "@ + breadcrumb + pos + " "@,
    }
}

pub fn outer_title_of(view: ViewMode, breadcrumb: &str, pos: &str, favorites: usize) -> (s: String)
    ensures
        s@ == outer_title(view, breadcrumb@, pos@, favorites as nat),
{
    match view {
        ViewMode::Help => owned(" Beatport > Help "),
        ViewMode::Mixer => owned(" Mixer "),
        ViewMode::TransitionRules => owned(" Transition Rules "),
        ViewMode::ClaudeDj => owned(" AI DJ "),
        ViewMode::MidiLearn => owned(" MIDI Learn "),
        ViewMode::PlaylistPicker => owned(" Add to Playlist "),
        ViewMode::PlaylistNameInput => owned(" New Playlist Name "),
        ViewMode::Settings => owned(" Beatport > Settings "),
        ViewMode::GenrePicker => owned(" Settings > Default Genre "),
        ViewMode::FavoritesPicker => concat3(
            " Settings > Favorite Genres (",
            decimal_str(favorites as u64).as_str(),
            " selected) ",
        ),
        ViewMode::Queue => concat3(" Queue", pos, " "),
        ViewMode::History => owned(" History "),
        ViewMode::Search => concat3(" ", breadcrumb, " > Search "),
        ViewMode::Dashboard => owned(" Dashboard "),
        ViewMode::Browse => {
            let s: String = concat3(" ", breadcrumb, pos);
            concat2(s.as_str(), " ")
        },
    }
}

impl App {
    /// The hints of the screen shown.
    pub fn build_hints_string(&self, info: &NowPlaying) -> (s: String)
        requires
            self.wf(),
        ensures
            s@ == hints(
                self.view,
                self.nav@.screen(),
                self.nav.cursor.column as int,
                self.nav@.stack.len(),
                info.playing_track is Some,
            ),
    {
        let esc: &str = if self.nav.stack.len() <= 1 {
            "[Esc] Quit"
        } else {
            "[Esc] Back"
        };
        let play: &str = if info.playing_track.is_some() {
            "[p] Pause"
        } else {
            "[p] Play"
        };
        match self.view {
            ViewMode::PlaylistPicker => owned("[Enter] Select  [Esc] Back"),
            ViewMode::PlaylistNameInput => owned("[Type] Name  [Enter] Create  [Esc] Back"),
            ViewMode::GenrePicker => concat2("[Enter] Select  ", esc),
            ViewMode::FavoritesPicker => concat2("[Enter] Toggle ★  ", esc),
            ViewMode::Settings => concat2("[Enter] Change  [,] Close  ", esc),
            ViewMode::ClaudeDj => concat2("[C] Toggle  [/] Ask  ", esc),
            ViewMode::Dashboard => {
                let s: String = concat3(
                    "[?] Help  [Tab] Focus  ",
                    play,
                    "  [n] Skip  [t] Teleport  [T] Rewind  [w] Waveform  [c] DJ Screen  [C] Toggle DJ  [/] Ask DJ  [d] Close  ",
                );
                concat2(s.as_str(), esc)
            },
            ViewMode::Search => owned(
                "[Type] Search  [↑↓] Navigate  [Space] Preview  [Enter] Queue  [Esc] Back",
            ),
            ViewMode::Queue => {
                let s: String = concat3(
                    "[←→] Columns  [f] Fav  [o] Web  ",
                    play,
                    "  [n] Skip  [X] Clear  [d] Dashboard  [q] Close  ",
                );
                concat2(s.as_str(), esc)
            },
            ViewMode::History => concat2("[h] Close  ", esc),
            ViewMode::Help => owned(esc),
            ViewMode::Mixer => owned(
                "[Tab] Deck  [↑↓] Row  [←→] Adjust  [r] Reset  [R] Reset All  [Esc] Close",
            ),
            ViewMode::TransitionRules => owned(
                "[↑↓] Nav  [Enter] Edit  [i] Insert  [D] Delete  [{/}] Reorder  [Esc] Save+Close",
            ),
            ViewMode::MidiLearn => owned(
                "[Touch a control]  [↑↓] Pick action  [Enter] Bind  [U] Unbind  [Esc] Close",
            ),
            ViewMode::Browse => browse_hints_of(
                self.nav.current_screen(),
                self.nav.cursor.column,
                esc,
            ),
        }
    }

    /// The title of the box around the screen shown.
    pub fn screen_title(&self) -> (s: String)
        requires
            self.wf(),
        ensures
            s@ == outer_title(
                self.view,
                joined(titles(self.nav@.stack), " > "@),
                position_text(self.nav.cursor.selected, self.nav@.screen().labels@.len()),
                self.config.favorite_genres@.len(),
            ),
    {
        let bc: String = self.nav.breadcrumb();
        let count: usize = self.nav.current_screen().item_count();
        let pos: String = position_str(self.nav.cursor.selected, count);
        outer_title_of(
            self.view,
            bc.as_str(),
            pos.as_str(),
            self.config.favorite_genres.len(),
        )
    }
}

} // verus!
