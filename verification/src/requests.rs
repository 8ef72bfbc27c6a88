//! Requests to the catalogue and to the DJ: what is said when they start, and
//! what their replies lead to.
use crate::effects::{fx_view, only_toast, Effect, EffectV};
use crate::text::{concat2, concat3};
use crate::track::{track_name, Track};
use vstd::prelude::*;
use vstd::string::*;

verus! {

/// What is said when a request starts; without an account it does not.
pub open spec fn started(signed_in: bool, text: Seq<char>) -> (bool, Seq<EffectV>) {
    if signed_in {
        (true, seq![EffectV::Toast(text, 2000)])
    } else {
        (false, seq![EffectV::Toast("Not authenticated"@, 2000)])
    }
}

fn start(signed_in: bool, text: &str) -> (r: (bool, Vec<Effect>))
    ensures
        (r.0, fx_view(r.1@)) == started(signed_in, text@),
{
    if signed_in {
        (true, only_toast(text, 2000))
    } else {
        (false, only_toast("Not authenticated", 2000))
    }
}

/// Asks for the playlists to choose from.
pub fn open_playlist_picker(signed_in: bool) -> (r: (bool, Vec<Effect>))
    ensures
        (r.0, fx_view(r.1@)) == started(signed_in, "Loading playlists..."@),
{
    start(signed_in, "Loading playlists...")
}

/// Asks for a track to listen to.
pub fn download_for_preview(signed_in: bool, track: &Track) -> (r: (bool, Vec<Effect>))
    ensures
        (r.0, fx_view(r.1@)) == started(signed_in, "Loading preview: "@ + track_name(*track)),
{
    start(signed_in, concat2("Loading preview: ", track.name().as_str()).as_str())
}

/// Puts a track into the cart; nothing is said until the reply is there.
pub fn add_track_to_cart(signed_in: bool) -> (r: (bool, Vec<Effect>))
    ensures
        r.0 == signed_in,
        fx_view(r.1@) == (if signed_in {
            Seq::empty()
        } else {
            seq![EffectV::Toast("Not authenticated"@, 2000)]
        }),
{
    if signed_in {
        let fx: Vec<Effect> = Vec::new();
        assert(fx_view(fx@) =~= Seq::empty());
        (true, fx)
    } else {
        (false, only_toast("Not authenticated", 2000))
    }
}

/// What is said of a request that came back: that it worked, or why not.
pub open spec fn outcome(done: Seq<char>, failed: Seq<char>, error: Option<String>) -> Seq<char> {
    match error {
        None => done,
        Some(e) => failed + e@,
    }
}

/// What a search came to: a list with this title, or a message.
pub fn search_reply(query: &str, error: &Option<String>) -> (r: Result<String, String>)
    ensures
        match *error {
            None => r matches Ok(title) && title@ == "Search: "@ + query@,
            Some(e) => r matches Err(text) && text@ == "Search failed: "@ + e@,
        },
{
    match error {
        None => Ok(concat2("Search: ", query)),
        Some(e) => Err(concat2("Search failed: ", e.as_str())),
    }
}

/// The reply to putting a track into the cart.
pub fn cart_reply(track: &Track, error: &Option<String>) -> (s: String)
    ensures
        s@ == outcome("🛒 Added to cart: "@ + track_name(*track), "Cart add failed: "@, *error),
{
    match error {
        None => concat2("🛒 Added to cart: ", track.name().as_str()),
        Some(e) => concat2("Cart add failed: ", e.as_str()),
    }
}

/// The reply to putting a track on a playlist.
pub fn playlist_reply(name: &str, error: &Option<String>) -> (s: String)
    ensures
        s@ == outcome("Added to "@ + name@, "Error: "@, *error),
{
    match error {
        None => concat2("Added to ", name),
        Some(e) => concat2("Error: ", e.as_str()),
    }
}

/// How far creating a playlist and adding a track to it came.
pub enum Created {
    Both,
    /// The playlist is there, the track is not on it.
    AddFailed(String),
    CreateFailed(String),
}

pub open spec fn created_text(name: Seq<char>, c: Created) -> Seq<char> {
    match c {
        Created::Both => "Created '"@ + name + "' and added track"@,
        Created::AddFailed(e) => "Created playlist but add failed: "@ + e@,
        Created::CreateFailed(e) => "Create playlist failed: "@ + e@,
    }
}

/// The reply to creating a playlist for a track.
pub fn created_reply(name: &str, c: &Created) -> (s: String)
    ensures
        s@ == created_text(name@, *c),
{
    match c {
        Created::Both => concat3("Created '", name, "' and added track"),
        Created::AddFailed(e) => concat2("Created playlist but add failed: ", e.as_str()),
        Created::CreateFailed(e) => concat2("Create playlist failed: ", e.as_str()),
    }
}

/// What a reply of the DJ leads to: its tools are run; without any it is done.
pub enum DjReply {
    RunTools,
    Finished,
    Say(String),
}

pub fn dj_reply(tools: usize, error: &Option<String>) -> (r: DjReply)
    ensures
        match *error {
            Some(e) => r matches DjReply::Say(s) && s@ == "DJ error: "@ + e@,
            None => if tools > 0 {
                r is RunTools
            } else {
                r is Finished
            },
        },
{
    match error {
        Some(e) => DjReply::Say(concat2("DJ error: ", e.as_str())),
        None => if tools > 0 {
            DjReply::RunTools
        } else {
            DjReply::Finished
        },
    }
}

} // verus!
