use vstd::prelude::*;
use vstd::string::*;
use crate::asmr::AsmrSettings;
use crate::packs::{Favorites, toggled};
use crate::text::{str_eq, string_views};

verus! {

/// The settings that are saved between runs.
pub struct AppSettings {
    pub volume: u32,
    pub pack: String,
}

/// The volume at start-up when no settings were saved, in percent.
pub const DEFAULT_VOLUME: u32 = 100;

/// The pack that starts: the saved one when it is still available,
/// otherwise the first available one.
pub open spec fn spec_starting_pack(available: Seq<Seq<char>>, saved: Option<Seq<char>>) -> Option<
    Seq<char>,
> {
    let first = if available.len() > 0 {
        Some(available[0])
    } else {
        None
    };
    match saved {
        Some(p) => if available.contains(p) {
            Some(p)
        } else {
            first
        },
        None => first,
    }
}

pub open spec fn name_view(n: Option<&str>) -> Option<Seq<char>> {
    match n {
        Some(p) => Some(p@),
        None => None,
    }
}

pub open spec fn saved_pack_view(s: Option<&AppSettings>) -> Option<Seq<char>> {
    match s {
        Some(a) => Some(a.pack@),
        None => None,
    }
}

/// The pack that starts is always one of the available packs, and there is
/// one whenever any pack is available.
pub proof fn lemma_starting_pack_available(available: Seq<Seq<char>>, saved: Option<Seq<char>>)
    ensures
        match spec_starting_pack(available, saved) {
            Some(p) => available.contains(p),
            None => available.len() == 0,
        },
{
    if available.len() > 0 {
        assert(available[0] == available[0]);
        assert(available.contains(available[0]));
    }
}

/// The state that the command line and the settings window change.
pub struct Session {
    /// Master volume of the key sounds, in percent.
    pub volume: u32,
    /// Name of the current pack.
    pub pack_name: String,
    pub asmr: AsmrSettings,
    pub favorites: Favorites,
}

/// Chooses the pack to start with.
pub fn starting_pack(available: &Vec<String>, saved: Option<&str>) -> (r: Option<String>)
    ensures
        match r {
            Some(s) => spec_starting_pack(string_views(available@), name_view(saved))
                == Some(s@),
            None => spec_starting_pack(string_views(available@), name_view(saved)) is None,
        },
{
    let ghost all = string_views(available@);
    if let Some(p) = saved {
        let mut i: usize = 0;
        while i < available.len()
            invariant
                i <= available@.len(),
                all == string_views(available@),
                name_view(saved) == Some(p@),
                forall|j: int| 0 <= j < i ==> all[j] != p@,
            decreases available@.len() - i,
        {
            if str_eq(available[i].as_str(), p) {
                assert(all[i as int] == p@);
                assert(all.contains(p@));
                return Some(String::from_str(p));
            }
            i = i + 1;
        }
        assert(!all.contains(p@));
    }
    if available.len() > 0 {
        Some(available[0].clone())
    } else {
        None
    }
}

impl Session {
    /// The session at start-up: the saved volume (or `DEFAULT_VOLUME`), the
    /// starting pack's name (or an empty name), ambience off.
    pub fn start(available: &Vec<String>, saved: Option<&AppSettings>, favorites: Favorites) -> (r: (
        Session,
        Option<String>,
    ))
        ensures
            r.0.volume == match saved {
                Some(s) => s.volume,
                None => DEFAULT_VOLUME,
            },
            match r.1 {
                Some(p) => spec_starting_pack(
                    string_views(available@),
                    saved_pack_view(saved),
                ) == Some(p@) && r.0.pack_name@ == p@,
                None => spec_starting_pack(
                    string_views(available@),
                    saved_pack_view(saved),
                ) is None && r.0.pack_name@ == Seq::<char>::empty(),
            },
            r.0.asmr == AsmrSettings::new_spec(),
            r.0.favorites@ == favorites@,
    {
        let (volume, saved_pack) = match saved {
            Some(s) => (s.volume, Some(s.pack.as_str())),
            None => (DEFAULT_VOLUME, None),
        };
        let first = starting_pack(available, saved_pack);
        let pack_name = match &first {
            Some(p) => p.clone(),
            None => String::new(),
        };
        (Session { volume, pack_name, asmr: AsmrSettings::new(), favorites }, first)
    }

    /// The settings to save.
    pub fn settings(&self) -> (r: AppSettings)
        ensures
            r.volume == self.volume,
            r.pack@ == self.pack_name@,
    {
        AppSettings { volume: self.volume, pack: self.pack_name.clone() }
    }

    /// Sets the volume (from `vol <n>`); returns the settings to save.
    pub fn set_volume(&mut self, v: u32) -> (r: AppSettings)
        ensures
            final(self).volume == v,
            final(self).pack_name@ == old(self).pack_name@,
            final(self).asmr == old(self).asmr,
            final(self).favorites@ == old(self).favorites@,
            r.volume == v,
            r.pack@ == old(self).pack_name@,
    {
        self.volume = v;
        self.settings()
    }

    /// Sets the volume sent by the settings window, which keeps the low
    /// 32 bits of the number; returns the settings to save.
    pub fn set_volume_from_window(&mut self, v: u64) -> (r: AppSettings)
        ensures
            final(self).volume == v as u32,
            final(self).pack_name@ == old(self).pack_name@,
            final(self).asmr == old(self).asmr,
            final(self).favorites@ == old(self).favorites@,
            r.volume == v as u32,
            r.pack@ == old(self).pack_name@,
    {
        self.set_volume(v as u32)
    }

    /// Makes `name` the current pack; returns the settings to save.
    pub fn select_pack(&mut self, name: &str) -> (r: AppSettings)
        ensures
            final(self).pack_name@ == name@,
            final(self).volume == old(self).volume,
            final(self).asmr == old(self).asmr,
            final(self).favorites@ == old(self).favorites@,
            r.volume == old(self).volume,
            r.pack@ == name@,
    {
        self.pack_name = String::from_str(name);
        self.settings()
    }

    /// Toggles `name` among the favourites; returns the favourites to save.
    pub fn toggle_favorite(&mut self, name: &str) -> (r: Vec<String>)
        ensures
            final(self).favorites@ == toggled(old(self).favorites@, name@),
            string_views(r@).to_set() == final(self).favorites@,
            string_views(r@).no_duplicates(),
            final(self).volume == old(self).volume,
            final(self).pack_name@ == old(self).pack_name@,
            final(self).asmr == old(self).asmr,
    {
        self.favorites.toggle(name);
        self.favorites.names()
    }
}

/// The requests that the settings window sends, by their `type` field.
#[derive(PartialEq, Eq, Structural, Clone, Copy, Debug)]
pub enum WindowRequest {
    SetVolume,
    SelectPack,
    ToggleFavorite,
    PreviewMaker,
    AsmrUpdate,
    SaveMaker,
    Quit,
    /// Any other type: ignored.
    Other,
}

pub open spec fn spec_window_request(kind: Seq<char>) -> WindowRequest {
    if kind == "set_volume"@ {
        WindowRequest::SetVolume
    } else if kind == "select_pack"@ {
        WindowRequest::SelectPack
    } else if kind == "toggle_fav"@ {
        WindowRequest::ToggleFavorite
    } else if kind == "preview_maker"@ {
        WindowRequest::PreviewMaker
    } else if kind == "asmr_update"@ {
        WindowRequest::AsmrUpdate
    } else if kind == "save_maker"@ {
        WindowRequest::SaveMaker
    } else if kind == "quit"@ {
        WindowRequest::Quit
    } else {
        WindowRequest::Other
    }
}

/// The `type` word of each request of the settings window.
pub open spec fn window_request_word(r: WindowRequest) -> Seq<char> {
    match r {
        WindowRequest::SetVolume => "set_volume"@,
        WindowRequest::SelectPack => "select_pack"@,
        WindowRequest::ToggleFavorite => "toggle_fav"@,
        WindowRequest::PreviewMaker => "preview_maker"@,
        WindowRequest::AsmrUpdate => "asmr_update"@,
        WindowRequest::SaveMaker => "save_maker"@,
        WindowRequest::Quit => "quit"@,
        WindowRequest::Other => Seq::<char>::empty(),
    }
}

proof fn lemma_request_word_chars()
    ensures
        "set_volume"@ == seq!['s', 'e', 't', '_', 'v', 'o', 'l', 'u', 'm', 'e'],
        "select_pack"@ == seq!['s', 'e', 'l', 'e', 'c', 't', '_', 'p', 'a', 'c', 'k'],
        "toggle_fav"@ == seq!['t', 'o', 'g', 'g', 'l', 'e', '_', 'f', 'a', 'v'],
        "preview_maker"@ == seq!['p', 'r', 'e', 'v', 'i', 'e', 'w', '_', 'm', 'a', 'k', 'e', 'r'],
        "asmr_update"@ == seq!['a', 's', 'm', 'r', '_', 'u', 'p', 'd', 'a', 't', 'e'],
        "save_maker"@ == seq!['s', 'a', 'v', 'e', '_', 'm', 'a', 'k', 'e', 'r'],
        "quit"@ == seq!['q', 'u', 'i', 't'],
{
    reveal_strlit("set_volume");
    reveal_strlit("select_pack");
    reveal_strlit("toggle_fav");
    reveal_strlit("preview_maker");
    reveal_strlit("asmr_update");
    reveal_strlit("save_maker");
    reveal_strlit("quit");
}

/// Each request word of the settings window denotes its own request, and
/// distinct requests have distinct words.
pub proof fn lemma_window_request_words(r: WindowRequest, q: WindowRequest)
    requires
        r != WindowRequest::Other,
    ensures
        spec_window_request(window_request_word(r)) == r,
        q != WindowRequest::Other && r != q ==> window_request_word(r) != window_request_word(q),
{
    lemma_request_word_chars();
}

/// Reads the `type` field of a message from the settings window.
pub fn window_request(kind: &str) -> (r: WindowRequest)
    ensures
        r == spec_window_request(kind@),
{
    if str_eq(kind, "set_volume") {
        WindowRequest::SetVolume
    } else if str_eq(kind, "select_pack") {
        WindowRequest::SelectPack
    } else if str_eq(kind, "toggle_fav") {
        WindowRequest::ToggleFavorite
    } else if str_eq(kind, "preview_maker") {
        WindowRequest::PreviewMaker
    } else if str_eq(kind, "asmr_update") {
        WindowRequest::AsmrUpdate
    } else if str_eq(kind, "save_maker") {
        WindowRequest::SaveMaker
    } else if str_eq(kind, "quit") {
        WindowRequest::Quit
    } else {
        WindowRequest::Other
    }
}

} // verus!
