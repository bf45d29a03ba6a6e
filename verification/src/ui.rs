//! The UI decision core: what each message does to the model, and what it
//! asks the outside to do.
//!
//! The widget trees and event wiring live at the unverified boundary; they
//! turn clicks into [`UiMsg`] values, call [`RadioModel::update`] for the one
//! decision step, and then perform the returned [`UiEffect`] — start or stop
//! playback through the session controller, persist the list, run a search.
//! The decision itself is a pure function of the model and the message.

use vstd::prelude::*;
use vstd::string::StringExecFns;

use crate::stations::Station;
use crate::stations::StationList;
use crate::stations::spec_id_of;
use crate::stations::spec_mark_first;
use crate::volume::Volume;

verus! {

/// The window title shown while nothing plays.
pub open spec fn spec_idle_title() -> Seq<char> {
    "RelmyVibes"@
}

/// A message from the UI layer.
pub enum UiMsg {
    /// Play a station: the row id tells the list which row turns bold.
    Play(Station, usize),
    /// Stop whatever plays.
    Stop,
    /// The volume knob moved.
    VolumeChanged(Volume),
    /// The name field of the add-station form changed.
    StationNameChanged(String),
    /// The URL field of the add-station form changed.
    StationUrlChanged(String),
    /// The add-station form was submitted.
    AddStation,
    /// The context menu was asked for; it belongs to the hovered row.
    ShowMenu,
    /// The context menu's delete entry was chosen.
    DeleteStation,
    /// The pointer entered or left a row.
    SetHoverId(Option<usize>),
    /// The search field changed.
    SearchQuery(String),
}

/// What the boundary must do after a decision step.
pub enum UiEffect {
    /// Nothing outward.
    NoEffect,
    /// Hand this URL to the session controller as a play request.
    StartPlayback(String),
    /// Hand the session controller a stop request.
    StopPlayback,
    /// Hand the session controller this volume.
    ApplyVolume(Volume),
    /// Persist the station list.
    SaveStations,
    /// Pop the context menu up over the hovered row.
    OpenMenu,
    /// Run this query against the search collaborator.
    RunSearch(String),
}

/// The plain state behind the main window.
pub struct RadioModel {
    /// The rows the station list shows.
    pub station_list: StationList,
    /// The window title: the playing station's name, or the idle title.
    pub title: String,
    /// The add-station form's name field.
    pub new_station_name: String,
    /// The add-station form's URL field.
    pub new_station_url: String,
    /// The row the pointer is over, if any.
    pub hover_id: Option<usize>,
    /// The row the open context menu belongs to.
    pub menu_id: usize,
    /// The row of the station playing, if any.
    pub playing_id: Option<usize>,
}

impl RadioModel {
    /// The fresh model behind a just-opened window: an empty list (the
    /// boundary loads the saved stations into it), the idle title, empty
    /// form fields, and nothing hovered or playing.
    pub fn new() -> (m: RadioModel)
        ensures
            m.station_list@ == Seq::<crate::stations::EntryView>::empty(),
            m.title@ == spec_idle_title(),
            m.new_station_name@ == Seq::<char>::empty(),
            m.new_station_url@ == Seq::<char>::empty(),
            m.hover_id is None,
            m.menu_id == 0,
            m.playing_id is None,
    {
        RadioModel {
            station_list: StationList::new(),
            title: String::from_str("RelmyVibes"),
            new_station_name: String::new(),
            new_station_url: String::new(),
            hover_id: None,
            menu_id: 0,
            playing_id: None,
        }
    }

    /// One decision step: how the message changes the model, and what it
    /// asks the boundary to do. Every arm is pinned: a play request re-marks
    /// the list, remembers the row and the title, and asks for playback of
    /// the station's URL; a stop clears them and asks playback to stop; the
    /// form arms only edit their fields; adding requires both fields
    /// non-empty; deleting removes the menu's row; volume and search pass
    /// through as effects.
    pub fn update(&mut self, msg: UiMsg) -> (eff: UiEffect)
        ensures
            msg matches UiMsg::Play(station, id) ==> {
                &&& final(self).station_list@ == spec_mark_first(
                    spec_mark_first(old(self).station_list@, spec_id_of(old(self).playing_id), false),
                    spec_id_of(old(self).hover_id),
                    true,
                )
                &&& final(self).playing_id == Some(id)
                &&& final(self).title@ == station.name@
                &&& (eff matches UiEffect::StartPlayback(url) && url@ == station.url@)
                &&& final(self).new_station_name@ == old(self).new_station_name@
                &&& final(self).new_station_url@ == old(self).new_station_url@
                &&& final(self).hover_id == old(self).hover_id
                &&& final(self).menu_id == old(self).menu_id
            },
            msg is Stop ==> {
                &&& final(self).station_list@ == spec_mark_first(
                    old(self).station_list@,
                    spec_id_of(old(self).playing_id),
                    false,
                )
                &&& final(self).playing_id is None
                &&& final(self).title@ == spec_idle_title()
                &&& eff is StopPlayback
                &&& final(self).new_station_name@ == old(self).new_station_name@
                &&& final(self).new_station_url@ == old(self).new_station_url@
                &&& final(self).hover_id == old(self).hover_id
                &&& final(self).menu_id == old(self).menu_id
            },
            msg matches UiMsg::VolumeChanged(v) ==> {
                &&& eff == UiEffect::ApplyVolume(v)
                &&& *final(self) == *old(self)
            },
            msg matches UiMsg::StationNameChanged(name) ==> {
                &&& final(self).new_station_name@ == name@
                &&& eff is NoEffect
                &&& final(self).station_list@ == old(self).station_list@
                &&& final(self).title@ == old(self).title@
                &&& final(self).new_station_url@ == old(self).new_station_url@
                &&& final(self).hover_id == old(self).hover_id
                &&& final(self).menu_id == old(self).menu_id
                &&& final(self).playing_id == old(self).playing_id
            },
            msg matches UiMsg::StationUrlChanged(url) ==> {
                &&& final(self).new_station_url@ == url@
                &&& eff is NoEffect
                &&& final(self).station_list@ == old(self).station_list@
                &&& final(self).title@ == old(self).title@
                &&& final(self).new_station_name@ == old(self).new_station_name@
                &&& final(self).hover_id == old(self).hover_id
                &&& final(self).menu_id == old(self).menu_id
                &&& final(self).playing_id == old(self).playing_id
            },
            msg is AddStation ==> {
                &&& (old(self).new_station_name@.len() > 0 && old(self).new_station_url@.len() > 0
                    ==> final(self).station_list@ == old(self).station_list@.push(
                    crate::stations::EntryView {
                        name: old(self).new_station_name@,
                        url: old(self).new_station_url@,
                        id: old(self).station_list@.len() as int,
                        active: false,
                        label: old(self).new_station_name@,
                    },
                ) && eff is SaveStations)
                &&& (!(old(self).new_station_name@.len() > 0 && old(self).new_station_url@.len()
                    > 0) ==> final(self).station_list@ == old(self).station_list@ && eff
                    is NoEffect)
                &&& final(self).title@ == old(self).title@
                &&& final(self).new_station_name@ == old(self).new_station_name@
                &&& final(self).new_station_url@ == old(self).new_station_url@
                &&& final(self).hover_id == old(self).hover_id
                &&& final(self).menu_id == old(self).menu_id
                &&& final(self).playing_id == old(self).playing_id
            },
            msg is ShowMenu ==> {
                &&& (old(self).hover_id matches Some(h) ==> final(self).menu_id == h && eff
                    is OpenMenu)
                &&& (old(self).hover_id is None ==> final(self).menu_id == old(self).menu_id && eff
                    is NoEffect)
                &&& final(self).station_list@ == old(self).station_list@
                &&& final(self).title@ == old(self).title@
                &&& final(self).new_station_name@ == old(self).new_station_name@
                &&& final(self).new_station_url@ == old(self).new_station_url@
                &&& final(self).hover_id == old(self).hover_id
                &&& final(self).playing_id == old(self).playing_id
            },
            msg is DeleteStation ==> {
                &&& final(self).station_list@ == crate::stations::spec_remove_id(
                    old(self).station_list@,
                    old(self).menu_id as int,
                )
                &&& eff is SaveStations
                &&& final(self).title@ == old(self).title@
                &&& final(self).new_station_name@ == old(self).new_station_name@
                &&& final(self).new_station_url@ == old(self).new_station_url@
                &&& final(self).hover_id == old(self).hover_id
                &&& final(self).menu_id == old(self).menu_id
                &&& final(self).playing_id == old(self).playing_id
            },
            msg matches UiMsg::SetHoverId(id) ==> {
                &&& final(self).hover_id == id
                &&& eff is NoEffect
                &&& final(self).station_list@ == old(self).station_list@
                &&& final(self).title@ == old(self).title@
                &&& final(self).new_station_name@ == old(self).new_station_name@
                &&& final(self).new_station_url@ == old(self).new_station_url@
                &&& final(self).menu_id == old(self).menu_id
                &&& final(self).playing_id == old(self).playing_id
            },
            msg matches UiMsg::SearchQuery(query) ==> {
                &&& (eff matches UiEffect::RunSearch(q) && q@ == query@)
                &&& *final(self) == *old(self)
            },
    {
        match msg {
            UiMsg::Play(station, id) => {
                self.station_list.deactivate_by_id(self.playing_id);
                self.station_list.activate_by_id(self.hover_id);
                self.playing_id = Some(id);
                self.title = station.name;
                UiEffect::StartPlayback(station.url)
            },
            UiMsg::Stop => {
                self.station_list.deactivate_by_id(self.playing_id);
                self.playing_id = None;
                self.title = String::from_str("RelmyVibes");
                UiEffect::StopPlayback
            },
            UiMsg::VolumeChanged(v) => UiEffect::ApplyVolume(v),
            UiMsg::StationNameChanged(name) => {
                self.new_station_name = name;
                UiEffect::NoEffect
            },
            UiMsg::StationUrlChanged(url) => {
                self.new_station_url = url;
                UiEffect::NoEffect
            },
            UiMsg::AddStation => {
                if !self.new_station_name.as_str().is_empty()
                    && !self.new_station_url.as_str().is_empty() {
                    let station = Station::new(
                        self.new_station_name.clone(),
                        self.new_station_url.clone(),
                    );
                    self.station_list.append(station);
                    UiEffect::SaveStations
                } else {
                    UiEffect::NoEffect
                }
            },
            UiMsg::ShowMenu => {
                match self.hover_id {
                    Some(h) => {
                        self.menu_id = h;
                        UiEffect::OpenMenu
                    },
                    None => UiEffect::NoEffect,
                }
            },
            UiMsg::DeleteStation => {
                self.station_list.remove_by_id(self.menu_id);
                UiEffect::SaveStations
            },
            UiMsg::SetHoverId(id) => {
                self.hover_id = id;
                UiEffect::NoEffect
            },
            UiMsg::SearchQuery(query) => UiEffect::RunSearch(query),
        }
    }
}

} // verus!
