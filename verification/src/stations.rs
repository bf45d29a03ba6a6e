//! The station catalog as the engine sees it: plain names and URLs.
//!
//! A station is immutable once constructed and its identity is structural —
//! the name and the URL, not a generated id. The list keeps, per row, the id
//! the UI addresses it by, whether it is the one playing, and the label
//! markup it shows; loading, saving and rendering the rows are the
//! collaborators' business, and they hand plain values in and out.

use vstd::prelude::*;
use vstd::string::StringExecFns;

verus! {

/// How many stations a search hands back at most.
pub const SEARCH_RESULT_LIMIT: usize = 10;

/// A radio station: a display name and a stream URL.
#[derive(Clone, Debug)]
pub struct Station {
    /// The display name.
    pub name: String,
    /// The stream URL the playback engine is handed on a play request.
    pub url: String,
}

impl Station {
    /// Builds a station from its parts.
    pub fn new(name: String, url: String) -> (s: Station)
        ensures
            s.name@ == name@,
            s.url@ == url@,
    {
        Station { name, url }
    }

    /// An exact copy, pinned: both fields of the copy equal the original's.
    pub fn duplicate(&self) -> (s: Station)
        ensures
            s == self,
    {
        Station { name: self.name.clone(), url: self.url.clone() }
    }
}

impl PartialEq for Station {
    /// Structural identity: same name and same URL.
    fn eq(&self, other: &Station) -> (r: bool) {
        self.name == other.name && self.url == other.url
    }
}

impl vstd::std_specs::cmp::PartialEqSpecImpl for Station {
    open spec fn obeys_eq_spec() -> bool {
        true
    }

    open spec fn eq_spec(&self, other: &Station) -> bool {
        self.name@ == other.name@ && self.url@ == other.url@
    }
}

/// The mathematical state of one station row.
#[verifier::ext_equal]
pub struct EntryView {
    /// The station's display name.
    pub name: Seq<char>,
    /// The station's stream URL.
    pub url: Seq<char>,
    /// The id the UI addresses the row by.
    pub id: int,
    /// Whether this row is the one currently playing.
    pub active: bool,
    /// The label markup the row shows: the bare name, or the name in bold
    /// while active.
    pub label: Seq<char>,
}

/// The label a row shows when marked: the name wrapped in bold markup while
/// active, the bare name otherwise.
pub open spec fn spec_label(name: Seq<char>, active: bool) -> Seq<char> {
    if active {
        "<b>"@ + name + "</b>"@
    } else {
        name
    }
}

/// A row marked active or inactive: only the flag and the label change.
pub open spec fn spec_marked(e: EntryView, active: bool) -> EntryView {
    EntryView { active, label: spec_label(e.name, active), ..e }
}

/// The first row carrying `id`, scanning from position `k`.
pub open spec fn spec_find_from(s: Seq<EntryView>, id: int, k: int) -> Option<int>
    decreases s.len() - k,
{
    if k < 0 || k >= s.len() {
        None
    } else if s[k].id == id {
        Some(k)
    } else {
        spec_find_from(s, id, k + 1)
    }
}

/// The first row carrying `id`, if any.
pub open spec fn spec_find_id(s: Seq<EntryView>, id: int) -> Option<int> {
    spec_find_from(s, id, 0)
}

/// The list with the first row carrying `id` re-marked; unchanged when no id
/// was given or no row carries it.
pub open spec fn spec_mark_first(s: Seq<EntryView>, id: Option<int>, active: bool) -> Seq<
    EntryView,
> {
    match id {
        None => s,
        Some(t) => match spec_find_id(s, t) {
            None => s,
            Some(i) => s.update(i, spec_marked(s[i], active)),
        },
    }
}

/// The list without the rows carrying `id`, order kept.
pub open spec fn spec_remove_id(s: Seq<EntryView>, id: int) -> Seq<EntryView>
    decreases s.len(),
{
    if s.len() == 0 {
        Seq::empty()
    } else {
        let rest = spec_remove_id(s.drop_last(), id);
        if s.last().id == id {
            rest
        } else {
            rest.push(s.last())
        }
    }
}

/// One row of the station list: the station, the id the UI addresses it by,
/// whether it is the one playing, and the label markup it shows.
#[derive(Debug)]
pub struct StationListItem {
    /// The station this row shows.
    pub station: Station,
    /// The id the UI addresses the row by.
    pub id: usize,
    /// Whether this row is the one currently playing.
    pub is_active: bool,
    /// The label markup the row shows.
    pub label: String,
}

impl View for StationListItem {
    type V = EntryView;

    open spec fn view(&self) -> EntryView {
        EntryView {
            name: self.station.name@,
            url: self.station.url@,
            id: self.id as int,
            active: self.is_active,
            label: self.label@,
        }
    }
}

impl StationListItem {
    /// A fresh, inactive row for a station.
    pub fn new(station: Station, id: usize) -> (e: StationListItem)
        ensures
            e@ == (EntryView {
                name: station.name@,
                url: station.url@,
                id: id as int,
                active: false,
                label: station.name@,
            }),
    {
        let label = station.name.clone();
        let e = StationListItem { station, id, is_active: false, label };
        proof {
            assert(e@ =~= (EntryView {
                name: e.station.name@,
                url: e.station.url@,
                id: id as int,
                active: false,
                label: e.station.name@,
            }));
        }
        e
    }

    /// Marks the row as the one playing: its label turns bold.
    pub fn active(&mut self)
        ensures
            final(self)@ == spec_marked(old(self)@, true),
    {
        let bold = String::from_str("<b>").concat(self.station.name.as_str()).concat("</b>");
        self.label = bold;
        self.is_active = true;
        proof {
            assert(self@ =~= spec_marked(old(self)@, true));
        }
    }

    /// Marks the row as not playing: its label returns to the bare name.
    pub fn inactive(&mut self)
        ensures
            final(self)@ == spec_marked(old(self)@, false),
    {
        self.label = self.station.name.clone();
        self.is_active = false;
        proof {
            assert(self@ =~= spec_marked(old(self)@, false));
        }
    }
}

/// The ordered station list the UI shows.
pub struct StationList {
    entries: Vec<StationListItem>,
}

impl View for StationList {
    type V = Seq<EntryView>;

    closed spec fn view(&self) -> Seq<EntryView> {
        self.entries@.map(|i: int, e: StationListItem| e@)
    }
}

impl StationList {
    /// An empty list.
    pub fn new() -> (l: StationList)
        ensures
            l@ == Seq::<EntryView>::empty(),
    {
        let l = StationList { entries: Vec::new() };
        proof {
            assert(l@ =~= Seq::<EntryView>::empty());
        }
        l
    }

    /// How many rows the list holds.
    pub fn len(&self) -> (n: usize)
        ensures
            n == self@.len(),
    {
        self.entries.len()
    }

    /// Appends a station as a fresh inactive row whose id is the position it
    /// lands at.
    pub fn append(&mut self, station: Station)
        ensures
            final(self)@ == old(self)@.push(EntryView {
                name: station.name@,
                url: station.url@,
                id: old(self)@.len() as int,
                active: false,
                label: station.name@,
            }),
    {
        let id = self.entries.len();
        let ghost n = station.name@;
        let ghost u = station.url@;
        self.entries.push(StationListItem::new(station, id));
        proof {
            assert(self@ =~= old(self)@.push(EntryView {
                name: n,
                url: u,
                id: id as int,
                active: false,
                label: n,
            }));
        }
    }

    /// Finds the first row carrying the id, if one was given at all — the
    /// position comes back, to mark or read the row by.
    pub fn get_by_id(&self, id: Option<usize>) -> (r: Option<usize>)
        ensures
            id is None ==> r is None,
            id matches Some(t) ==> {
                &&& (r is None <==> spec_find_id(self@, t as int) is None)
                &&& (r matches Some(i) ==> spec_find_id(self@, t as int) == Some(i as int)
                    && i < self@.len())
            },
    {
        let target = match id {
            Some(t) => t,
            None => {
                return None;
            },
        };
        let mut x: usize = 0;
        while x < self.entries.len()
            invariant
                x <= self@.len(),
                id == Some(target),
                spec_find_id(self@, target as int) == spec_find_from(self@, target as int, x as int),
            decreases self@.len() - x,
        {
            if self.entries[x].id == target {
                proof {
                    assert(self@[x as int] == self.entries@[x as int]@);
                }
                return Some(x);
            }
            proof {
                assert(self@[x as int] == self.entries@[x as int]@);
            }
            x = x + 1;
        }
        None
    }

    /// Marks the row at a position as the one playing.
    pub fn active_at(&mut self, i: usize)
        requires
            i < old(self)@.len(),
        ensures
            final(self)@ == old(self)@.update(i as int, spec_marked(old(self)@[i as int], true)),
    {
        let e = &mut self.entries[i];
        e.active();
        proof {
            assert(self@ =~= old(self)@.update(i as int, spec_marked(old(self)@[i as int], true)));
        }
    }

    /// Marks the row at a position as not playing.
    pub fn inactive_at(&mut self, i: usize)
        requires
            i < old(self)@.len(),
        ensures
            final(self)@ == old(self)@.update(i as int, spec_marked(old(self)@[i as int], false)),
    {
        let e = &mut self.entries[i];
        e.inactive();
        proof {
            assert(self@ =~= old(self)@.update(i as int, spec_marked(old(self)@[i as int], false)));
        }
    }

    /// Marks the first row carrying the id, if any, as the one playing.
    pub fn activate_by_id(&mut self, id: Option<usize>)
        ensures
            final(self)@ == spec_mark_first(old(self)@, spec_id_of(id), true),
    {
        match self.get_by_id(id) {
            Some(i) => self.active_at(i),
            None => (),
        }
    }

    /// Marks the first row carrying the id, if any, as not playing.
    pub fn deactivate_by_id(&mut self, id: Option<usize>)
        ensures
            final(self)@ == spec_mark_first(old(self)@, spec_id_of(id), false),
    {
        match self.get_by_id(id) {
            Some(i) => self.inactive_at(i),
            None => (),
        }
    }

    /// Removes every row carrying the id, keeping the others in order.
    pub fn remove_by_id(&mut self, id: usize)
        ensures
            final(self)@ == spec_remove_id(old(self)@, id as int),
    {
        let mut kept: Vec<StationListItem> = Vec::new();
        let mut x: usize = 0;
        while x < self.entries.len()
            invariant
                x <= self.entries@.len(),
                kept@.map(|i: int, e: StationListItem| e@) == spec_remove_id(
                    self@.take(x as int),
                    id as int,
                ),
                self@ == old(self)@,
            decreases self.entries@.len() - x,
        {
            let ghost prefix = self@.take(x as int);
            let e = &self.entries[x];
            if e.id != id {
                kept.push(e_duplicate(e));
            }
            proof {
                assert(self@.take(x + 1 as int).drop_last() =~= prefix);
                assert(self@.take(x + 1 as int).last() == self@[x as int]);
                assert(kept@.map(|i: int, e: StationListItem| e@) =~= spec_remove_id(
                    self@.take(x + 1 as int),
                    id as int,
                ));
            }
            x = x + 1;
        }
        self.entries = kept;
        proof {
            assert(old(self)@.take(old(self)@.len() as int) =~= old(self)@);
        }
    }

    /// Whether the row at a position is marked as the one playing.
    pub fn is_active_at(&self, i: usize) -> (b: bool)
        requires
            i < self@.len(),
        ensures
            b == self@[i as int].active,
    {
        proof {
            assert(self@[i as int] == self.entries@[i as int]@);
        }
        self.entries[i].is_active
    }

    /// The label markup the row at a position shows.
    pub fn label_at(&self, i: usize) -> (l: String)
        requires
            i < self@.len(),
        ensures
            l@ == self@[i as int].label,
    {
        proof {
            assert(self@[i as int] == self.entries@[i as int]@);
        }
        self.entries[i].label.clone()
    }

    /// The stations of the rows, in order: what gets saved.
    pub fn stations(&self) -> (r: Vec<Station>)
        ensures
            r@.len() == self@.len(),
            forall|i: int|
                0 <= i < self@.len() ==> r@[i].name@ == self@[i].name && r@[i].url@ == self@[i].url,
    {
        let mut r: Vec<Station> = Vec::new();
        let mut x: usize = 0;
        while x < self.entries.len()
            invariant
                x <= self@.len(),
                r@.len() == x,
                forall|i: int|
                    0 <= i < x ==> r@[i].name@ == self@[i].name && r@[i].url@ == self@[i].url,
            decreases self@.len() - x,
        {
            r.push(self.entries[x].station.duplicate());
            x = x + 1;
        }
        r
    }

    /// Appends every loaded station, in order, as fresh inactive rows with
    /// sequential ids.
    pub fn load_from(&mut self, stations: &Vec<Station>)
        ensures
            final(self)@.len() == old(self)@.len() + stations@.len(),
            forall|j: int| 0 <= j < old(self)@.len() ==> final(self)@[j] == old(self)@[j],
            forall|k: int|
                0 <= k < stations@.len() ==> final(self)@[old(self)@.len() + k] == (EntryView {
                    name: stations@[k].name@,
                    url: stations@[k].url@,
                    id: old(self)@.len() + k,
                    active: false,
                    label: stations@[k].name@,
                }),
    {
        let mut x: usize = 0;
        while x < stations.len()
            invariant
                x <= stations@.len(),
                self@.len() == old(self)@.len() + x,
                forall|j: int| 0 <= j < old(self)@.len() ==> self@[j] == old(self)@[j],
                forall|k: int|
                    0 <= k < x ==> self@[old(self)@.len() + k] == (EntryView {
                        name: stations@[k].name@,
                        url: stations@[k].url@,
                        id: old(self)@.len() + k,
                        active: false,
                        label: stations@[k].name@,
                    }),
            decreases stations@.len() - x,
        {
            self.append(stations[x].duplicate());
            x = x + 1;
        }
    }
}

/// The id as a mathematical option.
pub open spec fn spec_id_of(id: Option<usize>) -> Option<int> {
    match id {
        Some(t) => Some(t as int),
        None => None,
    }
}

/// An exact copy of a row, pinned to the same view.
fn e_duplicate(e: &StationListItem) -> (r: StationListItem)
    ensures
        r@ == e@,
{
    StationListItem {
        station: e.station.duplicate(),
        id: e.id,
        is_active: e.is_active,
        label: e.label.clone(),
    }
}

/// Keeps the first few search results, in order: the advisory list the
/// controller shows is bounded to a small count.
pub fn select_search_results(results: Vec<Station>) -> (r: Vec<Station>)
    ensures
        r@ == results@.take(
            if results@.len() <= SEARCH_RESULT_LIMIT {
                results@.len() as int
            } else {
                SEARCH_RESULT_LIMIT as int
            },
        ),
{
    let ghost orig = results@;
    let mut r = results;
    r.truncate(SEARCH_RESULT_LIMIT);
    proof {
        if orig.len() <= SEARCH_RESULT_LIMIT {
            assert(r@ =~= orig.take(orig.len() as int));
        } else {
            assert(r@ =~= orig.take(SEARCH_RESULT_LIMIT as int));
        }
    }
    r
}

} // verus!
