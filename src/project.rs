//! The two project views: a detail pane for one project, and the list of all
//! projects with a selection that follows the cursor.
use vstd::prelude::*;

use crate::cursor::{CursorMap, Motion};
use crate::fetch::{project_url, projects_path, projects_url, FetchError};
use crate::render::{Area, Pane, ScrollTracker, StyledLine, SCROLL_TRACK_LENGTH};

verus! {

/// The abstract state of a detail view.
pub struct DetailModel {
    pub name: Seq<char>,
    pub body: Seq<char>,
    pub scroll: u16,
    pub scrollbar: ScrollTracker,
}

impl DetailModel {
    /// The state after a completion with `text` is delivered.
    pub open spec fn summarized(self, text: Seq<char>) -> DetailModel {
        DetailModel { body: text, ..self }
    }
}

/// The completion of a detail view's fetch.
#[derive(Debug, PartialEq)]
pub enum ProjectMessage {
    Summary(String),
}

impl ProjectMessage {
    pub open spec fn text(self) -> Seq<char> {
        match self {
            ProjectMessage::Summary(s) => s@,
        }
    }

    /// The completion for a fetch outcome: the fetched text, or the empty
    /// text when the fetch failed.
    pub fn from_fetch(r: Result<String, FetchError>) -> (m: ProjectMessage)
        ensures
            m.text() == match r {
                Ok(s) => s@,
                Err(_) => Seq::<char>::empty(),
            },
    {
        match r {
            Ok(s) => ProjectMessage::Summary(s),
            Err(_) => ProjectMessage::Summary(String::new()),
        }
    }
}

/// Detail pane of one named project.
#[derive(Debug, PartialEq)]
pub struct Project {
    name: String,
    body: String,
    scroll: u16,
    scrollbar: ScrollTracker,
}

impl View for Project {
    type V = DetailModel;

    closed spec fn view(&self) -> DetailModel {
        DetailModel { name: self.name@, body: self.body@, scroll: self.scroll, scrollbar: self.scrollbar }
    }
}

impl Project {
    /// A view of the project `name` whose body is not loaded yet. Its
    /// content is then fetched from `endpoint`.
    pub fn create(name: String) -> (r: Project)
        ensures
            r@.name == name@,
            r@.body == Seq::<char>::empty(),
            r@.scroll == 0,
            r@.scrollbar == ScrollTracker::new_spec(),
    {
        Project { name, body: String::new(), scroll: 0, scrollbar: ScrollTracker::new() }
    }

    /// Where this project's detail text is fetched from, below `base`.
    pub fn endpoint(&self, base: &str) -> (r: String)
        ensures
            r@ == base@ + projects_path() + seq!['/'] + self@.name,
    {
        project_url(base, self.name.as_str())
    }

    /// Takes in a fetch completion: the body becomes its text, and the cursor
    /// map keeps only its first row.
    pub fn update(&mut self, msg: ProjectMessage, map: &mut CursorMap)
        ensures
            final(self)@ == old(self)@.summarized(msg.text()),
            final(map)@ == old(map)@.cleared_after(1),
    {
        map.clear_after(1);
        match msg {
            ProjectMessage::Summary(body) => {
                self.body = body;
            },
        }
    }

    /// Lays out the pane into `area`: titled with the name, the body as its
    /// text, scrolled by the view's offset, with a fresh scrollbar.
    pub fn draw(&mut self, area: Area) -> (p: Pane)
        requires
            area.can_advance(),
        ensures
            final(self)@ == (DetailModel { scrollbar: ScrollTracker::reset_spec(SCROLL_TRACK_LENGTH), ..old(self)@ }),
            p.area == area,
            p.title matches Some(t) && t@ == old(self)@.name,
            p.lines@.len() == 1,
            p.lines@[0].text@ == old(self)@.body,
            !p.lines@[0].highlighted,
            p.scroll == old(self)@.scroll,
            p.scrollbar == final(self)@.scrollbar,
            p.next == area.below_spec(),
    {
        self.scrollbar.reset(SCROLL_TRACK_LENGTH);
        let mut lines: Vec<StyledLine> = Vec::new();
        lines.push(StyledLine { text: self.body.clone(), highlighted: false });
        Pane {
            area,
            title: Some(self.name.clone()),
            lines,
            scroll: self.scroll,
            scrollbar: self.scrollbar,
            next: area.below(),
        }
    }

    pub fn name(&self) -> (r: &str)
        ensures
            r@ == self@.name,
    {
        self.name.as_str()
    }

    pub fn body(&self) -> (r: &str)
        ensures
            r@ == self@.body,
    {
        self.body.as_str()
    }

    pub fn scroll(&self) -> (r: u16)
        ensures
            r == self@.scroll,
    {
        self.scroll
    }
}

/// One row of the list view: a project's name, its summary, and whether the
/// cursor is on it.
pub type EntryModel = (Seq<char>, Seq<char>, bool);

/// The abstract state of a list view.
pub struct ListModel {
    pub entries: Seq<EntryModel>,
    pub scroll: u16,
    pub scrollbar: ScrollTracker,
}

/// The `(name, summary)` pairs of a fetched list, as values.
pub open spec fn summaries_view(v: Seq<(String, String)>) -> Seq<(Seq<char>, Seq<char>)> {
    v.map_values(|p: (String, String)| (p.0@, p.1@))
}

/// The entries for fetched pairs: the same pairs in order, none selected.
pub open spec fn unselected(pairs: Seq<(Seq<char>, Seq<char>)>) -> Seq<EntryModel> {
    pairs.map_values(|p: (Seq<char>, Seq<char>)| (p.0, p.1, false))
}

/// The names of fetched pairs, in order.
pub open spec fn names_of(pairs: Seq<(Seq<char>, Seq<char>)>) -> Seq<Seq<char>> {
    pairs.map_values(|p: (Seq<char>, Seq<char>)| p.0)
}

/// Whether the entry at 0-based index `i` of a list of `count` entries is
/// selected when the cursor stands at `pos`: only in column 0, on the row
/// numbered from 1 that names it.
pub open spec fn row_selected(pos: (usize, usize), count: nat, i: int) -> bool {
    pos.0 == 0 && 1 <= pos.1 <= count && i + 1 == pos.1
}

impl ListModel {
    /// No two entries are selected at once.
    pub open spec fn at_most_one_selected(self) -> bool {
        forall|i: int, j: int|
            0 <= i < self.entries.len() && 0 <= j < self.entries.len() && (#[trigger] self.entries[i]).2
                && (#[trigger] self.entries[j]).2 ==> i == j
    }

    /// The state after a list of summaries is delivered.
    pub open spec fn populated(self, pairs: Seq<(Seq<char>, Seq<char>)>) -> ListModel {
        ListModel { entries: unselected(pairs), ..self }
    }

    /// The state after the selection is recomputed for the cursor at `pos`.
    pub open spec fn moved(self, pos: (usize, usize)) -> ListModel {
        ListModel {
            entries: self.entries.map(
                |i: int, e: EntryModel| (e.0, e.1, row_selected(pos, self.entries.len(), i)),
            ),
            ..self
        }
    }
}

/// The completion of the list view's fetch.
#[derive(Debug)]
pub enum AllProjectsMessage {
    ProjectSummaries(Vec<(String, String)>),
}

impl AllProjectsMessage {
    pub open spec fn summaries(self) -> Seq<(Seq<char>, Seq<char>)> {
        match self {
            AllProjectsMessage::ProjectSummaries(v) => summaries_view(v@),
        }
    }

    /// The completion for a fetch outcome: the fetched pairs, or no pairs
    /// when the fetch failed.
    pub fn from_fetch(r: Result<Vec<(String, String)>, FetchError>) -> (m: AllProjectsMessage)
        ensures
            m.summaries() == match r {
                Ok(v) => summaries_view(v@),
                Err(_) => Seq::empty(),
            },
    {
        match r {
            Ok(v) => AllProjectsMessage::ProjectSummaries(v),
            Err(_) => {
                let v: Vec<(String, String)> = Vec::new();
                assert(summaries_view(v@) =~= Seq::empty());
                AllProjectsMessage::ProjectSummaries(v)
            },
        }
    }
}

/// The list of all projects, one selectable row per project.
#[derive(Debug, PartialEq)]
pub struct AllProjects {
    projects: Vec<(String, String, bool)>,
    scroll: u16,
    scrollbar: ScrollTracker,
}

pub open spec fn entries_view(v: Seq<(String, String, bool)>) -> Seq<EntryModel> {
    v.map_values(|e: (String, String, bool)| (e.0@, e.1@, e.2))
}

impl View for AllProjects {
    type V = ListModel;

    closed spec fn view(&self) -> ListModel {
        ListModel { entries: entries_view(self.projects@), scroll: self.scroll, scrollbar: self.scrollbar }
    }
}

impl AllProjects {
    /// An empty list with a fresh scrollbar. Its content is then fetched
    /// from `endpoint`.
    pub fn create() -> (r: AllProjects)
        ensures
            r@.entries == Seq::<EntryModel>::empty(),
            r@.at_most_one_selected(),
            r@.scroll == 0,
            r@.scrollbar == ScrollTracker::new_spec(),
    {
        let r = AllProjects { projects: Vec::new(), scroll: 0, scrollbar: ScrollTracker::new() };
        assert(r@.entries =~= Seq::<EntryModel>::empty());
        r
    }

    /// Where the list of summaries is fetched from, below `base`.
    pub fn endpoint(&self, base: &str) -> (r: String)
        ensures
            r@ == base@ + projects_path(),
    {
        projects_url(base)
    }

    /// Takes in the fetched summaries: they replace the entries, none
    /// selected, and the cursor map keeps its first row and then gets one
    /// row per entry, labelled with its name, in order.
    pub fn update(&mut self, msg: AllProjectsMessage, map: &mut CursorMap)
        ensures
            final(self)@ == old(self)@.populated(msg.summaries()),
            final(self)@.at_most_one_selected(),
            final(map)@ == old(map)@.cleared_after(1).with_rows(names_of(msg.summaries())),
    {
        map.clear_after(1);
        let ghost base = map@;
        let pairs = match msg {
            AllProjectsMessage::ProjectSummaries(pairs) => pairs,
        };
        let ghost want = summaries_view(pairs@);
        let mut projects: Vec<(String, String, bool)> = Vec::new();
        let mut i: usize = 0;
        while i < pairs.len()
            invariant
                i <= pairs@.len(),
                want == summaries_view(pairs@),
                entries_view(projects@) =~= unselected(want).take(i as int),
            decreases pairs@.len() - i,
        {
            let name = pairs[i].0.clone();
            let summary = pairs[i].1.clone();
            proof {
                assert(want[i as int] == (name@, summary@));
                assert(unselected(want)[i as int] == (name@, summary@, false));
            }
            let ghost before = projects@;
            let ghost item = (name@, summary@, false);
            projects.push((name, summary, false));
            i = i + 1;
            assert(projects@.len() == before.len() + 1);
            assert(entries_view(projects@) =~= entries_view(before).push(item));
            assert(entries_view(projects@) =~= unselected(want).take(i as int));
        }
        assert(unselected(want).take(i as int) =~= unselected(want));
        self.projects = projects;
        let mut j: usize = 0;
        while j < self.projects.len()
            invariant
                j <= self.projects@.len(),
                self.projects@.len() == want.len(),
                entries_view(self.projects@) == unselected(want),
                map@ == base.with_rows(names_of(want).take(j as int)),
            decreases self.projects@.len() - j,
        {
            let name = self.projects[j].0.clone();
            proof {
                assert(entries_view(self.projects@)[j as int].0 == name@);
            }
            map.append_and_push(name);
            j = j + 1;
            assert(names_of(want).take(j as int) =~= names_of(want).take(j - 1) + seq![name@]);
            assert(base.with_rows(names_of(want).take(j as int)).labels
                =~= base.with_rows(names_of(want).take(j - 1)).labels + seq![name@]);
        }
        assert(names_of(want).take(j as int) =~= names_of(want));
        assert(final(self)@.entries =~= old(self)@.populated(want).entries);
    }

    /// Recomputes the selection from the cursor's position: in column 0 the
    /// entry on the cursor's row (rows counted from 1) is selected and no
    /// other; anywhere else, or on a row that names no entry, none is.
    pub fn handle_motion(&mut self, motion: Motion, map: &CursorMap)
        ensures
            final(self)@ == old(self)@.moved(map@.position()),
            final(self)@.at_most_one_selected(),
    {
        let pos = map.get_position();
        let count = self.projects.len();
        let ghost start = self@;
        let mut i: usize = 0;
        while i < count
            invariant
                count == self.projects@.len(),
                count == start.entries.len(),
                i <= count,
                self@.scroll == start.scroll,
                self@.scrollbar == start.scrollbar,
                forall|k: int| 0 <= k < i ==> self@.entries[k] == start.moved(pos).entries[k],
                forall|k: int| i <= k < count ==> self@.entries[k] == start.entries[k],
            decreases count - i,
        {
            let selected = pos.0 == 0 && 1 <= pos.1 && pos.1 <= count && i + 1 == pos.1;
            self.projects[i].2 = selected;
            i = i + 1;
        }
        assert(self@.entries =~= start.moved(pos).entries);
    }

    /// Lays out the pane into `area`: one line per entry with its name,
    /// highlighted where it is selected, scrolled by the view's offset, with
    /// a fresh scrollbar.
    pub fn draw(&mut self, area: Area) -> (p: Pane)
        requires
            area.can_advance(),
        ensures
            final(self)@ == (ListModel { scrollbar: ScrollTracker::reset_spec(SCROLL_TRACK_LENGTH), ..old(self)@ }),
            p.area == area,
            p.title is None,
            p.lines@.len() == old(self)@.entries.len(),
            forall|i: int| 0 <= i < p.lines@.len() ==> {
                &&& (#[trigger] p.lines@[i]).text@ == old(self)@.entries[i].0
                &&& p.lines@[i].highlighted == old(self)@.entries[i].2
            },
            p.scroll == old(self)@.scroll,
            p.scrollbar == final(self)@.scrollbar,
            p.next == area.below_spec(),
    {
        self.scrollbar.reset(SCROLL_TRACK_LENGTH);
        let mut lines: Vec<StyledLine> = Vec::new();
        let mut i: usize = 0;
        while i < self.projects.len()
            invariant
                i <= self.projects@.len(),
                lines@.len() == i,
                entries_view(self.projects@) == old(self)@.entries,
                forall|k: int| 0 <= k < i ==> {
                    &&& (#[trigger] lines@[k]).text@ == old(self)@.entries[k].0
                    &&& lines@[k].highlighted == old(self)@.entries[k].2
                },
            decreases self.projects@.len() - i,
        {
            let text = self.projects[i].0.clone();
            let highlighted = self.projects[i].2;
            lines.push(StyledLine { text, highlighted });
            i = i + 1;
        }
        Pane { area, title: None, lines, scroll: self.scroll, scrollbar: self.scrollbar, next: area.below() }
    }

    /// Number of entries.
    pub fn len(&self) -> (r: usize)
        ensures
            r == self@.entries.len(),
    {
        self.projects.len()
    }

    /// The entries in order, as `(name, summary, selected)`.
    pub fn entries(&self) -> (r: &Vec<(String, String, bool)>)
        ensures
            entries_view(r@) == self@.entries,
    {
        &self.projects
    }

    pub fn scroll(&self) -> (r: u16)
        ensures
            r == self@.scroll,
    {
        self.scroll
    }
}

} // verus!
