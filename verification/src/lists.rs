//! Which models each list shows, the selected entry of the current list, and moving it.
use vstd::prelude::*;

use crate::app::App;
use crate::input::KeyCode;
use crate::records::{CatalogModel, LocalModelInfo};
use crate::screen::{CatalogFilter, Screen};
use crate::text::{equals, has_content, has_text};
use crate::viewport::{ListView, Rect, spec_offset};

verus! {

/// A local model is listed unless its files are missing.
pub open spec fn local_visible(model: LocalModelInfo) -> bool {
    model.state@ != "missing"@
}

/// A search result is listed when all results are shown, when it is downloaded or cached, or
/// when it is not known to be unsupported or too large.
pub open spec fn catalog_visible(filter: CatalogFilter, model: CatalogModel) -> bool {
    ||| filter == CatalogFilter::All
    ||| model.downloaded
    ||| model.local_source@ != "remote"@
    ||| (model.compatibility@ != "unsupported"@ && model.memory_fit@ != "does_not_fit"@)
}

/// `local_visible` as a predicate value.
pub open spec fn local_filter() -> spec_fn(LocalModelInfo) -> bool {
    |model: LocalModelInfo| local_visible(model)
}

/// `catalog_visible` under `filter` as a predicate value.
pub open spec fn catalog_filter(filter: CatalogFilter) -> spec_fn(CatalogModel) -> bool {
    |model: CatalogModel| catalog_visible(filter, model)
}

/// The local models that the models screen lists, in order.
pub open spec fn visible_locals(app: App) -> Seq<LocalModelInfo> {
    app.local_models@.filter(local_filter())
}

/// The search results that the models screen lists, in order.
pub open spec fn visible_catalog(app: App) -> Seq<CatalogModel> {
    app.catalog@.filter(catalog_filter(app.catalog_filter))
}

/// Whether the models screen shows search results: the query has more than white space.
pub open spec fn searching(app: App) -> bool {
    has_content(app.search_query@)
}

/// Entries of the settings list: the two secrets, then every configuration value.
pub open spec fn configuration_count(app: App) -> int {
    match app.configuration {
        Some(config) => if config.values@.len() + 2 <= usize::MAX {
            config.values@.len() + 2 as int
        } else {
            usize::MAX as int
        },
        None => 2,
    }
}

/// Position of the first local model stored for the repository `repo_id`.
pub open spec fn first_local_with_repo(locals: Seq<LocalModelInfo>, repo_id: Seq<char>) -> Option<int> {
    if exists|i: int|
        0 <= i < locals.len() && (#[trigger] locals[i]).repo_id@ == repo_id && forall|j: int|
            0 <= j < i ==> locals[j].repo_id@ != repo_id {
        Some(
            choose|i: int|
                0 <= i < locals.len() && (#[trigger] locals[i]).repo_id@ == repo_id && forall|j: int|
                    0 <= j < i ==> locals[j].repo_id@ != repo_id,
        )
    } else {
        None
    }
}

/// The selected index and the length of the list that the current screen shows.
pub open spec fn list_position(app: App) -> (int, int) {
    match app.screen {
        Screen::Models => if searching(app) {
            (app.catalog_selected as int, visible_catalog(app).len() as int)
        } else {
            (app.local_selected as int, visible_locals(app).len() as int)
        },
        Screen::Settings => (app.configuration_selected as int, configuration_count(app)),
        Screen::Activity => (app.activity_selected as int, app.activities@.len() as int),
        _ => (0, 0),
    }
}

/// The selection field of the list that the current screen shows.
#[derive(Debug, Clone, Copy, PartialEq, Eq, Structural)]
pub enum ListField {
    Catalog,
    Local,
    Configuration,
    Activity,
    NoList,
}

/// Which selection field the current screen's list uses.
pub open spec fn list_field(app: App) -> ListField {
    match app.screen {
        Screen::Models => if searching(app) {
            ListField::Catalog
        } else {
            ListField::Local
        },
        Screen::Settings => ListField::Configuration,
        Screen::Activity => ListField::Activity,
        _ => ListField::NoList,
    }
}

/// `app` with selection field `field` set to `selected`.
pub open spec fn with_field(app: App, field: ListField, selected: usize) -> App {
    match field {
        ListField::Catalog => App { catalog_selected: selected, ..app },
        ListField::Local => App { local_selected: selected, ..app },
        ListField::Configuration => App { configuration_selected: selected, ..app },
        ListField::Activity => App { activity_selected: selected, ..app },
        ListField::NoList => app,
    }
}

/// `index`, or the last position of a list of `count` entries when it lies beyond; zero for an
/// empty list.
pub open spec fn clamp_index(index: int, count: int) -> usize {
    (if index <= count - 1 { index } else if count > 0 { count - 1 } else { 0 }) as usize
}

/// `app` with the current list's selection moved to `index`, or to its last entry.
pub open spec fn with_selection(app: App, index: int) -> App {
    with_field(app, list_field(app), clamp_index(index, list_position(app).1))
}

/// `selected + delta`, kept within `0..=usize::MAX`.
pub open spec fn shifted(selected: int, delta: int) -> int {
    if selected + delta < 0 {
        0
    } else if selected + delta > usize::MAX {
        usize::MAX as int
    } else {
        selected + delta
    }
}

/// `app` with the current list's selection moved by `delta`, stopping at the ends.
pub open spec fn with_moved_selection(app: App, delta: int) -> App {
    let (selected, count) = list_position(app);
    if count == 0 {
        app
    } else {
        with_selection(
            app,
            if shifted(selected, delta) <= count - 1 { shifted(selected, delta) } else { count - 1 },
        )
    }
}

/// The selection move of a list key: arrows by one, pages by eight, Home and End to the ends.
pub open spec fn list_key_step(app: App, code: KeyCode) -> Option<App> {
    match code {
        KeyCode::Up => Some(with_moved_selection(app, -1)),
        KeyCode::Down => Some(with_moved_selection(app, 1)),
        KeyCode::PageUp => Some(with_moved_selection(app, -8)),
        KeyCode::PageDown => Some(with_moved_selection(app, 8)),
        KeyCode::Home => Some(with_selection(app, 0)),
        KeyCode::End => Some(with_selection(app, usize::MAX as int)),
        _ => None,
    }
}

/// Filtering one more element extends the filtered prefix by it when it passes.
pub proof fn lemma_filter_prefix_step<A>(s: Seq<A>, pred: spec_fn(A) -> bool, i: int)
    requires
        0 <= i < s.len(),
    ensures
        s.take(i + 1).filter(pred) == (if pred(s[i]) {
            s.take(i).filter(pred).push(s[i])
        } else {
            s.take(i).filter(pred)
        }),
{
    reveal_with_fuel(Seq::filter, 1);
    assert(s.take(i + 1).drop_last() =~= s.take(i));
    assert(s.take(i + 1).last() == s[i]);
}

/// The filtered prefix of a sequence is a prefix of the filtered sequence.
pub proof fn lemma_filter_prefix_index<A>(s: Seq<A>, pred: spec_fn(A) -> bool, n: int, k: int)
    requires
        0 <= n <= s.len(),
        0 <= k < s.take(n).filter(pred).len(),
    ensures
        k < s.filter(pred).len(),
        s.filter(pred)[k] == s.take(n).filter(pred)[k],
{
    assert(s =~= s.take(n) + s.skip(n));
    Seq::filter_distributes_over_add(s.take(n), s.skip(n), pred);
}

/// Number of local models that the models screen lists.
pub fn listed_local_count(locals: &Vec<LocalModelInfo>) -> (count: usize)
    ensures
        count == locals@.filter(local_filter()).len(),
{
    let ghost pred = local_filter();
    let mut count: usize = 0;
    let mut i: usize = 0;
    while i < locals.len()
        invariant
            i <= locals@.len(),
            pred == local_filter(),
            count == locals@.take(i as int).filter(pred).len(),
        decreases locals@.len() - i,
    {
        proof {
            lemma_filter_prefix_step(locals@, pred, i as int);
            assert(pred(locals@[i as int]) == (locals@[i as int].state@ != "missing"@));
        }
        if !equals(locals[i].state.as_str(), "missing") {
            count += 1;
        }
        i += 1;
    }
    proof {
        assert(locals@.take(i as int) =~= locals@);
    }
    count
}

impl App {
    /// Whether the models screen shows search results.
    pub fn searching_models(&self) -> (shows_results: bool)
        ensures
            shows_results == searching(*self),
    {
        has_text(self.search_query.as_str())
    }

    /// Whether a search result passes the current filter.
    pub fn catalog_shown(&self, model: &CatalogModel) -> (shown: bool)
        ensures
            shown == catalog_visible(self.catalog_filter, *model),
    {
        match self.catalog_filter {
            CatalogFilter::All => true,
            CatalogFilter::Compatible => model.downloaded || !equals(model.local_source.as_str(), "remote")
                || (!equals(model.compatibility.as_str(), "unsupported") && !equals(
                model.memory_fit.as_str(),
                "does_not_fit",
            )),
        }
    }

    /// Number of listed local models.
    pub fn local_model_count(&self) -> (count: usize)
        ensures
            count == visible_locals(*self).len(),
    {
        listed_local_count(&self.local_models)
    }

    /// Position in `local_models` of the listed local model at list position `k`.
    pub fn nth_visible_local(&self, k: usize) -> (found: Option<usize>)
        ensures
            found is Some <==> k < visible_locals(*self).len(),
            found matches Some(i) ==> i < self.local_models@.len()
                && self.local_models@[i as int] == visible_locals(*self)[k as int],
    {
        let ghost pred = local_filter();
        let mut seen: usize = 0;
        let mut i: usize = 0;
        while i < self.local_models.len()
            invariant
                i <= self.local_models@.len(),
                pred == local_filter(),
                seen == self.local_models@.take(i as int).filter(pred).len(),
                seen <= k,
            decreases self.local_models@.len() - i,
        {
            proof {
                lemma_filter_prefix_step(self.local_models@, pred, i as int);
            }
            if !equals(self.local_models[i].state.as_str(), "missing") {
                if seen == k {
                    proof {
                        lemma_filter_prefix_index(self.local_models@, pred, i as int + 1, k as int);
                    }
                    return Some(i);
                }
                seen += 1;
            }
            i += 1;
        }
        proof {
            assert(self.local_models@.take(i as int) =~= self.local_models@);
        }
        None
    }

    /// Number of listed search results.
    pub fn visible_catalog_count(&self) -> (count: usize)
        ensures
            count == visible_catalog(*self).len(),
    {
        let ghost pred = catalog_filter(self.catalog_filter);
        let mut count: usize = 0;
        let mut i: usize = 0;
        while i < self.catalog.len()
            invariant
                i <= self.catalog@.len(),
                pred == catalog_filter(self.catalog_filter),
                count == self.catalog@.take(i as int).filter(pred).len(),
            decreases self.catalog@.len() - i,
        {
            proof {
                lemma_filter_prefix_step(self.catalog@, pred, i as int);
            }
            if self.catalog_shown(&self.catalog[i]) {
                count += 1;
            }
            i += 1;
        }
        proof {
            assert(self.catalog@.take(i as int) =~= self.catalog@);
        }
        count
    }

    /// Position in `catalog` of the listed search result at list position `k`.
    pub fn nth_visible_catalog(&self, k: usize) -> (found: Option<usize>)
        ensures
            found is Some <==> k < visible_catalog(*self).len(),
            found matches Some(i) ==> i < self.catalog@.len()
                && self.catalog@[i as int] == visible_catalog(*self)[k as int],
    {
        let ghost pred = catalog_filter(self.catalog_filter);
        let mut seen: usize = 0;
        let mut i: usize = 0;
        while i < self.catalog.len()
            invariant
                i <= self.catalog@.len(),
                pred == catalog_filter(self.catalog_filter),
                seen == self.catalog@.take(i as int).filter(pred).len(),
                seen <= k,
            decreases self.catalog@.len() - i,
        {
            proof {
                lemma_filter_prefix_step(self.catalog@, pred, i as int);
            }
            if self.catalog_shown(&self.catalog[i]) {
                if seen == k {
                    proof {
                        lemma_filter_prefix_index(self.catalog@, pred, i as int + 1, k as int);
                    }
                    return Some(i);
                }
                seen += 1;
            }
            i += 1;
        }
        proof {
            assert(self.catalog@.take(i as int) =~= self.catalog@);
        }
        None
    }

    /// The selected local model, if the selection lies within the list.
    pub fn selected_local_model(&self) -> (model: Option<&LocalModelInfo>)
        ensures
            model is Some <==> (self.local_selected as int) < visible_locals(*self).len(),
            model matches Some(m) ==> *m == visible_locals(*self)[self.local_selected as int],
    {
        match self.nth_visible_local(self.local_selected) {
            Some(i) => Some(&self.local_models[i]),
            None => None,
        }
    }

    /// The selected search result, if the selection lies within the list.
    pub fn selected_catalog_model(&self) -> (model: Option<&CatalogModel>)
        ensures
            model is Some <==> (self.catalog_selected as int) < visible_catalog(*self).len(),
            model matches Some(m) ==> *m == visible_catalog(*self)[self.catalog_selected as int],
    {
        match self.nth_visible_catalog(self.catalog_selected) {
            Some(i) => Some(&self.catalog[i]),
            None => None,
        }
    }

    /// Entries of the settings list.
    pub fn configuration_count(&self) -> (count: usize)
        ensures
            count == configuration_count(*self),
    {
        match &self.configuration {
            Some(config) => {
                let values = config.values.len();
                if values <= usize::MAX - 2 {
                    values + 2
                } else {
                    usize::MAX
                }
            },
            None => 2,
        }
    }

    /// The selected index and the length of the current screen's list.
    pub fn list_position(&self) -> (position: (usize, usize))
        ensures
            position.0 == list_position(*self).0,
            position.1 == list_position(*self).1,
    {
        match self.screen {
            Screen::Models => {
                if self.searching_models() {
                    (self.catalog_selected, self.visible_catalog_count())
                } else {
                    (self.local_selected, self.local_model_count())
                }
            },
            Screen::Settings => (self.configuration_selected, self.configuration_count()),
            Screen::Activity => (self.activity_selected, self.activities.len()),
            _ => (0, 0),
        }
    }

    /// Selects entry `index` of the current list, or its last entry when `index` lies beyond.
    /// Which selection field the current screen's list uses.
    pub fn list_field(&self) -> (field: ListField)
        ensures
            field == list_field(*self),
    {
        match self.screen {
            Screen::Models => if self.searching_models() {
                ListField::Catalog
            } else {
                ListField::Local
            },
            Screen::Settings => ListField::Configuration,
            Screen::Activity => ListField::Activity,
            _ => ListField::NoList,
        }
    }

    /// Sets selection field `field` to `selected`.
    pub fn set_list_field(&mut self, field: ListField, selected: usize)
        ensures
            *final(self) == with_field(*old(self), field, selected),
    {
        match field {
            ListField::Catalog => self.catalog_selected = selected,
            ListField::Local => self.local_selected = selected,
            ListField::Configuration => self.configuration_selected = selected,
            ListField::Activity => self.activity_selected = selected,
            ListField::NoList => {},
        }
    }

    /// Selects entry `index` of the current list, or its last entry when `index` lies beyond.
    pub fn select_list(&mut self, index: usize)
        ensures
            *final(self) == with_selection(*old(self), index as int),
    {
        let (_, count) = self.list_position();
        let selected = if count == 0 {
            0
        } else if index <= count - 1 {
            index
        } else {
            count - 1
        };
        let field = self.list_field();
        self.set_list_field(field, selected);
    }

    /// Moves the current list's selection by `delta`, stopping at its ends.
    pub fn move_list(&mut self, delta: isize)
        ensures
            *final(self) == with_moved_selection(*old(self), delta as int),
    {
        let (selected, count) = self.list_position();
        if count == 0 {
            return;
        }
        let next: usize = if delta < 0 {
            let back = (0 - (delta as i128)) as u128;
            if (selected as u128) < back {
                0
            } else {
                ((selected as u128) - back) as usize
            }
        } else {
            let ahead = delta as u128;
            if (selected as u128) + ahead > usize::MAX as u128 {
                usize::MAX
            } else {
                ((selected as u128) + ahead) as usize
            }
        };
        let next = if next <= count - 1 { next } else { count - 1 };
        self.select_list(next);
    }

    /// Arrow, page, Home and End keys move the current list's selection.
    pub fn handle_list_navigation(&mut self, code: KeyCode) -> (handled: bool)
        ensures
            handled == list_key_step(*old(self), code) is Some,
            list_key_step(*old(self), code) matches Some(next) ==> *final(self) == next,
            list_key_step(*old(self), code) is None ==> *final(self) == *old(self),
    {
        match code {
            KeyCode::Up => self.move_list(-1),
            KeyCode::Down => self.move_list(1),
            KeyCode::PageUp => self.move_list(-8),
            KeyCode::PageDown => self.move_list(8),
            KeyCode::Home => self.select_list(0),
            KeyCode::End => self.select_list(usize::MAX),
            _ => return false,
        }
        true
    }

    /// Records where the current list is drawn, keeping its selection visible.
    pub fn set_list_view(&mut self, area: Option<Rect>)
        ensures
            *final(self) == (App {
                list_view: match area {
                    Some(a) => Some(
                        ListView {
                            area: a,
                            offset: spec_offset(
                                a,
                                list_position(*old(self)).0,
                                list_position(*old(self)).1,
                            ) as usize,
                        },
                    ),
                    None => None,
                },
                ..*old(self)
            }),
    {
        match area {
            Some(area) => {
                let (selected, count) = self.list_position();
                self.list_view = Some(ListView::new(area, selected, count));
            },
            None => self.list_view = None,
        }
    }

    /// Shows or hides search results that cannot run here, and selects the first result.
    pub fn toggle_incompatible_models(&mut self)
        ensures
            *final(self) == (App {
                catalog_filter: if old(self).catalog_filter == CatalogFilter::Compatible {
                    CatalogFilter::All
                } else {
                    CatalogFilter::Compatible
                },
                catalog_selected: 0,
                ..*old(self)
            }),
    {
        self.catalog_filter = match self.catalog_filter {
            CatalogFilter::Compatible => CatalogFilter::All,
            CatalogFilter::All => CatalogFilter::Compatible,
        };
        self.catalog_selected = 0;
    }

    /// Position of the first local model stored for the repository `repo_id`.
    pub fn local_catalog_model(&self, repo_id: &str) -> (found: Option<usize>)
        ensures
            found matches Some(i) ==> i < self.local_models@.len()
                && self.local_models@[i as int].repo_id@ == repo_id@
                && forall|j: int| 0 <= j < i ==> self.local_models@[j].repo_id@ != repo_id@,
            found is None ==> forall|j: int|
                0 <= j < self.local_models@.len() ==> self.local_models@[j].repo_id@ != repo_id@,
            found == (match first_local_with_repo(self.local_models@, repo_id@) {
                Some(i) => Some(i as usize),
                None => None,
            }),
    {
        let mut i: usize = 0;
        while i < self.local_models.len()
            invariant
                i <= self.local_models@.len(),
                forall|j: int| 0 <= j < i ==> self.local_models@[j].repo_id@ != repo_id@,
            decreases self.local_models@.len() - i,
        {
            if equals(self.local_models[i].repo_id.as_str(), repo_id) {
                proof {
                    let c = choose|c: int|
                        0 <= c < self.local_models@.len() && (#[trigger] self.local_models@[c]).repo_id@
                            == repo_id@ && forall|j: int|
                            0 <= j < c ==> self.local_models@[j].repo_id@ != repo_id@;
                    assert(c == i);
                }
                return Some(i);
            }
            i += 1;
        }
        None
    }

    /// Forgets the search results, their error and their continuation.
    pub fn reset_search_results(&mut self)
        ensures
            *final(self) == (App {
                catalog: final(self).catalog,
                catalog_selected: 0,
                catalog_error: None,
                catalog_next_cursor: None,
                ..*old(self)
            }),
            final(self).catalog@.len() == 0,
    {
        self.catalog = Vec::new();
        self.catalog_selected = 0;
        self.catalog_error = None;
        self.catalog_next_cursor = None;
    }
}

/// After a list key the selection of a non-empty list lies within it.
pub proof fn lemma_selection_stays_in_list(app: App, index: int)
    requires
        list_position(app).1 > 0,
        index >= 0,
    ensures
        0 <= list_position(with_selection(app, index)).0 < list_position(app).1,
{
    let next = with_selection(app, index);
    assert(next.screen == app.screen);
    assert(searching(next) == searching(app));
    assert(visible_catalog(next) == visible_catalog(app));
    assert(visible_locals(next) == visible_locals(app));
}

} // verus!
