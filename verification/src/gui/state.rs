//! What the interface holds between redraws: the view it shows, the tweaks
//! that are checked, and the history it can go back through.

use crate::gui::string_map::StringMap;
use crate::gui::tweaks::defaults::{recommended_ids, RECOMMENDED_TWEAKS};
use vstd::prelude::*;

verus! {

/// The view that the interface shows.
#[derive(Clone, Copy, PartialEq, Eq, Structural, Debug)]
pub enum ViewMode {
    Tweaks,
    ConfirmApply,
    ConfirmUnsetAll,
    ConfirmRestorePoint,
    ConfirmLoadDefaults,
    SelectedTweaks,
}

impl Default for ViewMode {
    fn default() -> (mode: ViewMode)
        ensures
            mode == ViewMode::Tweaks,
    {
        ViewMode::Tweaks
    }
}

impl ViewMode {
    /// The view asks the user to confirm an action.
    pub open spec fn confirms(self) -> bool {
        self == ViewMode::ConfirmApply || self == ViewMode::ConfirmUnsetAll || self
            == ViewMode::ConfirmRestorePoint || self == ViewMode::ConfirmLoadDefaults
    }

    /// Whether the view asks the user to confirm an action. Only from such a
    /// view may a run be started.
    pub fn is_confirmation(self) -> (r: bool)
        ensures
            r == self.confirms(),
    {
        match self {
            ViewMode::ConfirmApply => true,
            ViewMode::ConfirmUnsetAll => true,
            ViewMode::ConfirmRestorePoint => true,
            ViewMode::ConfirmLoadDefaults => true,
            ViewMode::Tweaks => false,
            ViewMode::SelectedTweaks => false,
        }
    }
}

/// A copy of an optional text.
pub fn copy_text(text: &Option<String>) -> (r: Option<String>)
    ensures
        r == *text,
{
    match text {
        Some(t) => Some(t.clone()),
        None => None,
    }
}

/// Selection state for tree navigation.
#[derive(Debug)]
pub struct SelectionState {
    pub selected_category: Option<String>,
    pub selected_tweak: Option<String>,
    pub expanded_categories: StringMap<bool>,
}

impl Default for SelectionState {
    /// Nothing selected, nothing expanded.
    fn default() -> (s: SelectionState)
        ensures
            s.selected_category.is_none(),
            s.selected_tweak.is_none(),
            s.expanded_categories@ == Map::<Seq<char>, bool>::empty(),
    {
        SelectionState {
            selected_category: None,
            selected_tweak: None,
            expanded_categories: StringMap::new(),
        }
    }
}

impl Clone for SelectionState {
    fn clone(&self) -> (s: SelectionState)
        ensures
            s.selected_category == self.selected_category,
            s.selected_tweak == self.selected_tweak,
            s.expanded_categories@ == self.expanded_categories@,
    {
        SelectionState {
            selected_category: copy_text(&self.selected_category),
            selected_tweak: copy_text(&self.selected_tweak),
            expanded_categories: self.expanded_categories.clone(),
        }
    }
}

/// The map in which exactly the given ids are keys, each checked.
pub open spec fn all_checked(ids: Seq<Seq<char>>) -> Map<Seq<char>, bool> {
    Map::new(|id: Seq<char>| ids.contains(id), |id: Seq<char>| true)
}

/// Whether the id is checked in the map: an id that the map lacks is not.
pub open spec fn checked_in(states: Map<Seq<char>, bool>, id: Seq<char>) -> bool {
    states.contains_key(id) && states[id]
}

/// Checkbox states for all tweaks, and the input values of those that take one.
#[derive(Debug)]
pub struct TweakStates {
    pub states: StringMap<bool>,
    pub input_values: StringMap<String>,
}

impl Default for TweakStates {
    /// The recommended tweaks checked, no other tweak known, no input value.
    fn default() -> (t: TweakStates)
        ensures
            t.states@ == all_checked(recommended_ids()),
            forall|i: int|
                0 <= i < RECOMMENDED_TWEAKS@.len() ==> checked_in(
                    t.states@,
                    (#[trigger] RECOMMENDED_TWEAKS@[i])@,
                ),
            t.input_values@ == Map::<Seq<char>, String>::empty(),
    {
        let mut states: StringMap<bool> = StringMap::new();
        let mut i: usize = 0;
        proof {
            assert(states@ =~= all_checked(recommended_ids().take(0)));
        }
        while i < RECOMMENDED_TWEAKS.len()
            invariant
                i <= RECOMMENDED_TWEAKS@.len(),
                states@ == all_checked(recommended_ids().take(i as int)),
            decreases RECOMMENDED_TWEAKS@.len() - i,
        {
            let id: &'static str = RECOMMENDED_TWEAKS[i];
            states.insert(id.to_owned(), true);
            proof {
                let ids = recommended_ids();
                let before = ids.take(i as int);
                let after = ids.take(i + 1);
                assert(ids[i as int] == id@);
                assert(after =~= before.push(id@));
                assert forall|k: Seq<char>| after.contains(k) <==> (before.contains(k) || k
                    == id@) by {
                    if before.contains(k) {
                        let m = choose|m: int| 0 <= m < before.len() && before[m] == k;
                        assert(after[m] == k);
                    }
                    if k == id@ {
                        assert(after[i as int] == k);
                    }
                }
                assert(states@ =~= all_checked(after));
            }
            i += 1;
        }
        proof {
            let ids = recommended_ids();
            assert(ids.take(i as int) =~= ids);
            assert forall|k: int| 0 <= k < RECOMMENDED_TWEAKS@.len() implies checked_in(
                states@,
                (#[trigger] RECOMMENDED_TWEAKS@[k])@,
            ) by {
                assert(ids[k] == RECOMMENDED_TWEAKS@[k]@);
                assert(ids.contains(ids[k]));
            }
        }
        TweakStates { states, input_values: StringMap::new() }
    }
}

impl Clone for TweakStates {
    fn clone(&self) -> (t: TweakStates)
        ensures
            t.states@ == self.states@,
            t.input_values@ == self.input_values@,
    {
        TweakStates { states: self.states.clone(), input_values: self.input_values.clone() }
    }
}

impl TweakStates {
    /// Whether the tweak is checked. A tweak that was never touched is not.
    pub fn is_checked(&self, id: &str) -> (r: bool)
        ensures
            r == checked_in(self.states@, id@),
    {
        match self.states.get(id) {
            Some(checked) => *checked,
            None => false,
        }
    }

    /// Checks the tweak if it is unchecked, unchecks it if it is checked.
    pub fn toggle(&mut self, id: &str)
        ensures
            final(self).states@ == old(self).states@.insert(id@, !checked_in(old(self).states@, id@)),
            final(self).input_values == old(self).input_values,
    {
        let checked = self.is_checked(id);
        self.states.insert(id.to_owned(), !checked);
    }

    /// Sets the input value of the tweak.
    pub fn set_input(&mut self, id: &str, value: String)
        ensures
            final(self).input_values@ == old(self).input_values@.insert(id@, value),
            final(self).states == old(self).states,
    {
        self.input_values.insert(id.to_owned(), value);
    }

    /// Copies of both maps, which later edits of the selection do not reach.
    pub fn snapshot(&self) -> (copy: (StringMap<bool>, StringMap<String>))
        ensures
            copy.0@ == self.states@,
            copy.1@ == self.input_values@,
    {
        (self.states.clone(), self.input_values.clone())
    }
}

/// A navigation entry as plain values.
pub struct NavigationView {
    pub mode: ViewMode,
    pub selected_category: Option<Seq<char>>,
    pub selected_tweak: Option<Seq<char>>,
    pub search_query: Seq<char>,
}

/// The characters of an optional text.
pub open spec fn text_view(text: Option<String>) -> Option<Seq<char>> {
    match text {
        Some(t) => Some(t@),
        None => None,
    }
}

/// Snapshot of navigation state for history.
#[derive(PartialEq, Debug)]
pub struct NavigationEntry {
    pub mode: ViewMode,
    pub selected_category: Option<String>,
    pub selected_tweak: Option<String>,
    pub search_query: String,
}

impl View for NavigationEntry {
    type V = NavigationView;

    open spec fn view(&self) -> NavigationView {
        NavigationView {
            mode: self.mode,
            selected_category: text_view(self.selected_category),
            selected_tweak: text_view(self.selected_tweak),
            search_query: self.search_query@,
        }
    }
}

impl Clone for NavigationEntry {
    fn clone(&self) -> (e: NavigationEntry)
        ensures
            e@ == self@,
    {
        NavigationEntry {
            mode: self.mode,
            selected_category: copy_text(&self.selected_category),
            selected_tweak: copy_text(&self.selected_tweak),
            search_query: self.search_query.clone(),
        }
    }
}

/// The entries of a history as plain values, oldest first.
pub open spec fn entry_views(entries: Seq<NavigationEntry>) -> Seq<NavigationView> {
    entries.map_values(|e: NavigationEntry| e@)
}

/// Where the interface is, and the way back: the view it shows, what is
/// selected, what is searched for, and the places it came through.
#[derive(Debug)]
pub struct Navigator {
    pub mode: ViewMode,
    pub selection: SelectionState,
    pub search_query: String,
    pub history: Vec<NavigationEntry>,
}

impl Navigator {
    /// The place where the interface is.
    pub open spec fn place(&self) -> NavigationView {
        NavigationView {
            mode: self.mode,
            selected_category: text_view(self.selection.selected_category),
            selected_tweak: text_view(self.selection.selected_tweak),
            search_query: self.search_query@,
        }
    }

    /// The places to go back through, oldest first.
    pub open spec fn trail(&self) -> Seq<NavigationView> {
        entry_views(self.history@)
    }

    /// The tweak list, with nothing selected, no search and no history.
    pub fn new() -> (n: Navigator)
        ensures
            n.mode == ViewMode::Tweaks,
            n.selection.selected_category.is_none(),
            n.selection.selected_tweak.is_none(),
            n.selection.expanded_categories@ == Map::<Seq<char>, bool>::empty(),
            n.search_query@ == Seq::<char>::empty(),
            n.trail() == Seq::<NavigationView>::empty(),
    {
        let n = Navigator {
            mode: ViewMode::Tweaks,
            selection: SelectionState::default(),
            search_query: String::new(),
            history: Vec::new(),
        };
        proof {
            assert(n.trail() =~= Seq::<NavigationView>::empty());
        }
        n
    }

    /// A snapshot of the place where the interface is.
    pub fn entry(&self) -> (e: NavigationEntry)
        ensures
            e@ == self.place(),
    {
        NavigationEntry {
            mode: self.mode,
            selected_category: copy_text(&self.selection.selected_category),
            selected_tweak: copy_text(&self.selection.selected_tweak),
            search_query: self.search_query.clone(),
        }
    }

    /// Shows another view, and remembers the place that is left.
    pub fn navigate(&mut self, mode: ViewMode)
        ensures
            final(self).trail() == old(self).trail().push(old(self).place()),
            final(self).place() == (NavigationView { mode, ..old(self).place() }),
            final(self).selection.expanded_categories == old(self).selection.expanded_categories,
    {
        let left = self.entry();
        self.history.push(left);
        self.mode = mode;
        proof {
            assert(self.trail() =~= old(self).trail().push(old(self).place()));
        }
    }

    /// Goes back to the place that was left last, if there is one, and says
    /// whether there was. Which categories are expanded stays as it is.
    pub fn back(&mut self) -> (went: bool)
        ensures
            went == (old(self).trail().len() > 0),
            went ==> final(self).place() == old(self).trail().last() && final(self).trail() == old(
                self,
            ).trail().drop_last(),
            !went ==> final(self).place() == old(self).place() && final(self).trail() == old(
                self,
            ).trail(),
            final(self).selection.expanded_categories == old(self).selection.expanded_categories,
    {
        match self.history.pop() {
            Some(e) => {
                self.mode = e.mode;
                self.selection.selected_category = e.selected_category;
                self.selection.selected_tweak = e.selected_tweak;
                self.search_query = e.search_query;
                proof {
                    assert(self.trail() =~= old(self).trail().drop_last());
                }
                true
            },
            None => false,
        }
    }

    /// Takes the user's confirmation: from a confirmation view it returns to
    /// the tweak list and hands out the view that was confirmed, so that the
    /// action can start; from any other view nothing is confirmed and nothing
    /// changes.
    pub fn confirm(&mut self) -> (confirmed: Option<ViewMode>)
        ensures
            confirmed == (if old(self).mode.confirms() {
                Some(old(self).mode)
            } else {
                None
            }),
            final(self).place() == (if old(self).mode.confirms() {
                NavigationView { mode: ViewMode::Tweaks, ..old(self).place() }
            } else {
                old(self).place()
            }),
            final(self).trail() == old(self).trail(),
            final(self).selection.expanded_categories == old(self).selection.expanded_categories,
    {
        let mode = self.mode;
        if mode.is_confirmation() {
            self.mode = ViewMode::Tweaks;
            Some(mode)
        } else {
            None
        }
    }
}

} // verus!
