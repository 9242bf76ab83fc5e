//! The catalog of tweaks: its data model, what makes a catalog sound, and the
//! catalog that ships with the library.

use crate::gui::tweaks::defaults::recommended_ids;
use vstd::prelude::*;

pub mod defaults;

verus! {

/// What an operation writes under its key.
#[derive(Clone, Copy, Debug)]
pub enum RegValue {
    /// A 32-bit number.
    Dword(u32),
    /// A text.
    Text(&'static str),
    /// Nothing: the value is removed.
    Delete,
}

/// One atomic mutation: a key path, a value name and what to write there.
#[derive(Clone, Copy, Debug)]
pub struct Operation {
    pub subkey: &'static str,
    pub value_name: &'static str,
    pub value: RegValue,
}

/// A named unit of configuration: the operations that enable it and those
/// that revert it.
#[derive(Debug)]
pub struct Tweak {
    pub id: &'static str,
    pub name: &'static str,
    pub description: &'static str,
    pub category: &'static str,
    pub enabled_ops: Vec<Operation>,
    pub disabled_ops: Vec<Operation>,
}

/// A group of tweaks.
#[derive(Clone, Copy, Debug)]
pub struct Category {
    pub id: &'static str,
    pub label: &'static str,
}

/// No two tweaks share an id.
pub open spec fn ids_distinct(tweaks: Seq<Tweak>) -> bool {
    forall|i: int, j: int| 0 <= i < j < tweaks.len() ==> tweaks[i].id@ != tweaks[j].id@
}

/// Some category has the given id.
pub open spec fn category_known(categories: Seq<Category>, id: Seq<char>) -> bool {
    exists|k: int| 0 <= k < categories.len() && (#[trigger] categories[k]).id@ == id
}

/// Every operation of the list names a key.
pub open spec fn subkeys_present(ops: Seq<Operation>) -> bool {
    forall|k: int| 0 <= k < ops.len() ==> (#[trigger] ops[k]).subkey@.len() > 0
}

/// The tweak has a name and a description, belongs to a known category, and
/// each of its operations names a key.
pub open spec fn tweak_sound(tweak: Tweak, categories: Seq<Category>) -> bool {
    &&& tweak.name@.len() > 0
    &&& tweak.description@.len() > 0
    &&& category_known(categories, tweak.category@)
    &&& subkeys_present(tweak.enabled_ops@)
    &&& subkeys_present(tweak.disabled_ops@)
}

/// The catalog's integrity: distinct ids, and every tweak sound.
pub open spec fn catalog_valid(tweaks: Seq<Tweak>, categories: Seq<Category>) -> bool {
    &&& ids_distinct(tweaks)
    &&& forall|i: int| 0 <= i < tweaks.len() ==> tweak_sound(#[trigger] tweaks[i], categories)
}

/// Whether two texts have the same characters.
pub fn same_text(a: &str, b: &str) -> (r: bool)
    ensures
        r == (a@ == b@),
{
    let left = a.to_owned();
    let right = b.to_owned();
    left.eq(&right)
}

/// Whether every operation of the list names a key.
pub fn all_subkeys_present(ops: &Vec<Operation>) -> (r: bool)
    ensures
        r == subkeys_present(ops@),
{
    let mut k: usize = 0;
    while k < ops.len()
        invariant
            k <= ops@.len(),
            forall|m: int| 0 <= m < k ==> (#[trigger] ops@[m]).subkey@.len() > 0,
        decreases ops@.len() - k,
    {
        if ops[k].subkey.is_empty() {
            return false;
        }
        k += 1;
    }
    true
}

/// Whether some category has the given id.
pub fn is_known_category(categories: &Vec<Category>, id: &str) -> (r: bool)
    ensures
        r == category_known(categories@, id@),
{
    let mut k: usize = 0;
    while k < categories.len()
        invariant
            k <= categories@.len(),
            forall|m: int| 0 <= m < k ==> (#[trigger] categories@[m]).id@ != id@,
        decreases categories@.len() - k,
    {
        if same_text(categories[k].id, id) {
            return true;
        }
        k += 1;
    }
    false
}

/// Whether the tweak is sound with respect to the categories.
pub fn is_sound_tweak(tweak: &Tweak, categories: &Vec<Category>) -> (r: bool)
    ensures
        r == tweak_sound(*tweak, categories@),
{
    !tweak.name.is_empty() && !tweak.description.is_empty() && is_known_category(
        categories,
        tweak.category,
    ) && all_subkeys_present(&tweak.enabled_ops) && all_subkeys_present(&tweak.disabled_ops)
}

/// Whether the catalog has its integrity.
pub fn is_valid_catalog(tweaks: &Vec<Tweak>, categories: &Vec<Category>) -> (r: bool)
    ensures
        r == catalog_valid(tweaks@, categories@),
{
    let mut j: usize = 0;
    while j < tweaks.len()
        invariant
            j <= tweaks@.len(),
            forall|a: int, b: int| 0 <= a < b < j ==> tweaks@[a].id@ != tweaks@[b].id@,
            forall|a: int| 0 <= a < j ==> tweak_sound(#[trigger] tweaks@[a], categories@),
        decreases tweaks@.len() - j,
    {
        if !is_sound_tweak(&tweaks[j], categories) {
            return false;
        }
        let mut i: usize = 0;
        while i < j
            invariant
                i <= j < tweaks@.len(),
                forall|a: int| 0 <= a < i ==> tweaks@[a].id@ != tweaks@[j as int].id@,
            decreases j - i,
        {
            if same_text(tweaks[i].id, tweaks[j].id) {
                return false;
            }
            i += 1;
        }
        j += 1;
    }
    true
}

/// Some tweak has the given id.
pub open spec fn tweak_known(tweaks: Seq<Tweak>, id: Seq<char>) -> bool {
    exists|k: int| 0 <= k < tweaks.len() && (#[trigger] tweaks[k]).id@ == id
}

/// The ids of the tweaks, in their order.
pub open spec fn tweak_ids(tweaks: Seq<Tweak>) -> Seq<Seq<char>> {
    tweaks.map_values(|t: Tweak| t.id@)
}

/// The ids of the tweaks of the catalog that ships with the library.
pub open spec fn shipped_ids() -> Seq<Seq<char>> {
    seq![
        "disable_telemetry"@,
        "disable_advertising_id"@,
        "disable_copilot"@,
        "disable_recall"@,
        "disable_widgets"@,
    ]
}

/// The categories of the catalog that ships with the library.
pub open spec fn category_list() -> Seq<Category> {
    seq![
        Category { id: "privacy", label: "Privacy" },
        Category { id: "ai", label: "AI Features" },
        Category { id: "interface", label: "Interface" },
    ]
}

/// The categories of the catalog that ships with the library.
pub fn categories() -> (list: Vec<Category>)
    ensures
        list@ == category_list(),
{
    let mut list: Vec<Category> = Vec::new();
    list.push(Category { id: "privacy", label: "Privacy" });
    list.push(Category { id: "ai", label: "AI Features" });
    list.push(Category { id: "interface", label: "Interface" });
    proof {
        assert(list@ =~= category_list());
    }
    list
}

/// One operation that sets a number under a policy key, and the operation
/// that removes it again.
fn policy_switch(subkey: &'static str, value_name: &'static str, on: u32) -> (ops: (
    Vec<Operation>,
    Vec<Operation>,
))
    requires
        subkey@.len() > 0,
    ensures
        subkeys_present(ops.0@),
        subkeys_present(ops.1@),
        ops.0@.len() == 1,
        ops.1@.len() == 1,
{
    let mut enable: Vec<Operation> = Vec::new();
    enable.push(Operation { subkey, value_name, value: RegValue::Dword(on) });
    let mut disable: Vec<Operation> = Vec::new();
    disable.push(Operation { subkey, value_name, value: RegValue::Delete });
    (enable, disable)
}

fn telemetry_tweak() -> (t: Tweak)
    ensures
        t.id@ == "disable_telemetry"@,
        t.category@ == "privacy"@,
        t.name@.len() > 0,
        t.description@.len() > 0,
        subkeys_present(t.enabled_ops@),
        subkeys_present(t.disabled_ops@),
{
    proof {
        reveal_strlit("SOFTWARE\\Policies\\Microsoft\\Windows\\DataCollection");
        reveal_strlit("Disable Telemetry");
        reveal_strlit("Stops Windows from sending diagnostic and usage data.");
    }
    let ops = policy_switch(
        "SOFTWARE\\Policies\\Microsoft\\Windows\\DataCollection",
        "AllowTelemetry",
        0,
    );
    Tweak {
        id: "disable_telemetry",
        name: "Disable Telemetry",
        description: "Stops Windows from sending diagnostic and usage data.",
        category: "privacy",
        enabled_ops: ops.0,
        disabled_ops: ops.1,
    }
}

fn advertising_tweak() -> (t: Tweak)
    ensures
        t.id@ == "disable_advertising_id"@,
        t.category@ == "privacy"@,
        t.name@.len() > 0,
        t.description@.len() > 0,
        subkeys_present(t.enabled_ops@),
        subkeys_present(t.disabled_ops@),
{
    proof {
        reveal_strlit("SOFTWARE\\Policies\\Microsoft\\Windows\\AdvertisingInfo");
        reveal_strlit("Disable Advertising ID");
        reveal_strlit("Keeps apps from using the advertising ID to follow the user.");
    }
    let ops = policy_switch(
        "SOFTWARE\\Policies\\Microsoft\\Windows\\AdvertisingInfo",
        "DisabledByGroupPolicy",
        1,
    );
    Tweak {
        id: "disable_advertising_id",
        name: "Disable Advertising ID",
        description: "Keeps apps from using the advertising ID to follow the user.",
        category: "privacy",
        enabled_ops: ops.0,
        disabled_ops: ops.1,
    }
}

fn copilot_tweak() -> (t: Tweak)
    ensures
        t.id@ == "disable_copilot"@,
        t.category@ == "ai"@,
        t.name@.len() > 0,
        t.description@.len() > 0,
        subkeys_present(t.enabled_ops@),
        subkeys_present(t.disabled_ops@),
{
    proof {
        reveal_strlit("SOFTWARE\\Policies\\Microsoft\\Windows\\WindowsCopilot");
        reveal_strlit("Disable Copilot");
        reveal_strlit("Turns the Copilot assistant off for every user.");
    }
    let ops = policy_switch(
        "SOFTWARE\\Policies\\Microsoft\\Windows\\WindowsCopilot",
        "TurnOffWindowsCopilot",
        1,
    );
    Tweak {
        id: "disable_copilot",
        name: "Disable Copilot",
        description: "Turns the Copilot assistant off for every user.",
        category: "ai",
        enabled_ops: ops.0,
        disabled_ops: ops.1,
    }
}

fn recall_tweak() -> (t: Tweak)
    ensures
        t.id@ == "disable_recall"@,
        t.category@ == "ai"@,
        t.name@.len() > 0,
        t.description@.len() > 0,
        subkeys_present(t.enabled_ops@),
        subkeys_present(t.disabled_ops@),
{
    proof {
        reveal_strlit("SOFTWARE\\Policies\\Microsoft\\Windows\\WindowsAI");
        reveal_strlit("Disable Recall");
        reveal_strlit("Keeps Windows from saving snapshots of the screen.");
    }
    let mut enable: Vec<Operation> = Vec::new();
    enable.push(
        Operation {
            subkey: "SOFTWARE\\Policies\\Microsoft\\Windows\\WindowsAI",
            value_name: "DisableAIDataAnalysis",
            value: RegValue::Dword(1),
        },
    );
    enable.push(
        Operation {
            subkey: "SOFTWARE\\Policies\\Microsoft\\Windows\\WindowsAI",
            value_name: "AllowRecallEnablement",
            value: RegValue::Dword(0),
        },
    );
    let mut disable: Vec<Operation> = Vec::new();
    disable.push(
        Operation {
            subkey: "SOFTWARE\\Policies\\Microsoft\\Windows\\WindowsAI",
            value_name: "DisableAIDataAnalysis",
            value: RegValue::Delete,
        },
    );
    disable.push(
        Operation {
            subkey: "SOFTWARE\\Policies\\Microsoft\\Windows\\WindowsAI",
            value_name: "AllowRecallEnablement",
            value: RegValue::Delete,
        },
    );
    Tweak {
        id: "disable_recall",
        name: "Disable Recall",
        description: "Keeps Windows from saving snapshots of the screen.",
        category: "ai",
        enabled_ops: enable,
        disabled_ops: disable,
    }
}

fn widgets_tweak() -> (t: Tweak)
    ensures
        t.id@ == "disable_widgets"@,
        t.category@ == "interface"@,
        t.name@.len() > 0,
        t.description@.len() > 0,
        subkeys_present(t.enabled_ops@),
        subkeys_present(t.disabled_ops@),
{
    proof {
        reveal_strlit("SOFTWARE\\Policies\\Microsoft\\Dsh");
        reveal_strlit("Disable Widgets");
        reveal_strlit("Removes the widgets board and its news feed from the taskbar.");
    }
    let ops = policy_switch("SOFTWARE\\Policies\\Microsoft\\Dsh", "AllowNewsAndInterests", 0);
    Tweak {
        id: "disable_widgets",
        name: "Disable Widgets",
        description: "Removes the widgets board and its news feed from the taskbar.",
        category: "interface",
        enabled_ops: ops.0,
        disabled_ops: ops.1,
    }
}

/// The tweaks of the catalog that ships with the library, in catalog order.
/// The catalog has its integrity, and holds every recommended tweak.
pub fn get_all_tweaks() -> (tweaks: Vec<Tweak>)
    ensures
        tweak_ids(tweaks@) == shipped_ids(),
        catalog_valid(tweaks@, category_list()),
        forall|i: int|
            0 <= i < recommended_ids().len() ==> tweak_known(tweaks@, #[trigger] recommended_ids()[i]),
{
    let mut tweaks: Vec<Tweak> = Vec::new();
    tweaks.push(telemetry_tweak());
    tweaks.push(advertising_tweak());
    tweaks.push(copilot_tweak());
    tweaks.push(recall_tweak());
    tweaks.push(widgets_tweak());
    proof {
        reveal_strlit("disable_telemetry");
        reveal_strlit("disable_advertising_id");
        reveal_strlit("disable_copilot");
        reveal_strlit("disable_recall");
        reveal_strlit("disable_widgets");
        assert(tweaks@[0].id@.len() == 17);
        assert(tweaks@[1].id@.len() == 22);
        assert(tweaks@[2].id@.len() == 15);
        assert(tweaks@[3].id@.len() == 14);
        assert(tweaks@[4].id@.len() == 15);
        assert(tweaks@[2].id@[8] == 'c');
        assert(tweaks@[4].id@[8] == 'w');
        assert forall|i: int, j: int| 0 <= i < j < tweaks@.len() implies tweaks@[i].id@
            != tweaks@[j].id@ by {
            if tweaks@[i].id@ == tweaks@[j].id@ {
                assert(tweaks@[i].id@.len() == tweaks@[j].id@.len());
                assert(tweaks@[i].id@[8] == tweaks@[j].id@[8]);
            }
        }
        let cats = category_list();
        assert(cats[0].id@ == "privacy"@);
        assert(cats[1].id@ == "ai"@);
        assert(cats[2].id@ == "interface"@);
        assert forall|i: int| 0 <= i < tweaks@.len() implies tweak_sound(
            #[trigger] tweaks@[i],
            cats,
        ) by {
            if i == 0 {
                assert(category_known(cats, tweaks@[0].category@));
            } else if i == 1 {
                assert(category_known(cats, tweaks@[1].category@));
            } else if i == 2 {
                assert(category_known(cats, tweaks@[2].category@));
            } else if i == 3 {
                assert(category_known(cats, tweaks@[3].category@));
            } else {
                assert(category_known(cats, tweaks@[4].category@));
            }
        }
        assert(tweak_ids(tweaks@) =~= shipped_ids());
        assert(tweaks@[0].id@ == recommended_ids()[0]);
        assert(tweaks@[1].id@ == recommended_ids()[1]);
        assert(tweaks@[2].id@ == recommended_ids()[2]);
    }
    tweaks
}

/// A catalog that has its integrity: every catalog of this type does.
#[derive(Debug)]
pub struct Catalog {
    tweaks: Vec<Tweak>,
    categories: Vec<Category>,
}

impl Catalog {
    #[verifier::type_invariant]
    spec fn intact(&self) -> bool {
        catalog_valid(self.tweaks@, self.categories@)
    }

    /// The catalog's tweaks, in catalog order.
    pub closed spec fn tweak_list(&self) -> Seq<Tweak> {
        self.tweaks@
    }

    /// The catalog's categories.
    pub closed spec fn categories_of(&self) -> Seq<Category> {
        self.categories@
    }

    /// The catalog of the given tweaks and categories, if they have the
    /// integrity that a catalog needs.
    pub fn new(tweaks: Vec<Tweak>, categories: Vec<Category>) -> (catalog: Option<Catalog>)
        ensures
            catalog.is_some() == catalog_valid(tweaks@, categories@),
            match catalog {
                Some(c) => c.tweak_list() == tweaks@ && c.categories_of() == categories@,
                None => true,
            },
    {
        if is_valid_catalog(&tweaks, &categories) {
            Some(Catalog { tweaks, categories })
        } else {
            None
        }
    }

    /// The catalog that ships with the library.
    pub fn shipped() -> (catalog: Catalog)
        ensures
            catalog.categories_of() == category_list(),
            tweak_ids(catalog.tweak_list()) == shipped_ids(),
            catalog_valid(catalog.tweak_list(), category_list()),
            forall|i: int|
                0 <= i < recommended_ids().len() ==> tweak_known(
                    catalog.tweak_list(),
                    #[trigger] recommended_ids()[i],
                ),
    {
        Catalog { tweaks: get_all_tweaks(), categories: categories() }
    }

    /// The tweaks, in catalog order.
    pub fn tweaks(&self) -> (tweaks: &Vec<Tweak>)
        ensures
            tweaks@ == self.tweak_list(),
            catalog_valid(self.tweak_list(), self.categories_of()),
    {
        proof {
            use_type_invariant(self);
        }
        &self.tweaks
    }

    /// The categories.
    pub fn categories(&self) -> (categories: &Vec<Category>)
        ensures
            categories@ == self.categories_of(),
            catalog_valid(self.tweak_list(), self.categories_of()),
    {
        proof {
            use_type_invariant(self);
        }
        &self.categories
    }
}

} // verus!
