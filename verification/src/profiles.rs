//! Configuration profiles: the built-in `quick` and `thorough` agent-setting
//! patches, and resolution of a profile name against the profiles of the
//! configuration (which take precedence) and the built-ins.
use vstd::prelude::*;
use crate::contracts::{AgentConfig, Model, Runner};
use crate::keyed::{Keyed, has_key, lookup_key, upsert_key, find_first, upsert, lemma_first_key_index};
use crate::text::{chars_lt, chars_of, lemma_seq_lt_transitive, lemma_seq_lt_trichotomy, seq_lt, str_eq};

verus! {

broadcast use vstd::seq_lib::group_seq_properties;

pub const BUILTIN_QUICK: &'static str = "quick";

pub const BUILTIN_THOROUGH: &'static str = "thorough";

/// A named profile.
#[derive(Debug)]
pub struct ProfileEntry {
    pub name: String,
    pub config: AgentConfig,
}

impl Keyed for ProfileEntry {
    open spec fn key(&self) -> Seq<char> {
        self.name@
    }

    fn key_matches(&self, k: &str) -> (r: bool) {
        str_eq(self.name.as_str(), k)
    }
}

/// Profiles by name, in ascending order of name (as a `BTreeMap<String, _>`
/// keeps them); inserting a name again replaces its profile.
#[derive(Debug)]
pub struct ProfileMap {
    pub entries: Vec<ProfileEntry>,
}

/// The entries stand in strictly ascending order of name.
pub open spec fn sorted_entries(s: Seq<ProfileEntry>) -> bool {
    forall|i: int, j: int| 0 <= i < j < s.len() ==> seq_lt(s[i].name@, s[j].name@)
}

/// The profile stored under `name`.
pub open spec fn profile_named(entries: Seq<ProfileEntry>, name: Seq<char>) -> Option<AgentConfig> {
    match lookup_key(entries, name) {
        Some(e) => Some(e.config),
        None => None,
    }
}

/// In ascending entries, the entry at `i` is the one looked up by its name.
proof fn lemma_sorted_lookup(s: Seq<ProfileEntry>, i: int)
    requires
        sorted_entries(s),
        0 <= i < s.len(),
    ensures
        lookup_key(s, s[i].name@) == Some(s[i]),
{
    assert forall|j: int| 0 <= j < i implies #[trigger] s[j].key() != s[i].name@ by {
        lemma_seq_lt_trichotomy(s[j].name@, s[i].name@);
    }
    lemma_first_key_index(s, s[i].name@, i);
}

/// The name of `entries[k]` sorts before `v`.
fn entry_before(entries: &Vec<ProfileEntry>, k: usize, v: &Vec<char>) -> (r: bool)
    requires
        k < entries.len(),
    ensures
        r == seq_lt(entries@[k as int].name@, v@),
{
    let w = chars_of(entries[k].name.as_str());
    chars_lt(&w, v)
}

/// The first position whose entry's name does not sort before `v`.
fn entry_position(entries: &Vec<ProfileEntry>, v: &Vec<char>) -> (k: usize)
    ensures
        k <= entries.len(),
        forall|i: int| 0 <= i < k ==> seq_lt(#[trigger] entries@[i].name@, v@),
        k < entries.len() ==> !seq_lt(entries@[k as int].name@, v@),
{
    let mut k: usize = 0;
    while k < entries.len() && entry_before(entries, k, v)
        invariant
            k <= entries.len(),
            forall|i: int| 0 <= i < k ==> seq_lt(#[trigger] entries@[i].name@, v@),
        decreases entries.len() - k,
    {
        k = k + 1;
    }
    k
}

/// What inserting `(name, config)` does to the profiles: `name` now maps to
/// `config`, every other name keeps its profile, no other name appears.
pub open spec fn inserted(
    after: Seq<ProfileEntry>,
    before: Seq<ProfileEntry>,
    name: Seq<char>,
    config: AgentConfig,
) -> bool {
    &&& profile_named(after, name) == Some(config)
    &&& forall|n: Seq<char>| n != name ==> #[trigger] profile_named(after, n) == profile_named(before, n)
    &&& forall|n: Seq<char>| #[trigger] has_key(after, n) <==> (has_key(before, n) || n == name)
}

/// Putting `e` over the entry of the same name keeps the entries ascending
/// and gives that name `e`'s profile.
proof fn lemma_replace_entry(before: Seq<ProfileEntry>, k: int, e: ProfileEntry)
    requires
        sorted_entries(before),
        0 <= k < before.len(),
        before[k].name@ == e.name@,
    ensures
        sorted_entries(before.update(k, e)),
        inserted(before.update(k, e), before, e.name@, e.config),
{
    let after = before.update(k, e);
    assert forall|i: int, j: int| 0 <= i < j < after.len() implies seq_lt(
        after[i].name@,
        after[j].name@,
    ) by {
        assert(after[i].name@ == before[i].name@);
        assert(after[j].name@ == before[j].name@);
    }
    lemma_sorted_lookup(after, k);
    assert forall|n: Seq<char>| #[trigger] has_key(after, n) <==> has_key(before, n) by {
        if has_key(after, n) {
            let i = choose|i: int| 0 <= i < after.len() && #[trigger] after[i].key() == n;
            assert(before[i].key() == n);
        }
        if has_key(before, n) {
            let i = choose|i: int| 0 <= i < before.len() && #[trigger] before[i].key() == n;
            assert(after[i].key() == n);
        }
    }
    assert forall|n: Seq<char>| n != e.name@ implies #[trigger] profile_named(after, n)
        == profile_named(before, n) by {
        if has_key(before, n) {
            let i = choose|i: int| 0 <= i < before.len() && #[trigger] before[i].key() == n;
            lemma_sorted_lookup(before, i);
            assert(after[i] == before[i]);
            lemma_sorted_lookup(after, i);
        }
    }
}

/// Putting `e` between the entries that sort before and after it keeps the
/// entries ascending and adds its profile.
proof fn lemma_insert_entry(before: Seq<ProfileEntry>, k: int, e: ProfileEntry)
    requires
        sorted_entries(before),
        0 <= k <= before.len(),
        forall|i: int| 0 <= i < k ==> seq_lt(#[trigger] before[i].name@, e.name@),
        forall|j: int| k <= j < before.len() ==> seq_lt(e.name@, #[trigger] before[j].name@),
    ensures
        sorted_entries(before.insert(k, e)),
        inserted(before.insert(k, e), before, e.name@, e.config),
{
    let after = before.insert(k, e);
    assert forall|i: int, j: int| 0 <= i < j < after.len() implies seq_lt(
        after[i].name@,
        after[j].name@,
    ) by {
        if j < k {
        } else if j == k {
        } else if i < k {
            lemma_seq_lt_transitive(before[i].name@, e.name@, before[j - 1].name@);
        } else if i == k {
        } else {
            assert(after[i] == before[i - 1]);
        }
    }
    assert(after[k] == e);
    lemma_sorted_lookup(after, k);
    assert forall|n: Seq<char>| #[trigger] has_key(after, n) <==> (has_key(before, n) || n == e.name@) by {
        if has_key(after, n) {
            let i = choose|i: int| 0 <= i < after.len() && #[trigger] after[i].key() == n;
            if i > k {
                assert(before[i - 1].key() == n);
            } else if i < k {
                assert(before[i].key() == n);
            }
        }
        if has_key(before, n) {
            let i = choose|i: int| 0 <= i < before.len() && #[trigger] before[i].key() == n;
            if i < k {
                assert(after[i].key() == n);
            } else {
                assert(after[i + 1].key() == n);
            }
        }
        if n == e.name@ {
            assert(after[k].key() == n);
        }
    }
    assert forall|n: Seq<char>| n != e.name@ implies #[trigger] profile_named(after, n)
        == profile_named(before, n) by {
        if has_key(before, n) {
            let i = choose|i: int| 0 <= i < before.len() && #[trigger] before[i].key() == n;
            lemma_sorted_lookup(before, i);
            if i < k {
                assert(after[i] == before[i]);
                lemma_sorted_lookup(after, i);
            } else {
                assert(after[i + 1] == before[i]);
                lemma_sorted_lookup(after, i + 1);
            }
        }
    }
}

impl ProfileMap {
    pub fn new() -> (r: Self)
        ensures
            r.entries@.len() == 0,
            sorted_entries(r.entries@),
    {
        ProfileMap { entries: Vec::new() }
    }

    /// Stores `config` under `name`, replacing any profile of that name.
    pub fn insert(&mut self, name: String, config: AgentConfig)
        requires
            sorted_entries(old(self).entries@),
        ensures
            sorted_entries(final(self).entries@),
            inserted(final(self).entries@, old(self).entries@, name@, config),
    {
        let ghost before = self.entries@;
        let v = chars_of(name.as_str());
        let k = entry_position(&self.entries, &v);
        let replace = k < self.entries.len() && str_eq(self.entries[k].name.as_str(), name.as_str());
        let e = ProfileEntry { name, config };
        proof {
            if !replace && k < before.len() {
                lemma_seq_lt_trichotomy(before[k as int].name@, e.name@);
                assert forall|j: int| k <= j < before.len() implies seq_lt(
                    e.name@,
                    #[trigger] before[j].name@,
                ) by {
                    if j > k {
                        lemma_seq_lt_transitive(e.name@, before[k as int].name@, before[j].name@);
                    }
                }
            }
            if replace {
                lemma_replace_entry(before, k as int, e);
            } else {
                lemma_insert_entry(before, k as int, e);
            }
        }
        if replace {
            self.entries.set(k, e);
        } else {
            self.entries.insert(k, e);
        }
    }

    /// The profile stored under `name`.
    pub fn get(&self, name: &str) -> (r: Option<&AgentConfig>)
        ensures
            match r {
                Some(c) => profile_named(self.entries@, name@) == Some(*c),
                None => profile_named(self.entries@, name@) is None,
            },
    {
        match find_first(&self.entries, name) {
            Some(i) => {
                proof {
                    lemma_first_key_index(self.entries@, name@, i as int);
                }
                Some(&self.entries[i].config)
            },
            None => None,
        }
    }

    /// Whether a profile is stored under `name`.
    pub fn contains_key(&self, name: &str) -> (r: bool)
        ensures
            r == has_key(self.entries@, name@),
    {
        find_first(&self.entries, name).is_some()
    }
}

/// The built-in `quick` profile: model `kimi-for-coding`, one phase.
pub open spec fn is_quick_profile(c: AgentConfig) -> bool {
    &&& c.runner == Some(Runner::Kimi)
    &&& c.model matches Some(Model::Custom(m)) && m@ == "kimi-for-coding"@
    &&& c.phases == Some(1u8)
}

/// The built-in `thorough` profile: model `opus`, three phases.
pub open spec fn is_thorough_profile(c: AgentConfig) -> bool {
    &&& c.runner == Some(Runner::Claude)
    &&& c.model matches Some(Model::Custom(m)) && m@ == "opus"@
    &&& c.phases == Some(3u8)
}

fn quick_profile() -> (r: AgentConfig)
    ensures
        is_quick_profile(r),
{
    AgentConfig {
        runner: Some(Runner::Kimi),
        model: Some(Model::Custom(String::from_str("kimi-for-coding"))),
        phases: Some(1),
    }
}

fn thorough_profile() -> (r: AgentConfig)
    ensures
        is_thorough_profile(r),
{
    AgentConfig {
        runner: Some(Runner::Claude),
        model: Some(Model::Custom(String::from_str("opus"))),
        phases: Some(3),
    }
}

/// The built-in profiles: `quick` and `thorough`.
pub fn builtin_profiles() -> (r: ProfileMap)
    ensures
        r.entries@.len() == 2,
        r.entries@[0].name@ == BUILTIN_QUICK@,
        is_quick_profile(r.entries@[0].config),
        r.entries@[1].name@ == BUILTIN_THOROUGH@,
        is_thorough_profile(r.entries@[1].config),
        sorted_entries(r.entries@),
{
    proof {
        reveal_strlit("quick");
        reveal_strlit("thorough");
    }
    let mut entries: Vec<ProfileEntry> = Vec::new();
    entries.push(ProfileEntry { name: String::from_str(BUILTIN_QUICK), config: quick_profile() });
    entries.push(ProfileEntry { name: String::from_str(BUILTIN_THOROUGH), config: thorough_profile() });
    ProfileMap { entries }
}

/// A set of profile names, each held once.
#[derive(Debug)]
pub struct ProfileNames {
    pub names: Vec<String>,
}

impl ProfileNames {
    /// Whether `name` is in the set.
    pub fn contains(&self, name: &str) -> (r: bool)
        ensures
            r == has_key(self.names@, name@),
    {
        find_first(&self.names, name).is_some()
    }
}

/// No two elements of `s` hold the same name.
pub open spec fn distinct_names(s: Seq<String>) -> bool {
    forall|i: int, j: int| 0 <= i < j < s.len() ==> s[i]@ != s[j]@
}

/// The names stand in strictly ascending order, as a `BTreeSet<String>` keeps them.
pub open spec fn sorted_names(s: Seq<String>) -> bool {
    forall|i: int, j: int| 0 <= i < j < s.len() ==> seq_lt(s[i]@, s[j]@)
}

/// Strictly ascending names are distinct.
pub proof fn lemma_sorted_distinct(s: Seq<String>)
    requires
        sorted_names(s),
    ensures
        distinct_names(s),
{
    assert forall|i: int, j: int| 0 <= i < j < s.len() implies s[i]@ != s[j]@ by {
        lemma_seq_lt_trichotomy(s[i]@, s[j]@);
    }
}

/// `names[k]` sorts before `name`.
fn name_before(names: &Vec<String>, k: usize, name: &Vec<char>) -> (r: bool)
    requires
        k < names.len(),
    ensures
        r == seq_lt(names@[k as int]@, name@),
{
    let w = chars_of(names[k].as_str());
    chars_lt(&w, name)
}

/// `after` holds the names of `before` and `name`, and no others.
pub open spec fn adds_name(after: Seq<String>, before: Seq<String>, name: Seq<char>) -> bool {
    forall|n: Seq<char>| has_key(after, n) <==> (has_key(before, n) || n == name)
}

/// Adding a name that is already present changes nothing.
proof fn lemma_adds_present_name(s: Seq<String>, k: int, name: Seq<char>)
    requires
        0 <= k < s.len(),
        s[k]@ == name,
    ensures
        adds_name(s, s, name),
{
    assert(s[k].key() == name);
}

/// Inserting a name at the place where it sorts keeps the list ascending and
/// adds exactly that name.
proof fn lemma_insert_sorted(before: Seq<String>, k: int, s: String)
    requires
        sorted_names(before),
        0 <= k <= before.len(),
        forall|i: int| 0 <= i < k ==> seq_lt(#[trigger] before[i]@, s@),
        forall|j: int| k <= j < before.len() ==> seq_lt(s@, #[trigger] before[j]@),
    ensures
        sorted_names(before.insert(k, s)),
        adds_name(before.insert(k, s), before, s@),
{
    let after = before.insert(k, s);
    assert forall|i: int, j: int| 0 <= i < j < after.len() implies seq_lt(
        after[i]@,
        after[j]@,
    ) by {
        if j < k {
        } else if j == k {
        } else if i < k {
            lemma_seq_lt_transitive(before[i]@, s@, before[j - 1]@);
        } else if i == k {
        } else {
            assert(after[i] == before[i - 1]);
        }
    }
    assert forall|n: Seq<char>| has_key(after, n) <==> (has_key(before, n) || n == s@) by {
        if has_key(after, n) {
            let i = choose|i: int| 0 <= i < after.len() && #[trigger] after[i].key() == n;
            if i < k {
                assert(before[i].key() == n);
            } else if i > k {
                assert(before[i - 1].key() == n);
            }
        }
        if has_key(before, n) {
            let i = choose|i: int| 0 <= i < before.len() && #[trigger] before[i].key() == n;
            if i < k {
                assert(after[i].key() == n);
            } else {
                assert(after[i + 1].key() == n);
            }
        }
        if n == s@ {
            assert(after[k].key() == n);
        }
    }
}

/// The first position whose name does not sort before `v`.
fn sorted_position(names: &Vec<String>, v: &Vec<char>) -> (k: usize)
    ensures
        k <= names.len(),
        forall|i: int| 0 <= i < k ==> seq_lt(#[trigger] names@[i]@, v@),
        k < names.len() ==> !seq_lt(names@[k as int]@, v@),
{
    let mut k: usize = 0;
    while k < names.len() && name_before(names, k, v)
        invariant
            k <= names.len(),
            forall|i: int| 0 <= i < k ==> seq_lt(#[trigger] names@[i]@, v@),
        decreases names.len() - k,
    {
        k = k + 1;
    }
    k
}

/// Adds `name` at its place in the ascending list, unless it is there already.
fn add_name(names: &mut Vec<String>, name: &str)
    requires
        sorted_names(old(names)@),
    ensures
        sorted_names(final(names)@),
        adds_name(final(names)@, old(names)@, name@),
{
    let ghost before = names@;
    let v = chars_of(name);
    let k = sorted_position(names, &v);
    let present = k < names.len() && str_eq(names[k].as_str(), name);
    if present {
        proof {
            lemma_adds_present_name(before, k as int, name@);
        }
    } else {
        proof {
            if k < before.len() {
                lemma_seq_lt_trichotomy(before[k as int]@, name@);
                assert forall|j: int| k <= j < before.len() implies seq_lt(
                    name@,
                    #[trigger] before[j]@,
                ) by {
                    if j > k {
                        lemma_seq_lt_transitive(name@, before[k as int]@, before[j]@);
                    }
                }
            }
        }
        let s = String::from_str(name);
        proof {
            lemma_insert_sorted(before, k as int, s);
        }
        names.insert(k, s);
        assert(names@ == before.insert(k as int, s));
        assert(adds_name(names@, before, name@));
    }
}

/// The names of every profile: the built-ins and those of the
/// configuration, each once.
pub fn all_profile_names(config_profiles: Option<&ProfileMap>) -> (r: ProfileNames)
    ensures
        sorted_names(r.names@),
        distinct_names(r.names@),
        forall|n: Seq<char>|
            has_key(r.names@, n) <==> (n == BUILTIN_QUICK@ || n == BUILTIN_THOROUGH@ || (
            config_profiles matches Some(m) && has_key(m.entries@, n))),
{
    let mut names: Vec<String> = Vec::new();
    add_name(&mut names, BUILTIN_QUICK);
    add_name(&mut names, BUILTIN_THOROUGH);
    if let Some(map) = config_profiles {
        let mut i: usize = 0;
        while i < map.entries.len()
            invariant
                i <= map.entries@.len(),
                sorted_names(names@),
                forall|n: Seq<char>|
                    has_key(names@, n) <==> (n == BUILTIN_QUICK@ || n == BUILTIN_THOROUGH@ || exists|j: int|
                        0 <= j < i && #[trigger] map.entries@[j].key() == n),
            decreases map.entries.len() - i,
        {
            add_name(&mut names, map.entries[i].name.as_str());
            proof {
                assert forall|n: Seq<char>|
                    has_key(names@, n) <==> (n == BUILTIN_QUICK@ || n == BUILTIN_THOROUGH@ || exists|j: int|
                        0 <= j < i + 1 && #[trigger] map.entries@[j].key() == n) by {
                    if n == map.entries@[i as int].key() {
                        assert(map.entries@[i as int].key() == n);
                    }
                }
            }
            i = i + 1;
        }
    }
    proof {
        lemma_sorted_distinct(names@);
    }
    ProfileNames { names }
}

/// The configuration holds a profile named `name`.
pub open spec fn in_config(config_profiles: Option<&ProfileMap>, name: Seq<char>) -> bool {
    config_profiles matches Some(m) && has_key(m.entries@, name)
}

/// The profile patch named `name`: the configuration's profile of that
/// name when there is one, else the built-in one, else `None`.
pub fn resolve_profile_patch(name: &str, config_profiles: Option<&ProfileMap>) -> (r: Option<AgentConfig>)
    ensures
        in_config(config_profiles, name@) ==> r == profile_named(config_profiles.unwrap().entries@, name@),
        !in_config(config_profiles, name@) ==> {
            &&& name@ == BUILTIN_QUICK@ ==> (r matches Some(c) && is_quick_profile(c))
            &&& name@ == BUILTIN_THOROUGH@ ==> (r matches Some(c) && is_thorough_profile(c))
            &&& name@ != BUILTIN_QUICK@ && name@ != BUILTIN_THOROUGH@ ==> r is None
        },
{
    if let Some(map) = config_profiles {
        if let Some(patch) = map.get(name) {
            return Some(patch.clone());
        }
    }
    proof {
        reveal_strlit("quick");
        reveal_strlit("thorough");
        assert("quick"@.len() != "thorough"@.len());
    }
    if str_eq(name, BUILTIN_QUICK) {
        Some(quick_profile())
    } else if str_eq(name, BUILTIN_THOROUGH) {
        Some(thorough_profile())
    } else {
        None
    }
}

} // verus!
