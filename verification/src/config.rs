//! The aliases and favorites a user keeps for the inputs of their monitors.
//!
//! A [`Config`] holds, for each monitor identity, a table from input code to
//! alias, and an ordered list of favorite (monitor, input) pairs without
//! repetition. Its contracts are stated over [`ConfigView`], the mathematical
//! content of a configuration.

use std::collections::HashMap;
use vstd::prelude::*;

verus! {

broadcast use vstd::std_specs::hash::group_hash_axioms;

/// The aliases of one monitor, by input code.
pub type AliasTable = Map<u16, Seq<char>>;

/// A favorite as a pair of monitor identity and input code.
pub type FavoriteKey = (Seq<char>, u16);

/// The content of a configuration.
pub struct ConfigView {
    /// The alias table of each monitor that has one.
    pub monitors: Map<Seq<char>, AliasTable>,
    /// The favorites, oldest first.
    pub favorites: Seq<FavoriteKey>,
}

impl ConfigView {
    /// The configuration that knows no monitor and has no favorite.
    pub open spec fn empty() -> ConfigView {
        ConfigView { monitors: Map::empty(), favorites: Seq::empty() }
    }

    /// The alias table of `monitor_id`, empty where the monitor has none.
    pub open spec fn aliases_of(self, monitor_id: Seq<char>) -> AliasTable {
        if self.monitors.contains_key(monitor_id) {
            self.monitors[monitor_id]
        } else {
            Map::empty()
        }
    }

    /// The alias of input `input_value` on `monitor_id`, if one is set.
    pub open spec fn alias(self, monitor_id: Seq<char>, input_value: u16) -> Option<Seq<char>> {
        if self.aliases_of(monitor_id).contains_key(input_value) {
            Some(self.aliases_of(monitor_id)[input_value])
        } else {
            None
        }
    }

    /// This configuration with the alias of one input set to `alias`.
    pub open spec fn with_alias(
        self,
        monitor_id: Seq<char>,
        input_value: u16,
        alias: Seq<char>,
    ) -> ConfigView {
        ConfigView {
            monitors: self.monitors.insert(
                monitor_id,
                self.aliases_of(monitor_id).insert(input_value, alias),
            ),
            favorites: self.favorites,
        }
    }

    /// This configuration with the alias of one input taken away. A monitor
    /// keeps its table, even when the table becomes empty.
    pub open spec fn without_alias(self, monitor_id: Seq<char>, input_value: u16) -> ConfigView {
        if self.monitors.contains_key(monitor_id) {
            ConfigView {
                monitors: self.monitors.insert(
                    monitor_id,
                    self.monitors[monitor_id].remove(input_value),
                ),
                favorites: self.favorites,
            }
        } else {
            self
        }
    }

    /// This configuration with the whole alias table of one monitor replaced.
    pub open spec fn with_monitor(self, monitor_id: Seq<char>, aliases: AliasTable) -> ConfigView {
        ConfigView { monitors: self.monitors.insert(monitor_id, aliases), favorites: self.favorites }
    }

    /// Whether the pair is among the favorites.
    pub open spec fn is_favorite(self, monitor_id: Seq<char>, input_value: u16) -> bool {
        self.favorites.contains((monitor_id, input_value))
    }

    /// This configuration with the pair among its favorites: appended where it
    /// was missing, unchanged where it was there.
    pub open spec fn with_favorite(self, monitor_id: Seq<char>, input_value: u16) -> ConfigView {
        if self.is_favorite(monitor_id, input_value) {
            self
        } else {
            ConfigView {
                monitors: self.monitors,
                favorites: self.favorites.push((monitor_id, input_value)),
            }
        }
    }

    /// This configuration without the pair among its favorites; the others
    /// keep their order.
    pub open spec fn without_favorite(self, monitor_id: Seq<char>, input_value: u16) -> ConfigView {
        ConfigView {
            monitors: self.monitors,
            favorites: self.favorites.filter(other_than((monitor_id, input_value))),
        }
    }

    /// How often the pair occurs among the favorites.
    pub open spec fn favorite_count(self, monitor_id: Seq<char>, input_value: u16) -> nat {
        self.favorites.to_multiset().count((monitor_id, input_value))
    }
}

/// The test that holds of every favorite but `key`.
pub open spec fn other_than(key: FavoriteKey) -> spec_fn(FavoriteKey) -> bool {
    |f: FavoriteKey| f != key
}

/// The aliases of one monitor.
#[derive(Debug, Clone)]
pub struct MonitorConfig {
    /// Alias by input code.
    pub input_aliases: HashMap<u16, String>,
}

impl View for MonitorConfig {
    type V = AliasTable;

    open spec fn view(&self) -> AliasTable {
        self.input_aliases@.map_values(|alias: String| alias@)
    }
}

impl MonitorConfig {
    /// A table without aliases.
    pub fn new() -> (table: MonitorConfig)
        ensures
            table@ == AliasTable::empty(),
    {
        let table = MonitorConfig { input_aliases: HashMap::new() };
        assert(table@ =~= AliasTable::empty());
        table
    }
}

impl Default for MonitorConfig {
    /// A table without aliases.
    fn default() -> (table: MonitorConfig)
        ensures
            table@ == AliasTable::empty(),
    {
        MonitorConfig::new()
    }
}

/// A shortcut to one input of one monitor.
#[derive(Debug, Clone, PartialEq, Eq, Hash)]
pub struct Favorite {
    /// The identity of the monitor.
    pub monitor_id: String,
    /// The code of the input.
    pub input_value: u16,
}

impl View for Favorite {
    type V = FavoriteKey;

    open spec fn view(&self) -> FavoriteKey {
        (self.monitor_id@, self.input_value)
    }
}

/// The favorites held by a vector, as pairs.
pub open spec fn favorite_keys(favorites: Seq<Favorite>) -> Seq<FavoriteKey> {
    favorites.map_values(|f: Favorite| f@)
}

/// The identities under which a vector of monitor entries files its tables.
pub open spec fn entry_ids(entries: Seq<(String, MonitorConfig)>) -> Seq<Seq<char>> {
    entries.map_values(|e: (String, MonitorConfig)| e.0@)
}

/// The map that a vector of monitor entries with distinct identities stands
/// for.
pub open spec fn entry_map(entries: Seq<(String, MonitorConfig)>) -> Map<Seq<char>, AliasTable> {
    Map::new(
        |id: Seq<char>| entry_ids(entries).contains(id),
        |id: Seq<char>| entries[entry_ids(entries).index_of(id)].1@,
    )
}

/// The map that alias tables give when they are filed one after the other,
/// each under its identity.
pub open spec fn collected_monitors(entries: Seq<(String, MonitorConfig)>) -> Map<
    Seq<char>,
    AliasTable,
>
    decreases entries.len(),
{
    if entries.len() == 0 {
        Map::empty()
    } else {
        collected_monitors(entries.drop_last()).insert(entries.last().0@, entries.last().1@)
    }
}

/// The favorites that pairs give when they are added one after the other:
/// the first occurrence of each pair, in order.
pub open spec fn collected_favorites(keys: Seq<FavoriteKey>) -> Seq<FavoriteKey>
    decreases keys.len(),
{
    if keys.len() == 0 {
        Seq::empty()
    } else {
        let earlier = collected_favorites(keys.drop_last());
        if earlier.contains(keys.last()) {
            earlier
        } else {
            earlier.push(keys.last())
        }
    }
}

/// The persisted settings: per-monitor input aliases and the favorites.
#[derive(Debug)]
pub struct Config {
    monitors: Vec<(String, MonitorConfig)>,
    favorites: Vec<Favorite>,
}

impl View for Config {
    type V = ConfigView;

    closed spec fn view(&self) -> ConfigView {
        ConfigView {
            monitors: entry_map(self.monitors@),
            favorites: favorite_keys(self.favorites@),
        }
    }
}

impl Config {
    #[verifier::type_invariant]
    spec fn well_formed(&self) -> bool {
        &&& entry_ids(self.monitors@).no_duplicates()
        &&& favorite_keys(self.favorites@).no_duplicates()
    }

    /// A configuration that knows no monitor and has no favorite.
    pub fn new() -> (config: Config)
        ensures
            config@ == ConfigView::empty(),
    {
        let config = Config { monitors: Vec::new(), favorites: Vec::new() };
        assert(config@.monitors =~= Map::empty());
        assert(config@.favorites =~= Seq::empty());
        config
    }

    /// A configuration with the given alias tables and favorites, taken in
    /// order: a later table replaces an earlier one filed under the same
    /// identity, and a favorite that repeats an earlier one is left out.
    pub fn from_parts(monitors: Vec<(String, MonitorConfig)>, favorites: Vec<Favorite>) -> (config:
        Config)
        ensures
            config@.monitors == collected_monitors(monitors@),
            config@.favorites == collected_favorites(favorite_keys(favorites@)),
    {
        let mut config = Config::new();
        let ghost all_monitors = monitors@;
        for entry in it: monitors
            invariant
                all_monitors == monitors@,
                config@.monitors == collected_monitors(all_monitors.take(it.index() as int)),
                config@.favorites == Seq::<FavoriteKey>::empty(),
        {
            assert(all_monitors.take(it.index() + 1).drop_last() =~= all_monitors.take(
                it.index() as int,
            ));
            assert(all_monitors.take(it.index() + 1).last() == entry);
            config.insert_monitor(entry.0, entry.1);
        }
        assert(all_monitors.take(all_monitors.len() as int) =~= all_monitors);
        let ghost keys = favorite_keys(favorites@);
        let mut i: usize = 0;
        while i < favorites.len()
            invariant
                i <= favorites.len(),
                keys == favorite_keys(favorites@),
                config@.monitors == collected_monitors(all_monitors),
                config@.favorites == collected_favorites(keys.take(i as int)),
            decreases favorites.len() - i,
        {
            assert(keys.take(i + 1).drop_last() =~= keys.take(i as int));
            assert(keys.take(i + 1).last() == (favorites[i as int].monitor_id@, favorites[i as int].input_value));
            config.add_favorite(favorites[i].monitor_id.as_str(), favorites[i].input_value);
            i += 1;
        }
        assert(keys.take(i as int) =~= keys);
        config
    }

    /// Files `table` as the alias table of `monitor_id`, in place of any
    /// table the monitor had.
    pub fn insert_monitor(&mut self, monitor_id: String, table: MonitorConfig)
        ensures
            final(self)@ == old(self)@.with_monitor(monitor_id@, table@),
    {
        proof {
            use_type_invariant(&*self);
        }
        let mut monitors: Vec<(String, MonitorConfig)> = Vec::new();
        std::mem::swap(&mut self.monitors, &mut monitors);
        let ghost before = monitors@;
        match find_entry(&monitors, monitor_id.as_str()) {
            Some(i) => {
                monitors[i] = (monitor_id, table);
                proof {
                    lemma_entry_map_update(before, monitors@, i as int);
                }
            },
            None => {
                let entry = (monitor_id, table);
                proof {
                    lemma_entry_map_push(before, entry);
                }
                monitors.push(entry);
            },
        }
        self.monitors = monitors;
    }

    /// The alias tables, each with the identity of its monitor. No identity
    /// occurs twice.
    pub fn monitors(&self) -> (entries: &[(String, MonitorConfig)])
        ensures
            entry_ids(entries@).no_duplicates(),
            entry_map(entries@) == self@.monitors,
    {
        proof {
            use_type_invariant(self);
        }
        self.monitors.as_slice()
    }

    /// Whether the pair is among the favorites.
    pub fn is_favorite(&self, monitor_id: &str, input_value: u16) -> (found: bool)
        ensures
            found == self@.is_favorite(monitor_id@, input_value),
    {
        find_favorite(&self.favorites, monitor_id, input_value).is_some()
    }

    /// Makes the pair a favorite. A pair that is one already stays where it
    /// is; a new one goes to the end.
    pub fn add_favorite(&mut self, monitor_id: &str, input_value: u16)
        ensures
            final(self)@ == old(self)@.with_favorite(monitor_id@, input_value),
    {
        if !self.is_favorite(monitor_id, input_value) {
            proof {
                use_type_invariant(&*self);
                lemma_push_keeps_distinct(
                    favorite_keys(self.favorites@),
                    (monitor_id@, input_value),
                );
            }
            let favorite = Favorite { monitor_id: monitor_id.to_owned(), input_value };
            let mut favorites: Vec<Favorite> = Vec::new();
            std::mem::swap(&mut self.favorites, &mut favorites);
            assert(favorite_keys(favorites@.push(favorite)) =~= favorite_keys(favorites@).push(
                favorite@,
            ));
            favorites.push(favorite);
            self.favorites = favorites;
        }
    }

    /// Takes the pair from the favorites. Nothing changes where it is not
    /// among them.
    pub fn remove_favorite(&mut self, monitor_id: &str, input_value: u16)
        ensures
            final(self)@ == old(self)@.without_favorite(monitor_id@, input_value),
    {
        proof {
            use_type_invariant(&*self);
        }
        let ghost keys = favorite_keys(self.favorites@);
        match find_favorite(&self.favorites, monitor_id, input_value) {
            Some(i) => {
                proof {
                    lemma_filter_drops_the_one(keys, i as int);
                    lemma_remove_keeps_distinct(keys, i as int);
                }
                let mut favorites: Vec<Favorite> = Vec::new();
                std::mem::swap(&mut self.favorites, &mut favorites);
                assert(favorite_keys(favorites@.remove(i as int)) =~= keys.remove(i as int));
                favorites.remove(i);
                self.favorites = favorites;
            },
            None => {
                proof {
                    lemma_filter_keeps_all(keys, (monitor_id@, input_value));
                }
            },
        }
    }

    /// The alias of an input of a monitor, if one is set.
    pub fn get_alias(&self, monitor_id: &str, input_value: u16) -> (alias: Option<&str>)
        ensures
            match alias {
                Some(text) => self@.alias(monitor_id@, input_value) == Some(text@),
                None => self@.alias(monitor_id@, input_value) is None,
            },
    {
        proof {
            use_type_invariant(self);
        }
        match find_entry(&self.monitors, monitor_id) {
            Some(i) => {
                proof {
                    lemma_entry_map_at(self.monitors@, i as int);
                }
                match self.monitors[i].1.input_aliases.get(&input_value) {
                    Some(text) => Some(text.as_str()),
                    None => None,
                }
            },
            None => None,
        }
    }

    /// Sets the alias of an input of a monitor, in place of any earlier one.
    /// The alias is stored as given, an empty one too.
    pub fn set_alias(&mut self, monitor_id: &str, input_value: u16, alias: String)
        ensures
            final(self)@ == old(self)@.with_alias(monitor_id@, input_value, alias@),
    {
        proof {
            use_type_invariant(&*self);
        }
        let mut monitors: Vec<(String, MonitorConfig)> = Vec::new();
        std::mem::swap(&mut self.monitors, &mut monitors);
        let ghost before = monitors@;
        match find_entry(&monitors, monitor_id) {
            Some(i) => {
                monitors[i].1.input_aliases.insert(input_value, alias);
                proof {
                    lemma_entry_map_at(before, i as int);
                    lemma_entry_map_update(before, monitors@, i as int);
                    assert(monitors@[i as int].1@ =~= before[i as int].1@.insert(input_value, alias@));
                }
            },
            None => {
                let mut table = MonitorConfig::new();
                table.input_aliases.insert(input_value, alias);
                let entry = (monitor_id.to_owned(), table);
                proof {
                    lemma_entry_map_push(before, entry);
                    assert(entry.1@ =~= AliasTable::empty().insert(input_value, alias@));
                }
                monitors.push(entry);
            },
        }
        self.monitors = monitors;
    }

    /// Takes the alias from an input of a monitor. Nothing changes where the
    /// monitor has no table.
    pub fn remove_alias(&mut self, monitor_id: &str, input_value: u16)
        ensures
            final(self)@ == old(self)@.without_alias(monitor_id@, input_value),
    {
        proof {
            use_type_invariant(&*self);
        }
        let mut monitors: Vec<(String, MonitorConfig)> = Vec::new();
        std::mem::swap(&mut self.monitors, &mut monitors);
        let ghost before = monitors@;
        match find_entry(&monitors, monitor_id) {
            Some(i) => {
                monitors[i].1.input_aliases.remove(&input_value);
                proof {
                    lemma_entry_map_at(before, i as int);
                    lemma_entry_map_update(before, monitors@, i as int);
                    assert(monitors@[i as int].1@ =~= before[i as int].1@.remove(input_value));
                }
            },
            None => {},
        }
        self.monitors = monitors;
    }

    /// The favorites, oldest first.
    pub fn get_favorites(&self) -> (favorites: &[Favorite])
        ensures
            favorite_keys(favorites@) == self@.favorites,
            favorite_keys(favorites@).no_duplicates(),
    {
        proof {
            use_type_invariant(self);
        }
        self.favorites.as_slice()
    }
}

impl Default for Config {
    /// A configuration that knows no monitor and has no favorite.
    fn default() -> (config: Config)
        ensures
            config@ == ConfigView::empty(),
    {
        Config::new()
    }
}

impl Clone for Config {
    /// A configuration with the same content.
    fn clone(&self) -> (copy: Config)
        ensures
            copy@ == self@,
    {
        proof {
            use_type_invariant(self);
        }
        let mut monitors: Vec<(String, MonitorConfig)> = Vec::new();
        let mut i: usize = 0;
        while i < self.monitors.len()
            invariant
                i <= self.monitors.len(),
                monitors@.len() == i,
                forall|j: int|
                    0 <= j < i ==> monitors@[j].0@ == self.monitors@[j].0@ && monitors@[j].1@
                        == self.monitors@[j].1@,
            decreases self.monitors.len() - i,
        {
            let id = self.monitors[i].0.clone();
            let table = MonitorConfig { input_aliases: self.monitors[i].1.input_aliases.clone() };
            assert(table@ =~= self.monitors@[i as int].1@);
            monitors.push((id, table));
            i += 1;
        }
        let mut favorites: Vec<Favorite> = Vec::new();
        let mut k: usize = 0;
        while k < self.favorites.len()
            invariant
                k <= self.favorites.len(),
                favorites@.len() == k,
                forall|j: int| 0 <= j < k ==> favorites@[j]@ == self.favorites@[j]@,
            decreases self.favorites.len() - k,
        {
            favorites.push(
                Favorite {
                    monitor_id: self.favorites[k].monitor_id.clone(),
                    input_value: self.favorites[k].input_value,
                },
            );
            k += 1;
        }
        proof {
            assert(entry_ids(monitors@) =~= entry_ids(self.monitors@));
            assert(favorite_keys(favorites@) =~= favorite_keys(self.favorites@));
            lemma_entry_map_same(self.monitors@, monitors@);
        }
        Config { monitors, favorites }
    }
}

/// The position of the entry filed under `monitor_id`, if there is one.
fn find_entry(entries: &Vec<(String, MonitorConfig)>, monitor_id: &str) -> (position: Option<usize>)
    ensures
        match position {
            Some(i) => i < entries.len() && entry_ids(entries@)[i as int] == monitor_id@,
            None => !entry_ids(entries@).contains(monitor_id@),
        },
{
    let wanted = monitor_id.to_owned();
    let mut i: usize = 0;
    while i < entries.len()
        invariant
            i <= entries.len(),
            wanted@ == monitor_id@,
            forall|j: int| 0 <= j < i ==> entry_ids(entries@)[j] != monitor_id@,
        decreases entries.len() - i,
    {
        if entries[i].0 == wanted {
            return Some(i);
        }
        i += 1;
    }
    None
}

/// An alias that was set is the alias that is read, and an alias that was
/// removed is no longer read, whatever the configuration held before.
pub proof fn lemma_alias_round_trip(
    c: ConfigView,
    monitor_id: Seq<char>,
    input_value: u16,
    alias: Seq<char>,
)
    ensures
        c.with_alias(monitor_id, input_value, alias).alias(monitor_id, input_value) == Some(alias),
        c.without_alias(monitor_id, input_value).alias(monitor_id, input_value) is None,
        c.with_alias(monitor_id, input_value, alias).without_alias(monitor_id, input_value).alias(
            monitor_id,
            input_value,
        ) is None,
{
}

/// Setting or removing the alias of one input leaves the alias of every other
/// input of every monitor, and the favorites, as they were.
pub proof fn lemma_alias_frame(
    c: ConfigView,
    monitor_id: Seq<char>,
    input_value: u16,
    alias: Seq<char>,
    other_monitor: Seq<char>,
    other_input: u16,
)
    requires
        (other_monitor, other_input) != (monitor_id, input_value),
    ensures
        c.with_alias(monitor_id, input_value, alias).alias(other_monitor, other_input) == c.alias(
            other_monitor,
            other_input,
        ),
        c.without_alias(monitor_id, input_value).alias(other_monitor, other_input) == c.alias(
            other_monitor,
            other_input,
        ),
        c.with_alias(monitor_id, input_value, alias).favorites == c.favorites,
        c.without_alias(monitor_id, input_value).favorites == c.favorites,
{
}

/// Adding a favorite a second time changes nothing: among favorites without
/// repetition the pair then occurs exactly once, and the favorites are still
/// without repetition.
pub proof fn lemma_add_favorite_idempotent(c: ConfigView, monitor_id: Seq<char>, input_value: u16)
    requires
        c.favorites.no_duplicates(),
    ensures
        c.with_favorite(monitor_id, input_value).with_favorite(monitor_id, input_value)
            == c.with_favorite(monitor_id, input_value),
        c.with_favorite(monitor_id, input_value).is_favorite(monitor_id, input_value),
        c.with_favorite(monitor_id, input_value).favorites.no_duplicates(),
        c.with_favorite(monitor_id, input_value).with_favorite(
            monitor_id,
            input_value,
        ).favorite_count(monitor_id, input_value) == 1,
{
    let key = (monitor_id, input_value);
    let once = c.with_favorite(monitor_id, input_value);
    if !c.is_favorite(monitor_id, input_value) {
        lemma_push_keeps_distinct(c.favorites, key);
        assert(once.favorites[c.favorites.len() as int] == key);
    }
    assert(once.favorites.contains(key));
    once.favorites.lemma_multiset_has_no_duplicates();
    once.favorites.to_multiset_ensures();
}

/// Removing a pair that is no favorite leaves the configuration as it was.
pub proof fn lemma_remove_favorite_of_non_member(
    c: ConfigView,
    monitor_id: Seq<char>,
    input_value: u16,
)
    requires
        !c.is_favorite(monitor_id, input_value),
    ensures
        c.without_favorite(monitor_id, input_value) == c,
{
    lemma_filter_keeps_all(c.favorites, (monitor_id, input_value));
}

/// After a pair is removed it is no favorite, every other favorite still is
/// one, and nothing has become a favorite.
pub proof fn lemma_remove_favorite_removes(
    c: ConfigView,
    monitor_id: Seq<char>,
    input_value: u16,
    other_monitor: Seq<char>,
    other_input: u16,
)
    ensures
        !c.without_favorite(monitor_id, input_value).is_favorite(monitor_id, input_value),
        (other_monitor, other_input) != (monitor_id, input_value) ==> (c.without_favorite(
            monitor_id,
            input_value,
        ).is_favorite(other_monitor, other_input) <==> c.is_favorite(other_monitor, other_input)),
        c.without_favorite(monitor_id, input_value).monitors == c.monitors,
{
    let keep = other_than((monitor_id, input_value));
    let kept = c.favorites.filter(keep);
    let other = (other_monitor, other_input);
    if kept.contains((monitor_id, input_value)) {
        let j = choose|j: int| 0 <= j < kept.len() && kept[j] == (monitor_id, input_value);
        c.favorites.lemma_filter_pred(keep, j);
    }
    if other != (monitor_id, input_value) && c.favorites.contains(other) {
        let i = choose|i: int| 0 <= i < c.favorites.len() && c.favorites[i] == other;
        c.favorites.lemma_filter_contains(keep, i);
    }
    if kept.contains(other) {
        c.favorites.lemma_filter_contains_rev(keep, other);
    }
}

/// Alias tables with distinct identities and favorites without repetition
/// are collected into exactly what they hold: a configuration that is taken
/// apart by [`Config::monitors`] and [`Config::get_favorites`] and put
/// together by [`Config::from_parts`] has the content it had.
pub proof fn lemma_parts_round_trip(
    entries: Seq<(String, MonitorConfig)>,
    keys: Seq<FavoriteKey>,
)
    requires
        entry_ids(entries).no_duplicates(),
        keys.no_duplicates(),
    ensures
        collected_monitors(entries) == entry_map(entries),
        collected_favorites(keys) == keys,
    decreases entries.len() + keys.len(),
{
    if entries.len() > 0 {
        let front = entries.drop_last();
        assert(entry_ids(front) =~= entry_ids(entries).drop_last());
        lemma_parts_round_trip(front, Seq::empty());
        assert(!entry_ids(front).contains(entries.last().0@)) by {
            if entry_ids(front).contains(entries.last().0@) {
                let k = choose|k: int|
                    0 <= k < entry_ids(front).len() && entry_ids(front)[k] == entries.last().0@;
                assert(entry_ids(entries)[k] == entry_ids(entries)[entries.len() - 1]);
            }
        }
        lemma_entry_map_push(front, entries.last());
        assert(front.push(entries.last()) =~= entries);
    } else {
        assert(entry_map(entries) =~= Map::empty());
    }
    if keys.len() > 0 {
        let front = keys.drop_last();
        lemma_parts_round_trip(Seq::empty(), front);
        assert(!front.contains(keys.last())) by {
            if front.contains(keys.last()) {
                let k = choose|k: int| 0 <= k < front.len() && front[k] == keys.last();
                assert(keys[k] == keys[keys.len() - 1]);
            }
        }
        assert(front.push(keys.last()) =~= keys);
    }
}

/// The position of the pair among the favorites, if it is one.
fn find_favorite(favorites: &Vec<Favorite>, monitor_id: &str, input_value: u16) -> (position: Option<
    usize,
>)
    ensures
        match position {
            Some(i) => i < favorites.len() && favorite_keys(favorites@)[i as int] == (
                monitor_id@,
                input_value,
            ),
            None => !favorite_keys(favorites@).contains((monitor_id@, input_value)),
        },
{
    let wanted = monitor_id.to_owned();
    let mut i: usize = 0;
    while i < favorites.len()
        invariant
            i <= favorites.len(),
            wanted@ == monitor_id@,
            forall|j: int| 0 <= j < i ==> favorite_keys(favorites@)[j] != (monitor_id@, input_value),
        decreases favorites.len() - i,
    {
        if favorites[i].input_value == input_value && favorites[i].monitor_id == wanted {
            return Some(i);
        }
        i += 1;
    }
    None
}

/// Among entries with distinct identities, the map files each entry's table
/// under the entry's identity.
proof fn lemma_entry_map_at(entries: Seq<(String, MonitorConfig)>, i: int)
    requires
        entry_ids(entries).no_duplicates(),
        0 <= i < entries.len(),
    ensures
        entry_map(entries).contains_key(entries[i].0@),
        entry_map(entries)[entries[i].0@] == entries[i].1@,
{
    let ids = entry_ids(entries);
    assert(ids[i] == entries[i].0@);
    let j = ids.index_of(ids[i]);
    assert(0 <= j < ids.len() && ids[j] == ids[i]);
}

/// Entries that agree in identities and tables stand for the same map.
proof fn lemma_entry_map_same(a: Seq<(String, MonitorConfig)>, b: Seq<(String, MonitorConfig)>)
    requires
        a.len() == b.len(),
        forall|j: int| 0 <= j < a.len() ==> a[j].0@ == b[j].0@ && a[j].1@ == b[j].1@,
    ensures
        entry_map(a) == entry_map(b),
{
    assert(entry_ids(a) =~= entry_ids(b));
    let ids = entry_ids(a);
    assert forall|id: Seq<char>| ids.contains(id) implies #[trigger] entry_map(a)[id] == entry_map(
        b,
    )[id] by {
        let j = ids.index_of(id);
        assert(0 <= j < ids.len() && ids[j] == id);
    }
    assert(entry_map(a) =~= entry_map(b));
}

/// Changing the table of one entry changes the map at that entry's identity
/// and nowhere else, and keeps the identities distinct.
proof fn lemma_entry_map_update(
    before: Seq<(String, MonitorConfig)>,
    after: Seq<(String, MonitorConfig)>,
    i: int,
)
    requires
        entry_ids(before).no_duplicates(),
        0 <= i < before.len(),
        after.len() == before.len(),
        after[i].0@ == before[i].0@,
        forall|j: int| 0 <= j < before.len() && j != i ==> after[j] == before[j],
    ensures
        entry_ids(after) == entry_ids(before),
        entry_map(after) == entry_map(before).insert(before[i].0@, after[i].1@),
{
    assert(entry_ids(after) =~= entry_ids(before));
    let ids = entry_ids(before);
    assert forall|id: Seq<char>| ids.contains(id) implies #[trigger] entry_map(after)[id]
        == entry_map(before).insert(before[i].0@, after[i].1@)[id] by {
        let j = ids.index_of(id);
        assert(0 <= j < ids.len() && ids[j] == id);
        assert(ids[i] == before[i].0@);
    }
    assert(ids.contains(ids[i]));
    assert(entry_map(after) =~= entry_map(before).insert(before[i].0@, after[i].1@));
}

/// Appending an entry under an identity that is not yet there adds its table
/// to the map and keeps the identities distinct.
proof fn lemma_entry_map_push(before: Seq<(String, MonitorConfig)>, entry: (String, MonitorConfig))
    requires
        entry_ids(before).no_duplicates(),
        !entry_ids(before).contains(entry.0@),
    ensures
        entry_ids(before.push(entry)).no_duplicates(),
        entry_map(before.push(entry)) == entry_map(before).insert(entry.0@, entry.1@),
{
    let after = before.push(entry);
    let ids = entry_ids(before);
    assert(entry_ids(after) =~= ids.push(entry.0@));
    lemma_push_keeps_distinct(ids, entry.0@);
    let ids_after = entry_ids(after);
    assert forall|id: Seq<char>| ids_after.contains(id) implies #[trigger] entry_map(after)[id]
        == entry_map(before).insert(entry.0@, entry.1@)[id] by {
        let j = ids_after.index_of(id);
        assert(0 <= j < ids_after.len() && ids_after[j] == id);
        if id != entry.0@ {
            assert(j < ids.len());
            assert(ids[j] == id);
            let k = ids.index_of(id);
            assert(0 <= k < ids.len() && ids[k] == id);
            assert(ids_after[k] == id);
        }
    }
    assert forall|id: Seq<char>| ids_after.contains(id) <==> (ids.contains(id) || id == entry.0@) by {
        if ids.contains(id) {
            let k = ids.index_of(id);
            assert(0 <= k < ids.len() && ids[k] == id);
            assert(ids_after[k] == id);
        }
        if id == entry.0@ {
            assert(ids_after[ids.len() as int] == id);
        }
    }
    assert(entry_map(after) =~= entry_map(before).insert(entry.0@, entry.1@));
}

/// Filtering out a value that a sequence does not hold changes nothing.
proof fn lemma_filter_keeps_all(s: Seq<FavoriteKey>, key: FavoriteKey)
    requires
        !s.contains(key),
    ensures
        s.filter(other_than(key)) == s,
    decreases s.len(),
{
    reveal(Seq::filter);
    if s.len() > 0 {
        assert forall|j: int| 0 <= j < s.drop_last().len() implies s.drop_last()[j] != key by {
            assert(s.contains(s[j]));
        }
        lemma_filter_keeps_all(s.drop_last(), key);
        assert(s.contains(s.last()));
        assert(s.drop_last().push(s.last()) =~= s);
    }
}

/// In a sequence without repetition, filtering out the value at one position
/// removes that position and nothing else.
proof fn lemma_filter_drops_the_one(s: Seq<FavoriteKey>, i: int)
    requires
        s.no_duplicates(),
        0 <= i < s.len(),
    ensures
        s.filter(other_than(s[i])) == s.remove(i),
    decreases s.len(),
{
    reveal(Seq::filter);
    let key = s[i];
    let front = s.drop_last();
    if i == s.len() - 1 {
        assert forall|j: int| 0 <= j < front.len() implies front[j] != key by {}
        lemma_filter_keeps_all(front, key);
        assert(s.remove(i) =~= front);
    } else {
        assert(front[i] == key);
        lemma_filter_drops_the_one(front, i);
        assert(front.remove(i).push(s.last()) =~= s.remove(i));
    }
}

/// Removing a position from a sequence without repetition leaves a sequence
/// without repetition.
proof fn lemma_remove_keeps_distinct<T>(s: Seq<T>, i: int)
    requires
        s.no_duplicates(),
        0 <= i < s.len(),
    ensures
        s.remove(i).no_duplicates(),
{
}

/// Appending a value that a sequence without repetition does not hold gives a
/// sequence without repetition.
proof fn lemma_push_keeps_distinct<T>(s: Seq<T>, x: T)
    requires
        s.no_duplicates(),
        !s.contains(x),
    ensures
        s.push(x).no_duplicates(),
{
    assert forall|i: int, j: int| 0 <= i < j < s.push(x).len() implies s.push(x)[i] != s.push(x)[j] by {
        if j == s.len() {
            assert(s.contains(s[i]));
        }
    }
}

} // verus!
