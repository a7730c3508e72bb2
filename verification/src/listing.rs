//! What a view shows: the monitors with their names, the inputs to offer for
//! each, the quick-switch entries that the favorites give, and the text of
//! their labels.
//!
//! Nothing here draws anything. A view asks for entries and labels and puts
//! them into its own widgets.

use crate::config::{Config, ConfigView, FavoriteKey};
use crate::input_source::InputSource;
use crate::monitor::{decimal, decimal_text, identity, DisplayInfo, Monitor, MonitorError};
use vstd::prelude::*;
use vstd::string::StringExecFns;

verus! {

/// What a view keeps of one monitor between two refreshes.
#[derive(Debug, Clone)]
pub struct MonitorData {
    /// The identity of the monitor.
    pub id: String,
    /// The name to show for it.
    pub name: String,
    /// Its position in the enumeration.
    pub index: usize,
    /// The active input, where it could be read.
    pub current_input: Option<InputSource>,
    /// The inputs to offer.
    pub available_inputs: Vec<InputSource>,
}

/// The name to show for a display: its model name, else its manufacturer
/// identifier, else the word Monitor and `number`.
pub open spec fn shown_name(info: DisplayInfo, number: nat) -> Seq<char> {
    match info.model_name {
        Some(model) => model@,
        None => match info.manufacturer_id {
            Some(maker) => maker@,
            None => "Monitor "@ + decimal(number),
        },
    }
}

impl MonitorData {
    /// What a view keeps of `monitor`, from the results of asking it for its
    /// active input and for its inputs. A failed read leaves the active input
    /// unknown, and a failed list leaves nothing to offer. `number` is the
    /// number to name the monitor by where it reports no name.
    pub fn gather(
        monitor: &Monitor,
        number: usize,
        current: Result<InputSource, MonitorError>,
        available: Result<Vec<InputSource>, MonitorError>,
    ) -> (data: MonitorData)
        ensures
            data.id@ == identity(monitor.info, monitor.index as nat),
            data.name@ == shown_name(monitor.info, number as nat),
            data.index == monitor.index,
            data.current_input == match current {
                Ok(input) => Some(input),
                Err(_) => None,
            },
            data.available_inputs@ == match available {
                Ok(list) => list@,
                Err(_) => Seq::empty(),
            },
    {
        let name = match monitor.model_name() {
            Some(model) => model,
            None => match monitor.manufacturer_id() {
                Some(maker) => maker,
                None => String::from_str("Monitor ").concat(
                    decimal_text(number as u64).as_str(),
                ),
            },
        };
        let current_input = match current {
            Ok(input) => Some(input),
            Err(_) => None,
        };
        let available_inputs = match available {
            Ok(list) => list,
            Err(_) => Vec::new(),
        };
        MonitorData { id: monitor.id(), name, index: monitor.index, current_input, available_inputs }
    }
}

/// One input of one monitor, as a view offers it.
#[derive(Debug, Clone)]
pub struct InputEntry {
    /// The position of the monitor in the enumeration.
    pub monitor_index: usize,
    /// The input.
    pub input: InputSource,
    /// The alias of the input, where one is set.
    pub alias: Option<String>,
    /// Whether the input is a favorite.
    pub is_favorite: bool,
    /// Whether the input is the active one.
    pub is_current: bool,
    /// The name shown for the monitor.
    pub monitor_name: String,
}

/// The content of an [`InputEntry`].
pub struct InputEntryView {
    pub monitor_index: usize,
    pub input: InputSource,
    pub alias: Option<Seq<char>>,
    pub is_favorite: bool,
    pub is_current: bool,
    pub monitor_name: Seq<char>,
}

impl View for InputEntry {
    type V = InputEntryView;

    open spec fn view(&self) -> InputEntryView {
        InputEntryView {
            monitor_index: self.monitor_index,
            input: self.input,
            alias: match self.alias {
                Some(text) => Some(text@),
                None => None,
            },
            is_favorite: self.is_favorite,
            is_current: self.is_current,
            monitor_name: self.monitor_name@,
        }
    }
}

/// The contents of a vector of entries.
pub open spec fn entry_views(entries: Seq<InputEntry>) -> Seq<InputEntryView> {
    entries.map_values(|e: InputEntry| e@)
}

/// The entry for `input` on `monitor`: alias and favorite are looked up under
/// the monitor's identity and the code of the input.
pub open spec fn entry_for(config: ConfigView, monitor: MonitorData, input: InputSource)
    -> InputEntryView {
    InputEntryView {
        monitor_index: monitor.index,
        input,
        alias: config.alias(monitor.id@, input.code()),
        is_favorite: config.is_favorite(monitor.id@, input.code()),
        is_current: monitor.current_input == Some(input),
        monitor_name: monitor.name@,
    }
}

/// The entries of one monitor: one for each input it offers, in order.
pub open spec fn entries_of(config: ConfigView, monitor: MonitorData) -> Seq<InputEntryView> {
    monitor.available_inputs@.map_values(|input: InputSource| entry_for(config, monitor, input))
}

/// The position of the first monitor with the given identity.
pub open spec fn first_with_id(monitors: Seq<MonitorData>, id: Seq<char>) -> Option<int>
    decreases monitors.len(),
{
    if monitors.len() == 0 {
        None
    } else {
        match first_with_id(monitors.drop_last(), id) {
            Some(k) => Some(k),
            None => if monitors.last().id@ == id {
                Some(monitors.len() - 1)
            } else {
                None
            },
        }
    }
}

/// The quick-switch entry of a favorite: the entry for the input that the
/// favorite's code decodes to, on the first monitor with the favorite's
/// identity; none where no monitor has that identity.
pub open spec fn quick_entry(config: ConfigView, monitors: Seq<MonitorData>, favorite: FavoriteKey)
    -> Option<InputEntryView> {
    match first_with_id(monitors, favorite.0) {
        Some(k) => Some(entry_for(config, monitors[k], InputSource::decode(favorite.1))),
        None => None,
    }
}

/// The quick-switch entries: those of the favorites, in the order of the
/// favorites.
pub open spec fn quick_entries(config: ConfigView, monitors: Seq<MonitorData>) -> Seq<
    InputEntryView,
> {
    config.favorites.filter_map(|favorite: FavoriteKey| quick_entry(config, monitors, favorite))
}

/// The entry for `input` on `monitor`.
fn make_entry(monitor: &MonitorData, config: &Config, input: InputSource) -> (entry: InputEntry)
    ensures
        entry@ == entry_for(config@, *monitor, input),
{
    let code = input.to_vcp_value();
    let alias = match config.get_alias(monitor.id.as_str(), code) {
        Some(text) => Some(String::from_str(text)),
        None => None,
    };
    InputEntry {
        monitor_index: monitor.index,
        input,
        alias,
        is_favorite: config.is_favorite(monitor.id.as_str(), code),
        is_current: match monitor.current_input {
            Some(current) => current == input,
            None => false,
        },
        monitor_name: monitor.name.clone(),
    }
}

/// The entries of one monitor: one for each input it offers, in order.
pub fn monitor_entries(monitor: &MonitorData, config: &Config) -> (entries: Vec<InputEntry>)
    ensures
        entry_views(entries@) == entries_of(config@, *monitor),
{
    let mut entries: Vec<InputEntry> = Vec::new();
    let mut i: usize = 0;
    while i < monitor.available_inputs.len()
        invariant
            i <= monitor.available_inputs.len(),
            entries@.len() == i,
            forall|j: int|
                0 <= j < i ==> (#[trigger] entries@[j])@ == entry_for(
                    config@,
                    *monitor,
                    monitor.available_inputs@[j],
                ),
        decreases monitor.available_inputs.len() - i,
    {
        entries.push(make_entry(monitor, config, monitor.available_inputs[i]));
        i += 1;
    }
    assert(entry_views(entries@) =~= entries_of(config@, *monitor));
    entries
}

/// The position of the first monitor with the given identity.
fn find_monitor(monitors: &Vec<MonitorData>, id: &str) -> (position: Option<usize>)
    ensures
        match position {
            Some(k) => first_with_id(monitors@, id@) == Some(k as int) && k < monitors@.len(),
            None => first_with_id(monitors@, id@) is None,
        },
{
    let wanted = id.to_owned();
    let mut i: usize = 0;
    while i < monitors.len()
        invariant
            i <= monitors.len(),
            wanted@ == id@,
            first_with_id(monitors@.take(i as int), id@) is None,
        decreases monitors.len() - i,
    {
        assert(monitors@.take(i + 1).drop_last() =~= monitors@.take(i as int));
        if monitors[i].id == wanted {
            proof {
                lemma_first_with_id_stays(monitors@, id@, i as int + 1);
            }
            return Some(i);
        }
        i += 1;
    }
    assert(monitors@.take(i as int) =~= monitors@);
    None
}

/// A monitor found among the first `n` is the one found among all.
proof fn lemma_first_with_id_stays(monitors: Seq<MonitorData>, id: Seq<char>, n: int)
    requires
        0 <= n <= monitors.len(),
        first_with_id(monitors.take(n), id) is Some,
    ensures
        first_with_id(monitors, id) == first_with_id(monitors.take(n), id),
    decreases monitors.len() - n,
{
    if n < monitors.len() {
        assert(monitors.take(n + 1).drop_last() =~= monitors.take(n));
        lemma_first_with_id_stays(monitors, id, n + 1);
    } else {
        assert(monitors.take(n) =~= monitors);
    }
}

/// The quick-switch entries: for each favorite, in order, the entry of its
/// input on the first monitor with its identity. A favorite of a monitor that
/// is not among `monitors` gives no entry.
pub fn quick_switch_entries(monitors: &Vec<MonitorData>, config: &Config) -> (entries: Vec<
    InputEntry,
>)
    ensures
        entry_views(entries@) == quick_entries(config@, monitors@),
{
    let favorites = config.get_favorites();
    let ghost keys = config@.favorites;
    let ghost pick = |favorite: FavoriteKey| quick_entry(config@, monitors@, favorite);
    let mut entries: Vec<InputEntry> = Vec::new();
    let mut i: usize = 0;
    while i < favorites.len()
        invariant
            i <= favorites.len(),
            keys == crate::config::favorite_keys(favorites@),
            pick == |favorite: FavoriteKey| quick_entry(config@, monitors@, favorite),
            entry_views(entries@) == keys.take(i as int).filter_map(pick),
        decreases favorites.len() - i,
    {
        proof {
            keys.lemma_filter_map_take_succ(pick, i as int);
        }
        let input = InputSource::from_vcp_value(favorites[i].input_value);
        match find_monitor(monitors, favorites[i].monitor_id.as_str()) {
            Some(k) => {
                let entry = make_entry(&monitors[k], config, input);
                assert(entry_views(entries@.push(entry)) =~= entry_views(entries@) + seq![entry@]);
                entries.push(entry);
            },
            None => {},
        }
        i += 1;
    }
    assert(keys.take(i as int) =~= keys);
    entries
}

/// The mark put before the name of a favorite.
pub open spec fn star() -> Seq<char> {
    "\u{2b50} "@
}

/// The mark put behind the label of the active input.
pub open spec fn check() -> Seq<char> {
    " \u{2713}"@
}

impl InputEntryView {
    /// The name of the input: its alias where one is set, else its label.
    pub open spec fn display_name(self) -> Seq<char> {
        match self.alias {
            Some(text) => text,
            None => self.input.label(),
        }
    }

    /// The name of the input, with the star before it where it is a favorite.
    pub open spec fn starred_name(self) -> Seq<char> {
        if self.is_favorite {
            star() + self.display_name()
        } else {
            self.display_name()
        }
    }

    /// The label in a menu, under the heading of the monitor.
    pub open spec fn menu_label(self) -> Seq<char> {
        if self.is_current {
            "  "@ + self.starred_name() + check()
        } else {
            "  "@ + self.starred_name()
        }
    }

    /// The label in a menu, among the quick-switch entries.
    pub open spec fn quick_menu_label(self) -> Seq<char> {
        let plain = "  "@ + self.starred_name() + " ("@ + self.monitor_name + ")"@;
        if self.is_current {
            plain + check()
        } else {
            plain
        }
    }

    /// The label in a list, among the quick-switch entries.
    pub open spec fn quick_list_label(self) -> Seq<char> {
        self.display_name() + " \u{2192} "@ + self.monitor_name
    }

    /// The label in the settings of a monitor: the mark of the active input
    /// or two blanks, and the label of the input.
    pub open spec fn settings_label(self) -> Seq<char> {
        if self.is_current {
            "\u{2713} "@ + self.input.label()
        } else {
            "  "@ + self.input.label()
        }
    }
}

impl InputEntry {
    /// The name of the input: its alias where one is set, else its label.
    pub fn display_name(&self) -> (text: String)
        ensures
            text@ == self@.display_name(),
    {
        match &self.alias {
            Some(alias) => alias.clone(),
            None => String::from_str(self.input.name()),
        }
    }

    /// The label in a list, under the heading of the monitor: the name of the
    /// input, with the star before it where it is a favorite.
    pub fn list_label(&self) -> (text: String)
        ensures
            text@ == self@.starred_name(),
    {
        if self.is_favorite {
            String::from_str("\u{2b50} ").concat(self.display_name().as_str())
        } else {
            self.display_name()
        }
    }

    /// The label in a menu, under the heading of the monitor.
    pub fn menu_label(&self) -> (text: String)
        ensures
            text@ == self@.menu_label(),
    {
        let plain = String::from_str("  ").concat(self.list_label().as_str());
        if self.is_current {
            plain.concat(" \u{2713}")
        } else {
            plain
        }
    }

    /// The label in a menu, among the quick-switch entries.
    pub fn quick_menu_label(&self) -> (text: String)
        ensures
            text@ == self@.quick_menu_label(),
    {
        let plain = String::from_str("  ").concat(self.list_label().as_str()).concat(" (").concat(
            self.monitor_name.as_str(),
        ).concat(")");
        if self.is_current {
            plain.concat(" \u{2713}")
        } else {
            plain
        }
    }

    /// The label in a list, among the quick-switch entries.
    pub fn quick_list_label(&self) -> (text: String)
        ensures
            text@ == self@.quick_list_label(),
    {
        self.display_name().concat(" \u{2192} ").concat(self.monitor_name.as_str())
    }

    /// The label in the settings of a monitor.
    pub fn settings_label(&self) -> (text: String)
        ensures
            text@ == self@.settings_label(),
    {
        if self.is_current {
            String::from_str("\u{2713} ").concat(self.input.name())
        } else {
            String::from_str("  ").concat(self.input.name())
        }
    }
}

/// The configuration after the settings of one input were confirmed: an empty
/// alias takes the input's alias away and any other alias is set, and the
/// input is made a favorite or taken from the favorites as the box is checked
/// or not.
pub open spec fn with_settings(
    config: ConfigView,
    monitor_id: Seq<char>,
    input_value: u16,
    alias: Seq<char>,
    is_favorite: bool,
) -> ConfigView {
    let named = if alias.len() == 0 {
        config.without_alias(monitor_id, input_value)
    } else {
        config.with_alias(monitor_id, input_value, alias)
    };
    if is_favorite {
        named.with_favorite(monitor_id, input_value)
    } else {
        named.without_favorite(monitor_id, input_value)
    }
}

/// Takes the confirmed settings of one input into the configuration. An empty
/// alias stands for no alias.
pub fn apply_settings(
    config: &mut Config,
    monitor_id: &str,
    input: InputSource,
    alias: &str,
    is_favorite: bool,
)
    ensures
        final(config)@ == with_settings(old(config)@, monitor_id@, input.code(), alias@, is_favorite),
{
    let input_value = input.to_vcp_value();
    if alias.is_empty() {
        config.remove_alias(monitor_id, input_value);
    } else {
        config.set_alias(monitor_id, input_value, String::from_str(alias));
    }
    if is_favorite {
        config.add_favorite(monitor_id, input_value);
    } else {
        config.remove_favorite(monitor_id, input_value);
    }
}

} // verus!
