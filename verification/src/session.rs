//! The index-addressed surface for callers in another language.
//!
//! A [`Session`] caches the monitors of the last enumeration and a
//! configuration. Monitors are addressed by their position in that
//! enumeration; what is handed out is flattened into records and lists with
//! explicit counts; and every failure collapses into a sentinel: an absent
//! value, `false`, or [`InputSource::Unknown`].
//!
//! The session performs no exchange with a display and touches no file. It
//! says what is to be exchanged, and takes the outcome as an argument.

use crate::config::{favorite_keys, Config, ConfigView, FavoriteKey};
use crate::input_source::InputSource;
use crate::monitor::{
    common_inputs, identity, text_of, DisplayInfo, Monitor, VcpValue, VcpWrite, VCP_INPUT_SELECT,
};
use vstd::prelude::*;
use vstd::string::StringExecFns;

verus! {

/// The flat record of one monitor.
#[derive(Debug, Clone)]
pub struct MonitorInfo {
    /// The identity of the monitor.
    pub id: String,
    /// The model name, absent where the display reported none.
    pub model_name: Option<String>,
    /// The manufacturer identifier, absent where the display reported none.
    pub manufacturer_id: Option<String>,
}

/// The monitors of an enumeration, in order, with their number.
#[derive(Debug, Clone)]
pub struct MonitorList {
    /// One record for each monitor.
    pub monitors: Vec<MonitorInfo>,
    /// The number of records.
    pub count: usize,
}

/// The inputs offered for a monitor, with their number. The list is absent
/// where the request failed, and the number is then zero.
#[derive(Debug, Clone)]
pub struct InputSourceList {
    /// The inputs, in the order to offer them.
    pub inputs: Option<Vec<InputSource>>,
    /// The number of inputs.
    pub count: usize,
}

/// The flat record of one favorite.
#[derive(Debug, Clone)]
pub struct FavoriteInfo {
    /// The identity of the monitor.
    pub monitor_id: String,
    /// The code of the input.
    pub input_value: u16,
}

/// The favorites, oldest first, with their number.
#[derive(Debug, Clone)]
pub struct FavoriteList {
    /// One record for each favorite.
    pub favorites: Vec<FavoriteInfo>,
    /// The number of records.
    pub count: usize,
}

/// The favorites that a list of records holds, as pairs.
pub open spec fn record_keys(records: Seq<FavoriteInfo>) -> Seq<FavoriteKey> {
    records.map_values(|r: FavoriteInfo| (r.monitor_id@, r.input_value))
}

/// The content of a session.
pub struct SessionView {
    /// The monitors of the last enumeration, by position.
    pub monitors: Seq<Monitor>,
    /// The content of the cached configuration.
    pub config: ConfigView,
}

impl SessionView {
    /// Whether `index` is a position of the last enumeration.
    pub open spec fn in_range(self, index: usize) -> bool {
        index < self.monitors.len()
    }
}

/// The input that a read of the active input reports across the boundary: the
/// decoded answer where the position is valid and the display answered, and
/// `Unknown` otherwise.
pub open spec fn current_input_or_unknown(
    in_range: bool,
    reply: Option<Result<VcpValue, String>>,
) -> InputSource {
    if in_range {
        match reply {
            Some(Ok(answer)) => InputSource::decode(answer.combined() as u16),
            _ => InputSource::Unknown,
        }
    } else {
        InputSource::Unknown
    }
}

/// The cached state behind the boundary: the monitors of the last
/// enumeration and a configuration.
#[derive(Debug)]
pub struct Session {
    monitors: Vec<Monitor>,
    config: Config,
}

impl View for Session {
    type V = SessionView;

    closed spec fn view(&self) -> SessionView {
        SessionView { monitors: self.monitors@, config: self.config@ }
    }
}

impl Session {
    /// A session that has not enumerated yet, with `config` as its
    /// configuration.
    pub fn new(config: Config) -> (session: Session)
        ensures
            session@.monitors.len() == 0,
            session@.config == config@,
    {
        Session { monitors: Vec::new(), config }
    }

    /// Takes the displays of a fresh scan as the new enumeration and hands
    /// out their records. Positions of an earlier enumeration lose their
    /// meaning: from now on a position addresses the display that the new
    /// scan lists there.
    pub fn monitor_enumerate(&mut self, displays: Vec<DisplayInfo>) -> (list: MonitorList)
        ensures
            final(self)@.config == old(self)@.config,
            final(self)@.monitors.len() == displays@.len(),
            forall|i: int|
                0 <= i < displays@.len() ==> (#[trigger] final(self)@.monitors[i]).info
                    == displays@[i] && final(self)@.monitors[i].index == i,
            list.count == displays@.len(),
            list.monitors@.len() == displays@.len(),
            forall|i: int|
                0 <= i < displays@.len() ==> {
                    &&& (#[trigger] list.monitors@[i]).id@ == identity(displays@[i], i as nat)
                    &&& text_of(list.monitors@[i].model_name) == text_of(displays@[i].model_name)
                    &&& text_of(list.monitors@[i].manufacturer_id) == text_of(
                        displays@[i].manufacturer_id,
                    )
                },
    {
        let monitors = Monitor::enumerate(displays);
        let mut records: Vec<MonitorInfo> = Vec::new();
        let mut i: usize = 0;
        while i < monitors.len()
            invariant
                i <= monitors.len(),
                monitors@.len() == displays@.len(),
                records@.len() == i,
                forall|j: int|
                    0 <= j < monitors@.len() ==> (#[trigger] monitors@[j]).info == displays@[j]
                        && monitors@[j].index == j,
                forall|j: int|
                    0 <= j < i ==> {
                        &&& (#[trigger] records@[j]).id@ == identity(displays@[j], j as nat)
                        &&& text_of(records@[j].model_name) == text_of(displays@[j].model_name)
                        &&& text_of(records@[j].manufacturer_id) == text_of(
                            displays@[j].manufacturer_id,
                        )
                    },
            decreases monitors.len() - i,
        {
            let record = MonitorInfo {
                id: monitors[i].id(),
                model_name: monitors[i].model_name(),
                manufacturer_id: monitors[i].manufacturer_id(),
            };
            records.push(record);
            i += 1;
        }
        let count = records.len();
        self.monitors = monitors;
        MonitorList { monitors: records, count }
    }

    /// The number of monitors in the last enumeration.
    pub fn monitor_count(&self) -> (count: usize)
        ensures
            count == self@.monitors.len(),
    {
        self.monitors.len()
    }

    /// The monitor at a position of the last enumeration.
    pub fn monitor(&self, index: usize) -> (found: Option<&Monitor>)
        ensures
            match found {
                Some(monitor) => self@.in_range(index) && *monitor == self@.monitors[index as int],
                None => !self@.in_range(index),
            },
    {
        if index < self.monitors.len() {
            Some(&self.monitors[index])
        } else {
            None
        }
    }

    /// The register to read for the active input of the monitor at `index`,
    /// or nothing where `index` is no position of the last enumeration: no
    /// display is then to be asked.
    pub fn current_input_request(&self, index: usize) -> (feature: Option<u8>)
        ensures
            feature == if self@.in_range(index) {
                Some(VCP_INPUT_SELECT)
            } else {
                None
            },
    {
        if index < self.monitors.len() {
            Some(VCP_INPUT_SELECT)
        } else {
            None
        }
    }

    /// The active input of the monitor at `index`, from the display's answer
    /// to the read that [`Session::current_input_request`] asked for; `reply`
    /// is absent where nothing was read. A position out of range, a missing
    /// answer and a failed exchange all give `Unknown`.
    pub fn monitor_get_current_input(
        &self,
        index: usize,
        reply: Option<Result<VcpValue, String>>,
    ) -> (current: InputSource)
        ensures
            current == current_input_or_unknown(self@.in_range(index), reply),
    {
        if index >= self.monitors.len() {
            return InputSource::Unknown;
        }
        match reply {
            Some(answer) => match self.monitors[index].get_current_input(answer) {
                Ok(input) => input,
                Err(_) => InputSource::Unknown,
            },
            None => InputSource::Unknown,
        }
    }

    /// The write that makes `input` the active input of the monitor at
    /// `index`, or nothing where `index` is no position of the last
    /// enumeration: no display is then to be written to.
    pub fn set_input_request(&self, index: usize, input: InputSource) -> (write: Option<VcpWrite>)
        ensures
            write == if self@.in_range(index) {
                Some(VcpWrite { feature: VCP_INPUT_SELECT, value: input.code() })
            } else {
                None
            },
    {
        if index < self.monitors.len() {
            Some(self.monitors[index].input_select_write(input))
        } else {
            None
        }
    }

    /// Whether the input of the monitor at `index` was switched, from the
    /// outcome of the write that [`Session::set_input_request`] asked for;
    /// `outcome` is absent where nothing was written. Only an acknowledged
    /// write to a position in range counts.
    pub fn monitor_set_input(&self, index: usize, outcome: Option<Result<(), String>>) -> (done:
        bool)
        ensures
            done == (self@.in_range(index) && outcome matches Some(Ok(_))),
    {
        if index >= self.monitors.len() {
            return false;
        }
        match outcome {
            Some(result) => self.monitors[index].set_input(result).is_ok(),
            None => false,
        }
    }

    /// The inputs to offer for the monitor at `index`: the common six for a
    /// position in range, and an absent list with count zero otherwise.
    pub fn monitor_get_available_inputs(&self, index: usize) -> (list: InputSourceList)
        ensures
            self@.in_range(index) ==> (list.inputs matches Some(inputs) && inputs@
                == common_inputs() && list.count == 6),
            !self@.in_range(index) ==> (list.inputs is None && list.count == 0),
    {
        if index >= self.monitors.len() {
            return InputSourceList { inputs: None, count: 0 };
        }
        match self.monitors[index].get_available_inputs() {
            Ok(inputs) => {
                let count = inputs.len();
                InputSourceList { inputs: Some(inputs), count }
            },
            Err(_) => InputSourceList { inputs: None, count: 0 },
        }
    }

    /// The cached configuration.
    pub fn config(&self) -> (config: &Config)
        ensures
            config@ == self@.config,
    {
        &self.config
    }

    /// Replaces the cached configuration; the enumeration stays.
    pub fn config_reload(&mut self, config: Config)
        ensures
            final(self)@.config == config@,
            final(self)@.monitors == old(self)@.monitors,
    {
        self.config = config;
    }

    /// A copy of the alias of an input of a monitor. Absent where no alias is
    /// set, and where the caller gave no monitor identity.
    pub fn config_get_alias(&self, monitor_id: Option<&str>, input_value: u16) -> (alias: Option<
        String,
    >)
        ensures
            text_of(alias) == match monitor_id {
                Some(id) => self@.config.alias(id@, input_value),
                None => None,
            },
    {
        match monitor_id {
            Some(id) => match self.config.get_alias(id, input_value) {
                Some(text) => Some(String::from_str(text)),
                None => None,
            },
            None => None,
        }
    }

    /// Sets the alias of an input of a monitor. Returns whether the
    /// configuration took the alias and is to be saved: that is so exactly
    /// where the caller gave both a monitor identity and an alias.
    pub fn config_set_alias(
        &mut self,
        monitor_id: Option<&str>,
        input_value: u16,
        alias: Option<&str>,
    ) -> (applied: bool)
        ensures
            final(self)@.monitors == old(self)@.monitors,
            applied == (monitor_id is Some && alias is Some),
            final(self)@.config == match (monitor_id, alias) {
                (Some(id), Some(text)) => old(self)@.config.with_alias(id@, input_value, text@),
                _ => old(self)@.config,
            },
    {
        match (monitor_id, alias) {
            (Some(id), Some(text)) => {
                self.config.set_alias(id, input_value, String::from_str(text));
                true
            },
            _ => false,
        }
    }

    /// Takes the alias from an input of a monitor. Returns whether the
    /// configuration was asked and is to be saved: that is so exactly where
    /// the caller gave a monitor identity.
    pub fn config_remove_alias(&mut self, monitor_id: Option<&str>, input_value: u16) -> (applied:
        bool)
        ensures
            final(self)@.monitors == old(self)@.monitors,
            applied == monitor_id is Some,
            final(self)@.config == match monitor_id {
                Some(id) => old(self)@.config.without_alias(id@, input_value),
                None => old(self)@.config,
            },
    {
        match monitor_id {
            Some(id) => {
                self.config.remove_alias(id, input_value);
                true
            },
            None => false,
        }
    }

    /// Whether the pair is a favorite; `false` where the caller gave no
    /// monitor identity.
    pub fn config_is_favorite(&self, monitor_id: Option<&str>, input_value: u16) -> (found: bool)
        ensures
            found == match monitor_id {
                Some(id) => self@.config.is_favorite(id@, input_value),
                None => false,
            },
    {
        match monitor_id {
            Some(id) => self.config.is_favorite(id, input_value),
            None => false,
        }
    }

    /// Makes the pair a favorite. Returns whether the configuration was asked
    /// and is to be saved: that is so exactly where the caller gave a monitor
    /// identity.
    pub fn config_add_favorite(&mut self, monitor_id: Option<&str>, input_value: u16) -> (applied:
        bool)
        ensures
            final(self)@.monitors == old(self)@.monitors,
            applied == monitor_id is Some,
            final(self)@.config == match monitor_id {
                Some(id) => old(self)@.config.with_favorite(id@, input_value),
                None => old(self)@.config,
            },
    {
        match monitor_id {
            Some(id) => {
                self.config.add_favorite(id, input_value);
                true
            },
            None => false,
        }
    }

    /// Takes the pair from the favorites. Returns whether the configuration
    /// was asked and is to be saved: that is so exactly where the caller gave
    /// a monitor identity.
    pub fn config_remove_favorite(&mut self, monitor_id: Option<&str>, input_value: u16) -> (applied:
        bool)
        ensures
            final(self)@.monitors == old(self)@.monitors,
            applied == monitor_id is Some,
            final(self)@.config == match monitor_id {
                Some(id) => old(self)@.config.without_favorite(id@, input_value),
                None => old(self)@.config,
            },
    {
        match monitor_id {
            Some(id) => {
                self.config.remove_favorite(id, input_value);
                true
            },
            None => false,
        }
    }

    /// What a call that changes the configuration reports across the
    /// boundary, from whether the change was applied and from the outcome of
    /// saving the configuration afterwards; `saved` is absent where nothing
    /// was saved. Only an applied change that was saved counts.
    pub fn config_saved(applied: bool, saved: Option<Result<(), String>>) -> (done: bool)
        ensures
            done == (applied && saved matches Some(Ok(_))),
    {
        match saved {
            Some(outcome) => applied && outcome.is_ok(),
            None => false,
        }
    }

    /// The favorites as records, oldest first, with their number.
    pub fn config_get_favorites(&self) -> (list: FavoriteList)
        ensures
            record_keys(list.favorites@) == self@.config.favorites,
            list.count == self@.config.favorites.len(),
    {
        let favorites = self.config.get_favorites();
        let mut records: Vec<FavoriteInfo> = Vec::new();
        let mut i: usize = 0;
        while i < favorites.len()
            invariant
                i <= favorites.len(),
                records@.len() == i,
                forall|j: int|
                    0 <= j < i ==> (#[trigger] records@[j]).monitor_id@ == favorites@[j].monitor_id@
                        && records@[j].input_value == favorites@[j].input_value,
            decreases favorites.len() - i,
        {
            records.push(
                FavoriteInfo {
                    monitor_id: favorites[i].monitor_id.clone(),
                    input_value: favorites[i].input_value,
                },
            );
            i += 1;
        }
        assert(record_keys(records@) =~= favorite_keys(favorites@));
        let count = records.len();
        FavoriteList { favorites: records, count }
    }
}

} // verus!
