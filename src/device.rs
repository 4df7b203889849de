use vstd::prelude::*;
use crate::error::CanError;
use crate::frame::CanMessage;
use crate::identifier::Id;

verus! {

/// A typed extra setting of a channel or a device.
#[derive(Debug, Clone, Copy, PartialEq, Eq, Structural)]
pub enum ConfigValue {
    U8(u8),
    U16(u16),
    U32(u32),
    Bool(bool),
}

/// The value of the first entry named `name`.
pub open spec fn lookup<V>(entries: Seq<(Seq<char>, V)>, name: Seq<char>) -> Option<V>
    decreases entries.len(),
{
    if entries.len() == 0 {
        None
    } else if entries[0].0 == name {
        Some(entries[0].1)
    } else {
        lookup(entries.drop_first(), name)
    }
}

/// The entries with their names as character sequences.
pub open spec fn entries_view<V>(entries: Seq<(String, V)>) -> Seq<(Seq<char>, V)> {
    entries.map_values(|e: (String, V)| (e.0@, e.1))
}

proof fn lemma_lookup_skip<V>(entries: Seq<(Seq<char>, V)>, name: Seq<char>, i: int)
    requires
        0 <= i <= entries.len(),
        forall|j: int| 0 <= j < i ==> #[trigger] entries[j].0 != name,
    ensures
        lookup(entries, name) == lookup(entries.subrange(i, entries.len() as int), name),
    decreases i,
{
    if i > 0 {
        assert(entries.drop_first().subrange(i - 1, entries.drop_first().len() as int) =~= entries.subrange(
            i,
            entries.len() as int,
        ));
        assert forall|j: int| 0 <= j < i - 1 implies #[trigger] entries.drop_first()[j].0 != name by {
            assert(entries.drop_first()[j] == entries[j + 1]);
        }
        lemma_lookup_skip(entries.drop_first(), name, i - 1);
    } else {
        assert(entries.subrange(0, entries.len() as int) =~= entries);
    }
}

/// The index of the first entry named `name`, if any.
pub(crate) fn find_index<V>(entries: &Vec<(String, V)>, name: &str) -> (r: Option<usize>)
    ensures
        match r {
            Some(i) => i < entries@.len() && lookup(entries_view(entries@), name@) == Some(entries@[i as int].1),
            None => lookup(entries_view(entries@), name@) is None,
        },
{
    let key = String::from_str(name);
    let ghost ev = entries_view(entries@);
    let mut i: usize = 0;
    while i < entries.len()
        invariant
            i <= entries@.len(),
            ev == entries_view(entries@),
            key@ == name@,
            forall|j: int| 0 <= j < i ==> #[trigger] ev[j].0 != name@,
        decreases entries@.len() - i,
    {
        if entries[i].0 == key {
            proof {
                lemma_lookup_skip(ev, name@, i as int);
                assert(ev.subrange(i as int, ev.len() as int)[0] == ev[i as int]);
            }
            return Some(i);
        }
        i += 1;
    }
    proof {
        lemma_lookup_skip(ev, name@, i as int);
    }
    None
}

/// The `u8` held by an extra, or an error for another type.
fn value_u8(v: Option<ConfigValue>) -> (r: Result<Option<u8>, CanError>)
    ensures
        match v {
            None => r == Ok::<Option<u8>, CanError>(None),
            Some(ConfigValue::U8(x)) => r == Ok::<Option<u8>, CanError>(Some(x)),
            Some(_) => r is Err,
        },
{
    match v {
        None => Ok(None),
        Some(ConfigValue::U8(x)) => Ok(Some(x)),
        Some(_) => Err(CanError::other_error("type mismatched")),
    }
}

/// The `u32` held by an extra, or an error for another type.
fn value_u32(v: Option<ConfigValue>) -> (r: Result<Option<u32>, CanError>)
    ensures
        match v {
            None => r == Ok::<Option<u32>, CanError>(None),
            Some(ConfigValue::U32(x)) => r == Ok::<Option<u32>, CanError>(Some(x)),
            Some(_) => r is Err,
        },
{
    match v {
        None => Ok(None),
        Some(ConfigValue::U32(x)) => Ok(Some(x)),
        Some(_) => Err(CanError::other_error("type mismatched")),
    }
}

/// The `bool` held by an extra, or an error for another type.
fn value_bool(v: Option<ConfigValue>) -> (r: Result<Option<bool>, CanError>)
    ensures
        match v {
            None => r == Ok::<Option<bool>, CanError>(None),
            Some(ConfigValue::Bool(x)) => r == Ok::<Option<bool>, CanError>(Some(x)),
            Some(_) => r is Err,
        },
{
    match v {
        None => Ok(None),
        Some(ConfigValue::Bool(x)) => Ok(Some(x)),
        Some(_) => Err(CanError::other_error("type mismatched")),
    }
}

/// The configuration of one channel: nominal bitrate, optional data bitrate
/// and terminal resistance, and extras by name.
#[derive(Debug, Clone)]
pub struct ChannelConfig {
    pub(crate) bitrate: u32,
    pub(crate) dbitrate: Option<u32>,
    pub(crate) resistance: Option<bool>,
    pub(crate) others: Vec<(String, ConfigValue)>,
}

impl ChannelConfig {
    pub closed spec fn bitrate_spec(&self) -> u32 {
        self.bitrate
    }

    pub closed spec fn dbitrate_spec(&self) -> Option<u32> {
        self.dbitrate
    }

    pub closed spec fn resistance_spec(&self) -> Option<bool> {
        self.resistance
    }

    /// The extra named `name`, if any.
    pub closed spec fn other_spec(&self, name: Seq<char>) -> Option<ConfigValue> {
        lookup(entries_view(self.others@), name)
    }

    /// A configuration with the nominal bitrate `bitrate` and nothing else.
    pub fn new(bitrate: u32) -> (r: ChannelConfig)
        ensures
            r.bitrate_spec() == bitrate,
            r.dbitrate_spec() is None,
            r.resistance_spec() is None,
            forall|n: Seq<char>| #[trigger] r.other_spec(n) is None,
    {
        ChannelConfig { bitrate, dbitrate: None, resistance: None, others: Vec::new() }
    }

    pub fn bitrate(&self) -> (r: u32)
        ensures
            r == self.bitrate_spec(),
    {
        self.bitrate
    }

    pub fn dbitrate(&self) -> (r: Option<u32>)
        ensures
            r == self.dbitrate_spec(),
    {
        self.dbitrate
    }

    pub fn resistance(&self) -> (r: Option<bool>)
        ensures
            r == self.resistance_spec(),
    {
        self.resistance
    }

    /// Sets the data bitrate.
    pub fn set_data_bitrate(&mut self, bitrate: u32)
        ensures
            final(self).dbitrate_spec() == Some(bitrate),
            final(self).bitrate_spec() == old(self).bitrate_spec(),
            final(self).resistance_spec() == old(self).resistance_spec(),
            forall|n: Seq<char>| #[trigger] final(self).other_spec(n) == old(self).other_spec(n),
    {
        self.dbitrate = Some(bitrate);
    }

    /// Sets whether the terminal resistance is on.
    pub fn set_resistance(&mut self, resistance: bool)
        ensures
            final(self).resistance_spec() == Some(resistance),
            final(self).bitrate_spec() == old(self).bitrate_spec(),
            final(self).dbitrate_spec() == old(self).dbitrate_spec(),
            forall|n: Seq<char>| #[trigger] final(self).other_spec(n) == old(self).other_spec(n),
    {
        self.resistance = Some(resistance);
    }

    /// Sets the extra `name`; an earlier value of that name is replaced.
    pub fn add_other(&mut self, name: &str, other: ConfigValue)
        ensures
            final(self).other_spec(name@) == Some(other),
            forall|n: Seq<char>| n != name@ ==> #[trigger] final(self).other_spec(n) == old(self).other_spec(n),
            final(self).bitrate_spec() == old(self).bitrate_spec(),
            final(self).dbitrate_spec() == old(self).dbitrate_spec(),
            final(self).resistance_spec() == old(self).resistance_spec(),
    {
        let ghost before = self.others@;
        self.others.insert(0, (String::from_str(name), other));
        assert(entries_view(self.others@).drop_first() =~= entries_view(before));
    }

    /// The extra `name`.
    pub fn get_other(&self, name: &str) -> (r: Option<ConfigValue>)
        ensures
            r == self.other_spec(name@),
    {
        match find_index(&self.others, name) {
            Some(i) => Some(self.others[i].1),
            None => None,
        }
    }

    /// The extra `name` as a `u8`; an error where it holds another type.
    pub fn get_other_u8(&self, name: &str) -> (r: Result<Option<u8>, CanError>)
        ensures
            match self.other_spec(name@) {
                None => r == Ok::<Option<u8>, CanError>(None),
                Some(ConfigValue::U8(x)) => r == Ok::<Option<u8>, CanError>(Some(x)),
                Some(_) => r is Err,
            },
    {
        value_u8(self.get_other(name))
    }

    /// The extra `name` as a `u32`; an error where it holds another type.
    pub fn get_other_u32(&self, name: &str) -> (r: Result<Option<u32>, CanError>)
        ensures
            match self.other_spec(name@) {
                None => r == Ok::<Option<u32>, CanError>(None),
                Some(ConfigValue::U32(x)) => r == Ok::<Option<u32>, CanError>(Some(x)),
                Some(_) => r is Err,
            },
    {
        value_u32(self.get_other(name))
    }
}

/// What builds a driver: the interface tag, an optional channel, the
/// configuration of each channel by name, and device-level extras.
#[derive(Debug, Clone)]
pub struct DeviceBuilder {
    pub(crate) interface: String,
    pub(crate) channel: Option<String>,
    pub(crate) configs: Vec<(String, ChannelConfig)>,
    pub(crate) others: Vec<(String, ConfigValue)>,
}

impl DeviceBuilder {
    pub closed spec fn interface_spec(&self) -> Seq<char> {
        self.interface@
    }

    pub closed spec fn channel_spec(&self) -> Option<Seq<char>> {
        match self.channel {
            Some(c) => Some(c@),
            None => None,
        }
    }

    /// The bitrate configured for channel `name`, if that channel is configured.
    pub closed spec fn config_bitrate_spec(&self, name: Seq<char>) -> Option<u32> {
        match lookup(entries_view(self.configs@), name) {
            Some(c) => Some(c.bitrate),
            None => None,
        }
    }

    /// The device extra named `name`, if any.
    pub closed spec fn other_spec(&self, name: Seq<char>) -> Option<ConfigValue> {
        lookup(entries_view(self.others@), name)
    }

    /// The names of the configured channels, most recently added first.
    pub closed spec fn config_names_spec(&self) -> Seq<Seq<char>> {
        self.configs@.map_values(|e: (String, ChannelConfig)| e.0@)
    }

    /// A builder for the interface `interface`, with nothing configured.
    pub fn new(interface: &str) -> (r: DeviceBuilder)
        ensures
            r.interface_spec() == interface@,
            r.channel_spec() is None,
            forall|n: Seq<char>| #[trigger] r.config_bitrate_spec(n) is None,
            forall|n: Seq<char>| #[trigger] r.other_spec(n) is None,
    {
        DeviceBuilder { interface: String::from_str(interface), channel: None, configs: Vec::new(), others: Vec::new() }
    }

    /// The interface tag.
    pub fn interface(&self) -> (r: &str)
        ensures
            r@ == self.interface_spec(),
    {
        self.interface.as_str()
    }

    /// Sets the channel.
    pub fn set_channel(&mut self, channel: &str)
        ensures
            final(self).channel_spec() == Some(channel@),
            final(self).interface_spec() == old(self).interface_spec(),
            forall|n: Seq<char>| #[trigger] final(self).config_bitrate_spec(n) == old(self).config_bitrate_spec(n),
            forall|n: Seq<char>| #[trigger] final(self).other_spec(n) == old(self).other_spec(n),
    {
        self.channel = Some(String::from_str(channel));
    }

    /// Adds the configuration of channel `channel`, replacing an earlier one.
    pub fn add_config(&mut self, channel: &str, cfg: ChannelConfig)
        ensures
            final(self).config_bitrate_spec(channel@) == Some(cfg.bitrate_spec()),
            forall|n: Seq<char>| n != channel@ ==> #[trigger] final(self).config_bitrate_spec(n)
                == old(self).config_bitrate_spec(n),
            final(self).interface_spec() == old(self).interface_spec(),
            final(self).channel_spec() == old(self).channel_spec(),
            forall|n: Seq<char>| #[trigger] final(self).other_spec(n) == old(self).other_spec(n),
    {
        let ghost before = self.configs@;
        self.configs.insert(0, (String::from_str(channel), cfg));
        assert(entries_view(self.configs@).drop_first() =~= entries_view(before));
    }

    /// The configuration of channel `channel`, if there is one.
    pub fn channel_config(&self, channel: &str) -> (r: Option<&ChannelConfig>)
        ensures
            match r {
                Some(c) => self.config_bitrate_spec(channel@) == Some(c.bitrate_spec()),
                None => self.config_bitrate_spec(channel@) is None,
            },
    {
        match find_index(&self.configs, channel) {
            Some(i) => Some(&self.configs[i].1),
            None => None,
        }
    }

    /// The names of the configured channels, most recently added first.
    pub fn channel_names(&self) -> (r: Vec<String>)
        ensures
            r@.map_values(|s: String| s@) == self.config_names_spec(),
    {
        let mut r: Vec<String> = Vec::new();
        let mut i: usize = 0;
        while i < self.configs.len()
            invariant
                i <= self.configs@.len(),
                r@.len() == i,
                forall|j: int| 0 <= j < i ==> #[trigger] r@[j]@ == self.configs@[j].0@,
            decreases self.configs@.len() - i,
        {
            r.push(self.configs[i].0.clone());
            i += 1;
        }
        assert(r@.map_values(|s: String| s@) =~= self.config_names_spec());
        r
    }

    /// Sets the device extra `name`, replacing an earlier value.
    pub fn add_other(&mut self, name: &str, cfg: ConfigValue)
        ensures
            final(self).other_spec(name@) == Some(cfg),
            forall|n: Seq<char>| n != name@ ==> #[trigger] final(self).other_spec(n) == old(self).other_spec(n),
            final(self).interface_spec() == old(self).interface_spec(),
            final(self).channel_spec() == old(self).channel_spec(),
            forall|n: Seq<char>| #[trigger] final(self).config_bitrate_spec(n) == old(self).config_bitrate_spec(n),
    {
        let ghost before = self.others@;
        self.others.insert(0, (String::from_str(name), cfg));
        assert(entries_view(self.others@).drop_first() =~= entries_view(before));
    }

    /// The device extra `name`.
    pub fn get_other(&self, name: &str) -> (r: Option<ConfigValue>)
        ensures
            r == self.other_spec(name@),
    {
        match find_index(&self.others, name) {
            Some(i) => Some(self.others[i].1),
            None => None,
        }
    }

    /// The device extra `name` as a `u32`; an error where it holds another type.
    pub fn get_other_u32(&self, name: &str) -> (r: Result<Option<u32>, CanError>)
        ensures
            match self.other_spec(name@) {
                None => r == Ok::<Option<u32>, CanError>(None),
                Some(ConfigValue::U32(x)) => r == Ok::<Option<u32>, CanError>(Some(x)),
                Some(_) => r is Err,
            },
    {
        value_u32(self.get_other(name))
    }

    /// The device extra `name` as a `bool`; an error where it holds another type.
    pub fn get_other_bool(&self, name: &str) -> (r: Result<Option<bool>, CanError>)
        ensures
            match self.other_spec(name@) {
                None => r == Ok::<Option<bool>, CanError>(None),
                Some(ConfigValue::Bool(x)) => r == Ok::<Option<bool>, CanError>(Some(x)),
                Some(_) => r is Err,
            },
    {
        value_bool(self.get_other(name))
    }

    /// Checks that the builder is meant for the driver serving `interface`.
    pub fn check_interface(&self, interface: &str) -> (r: Result<(), CanError>)
        ensures
            r is Ok <==> self.interface_spec() == interface@,
            r is Err ==> (r matches Err(CanError::InitializeError(m)) && m@ == crate::error::join3(
                "interface "@,
                self.interface_spec(),
                " is not matched"@,
            )),
    {
        let expected = String::from_str(interface);
        if self.interface == expected {
            Ok(())
        } else {
            Err(CanError::interface_not_matched(self.interface.as_str()))
        }
    }
}

/// What a transport adapter tells the parties that watch the bus.
pub trait Listener {
    /// A frame is about to be handed to the driver.
    fn on_frame_transmitting(&self, channel: u8, frame: &CanMessage);

    /// The driver sent a frame with identifier `id`.
    fn on_frame_transmitted(&self, channel: u8, id: Id);

    /// The driver received `frames` on `channel`.
    fn on_frame_received(&self, channel: u8, frames: &[CanMessage]);
}

} // verus!
