//! The configuration of the job service: where it listens, what the device
//! must present, and how much water each plant gets.
//!
//! The manager holds what the configuration file was last seen to hold. The
//! caller reads the file into it and writes changes back.

use vstd::prelude::*;

verus! {

/// Port on which the service listens unless the configuration names one.
pub const DEFAULT_PORT: u16 = 8080;

/// The address 127.0.0.1 as a number.
pub const LOCALHOST: u32 = 0x7f00_0001;

/// An address of the internet protocol, as the number that its bytes make
/// when read from the first to the last.
#[derive(Clone, Copy, Debug, PartialEq, Eq)]
pub enum HostAddr {
    V4(u32),
    V6(u128),
}

/// Address on which the service listens unless the configuration names one.
pub open spec fn default_host() -> HostAddr {
    HostAddr::V4(LOCALHOST)
}

/// Whether two addresses are the same.
pub fn same_host(a: HostAddr, b: HostAddr) -> (same: bool)
    ensures
        same == (a == b),
{
    match (a, b) {
        (HostAddr::V4(x), HostAddr::V4(y)) => x == y,
        (HostAddr::V6(x), HostAddr::V6(y)) => x == y,
        _ => false,
    }
}

/// One plant: its name and the water it gets per day, in millilitres.
#[derive(Debug, PartialEq, Eq)]
pub struct PlantConfig {
    pub amount_ml: u32,
    pub name: String,
}

/// The configuration.
#[derive(Debug, PartialEq, Eq)]
pub struct Config {
    pub host: Option<HostAddr>,
    pub port: Option<u16>,
    pub api_secret: String,
    pub plants: Vec<PlantConfig>,
}

/// Why the configuration cannot be had.
#[derive(Clone, Copy, Debug, PartialEq, Eq)]
pub enum ConfigError {
    /// The file vanished while it was read.
    NotFound,
    /// The file holds no configuration.
    ParseError,
    /// The file holds no document that could be edited.
    ParseError2,
    /// The file could not be opened, read or written.
    Io,
}

/// What the configuration file was last seen to hold.
#[derive(Debug, PartialEq, Eq)]
pub enum ConfigFile {
    /// The file could not be opened.
    OpenFailed,
    /// The file was opened and could not be read.
    ReadFailed { not_found: bool },
    /// The file was read and holds no configuration.
    Malformed,
    /// The file holds this configuration.
    Valid(Config),
}

/// The error that stands for a file without a configuration when the
/// configuration is read.
pub open spec fn read_error(file: ConfigFile) -> ConfigError {
    match file {
        ConfigFile::OpenFailed => ConfigError::Io,
        ConfigFile::ReadFailed { not_found } => if not_found {
            ConfigError::NotFound
        } else {
            ConfigError::Io
        },
        _ => ConfigError::ParseError,
    }
}

/// The error that stands for a file without a configuration when the
/// configuration is to be changed.
pub open spec fn edit_error(file: ConfigFile) -> ConfigError {
    match file {
        ConfigFile::Malformed => ConfigError::ParseError2,
        _ => read_error(file),
    }
}

/// The plants with the amount of plant `index` replaced.
pub open spec fn with_amount(plants: Seq<PlantConfig>, index: int, amount_ml: u32) -> Seq<
    PlantConfig,
> {
    plants.update(index, PlantConfig { amount_ml, name: plants[index].name })
}

/// The plants with the name of plant `index` replaced.
pub open spec fn with_name(plants: Seq<PlantConfig>, index: int, name: String) -> Seq<
    PlantConfig,
> {
    plants.update(index, PlantConfig { amount_ml: plants[index].amount_ml, name })
}

/// Index of the first plant of that name, or the number of plants where none
/// has it.
pub open spec fn position_of(plants: Seq<PlantConfig>, name: Seq<char>) -> int
    decreases plants.len(),
{
    if plants.len() == 0 {
        0
    } else if plants[0].name@ == name {
        0
    } else {
        1 + position_of(plants.drop_first(), name)
    }
}

/// The position of a name is that of the first plant which has it.
pub proof fn lemma_position_of(plants: Seq<PlantConfig>, name: Seq<char>)
    ensures
        0 <= position_of(plants, name) <= plants.len(),
        position_of(plants, name) < plants.len() ==> plants[position_of(plants, name)].name@
            == name,
        forall|k: int| 0 <= k < position_of(plants, name) ==> (#[trigger] plants[k]).name@ != name,
    decreases plants.len(),
{
    if plants.len() > 0 && plants[0].name@ != name {
        let rest = plants.drop_first();
        lemma_position_of(rest, name);
        assert forall|k: int| 0 <= k < position_of(plants, name) implies (#[trigger] plants[k]).name@
            != name by {
            if k > 0 {
                assert(plants[k] == rest[k - 1]);
            }
        }
    }
}

/// Index of the first plant of that name, if one has it.
pub fn find_plant(plants: &Vec<PlantConfig>, name: &String) -> (found: Option<usize>)
    ensures
        found is Some <==> position_of(plants@, name@) < plants@.len(),
        found matches Some(i) ==> i == position_of(plants@, name@),
{
    let mut i: usize = 0;
    assert(plants@.subrange(0, plants@.len() as int) =~= plants@);
    while i < plants.len()
        invariant
            i <= plants@.len(),
            position_of(plants@, name@) == i + position_of(
                plants@.subrange(i as int, plants@.len() as int),
                name@,
            ),
        decreases plants@.len() - i,
    {
        let ghost rest = plants@.subrange(i as int, plants@.len() as int);
        assert(rest[0] == plants@[i as int]);
        if plants[i].name == *name {
            return Some(i);
        }
        assert(rest.drop_first() =~= plants@.subrange(i + 1, plants@.len() as int));
        i += 1;
    }
    assert(plants@.subrange(i as int, plants@.len() as int).len() == 0);
    None
}

fn copy_plants(plants: &Vec<PlantConfig>) -> (copy: Vec<PlantConfig>)
    ensures
        copy@ == plants@,
{
    let mut copy: Vec<PlantConfig> = Vec::new();
    let mut i: usize = 0;
    while i < plants.len()
        invariant
            i <= plants@.len(),
            copy@ == plants@.subrange(0, i as int),
        decreases plants@.len() - i,
    {
        copy.push(PlantConfig { amount_ml: plants[i].amount_ml, name: plants[i].name.clone() });
        i += 1;
        assert(copy@ =~= plants@.subrange(0, i as int));
    }
    assert(plants@.subrange(0, i as int) =~= plants@);
    copy
}

/// Keeper of the configuration.
#[derive(Debug)]
pub struct ConfigManager {
    file: ConfigFile,
    unsaved: bool,
}

impl ConfigManager {
    /// What the file was last seen to hold, with the changes made since.
    pub closed spec fn file(&self) -> ConfigFile {
        self.file
    }

    /// Whether the configuration was changed since the file was last read or
    /// written.
    pub closed spec fn unsaved(&self) -> bool {
        self.unsaved
    }

    /// The configuration, where the file holds one.
    pub open spec fn config(&self) -> Option<Config> {
        match self.file() {
            ConfigFile::Valid(config) => Some(config),
            _ => None,
        }
    }

    /// A manager that has seen no file yet: to it the file cannot be opened.
    pub fn new() -> (manager: ConfigManager)
        ensures
            manager.file() == ConfigFile::OpenFailed,
            !manager.unsaved(),
    {
        ConfigManager { file: ConfigFile::OpenFailed, unsaved: false }
    }

    /// Takes note of what the file holds.
    pub fn load(&mut self, file: ConfigFile)
        ensures
            final(self).file() == file,
            !final(self).unsaved(),
    {
        self.file = file;
        self.unsaved = false;
    }

    /// Whether there is a change that the file does not hold yet.
    pub fn is_unsaved(&self) -> (unsaved: bool)
        ensures
            unsaved == self.unsaved(),
    {
        self.unsaved
    }

    /// Takes note that the file holds every change.
    pub fn mark_saved(&mut self)
        ensures
            final(self).file() == old(self).file(),
            !final(self).unsaved(),
    {
        self.unsaved = false;
    }

    fn failure(&self) -> (error: ConfigError)
        requires
            !(self.file() is Valid),
        ensures
            error == read_error(self.file()),
    {
        match &self.file {
            ConfigFile::OpenFailed => ConfigError::Io,
            ConfigFile::ReadFailed { not_found } => {
                if *not_found {
                    ConfigError::NotFound
                } else {
                    ConfigError::Io
                }
            },
            _ => ConfigError::ParseError,
        }
    }

    /// The address to listen on: the configured one, or 127.0.0.1 where none
    /// is configured.
    pub fn get_host(&self) -> (host: Result<HostAddr, ConfigError>)
        ensures
            host == match self.file() {
                ConfigFile::Valid(config) => Ok(
                    match config.host {
                        Some(host) => host,
                        None => default_host(),
                    },
                ),
                _ => Err(read_error(self.file())),
            },
    {
        match &self.file {
            ConfigFile::Valid(config) => match config.host {
                Some(host) => Ok(host),
                None => Ok(HostAddr::V4(LOCALHOST)),
            },
            _ => Err(self.failure()),
        }
    }

    /// The port to listen on: the configured one, or 8080 where none is
    /// configured.
    pub fn get_port(&self) -> (port: Result<u16, ConfigError>)
        ensures
            port == match self.file() {
                ConfigFile::Valid(config) => Ok(
                    match config.port {
                        Some(port) => port,
                        None => DEFAULT_PORT,
                    },
                ),
                _ => Err(read_error(self.file())),
            },
    {
        match &self.file {
            ConfigFile::Valid(config) => match config.port {
                Some(port) => Ok(port),
                None => Ok(DEFAULT_PORT),
            },
            _ => Err(self.failure()),
        }
    }

    /// What the device must present.
    pub fn get_api_secret(&self) -> (secret: Result<String, ConfigError>)
        ensures
            secret == match self.file() {
                ConfigFile::Valid(config) => Ok(config.api_secret),
                _ => Err(read_error(self.file())),
            },
    {
        match &self.file {
            ConfigFile::Valid(config) => Ok(config.api_secret.clone()),
            _ => Err(self.failure()),
        }
    }

    fn edit_failure(&self) -> (error: ConfigError)
        requires
            !(self.file() is Valid),
        ensures
            error == edit_error(self.file()),
    {
        match &self.file {
            ConfigFile::Malformed => ConfigError::ParseError2,
            _ => self.failure(),
        }
    }

    /// Sets the amount of water that plant `index` gets, in millilitres.
    /// Without a configuration nothing changes and the error says why there
    /// is none.
    pub fn put_plant_amount_ml(&mut self, index: usize, amount_ml: u32) -> (done: Result<
        (),
        ConfigError,
    >)
        requires
            old(self).config() matches Some(config) ==> index < config.plants@.len(),
        ensures
            match old(self).file() {
                ConfigFile::Valid(config) => {
                    &&& done is Ok
                    &&& final(self).unsaved()
                    &&& final(self).config() matches Some(changed)
                    &&& changed.host == config.host
                    &&& changed.port == config.port
                    &&& changed.api_secret == config.api_secret
                    &&& changed.plants@ == with_amount(config.plants@, index as int, amount_ml)
                },
                _ => {
                    &&& done == Err::<(), ConfigError>(edit_error(old(self).file()))
                    &&& final(self).file() == old(self).file()
                    &&& final(self).unsaved() == old(self).unsaved()
                },
            },
    {
        match &mut self.file {
            ConfigFile::Valid(config) => {
                let name = config.plants[index].name.clone();
                config.plants.set(index, PlantConfig { amount_ml, name });
                self.unsaved = true;
                Ok(())
            },
            _ => Err(self.edit_failure()),
        }
    }

    /// Sets the name of plant `index`. Without a configuration nothing
    /// changes and the error says why there is none.
    pub fn put_plant_name(&mut self, index: usize, name: String) -> (done: Result<(), ConfigError>)
        requires
            old(self).config() matches Some(config) ==> index < config.plants@.len(),
        ensures
            match old(self).file() {
                ConfigFile::Valid(config) => {
                    &&& done is Ok
                    &&& final(self).unsaved()
                    &&& final(self).config() matches Some(changed)
                    &&& changed.host == config.host
                    &&& changed.port == config.port
                    &&& changed.api_secret == config.api_secret
                    &&& changed.plants@ == with_name(config.plants@, index as int, name)
                },
                _ => {
                    &&& done == Err::<(), ConfigError>(edit_error(old(self).file()))
                    &&& final(self).file() == old(self).file()
                    &&& final(self).unsaved() == old(self).unsaved()
                },
            },
    {
        match &mut self.file {
            ConfigFile::Valid(config) => {
                let amount_ml = config.plants[index].amount_ml;
                config.plants.set(index, PlantConfig { amount_ml, name });
                self.unsaved = true;
                Ok(())
            },
            _ => Err(self.edit_failure()),
        }
    }

    /// The plants, in the order of the file.
    pub fn get_plant_config(&self) -> (plants: Result<Vec<PlantConfig>, ConfigError>)
        ensures
            match self.file() {
                ConfigFile::Valid(config) => plants is Ok && plants.unwrap()@ == config.plants@,
                _ => plants == Err::<Vec<PlantConfig>, ConfigError>(read_error(self.file())),
            },
    {
        match &self.file {
            ConfigFile::Valid(config) => Ok(copy_plants(&config.plants)),
            _ => Err(self.failure()),
        }
    }
}

} // verus!
