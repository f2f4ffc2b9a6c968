use vstd::prelude::*;

pub use crate::storage::{LoadOutcome, ProductionDataStorage};

verus! {

/// The weather services a stored record can point at.
#[derive(Clone, Copy, PartialEq, Eq, Structural, Debug)]
pub enum Provider {
    OpenWeather,
    AccuWeather,
}

/// A named set of credentials for one weather service.
#[derive(Clone, Debug)]
pub struct WeatherProvider {
    pub name: String,
    pub provider: Provider,
    pub api_key: String,
}

/// The mathematical value of a stored record.
pub struct ProviderRecord {
    pub name: Seq<char>,
    pub kind: Provider,
    pub api_key: Seq<char>,
}

impl View for WeatherProvider {
    type V = ProviderRecord;

    open spec fn view(&self) -> ProviderRecord {
        ProviderRecord { name: self.name@, kind: self.provider, api_key: self.api_key@ }
    }
}

impl WeatherProvider {
    /// A field-by-field copy of the record.
    pub fn duplicate(&self) -> (r: WeatherProvider)
        ensures
            r@ == self@,
    {
        WeatherProvider {
            name: self.name.clone(),
            provider: self.provider,
            api_key: self.api_key.clone(),
        }
    }
}

/// The failures a command can end with.
#[derive(Debug)]
pub enum WeatherError {
    /// No stored record carries the requested name.
    NotFound,
    /// A record with the name to add is stored already.
    AlreadyExists,
    /// The record file exists but could not be read or written.
    StorageIo(String),
    /// The record file does not hold a valid list of records.
    StorageFormat(String),
    /// A weather service could not resolve what was asked of it.
    Lookup(String),
    /// A weather service answered with a status other than success.
    RequestStatus(u16),
    /// A request did not reach the weather service or its answer was lost.
    RequestFailed(String),
    /// The body of a weather service's answer could not be parsed.
    ResponseParse(String),
}

/// The parsed command line.
pub struct Cli {
    pub command: WeatherCommand,
}

/// The commands at the top of the command line.
pub enum WeatherCommand {
    /// Configure the credentials of a weather service.
    Provider(ProviderCommand),
    /// Show the weather at an address.
    Get { address: String, date: Option<String>, provider_name: String },
}

/// The node that carries a provider subcommand.
pub struct ProviderCommand {
    pub command: ProviderSubcommand,
}

/// The commands that manage stored records.
pub enum ProviderSubcommand {
    /// Store a new record.
    Add(WeatherProvider),
    /// Delete the record of a name.
    Remove { name: String },
    /// Show one record, or all of them.
    Show { name: Option<String> },
}

} // verus!
