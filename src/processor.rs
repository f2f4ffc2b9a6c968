use vstd::prelude::*;

use crate::arguments::{Cli, ProviderSubcommand, WeatherCommand, WeatherError, WeatherProvider};
use crate::provider::{ProductionProviderFactory, ProviderFactory, WeatherClient, WeatherInfo};
use crate::storage::{
    added_record_listed_once, has_name, is_first_match, names_unique, records_view,
    removed_name_is_gone, ProductionDataStorage,
};

verus! {

/// The factory of the dependencies that commands use for real.
pub struct ProductionDependencyFactory;

impl ProductionDependencyFactory {
    /// The factory of clients for the real weather services.
    pub fn make_provider_factory(&self) -> (r: ProductionProviderFactory) {
        ProductionProviderFactory
    }
}

/// A weather lookup that a command asks to be performed.
pub struct WeatherRequest {
    /// The client of the service named by the record.
    pub client: WeatherClient,
    pub address: String,
    /// Passed on to the service; it has no effect on the lookup.
    pub date: Option<String>,
}

/// What a command that succeeded comes to.
pub enum Reply {
    /// The record of this name was stored.
    Added(String),
    /// The record of this name was deleted.
    Removed(String),
    /// These records are to be shown.
    Shown(Vec<WeatherProvider>),
    /// This lookup is to be performed, and its result reported.
    Fetch(WeatherRequest),
}

/// What a performed lookup is reported as.
pub enum Report {
    /// The conditions that the service gave.
    Weather(WeatherInfo),
    /// The failure of the lookup, shown to the user.
    FetchFailed(WeatherError),
}

/// The command processor.
pub struct Processor {
    dependency_factory: ProductionDependencyFactory,
}

impl Processor {
    /// Creates a processor with the given dependency factory.
    pub fn new(dependency_factory: ProductionDependencyFactory) -> (r: Processor) {
        Self { dependency_factory }
    }

    /// Carries out one command against the store `storage`.
    ///
    /// Adding a name that is stored already fails with `AlreadyExists`;
    /// removing, showing or looking up with a name that is not stored fails
    /// with `NotFound`, and no client is made. A failed command leaves the
    /// store as it was.
    pub fn run(&self, cli: Cli, storage: &mut ProductionDataStorage) -> (r: Result<
        Reply,
        WeatherError,
    >)
        ensures
            names_unique(old(storage)@) ==> names_unique(final(storage)@),
            match cli.command {
                WeatherCommand::Provider(pc) => match pc.command {
                    ProviderSubcommand::Add(p) => if has_name(old(storage)@, p.name@) {
                        &&& r == Err::<Reply, WeatherError>(WeatherError::AlreadyExists)
                        &&& final(storage)@ == old(storage)@
                    } else {
                        &&& r matches Ok(Reply::Added(n)) && n@ == p.name@
                        &&& final(storage)@ == old(storage)@.push(p@)
                    },
                    ProviderSubcommand::Remove { name } => if has_name(old(storage)@, name@) {
                        &&& r matches Ok(Reply::Removed(n)) && n@ == name@
                        &&& exists|i: int|
                            is_first_match(old(storage)@, name@, i) && final(storage)@ == old(
                                storage,
                            )@.remove(i)
                    } else {
                        &&& r == Err::<Reply, WeatherError>(WeatherError::NotFound)
                        &&& final(storage)@ == old(storage)@
                    },
                    ProviderSubcommand::Show { name: Some(name) } => {
                        &&& final(storage)@ == old(storage)@
                        &&& if has_name(old(storage)@, name@) {
                            r matches Ok(Reply::Shown(v)) && v@.len() == 1 && exists|i: int|
                                is_first_match(old(storage)@, name@, i) && v@[0]@ == old(
                                    storage,
                                )@[i]
                        } else {
                            r == Err::<Reply, WeatherError>(WeatherError::NotFound)
                        }
                    },
                    ProviderSubcommand::Show { name: None } => {
                        &&& final(storage)@ == old(storage)@
                        &&& r matches Ok(Reply::Shown(v)) && records_view(v@) == old(storage)@
                    },
                },
                WeatherCommand::Get { address, date, provider_name } => {
                    &&& final(storage)@ == old(storage)@
                    &&& if has_name(old(storage)@, provider_name@) {
                        r matches Ok(Reply::Fetch(q)) && q.address == address && q.date == date
                            && exists|i: int|
                            is_first_match(old(storage)@, provider_name@, i)
                                && q.client.kind() == old(storage)@[i].kind && q.client.key()
                                == old(storage)@[i].api_key
                    } else {
                        r == Err::<Reply, WeatherError>(WeatherError::NotFound)
                    }
                },
            },
    {
        match cli.command {
            WeatherCommand::Provider(pc) => match pc.command {
                ProviderSubcommand::Add(p) => match storage.get_provider(p.name.as_str()) {
                    Ok(_) => Err(WeatherError::AlreadyExists),
                    Err(_) => {
                        let name = p.name.clone();
                        proof {
                            added_record_listed_once(storage@, p@);
                        }
                        storage.add_provider(p);
                        Ok(Reply::Added(name))
                    },
                },
                ProviderSubcommand::Remove { name } => match storage.remove_provider(
                    name.as_str(),
                ) {
                    Ok(()) => {
                        proof {
                            if names_unique(old(storage)@) {
                                let i = choose|i: int|
                                    is_first_match(old(storage)@, name@, i) && storage@ == old(
                                        storage,
                                    )@.remove(i);
                                removed_name_is_gone(old(storage)@, name@, i);
                            }
                        }
                        Ok(Reply::Removed(name))
                    },
                    Err(e) => Err(e),
                },
                ProviderSubcommand::Show { name: Some(name) } => match storage.get_provider(
                    name.as_str(),
                ) {
                    Ok(p) => {
                        let mut v: Vec<WeatherProvider> = Vec::new();
                        v.push(p);
                        Ok(Reply::Shown(v))
                    },
                    Err(e) => Err(e),
                },
                ProviderSubcommand::Show { name: None } => Ok(
                    Reply::Shown(storage.get_all_providers()),
                ),
            },
            WeatherCommand::Get { address, date, provider_name } => {
                match storage.get_provider(provider_name.as_str()) {
                    Ok(config) => {
                        let factory = self.dependency_factory.make_provider_factory();
                        let client = factory.make_provider(&config);
                        Ok(Reply::Fetch(WeatherRequest { client, address, date }))
                    },
                    Err(e) => Err(e),
                }
            },
        }
    }

    /// Reports a performed lookup. A failed lookup is shown, not escalated:
    /// the command still succeeds.
    pub fn report_weather(&self, fetched: Result<WeatherInfo, WeatherError>) -> (r: Result<
        Report,
        WeatherError,
    >)
        ensures
            r is Ok,
            match fetched {
                Ok(info) => r == Ok::<Report, WeatherError>(Report::Weather(info)),
                Err(e) => r == Ok::<Report, WeatherError>(Report::FetchFailed(e)),
            },
    {
        match fetched {
            Ok(info) => Ok(Report::Weather(info)),
            Err(e) => Ok(Report::FetchFailed(e)),
        }
    }
}

} // verus!
