use weather::arguments::{
    Cli, LoadOutcome, ProductionDataStorage, Provider, ProviderCommand, ProviderSubcommand,
    WeatherCommand, WeatherError, WeatherProvider,
};
use weather::processor::{Processor, ProductionDependencyFactory, Reply, Report};

fn record(name: &str, provider: Provider, api_key: &str) -> WeatherProvider {
    WeatherProvider {
        name: name.to_string(),
        provider,
        api_key: api_key.to_string(),
    }
}

fn provider_cli(command: ProviderSubcommand) -> Cli {
    Cli {
        command: WeatherCommand::Provider(ProviderCommand { command }),
    }
}

fn empty_store() -> ProductionDataStorage {
    match ProductionDataStorage::load(LoadOutcome::Missing) {
        Ok(storage) => storage,
        Err(_) => panic!("a missing file must load as an empty store"),
    }
}

#[test]
fn missing_file_loads_empty() {
    assert!(empty_store().get_all_providers().is_empty());
}

#[test]
fn empty_file_loads_empty() {
    let storage = ProductionDataStorage::load(LoadOutcome::Empty).ok().unwrap();
    assert!(storage.get_all_providers().is_empty());
}

#[test]
fn unreadable_file_is_io_error() {
    let r = ProductionDataStorage::load(LoadOutcome::Unreadable("denied".to_string()));
    assert!(matches!(r, Err(WeatherError::StorageIo(m)) if m == "denied"));
}

#[test]
fn malformed_file_is_format_error() {
    let r = ProductionDataStorage::load(LoadOutcome::Malformed("bad".to_string()));
    assert!(matches!(r, Err(WeatherError::StorageFormat(m)) if m == "bad"));
}

#[test]
fn loaded_records_keep_file_order() {
    let storage = ProductionDataStorage::load(LoadOutcome::Records(vec![
        record("b", Provider::OpenWeather, "k2"),
        record("a", Provider::AccuWeather, "k1"),
    ]))
    .ok()
    .unwrap();
    let all = storage.get_all_providers();
    assert_eq!(vec!["b", "a"], all.iter().map(|p| p.name.as_str()).collect::<Vec<_>>());
    let back = storage.into_records();
    assert_eq!("k1", back[1].api_key);
}

#[test]
fn add_then_show_by_name() {
    let processor = Processor::new(ProductionDependencyFactory);
    let mut storage = empty_store();
    let added = processor.run(
        provider_cli(ProviderSubcommand::Add(record("home", Provider::OpenWeather, "k1"))),
        &mut storage,
    );
    assert!(matches!(added, Ok(Reply::Added(n)) if n == "home"));
    let shown = processor.run(
        provider_cli(ProviderSubcommand::Show { name: Some("home".to_string()) }),
        &mut storage,
    );
    match shown {
        Ok(Reply::Shown(v)) => {
            assert_eq!(1, v.len());
            assert_eq!(Provider::OpenWeather, v[0].provider);
            assert_eq!("k1", v[0].api_key);
        }
        _ => panic!("the record was not shown"),
    }
}

#[test]
fn add_twice_keeps_one() {
    let processor = Processor::new(ProductionDependencyFactory);
    let mut storage = empty_store();
    let first = processor.run(
        provider_cli(ProviderSubcommand::Add(record("x", Provider::AccuWeather, "k"))),
        &mut storage,
    );
    assert!(first.is_ok());
    let second = processor.run(
        provider_cli(ProviderSubcommand::Add(record("x", Provider::OpenWeather, "other"))),
        &mut storage,
    );
    assert!(matches!(second, Err(WeatherError::AlreadyExists)));
    let all = storage.get_all_providers();
    assert_eq!(1, all.len());
    assert_eq!("x", all[0].name);
    assert_eq!("k", all[0].api_key);
    assert_eq!(Provider::AccuWeather, all[0].provider);
}

#[test]
fn remove_ghost_is_not_found() {
    let processor = Processor::new(ProductionDependencyFactory);
    let mut storage = empty_store();
    let r = processor.run(
        provider_cli(ProviderSubcommand::Remove { name: "ghost".to_string() }),
        &mut storage,
    );
    assert!(matches!(r, Err(WeatherError::NotFound)));
    assert!(storage.get_all_providers().is_empty());
}

#[test]
fn remove_keeps_others() {
    let processor = Processor::new(ProductionDependencyFactory);
    let mut storage = ProductionDataStorage::from_records(vec![
        record("a", Provider::OpenWeather, "1"),
        record("b", Provider::AccuWeather, "2"),
        record("c", Provider::OpenWeather, "3"),
    ]);
    let r = processor.run(
        provider_cli(ProviderSubcommand::Remove { name: "b".to_string() }),
        &mut storage,
    );
    assert!(matches!(r, Ok(Reply::Removed(n)) if n == "b"));
    let names: Vec<String> = storage.get_all_providers().into_iter().map(|p| p.name).collect();
    assert_eq!(vec!["a".to_string(), "c".to_string()], names);
}

#[test]
fn remove_missing_leaves_records() {
    let mut storage = ProductionDataStorage::from_records(vec![record("a", Provider::OpenWeather, "1")]);
    assert!(matches!(storage.remove_provider("z"), Err(WeatherError::NotFound)));
    assert_eq!(1, storage.get_all_providers().len());
}

#[test]
fn fresh_add_is_listed_with_its_fields() {
    let mut storage = ProductionDataStorage::from_records(vec![record("a", Provider::OpenWeather, "1")]);
    storage.add_provider(record("n", Provider::AccuWeather, "key"));
    let all = storage.get_all_providers();
    assert_eq!(2, all.len());
    assert_eq!("n", all[1].name);
    assert_eq!(Provider::AccuWeather, all[1].provider);
    assert_eq!("key", all[1].api_key);
}

#[test]
fn get_provider_returns_first_match() {
    let storage = ProductionDataStorage::from_records(vec![
        record("d", Provider::OpenWeather, "first"),
        record("d", Provider::AccuWeather, "second"),
    ]);
    let p = storage.get_provider("d").ok().unwrap();
    assert_eq!("first", p.api_key);
    assert!(matches!(storage.get_provider("e"), Err(WeatherError::NotFound)));
}

#[test]
fn show_all_lists_every_record() {
    let processor = Processor::new(ProductionDependencyFactory);
    let mut storage = ProductionDataStorage::from_records(vec![
        record("a", Provider::OpenWeather, "1"),
        record("b", Provider::AccuWeather, "2"),
    ]);
    match processor.run(provider_cli(ProviderSubcommand::Show { name: None }), &mut storage) {
        Ok(Reply::Shown(v)) => assert_eq!(2, v.len()),
        _ => panic!("the records were not shown"),
    }
    let mut empty = empty_store();
    match processor.run(provider_cli(ProviderSubcommand::Show { name: None }), &mut empty) {
        Ok(Reply::Shown(v)) => assert!(v.is_empty()),
        _ => panic!("an empty store must show nothing"),
    }
}

#[test]
fn get_with_unknown_provider_is_not_found() {
    let processor = Processor::new(ProductionDependencyFactory);
    let mut storage = empty_store();
    let r = processor.run(
        Cli {
            command: WeatherCommand::Get {
                address: "Kyiv".to_string(),
                date: None,
                provider_name: "nobody".to_string(),
            },
        },
        &mut storage,
    );
    assert!(matches!(r, Err(WeatherError::NotFound)));
}

#[test]
fn failed_lookup_is_reported_as_success() {
    let processor = Processor::new(ProductionDependencyFactory);
    let r = processor.report_weather(Err(WeatherError::RequestStatus(500)));
    assert!(matches!(r, Ok(Report::FetchFailed(WeatherError::RequestStatus(500)))));
}
