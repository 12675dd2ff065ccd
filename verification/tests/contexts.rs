use openwec_output::output::{DriverRequest, Output, OutputDriversContext};
use openwec_output::settings::{FilesSettings, KafkaSettings, Outputs};
use openwec_output::subscription::{
    FilesConfiguration, KafkaConfiguration, RedisConfiguration, SubscriptionData,
    SubscriptionOutput, SubscriptionOutputDriver, SubscriptionOutputFormat, TcpConfiguration,
};
use std::cell::Cell;

type Context = OutputDriversContext<Vec<String>, String>;

fn settings(timeout: u64) -> Outputs {
    Outputs {
        files: FilesSettings { files_descriptor_close_timeout: timeout },
        kafka: KafkaSettings {
            options: vec![("bootstrap.servers".to_string(), "localhost:9092".to_string())],
        },
    }
}

fn files_driver() -> SubscriptionOutputDriver {
    SubscriptionOutputDriver::Files(FilesConfiguration::new("/var/events/{client}".to_string()))
}

fn kafka_driver(options: Vec<(String, String)>) -> SubscriptionOutputDriver {
    SubscriptionOutputDriver::Kafka(KafkaConfiguration::new("events".to_string(), options))
}

fn shared_kafka_driver() -> SubscriptionOutputDriver {
    kafka_driver(vec![])
}

fn own_kafka_driver() -> SubscriptionOutputDriver {
    kafka_driver(vec![("bootstrap.servers".to_string(), "kafka:9092".to_string())])
}

fn tcp_driver() -> SubscriptionOutputDriver {
    SubscriptionOutputDriver::Tcp(TcpConfiguration { host: "siem".to_string(), port: 514 })
}

fn subscription(active: bool, outputs: Vec<(SubscriptionOutputDriver, bool)>) -> SubscriptionData {
    let mut data = SubscriptionData::new(active);
    for (driver, enabled) in outputs {
        data.add_output(SubscriptionOutput::new(SubscriptionOutputFormat::Raw, driver, enabled));
    }
    data
}

fn needs(subscriptions: &[SubscriptionData]) -> (bool, bool) {
    (
        Context::need_files_context(subscriptions),
        Context::need_kafka_context(subscriptions),
    )
}

/// The contexts that a driver would be built from.
fn contexts(context: &mut Context) -> (Option<Vec<String>>, Option<String>) {
    let mut files = None;
    let _: Result<Output<()>, ()> = Output::new(
        &SubscriptionOutputFormat::Raw,
        &files_driver(),
        context,
        |request: DriverRequest<'_, Vec<String>, String>| {
            match request {
                DriverRequest::Files(_, given) => files = given.clone(),
                _ => unreachable!(),
            }
            Ok(())
        },
    );
    let mut kafka = None;
    let _: Result<Output<()>, ()> = Output::new(
        &SubscriptionOutputFormat::Raw,
        &shared_kafka_driver(),
        context,
        |request: DriverRequest<'_, Vec<String>, String>| {
            match request {
                DriverRequest::Kafka(_, given) => kafka = given.clone(),
                _ => unreachable!(),
            }
            Ok(())
        },
    );
    (files, kafka)
}

fn initialize(context: &mut Context, subscriptions: &[SubscriptionData]) -> anyhow::Result<()> {
    context.initialize_missing(
        subscriptions,
        || vec!["created".to_string()],
        |settings: &KafkaSettings| Ok(settings.options[0].1.clone()),
    )
}

#[test]
fn no_subscription_needs_nothing() {
    assert_eq!(needs(&[]), (false, false));
    assert_eq!(needs(&[subscription(true, vec![])]), (false, false));
}

#[test]
fn files_output_needs_files_context() {
    assert_eq!(needs(&[subscription(true, vec![(files_driver(), true)])]), (true, false));
}

#[test]
fn kafka_output_without_options_needs_kafka_context() {
    assert_eq!(needs(&[subscription(true, vec![(shared_kafka_driver(), true)])]), (false, true));
}

#[test]
fn kafka_output_with_options_needs_no_context() {
    assert_eq!(needs(&[subscription(true, vec![(own_kafka_driver(), true)])]), (false, false));
    // One output that shares the client is enough.
    assert_eq!(
        needs(&[subscription(
            true,
            vec![(own_kafka_driver(), true), (shared_kafka_driver(), true)],
        )]),
        (false, true)
    );
}

#[test]
fn only_enabled_outputs_of_active_subscriptions_have_to_configure_options() {
    assert_eq!(
        needs(&[
            subscription(true, vec![(own_kafka_driver(), true), (shared_kafka_driver(), false)]),
            subscription(false, vec![(shared_kafka_driver(), true)]),
        ]),
        (false, false)
    );
}

#[test]
fn other_drivers_need_no_context() {
    let redis = SubscriptionOutputDriver::Redis(RedisConfiguration {
        addr: "redis://localhost".to_string(),
        list: "events".to_string(),
    });
    assert_eq!(
        needs(&[subscription(true, vec![(tcp_driver(), true), (redis, true)])]),
        (false, false)
    );
}

#[test]
fn inactive_subscriptions_and_disabled_outputs_need_nothing() {
    assert_eq!(
        needs(&[subscription(false, vec![(files_driver(), true), (shared_kafka_driver(), true)])]),
        (false, false)
    );
    assert_eq!(
        needs(&[subscription(true, vec![(files_driver(), false), (shared_kafka_driver(), false)])]),
        (false, false)
    );
}

#[test]
fn subscriptions_need_what_any_of_them_needs() {
    let quiet = || subscription(true, vec![(tcp_driver(), true), (files_driver(), false)]);
    let files = || subscription(true, vec![(tcp_driver(), true), (files_driver(), true)]);
    let kafka = || subscription(true, vec![(tcp_driver(), true), (shared_kafka_driver(), true)]);
    assert_eq!(needs(&[quiet(), files()]), (true, false));
    assert_eq!(needs(&[files(), quiet()]), (true, false));
    assert_eq!(needs(&[quiet(), kafka(), quiet(), files()]), (true, true));
    assert_eq!(needs(&[quiet(), quiet()]), (false, false));
}

#[test]
fn new_context_is_empty() {
    let mut context = Context::new(&settings(600));
    assert_eq!(contexts(&mut context), (None, None));
}

#[test]
fn initialization_creates_what_is_needed() {
    let mut context = Context::new(&settings(600));
    initialize(&mut context, &[subscription(true, vec![(files_driver(), true)])]).unwrap();
    assert_eq!(contexts(&mut context), (Some(vec!["created".to_string()]), None));

    let mut context = Context::new(&settings(600));
    initialize(&mut context, &[subscription(true, vec![(shared_kafka_driver(), true)])]).unwrap();
    // The Kafka context is made from the Kafka settings.
    assert_eq!(contexts(&mut context), (None, Some("localhost:9092".to_string())));
}

#[test]
fn initialization_calls_nothing_without_need() {
    let mut context = Context::new(&settings(600));
    let result: Result<(), String> = context.initialize_missing(
        &[subscription(true, vec![(tcp_driver(), true), (own_kafka_driver(), true)])],
        || panic!("no files context is needed"),
        |_: &KafkaSettings| panic!("no Kafka context is needed"),
    );
    assert_eq!(result, Ok(()));
    assert_eq!(contexts(&mut context), (None, None));
}

#[test]
fn files_context_is_created_before_kafka_context() {
    let files_first =
        [subscription(true, vec![(files_driver(), true), (shared_kafka_driver(), true)])];
    let kafka_first =
        [subscription(true, vec![(shared_kafka_driver(), true), (files_driver(), true)])];
    for subscriptions in [&files_first, &kafka_first] {
        let calls = Cell::new(0);
        let mut context = Context::new(&settings(600));
        let result: Result<(), String> = context.initialize_missing(
            subscriptions,
            || {
                assert_eq!(calls.replace(1), 0);
                vec![]
            },
            |_: &KafkaSettings| {
                assert_eq!(calls.replace(2), 1);
                Ok("client".to_string())
            },
        );
        assert_eq!(result, Ok(()));
        assert_eq!(calls.get(), 2);
    }
}

#[test]
fn initialization_again_calls_nothing() {
    let subscriptions =
        [subscription(true, vec![(files_driver(), true), (shared_kafka_driver(), true)])];
    let mut context = Context::new(&settings(600));
    initialize(&mut context, &subscriptions).unwrap();
    let result: Result<(), String> = context.initialize_missing(
        &subscriptions,
        || panic!("the files context is there"),
        |_: &KafkaSettings| panic!("the Kafka context is there"),
    );
    assert_eq!(result, Ok(()));
    assert_eq!(
        contexts(&mut context),
        (Some(vec!["created".to_string()]), Some("localhost:9092".to_string()))
    );
}

#[test]
fn initialization_adds_to_what_is_there() {
    let mut context = Context::new(&settings(600));
    initialize(&mut context, &[subscription(true, vec![(files_driver(), true)])]).unwrap();
    let result: Result<(), String> = context.initialize_missing(
        &[subscription(true, vec![(files_driver(), true), (shared_kafka_driver(), true)])],
        || panic!("the files context is there"),
        |_: &KafkaSettings| Ok("client".to_string()),
    );
    assert_eq!(result, Ok(()));
    assert_eq!(
        contexts(&mut context),
        (Some(vec!["created".to_string()]), Some("client".to_string()))
    );
}

#[test]
fn failed_initialization_keeps_files_and_can_be_retried() {
    let subscriptions =
        [subscription(true, vec![(shared_kafka_driver(), true), (files_driver(), true)])];
    let mut context = Context::new(&settings(600));
    let result: anyhow::Result<()> = context.initialize_missing(
        &subscriptions,
        || vec!["first".to_string()],
        |_: &KafkaSettings| Err(anyhow::Error::msg("no broker")),
    );
    assert_eq!(result.unwrap_err().to_string(), "no broker");
    assert_eq!(contexts(&mut context), (Some(vec!["first".to_string()]), None));

    initialize(&mut context, &subscriptions).unwrap();
    assert_eq!(
        contexts(&mut context),
        (Some(vec!["first".to_string()]), Some("localhost:9092".to_string()))
    );
}

#[test]
fn initialized_contexts_serve_every_output() {
    let subscriptions = [
        subscription(true, vec![(tcp_driver(), true), (shared_kafka_driver(), true)]),
        subscription(true, vec![(own_kafka_driver(), true), (files_driver(), true)]),
    ];
    let mut context = Context::new(&settings(600));
    initialize(&mut context, &subscriptions).unwrap();
    for subscription in &subscriptions {
        for output in subscription.outputs() {
            let opened: Result<Output<()>, &str> = Output::new(
                output.format(),
                output.driver(),
                &mut context,
                |request: DriverRequest<'_, Vec<String>, String>| match request {
                    DriverRequest::Files(_, None) => Err("no files context"),
                    DriverRequest::Kafka(config, None) if config.options().is_empty() => {
                        Err("no Kafka context")
                    }
                    _ => Ok(()),
                },
            );
            assert!(opened.is_ok());
        }
    }
}

#[test]
fn clearing_reaches_only_the_files_context() {
    let mut context = Context::new(&settings(600));
    context.clear(|_: &mut Vec<String>| panic!("there is no files context"));
    assert_eq!(contexts(&mut context), (None, None));

    initialize(
        &mut context,
        &[subscription(true, vec![(files_driver(), true), (shared_kafka_driver(), true)])],
    )
    .unwrap();
    context.clear(|files: &mut Vec<String>| files.clear());
    assert_eq!(contexts(&mut context), (Some(vec![]), Some("localhost:9092".to_string())));
}

#[test]
fn clearing_keeps_contexts_initialized() {
    let subscriptions = [subscription(true, vec![(files_driver(), true)])];
    let mut context = Context::new(&settings(600));
    initialize(&mut context, &subscriptions).unwrap();
    context.clear(|files: &mut Vec<String>| files.clear());
    initialize(&mut context, &subscriptions).unwrap();
    assert_eq!(contexts(&mut context), (Some(vec![]), None));
}

#[test]
fn garbage_collection_uses_the_timeout_it_is_given() {
    let mut context = Context::new(&settings(600));
    let result: Result<(), String> = context.garbage_collect(
        &settings(30),
        |_: &mut Vec<String>, _: u64| panic!("there is no files context"),
    );
    assert_eq!(result, Ok(()));

    initialize(&mut context, &[subscription(true, vec![(files_driver(), true)])]).unwrap();
    let seen = Cell::new(0);
    let result: Result<(), String> =
        context.garbage_collect(&settings(30), |files: &mut Vec<String>, timeout: u64| {
            seen.set(timeout);
            files.push(format!("older than {}", timeout));
        });
    assert_eq!(result, Ok(()));
    assert_eq!(seen.get(), 30);
    assert_eq!(
        contexts(&mut context),
        (Some(vec!["created".to_string(), "older than 30".to_string()]), None)
    );
}

#[test]
fn settings_and_kafka_outlive_other_calls() {
    let mut context = Context::new(&settings(600));
    initialize(&mut context, &[subscription(true, vec![(files_driver(), true)])]).unwrap();
    context.clear(|_: &mut Vec<String>| {});
    let _: Result<(), String> =
        context.garbage_collect(&settings(30), |_: &mut Vec<String>, _: u64| {});
    initialize(&mut context, &[subscription(true, vec![(shared_kafka_driver(), true)])]).unwrap();
    initialize(&mut context, &[]).unwrap();
    assert_eq!(
        contexts(&mut context),
        (Some(vec!["created".to_string()]), Some("localhost:9092".to_string()))
    );
}
