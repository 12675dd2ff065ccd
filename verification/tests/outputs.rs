use openwec_output::output::{
    get_formatter, DriverRequest, Formatters, Output, OutputDriver, OutputDriversContext,
    OutputFormat,
};
use openwec_output::settings::{FilesSettings, KafkaSettings, Outputs};
use openwec_output::subscription::{
    FilesConfiguration, KafkaConfiguration, OtlpConfiguration, RedisConfiguration,
    SubscriptionOutputDriver, SubscriptionOutputFormat, TcpConfiguration,
    UnixDatagramConfiguration,
};
use openwec_output::text::{layout_driver, quote_driver, write_decimal, write_description};
use std::sync::{Arc, Mutex};

const FORMATS: [SubscriptionOutputFormat; 4] = [
    SubscriptionOutputFormat::Json,
    SubscriptionOutputFormat::Raw,
    SubscriptionOutputFormat::RawJson,
    SubscriptionOutputFormat::Nxlog,
];

fn context() -> OutputDriversContext<u8, u8> {
    OutputDriversContext::new(&Outputs {
        files: FilesSettings { files_descriptor_close_timeout: 600 },
        kafka: KafkaSettings { options: vec![] },
    })
}

fn files(path: &str) -> SubscriptionOutputDriver {
    SubscriptionOutputDriver::Files(FilesConfiguration::new(path.to_string()))
}

fn kafka(options: &[(&str, &str)]) -> SubscriptionOutputDriver {
    SubscriptionOutputDriver::Kafka(KafkaConfiguration::new(
        "events".to_string(),
        options.iter().map(|(name, value)| (name.to_string(), value.to_string())).collect(),
    ))
}

fn drivers() -> Vec<SubscriptionOutputDriver> {
    vec![
        files("/var/events/{client}/messages"),
        files("tab\tquote\"backslash\\ é"),
        kafka(&[]),
        kafka(&[("bootstrap.servers", "kafka:9092")]),
        kafka(&[("bootstrap.servers", "kafka:9092"), ("acks", "all"), ("a\nb", "\u{7f}")]),
        SubscriptionOutputDriver::Tcp(TcpConfiguration { host: "siem".to_string(), port: 0 }),
        SubscriptionOutputDriver::Tcp(TcpConfiguration { host: "siem".to_string(), port: 514 }),
        SubscriptionOutputDriver::Tcp(TcpConfiguration { host: "::1".to_string(), port: 65535 }),
        SubscriptionOutputDriver::Redis(RedisConfiguration {
            addr: "redis://localhost".to_string(),
            list: "events".to_string(),
        }),
        SubscriptionOutputDriver::UnixDatagram(UnixDatagramConfiguration {
            path: "/run/events.sock".to_string(),
        }),
        SubscriptionOutputDriver::Otlp(OtlpConfiguration {
            endpoint: "http://collector:4317".to_string(),
        }),
    ]
}

fn open(format: SubscriptionOutputFormat, driver: &SubscriptionOutputDriver) -> Output<()> {
    Output::new(&format, driver, &mut context(), |_: DriverRequest<'_, u8, u8>| {
        Ok::<(), String>(())
    })
    .unwrap()
}

struct Recorder {
    name: &'static str,
    batches: Mutex<Vec<(String, Vec<String>)>>,
}

impl Recorder {
    fn new(name: &'static str) -> Self {
        Recorder { name, batches: Mutex::new(vec![]) }
    }
}

impl OutputDriver<Arc<String>> for Recorder {
    type Written = (&'static str, usize);

    fn write(&self, metadata: Arc<String>, events: Arc<Vec<Arc<String>>>) -> Self::Written {
        let mut batches = self.batches.lock().unwrap();
        let lines: Vec<String> = events.iter().map(|event| event.to_string()).collect();
        batches.push((metadata.to_string(), lines));
        (self.name, batches.len())
    }
}

fn recorder(name: &'static str) -> Output<Recorder> {
    Output::new(
        &SubscriptionOutputFormat::Raw,
        &files("/events"),
        &mut context(),
        |_: DriverRequest<'_, u8, u8>| Ok::<Recorder, String>(Recorder::new(name)),
    )
    .unwrap()
}

fn batch(events: &[&str]) -> Arc<Vec<Arc<String>>> {
    Arc::new(events.iter().map(|event| Arc::new(event.to_string())).collect())
}

#[test]
fn text_of_driver_is_its_debug_form() {
    for driver in drivers() {
        assert_eq!(open(SubscriptionOutputFormat::Raw, &driver).driver(), format!("{:?}", driver));
    }
}

#[test]
fn description_is_made_of_debug_forms() {
    for format in FORMATS {
        for driver in drivers() {
            assert_eq!(
                open(format, &driver).describe(),
                format!("format: {:?}, driver: {:?}", format, driver)
            );
        }
    }
}

#[test]
fn descriptions_written_out() {
    assert_eq!(
        open(SubscriptionOutputFormat::RawJson, &files("/a\"b")).describe(),
        r#"format: RawJson, driver: Files(FilesConfiguration { path: "/a\"b" })"#
    );
    assert_eq!(
        open(SubscriptionOutputFormat::Nxlog, &kafka(&[("x", "1"), ("y", "2")])).driver(),
        r#"Kafka(KafkaConfiguration { topic: "events", options: [("x", "1"), ("y", "2")] })"#
    );
    assert_eq!(
        open(
            SubscriptionOutputFormat::Json,
            &SubscriptionOutputDriver::Tcp(TcpConfiguration {
                host: "siem".to_string(),
                port: 514
            })
        )
        .driver(),
        r#"Tcp(TcpConfiguration { host: "siem", port: 514 })"#
    );
}

#[test]
fn description_holds_format_and_driver() {
    for format in FORMATS {
        for driver in drivers() {
            let output = open(format, &driver);
            assert!(output.describe().ends_with(&output.driver()));
            assert!(output.describe().starts_with(&format!("format: {:?}", format)));
        }
    }
}

#[test]
fn quoting_replaces_each_string_by_its_literal() {
    assert_eq!(quote_driver(&files("a\tb")), files("\"a\\tb\""));
    assert_eq!(
        quote_driver(&kafka(&[("x", "\"")])),
        SubscriptionOutputDriver::Kafka(KafkaConfiguration::new(
            "\"events\"".to_string(),
            vec![("\"x\"".to_string(), "\"\\\"\"".to_string())],
        ))
    );
}

#[test]
fn layout_takes_strings_as_they_are() {
    assert_eq!(layout_driver(&files("a\tb")), "Files(FilesConfiguration { path: a\tb })");
    assert_eq!(
        layout_driver(&SubscriptionOutputDriver::Otlp(OtlpConfiguration {
            endpoint: "".to_string()
        })),
        "Otlp(OtlpConfiguration { endpoint:  })"
    );
    assert_eq!(
        write_description(SubscriptionOutputFormat::Raw, "anything"),
        "format: Raw, driver: anything"
    );
}

#[test]
fn numbers_are_written_in_decimal() {
    assert_eq!(write_decimal(0), "0");
    assert_eq!(write_decimal(9), "9");
    assert_eq!(write_decimal(10), "10");
    assert_eq!(write_decimal(10000), "10000");
    for n in 0..=u16::MAX {
        assert_eq!(write_decimal(n), n.to_string());
    }
}

/// A driver whose writes give what it was built from.
struct Built(SubscriptionOutputDriver);

impl OutputDriver<()> for Built {
    type Written = SubscriptionOutputDriver;

    fn write(&self, _: (), _: Arc<Vec<Arc<String>>>) -> Self::Written {
        self.0.clone()
    }
}

#[test]
fn each_driver_is_built_from_its_configuration() {
    for driver in drivers() {
        let output: Output<Built> = Output::new(
            &SubscriptionOutputFormat::Raw,
            &driver,
            &mut context(),
            |request: DriverRequest<'_, u8, u8>| {
                Ok::<Built, String>(Built(match request {
                    DriverRequest::Files(config, context) => {
                        assert_eq!(*context, None);
                        files(config.path())
                    }
                    DriverRequest::Kafka(config, context) => {
                        assert_eq!(*context, None);
                        SubscriptionOutputDriver::Kafka(KafkaConfiguration::new(
                            config.topic.clone(),
                            config.options().clone(),
                        ))
                    }
                    DriverRequest::Tcp(config) => {
                        SubscriptionOutputDriver::Tcp(TcpConfiguration {
                            host: config.host.clone(),
                            port: config.port,
                        })
                    }
                    DriverRequest::Redis(config) => {
                        SubscriptionOutputDriver::Redis(RedisConfiguration {
                            addr: config.addr.clone(),
                            list: config.list.clone(),
                        })
                    }
                    DriverRequest::UnixDatagram(config) => {
                        SubscriptionOutputDriver::UnixDatagram(UnixDatagramConfiguration {
                            path: config.path.clone(),
                        })
                    }
                    DriverRequest::Otlp(config) => {
                        SubscriptionOutputDriver::Otlp(OtlpConfiguration {
                            endpoint: config.endpoint.clone(),
                        })
                    }
                }))
            },
        )
        .unwrap();
        // The open driver is the one that was built, from this configuration.
        assert_eq!(output.write((), batch(&[])), driver);
    }
}

#[test]
fn error_of_the_driver_is_passed_on() {
    for driver in drivers() {
        let result: anyhow::Result<Output<()>> = Output::new(
            &SubscriptionOutputFormat::Raw,
            &driver,
            &mut context(),
            |_: DriverRequest<'_, u8, u8>| Err(anyhow::Error::msg("cannot open")),
        );
        match result {
            Ok(_) => panic!("an output without a driver"),
            Err(error) => assert_eq!(error.to_string(), "cannot open"),
        }
    }
}

#[test]
fn output_reports_its_format() {
    for format in FORMATS {
        assert_eq!(*open(format, &files("/events")).format(), format);
    }
}

#[test]
fn batches_reach_the_driver_unchanged() {
    let driver = Arc::new(Recorder::new("shared"));
    struct Shared(Arc<Recorder>);
    impl OutputDriver<Arc<String>> for Shared {
        type Written = (&'static str, usize);

        fn write(&self, metadata: Arc<String>, events: Arc<Vec<Arc<String>>>) -> Self::Written {
            self.0.write(metadata, events)
        }
    }
    let output = Output::new(
        &SubscriptionOutputFormat::Raw,
        &files("/events"),
        &mut context(),
        |_: DriverRequest<'_, u8, u8>| Ok::<Shared, String>(Shared(driver.clone())),
    )
    .unwrap();
    let written = output.write(Arc::new("WIN10".to_string()), batch(&["a", "b", "a"]));
    assert_eq!(written, ("shared", 1));
    output.write(Arc::new("WIN11".to_string()), batch(&[]));
    assert_eq!(
        *driver.batches.lock().unwrap(),
        vec![
            ("WIN10".to_string(), vec!["a".to_string(), "b".to_string(), "a".to_string()]),
            ("WIN11".to_string(), vec![]),
        ]
    );
}

#[test]
fn a_batch_is_handed_over_once() {
    // Metadata that cannot be copied.
    struct Ticket(u32);
    struct Counter(Arc<Mutex<Vec<(u32, usize)>>>);
    impl OutputDriver<Ticket> for Counter {
        type Written = anyhow::Result<()>;

        fn write(&self, ticket: Ticket, events: Arc<Vec<Arc<String>>>) -> Self::Written {
            self.0.lock().unwrap().push((ticket.0, events.len()));
            if events.is_empty() {
                Err(anyhow::Error::msg("nothing to write"))
            } else {
                Ok(())
            }
        }
    }
    let writes = Arc::new(Mutex::new(vec![]));
    let output = Output::new(
        &SubscriptionOutputFormat::Raw,
        &files("/events"),
        &mut context(),
        |_: DriverRequest<'_, u8, u8>| Ok::<Counter, String>(Counter(writes.clone())),
    )
    .unwrap();
    assert!(output.write(Ticket(1), batch(&["a", "b"])).is_ok());
    assert_eq!(*writes.lock().unwrap(), vec![(1, 2)]);
    // A write that fails is not tried again.
    let error = output.write(Ticket(2), batch(&[])).unwrap_err();
    assert_eq!(error.to_string(), "nothing to write");
    assert_eq!(*writes.lock().unwrap(), vec![(1, 2), (2, 0)]);
}

#[test]
fn copies_of_an_output_share_the_driver() {
    let output = recorder("one");
    let copy = output.clone();
    assert_eq!(output.write(Arc::new("m".to_string()), batch(&["a"])), ("one", 1));
    assert_eq!(copy.write(Arc::new("m".to_string()), batch(&["b"])), ("one", 2));
    assert_eq!(copy.describe(), output.describe());
    assert_eq!(copy.format(), output.format());
}

struct Tagged(&'static str);

impl OutputFormat<String, String> for Tagged {
    fn format(&self, metadata: &String, data: &String) -> Option<Arc<String>> {
        if data.is_empty() {
            None
        } else {
            Some(Arc::new(format!("{} {} {}", self.0, metadata, data)))
        }
    }
}

#[test]
fn each_format_has_its_formatter() {
    let formatters: Formatters<Box<dyn OutputFormat<String, String>>> = Formatters {
        json: Box::new(Tagged("json")),
        raw: Box::new(Tagged("raw")),
        raw_json: Box::new(Tagged("raw_json")),
        nxlog: Box::new(Tagged("nxlog")),
    };
    let texts: Vec<String> = FORMATS
        .iter()
        .map(|format| {
            get_formatter(format, &formatters)
                .format(&"m".to_string(), &"d".to_string())
                .unwrap()
                .to_string()
        })
        .collect();
    assert_eq!(texts, vec!["json m d", "raw m d", "raw_json m d", "nxlog m d"]);
    assert!(get_formatter(&SubscriptionOutputFormat::Raw, &formatters)
        .format(&"m".to_string(), &"".to_string())
        .is_none());
}
