//! Subscriptions, as far as outputs are concerned.

use crate::settings::{clone_options, option_views};
use vstd::prelude::*;

verus! {

/// Where the files driver writes.
#[derive(Debug, PartialEq, Eq)]
pub struct FilesConfiguration {
    /// Path of the file, which may hold placeholders such as `{client}`.
    pub path: String,
}

impl FilesConfiguration {
    pub fn new(path: String) -> (configuration: Self)
        ensures
            configuration.path == path,
    {
        FilesConfiguration { path }
    }

    pub fn path(&self) -> (path: &str)
        ensures
            path@ == self.path@,
    {
        self.path.as_str()
    }
}

/// Where the Kafka driver publishes.
#[derive(Debug, PartialEq, Eq)]
pub struct KafkaConfiguration {
    pub topic: String,
    /// Options of a client of its own. When there are none, the output uses the
    /// client that all such outputs share.
    pub options: Vec<(String, String)>,
}

impl KafkaConfiguration {
    pub fn new(topic: String, options: Vec<(String, String)>) -> (configuration: Self)
        ensures
            configuration.topic == topic,
            configuration.options == options,
    {
        KafkaConfiguration { topic, options }
    }

    pub fn options(&self) -> (options: &Vec<(String, String)>)
        ensures
            *options == self.options,
    {
        &self.options
    }
}

/// The peer of the TCP driver.
#[derive(Debug, PartialEq, Eq)]
pub struct TcpConfiguration {
    pub host: String,
    pub port: u16,
}

/// The list that the Redis driver appends to.
#[derive(Debug, PartialEq, Eq)]
pub struct RedisConfiguration {
    pub addr: String,
    pub list: String,
}

/// The socket that the Unix datagram driver sends to.
#[derive(Debug, PartialEq, Eq)]
pub struct UnixDatagramConfiguration {
    pub path: String,
}

/// The collector that the OpenTelemetry driver exports to.
#[derive(Debug, PartialEq, Eq)]
pub struct OtlpConfiguration {
    pub endpoint: String,
}

/// The driver of an output, with its configuration.
#[derive(Debug, PartialEq, Eq)]
pub enum SubscriptionOutputDriver {
    Files(FilesConfiguration),
    Kafka(KafkaConfiguration),
    Tcp(TcpConfiguration),
    Redis(RedisConfiguration),
    UnixDatagram(UnixDatagramConfiguration),
    Otlp(OtlpConfiguration),
}

/// What a [`SubscriptionOutputDriver`] holds.
#[verifier::ext_equal]
pub enum DriverView {
    Files { path: Seq<char> },
    Kafka { topic: Seq<char>, options: Seq<(Seq<char>, Seq<char>)> },
    Tcp { host: Seq<char>, port: u16 },
    Redis { addr: Seq<char>, list: Seq<char> },
    UnixDatagram { path: Seq<char> },
    Otlp { endpoint: Seq<char> },
}

impl View for SubscriptionOutputDriver {
    type V = DriverView;

    open spec fn view(&self) -> DriverView {
        match *self {
            SubscriptionOutputDriver::Files(config) => DriverView::Files { path: config.path@ },
            SubscriptionOutputDriver::Kafka(config) => DriverView::Kafka {
                topic: config.topic@,
                options: option_views(config.options@),
            },
            SubscriptionOutputDriver::Tcp(config) => DriverView::Tcp {
                host: config.host@,
                port: config.port,
            },
            SubscriptionOutputDriver::Redis(config) => DriverView::Redis {
                addr: config.addr@,
                list: config.list@,
            },
            SubscriptionOutputDriver::UnixDatagram(config) => DriverView::UnixDatagram {
                path: config.path@,
            },
            SubscriptionOutputDriver::Otlp(config) => DriverView::Otlp {
                endpoint: config.endpoint@,
            },
        }
    }
}

impl Clone for SubscriptionOutputDriver {
    fn clone(&self) -> (copy: Self)
        ensures
            copy@ == self@,
    {
        match self {
            SubscriptionOutputDriver::Files(config) => SubscriptionOutputDriver::Files(
                FilesConfiguration { path: config.path.clone() },
            ),
            SubscriptionOutputDriver::Kafka(config) => SubscriptionOutputDriver::Kafka(
                KafkaConfiguration {
                    topic: config.topic.clone(),
                    options: clone_options(&config.options),
                },
            ),
            SubscriptionOutputDriver::Tcp(config) => SubscriptionOutputDriver::Tcp(
                TcpConfiguration { host: config.host.clone(), port: config.port },
            ),
            SubscriptionOutputDriver::Redis(config) => SubscriptionOutputDriver::Redis(
                RedisConfiguration { addr: config.addr.clone(), list: config.list.clone() },
            ),
            SubscriptionOutputDriver::UnixDatagram(config) => SubscriptionOutputDriver::UnixDatagram(
                UnixDatagramConfiguration { path: config.path.clone() },
            ),
            SubscriptionOutputDriver::Otlp(config) => SubscriptionOutputDriver::Otlp(
                OtlpConfiguration { endpoint: config.endpoint.clone() },
            ),
        }
    }
}

/// How events are written out.
#[derive(Clone, Copy, Debug, PartialEq, Eq, Structural)]
pub enum SubscriptionOutputFormat {
    Json,
    Raw,
    RawJson,
    Nxlog,
}

/// One output of a subscription.
#[derive(Debug, PartialEq, Eq)]
pub struct SubscriptionOutput {
    pub format: SubscriptionOutputFormat,
    pub driver: SubscriptionOutputDriver,
    pub enabled: bool,
}

/// What a [`SubscriptionOutput`] holds.
#[verifier::ext_equal]
pub struct SubscriptionOutputView {
    pub format: SubscriptionOutputFormat,
    pub driver: DriverView,
    pub enabled: bool,
}

impl View for SubscriptionOutput {
    type V = SubscriptionOutputView;

    open spec fn view(&self) -> SubscriptionOutputView {
        SubscriptionOutputView {
            format: self.format,
            driver: self.driver@,
            enabled: self.enabled,
        }
    }
}

impl SubscriptionOutput {
    pub fn new(
        format: SubscriptionOutputFormat,
        driver: SubscriptionOutputDriver,
        enabled: bool,
    ) -> (output: Self)
        ensures
            output.format == format,
            output.driver == driver,
            output.enabled == enabled,
    {
        SubscriptionOutput { format, driver, enabled }
    }

    pub fn format(&self) -> (format: &SubscriptionOutputFormat)
        ensures
            *format == self.format,
    {
        &self.format
    }

    pub fn driver(&self) -> (driver: &SubscriptionOutputDriver)
        ensures
            *driver == self.driver,
    {
        &self.driver
    }

    pub fn enabled(&self) -> (enabled: bool)
        ensures
            enabled == self.enabled,
    {
        self.enabled
    }
}

/// A subscription: whether it is served at all, and its outputs.
#[derive(Debug, PartialEq, Eq)]
pub struct SubscriptionData {
    pub active: bool,
    pub outputs: Vec<SubscriptionOutput>,
}

/// What a [`SubscriptionData`] holds.
#[verifier::ext_equal]
pub struct SubscriptionView {
    pub active: bool,
    pub outputs: Seq<SubscriptionOutputView>,
}

impl View for SubscriptionData {
    type V = SubscriptionView;

    open spec fn view(&self) -> SubscriptionView {
        SubscriptionView {
            active: self.active,
            outputs: self.outputs@.map_values(|output: SubscriptionOutput| output@),
        }
    }
}

/// What a list of subscriptions holds.
pub open spec fn subscription_views(subscriptions: Seq<SubscriptionData>) -> Seq<SubscriptionView> {
    subscriptions.map_values(|subscription: SubscriptionData| subscription@)
}

impl SubscriptionData {
    /// A subscription without outputs.
    pub fn new(active: bool) -> (subscription: Self)
        ensures
            subscription@ == (SubscriptionView { active, outputs: Seq::empty() }),
            subscription.active == active,
            subscription.outputs@ == Seq::<SubscriptionOutput>::empty(),
    {
        let subscription = SubscriptionData { active, outputs: Vec::new() };
        assert(subscription@.outputs =~= Seq::empty());
        subscription
    }

    pub fn add_output(&mut self, output: SubscriptionOutput)
        ensures
            final(self)@.active == old(self)@.active,
            final(self)@.outputs == old(self)@.outputs.push(output@),
            final(self).active == old(self).active,
            final(self).outputs@ == old(self).outputs@.push(output),
    {
        self.outputs.push(output);
        assert(self@.outputs =~= old(self)@.outputs.push(output@));
    }

    pub fn is_active(&self) -> (active: bool)
        ensures
            active == self.active,
    {
        self.active
    }

    pub fn outputs(&self) -> (outputs: &Vec<SubscriptionOutput>)
        ensures
            *outputs == self.outputs,
    {
        &self.outputs
    }
}

} // verus!
