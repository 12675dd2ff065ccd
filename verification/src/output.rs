//! The contexts that output drivers share, and the outputs themselves.
//!
//! Opening a driver or a context does I/O, so that work is handed in as
//! functions. What this module decides is when each of them is called, what it
//! is given, and where its result goes.

use crate::settings::{KafkaSettings, Outputs};
use crate::subscription::{
    DriverView, FilesConfiguration, KafkaConfiguration, OtlpConfiguration, RedisConfiguration,
    SubscriptionData, SubscriptionOutputDriver, SubscriptionOutputFormat, SubscriptionOutputView,
    SubscriptionView, TcpConfiguration, UnixDatagramConfiguration, subscription_views,
};
use crate::text::{description, driver_text, write_description, write_driver};
use std::sync::Arc;
use vstd::prelude::*;

verus! {

/// Whether an output needs the files context: it is enabled and uses the files
/// driver.
pub open spec fn output_needs_files(output: SubscriptionOutputView) -> bool {
    output.enabled && output.driver is Files
}

/// Whether an output needs the Kafka context: it is enabled, uses the Kafka
/// driver, and configures no Kafka options of its own.
pub open spec fn output_needs_kafka(output: SubscriptionOutputView) -> bool {
    &&& output.enabled
    &&& output.driver matches DriverView::Kafka { topic, options }
    &&& options.len() == 0
}

/// Whether some output of an active subscription is one that `wanted` holds of.
pub open spec fn some_output(
    subscriptions: Seq<SubscriptionView>,
    wanted: spec_fn(SubscriptionOutputView) -> bool,
) -> bool {
    exists|i: int, j: int|
        {
            &&& 0 <= i < subscriptions.len()
            &&& subscriptions[i].active
            &&& 0 <= j < subscriptions[i].outputs.len()
            &&& wanted(#[trigger] subscriptions[i].outputs[j])
        }
}

/// Whether some output of an active subscription needs the files context.
pub open spec fn needs_files(subscriptions: Seq<SubscriptionView>) -> bool {
    some_output(subscriptions, |output: SubscriptionOutputView| output_needs_files(output))
}

/// Whether some output of an active subscription needs the Kafka context.
pub open spec fn needs_kafka(subscriptions: Seq<SubscriptionView>) -> bool {
    some_output(subscriptions, |output: SubscriptionOutputView| output_needs_kafka(output))
}

/// The contexts that drivers share: `F` is that of the files driver, `K` that
/// of the Kafka driver.
pub struct OutputDriversContext<F, K> {
    settings: Outputs,
    files: Option<F>,
    kafka: Option<K>,
}

/// What an [`OutputDriversContext`] holds.
pub struct ContextView<F, K> {
    pub settings: Outputs,
    pub files: Option<F>,
    pub kafka: Option<K>,
}

impl<F, K> View for OutputDriversContext<F, K> {
    type V = ContextView<F, K>;

    closed spec fn view(&self) -> ContextView<F, K> {
        ContextView { settings: self.settings, files: self.files, kafka: self.kafka }
    }
}

impl<F, K> OutputDriversContext<F, K> {
    /// The view holds the contexts and the settings themselves.
    proof fn law_view_holds_what_is_stored(self)
        ensures
            self@.settings == self.settings,
            self@.files == self.files,
            self@.kafka == self.kafka,
    {
    }
}

/// What initializing the missing contexts makes of `pre`. `files_made` holds of
/// the values that creating a files context may give, `kafka_made` of those that
/// creating a Kafka context may.
///
/// A context is created exactly when it is needed and not there yet. The files
/// context comes first, and stays when the Kafka context cannot be created.
pub open spec fn initialized<F, K, E>(
    pre: ContextView<F, K>,
    subscriptions: Seq<SubscriptionView>,
    files_made: spec_fn(F) -> bool,
    kafka_made: spec_fn(Result<K, E>) -> bool,
    post: ContextView<F, K>,
    result: Result<(), E>,
) -> bool {
    &&& post.settings == pre.settings
    &&& if pre.files is None && needs_files(subscriptions) {
        post.files matches Some(files) && files_made(files)
    } else {
        post.files == pre.files
    }
    &&& if pre.kafka is None && needs_kafka(subscriptions) {
        match result {
            Ok(()) => post.kafka matches Some(kafka) && kafka_made(Ok(kafka)),
            Err(error) => post.kafka is None && kafka_made(Err(error)),
        }
    } else {
        result is Ok && post.kafka == pre.kafka
    }
}

/// What a call on the files context makes of `pre`: nothing when there is none,
/// and otherwise only the files context changes. `called` relates the values
/// that the call may take the files context from and to.
pub open spec fn files_visited<F, K>(
    pre: ContextView<F, K>,
    called: spec_fn(F, F) -> bool,
    post: ContextView<F, K>,
) -> bool {
    &&& post.settings == pre.settings
    &&& post.kafka == pre.kafka
    &&& match pre.files {
        None => post.files is None,
        Some(before) => post.files matches Some(after) && called(before, after),
    }
}

impl<F, K> OutputDriversContext<F, K> {
    /// No context is there yet.
    pub fn new(settings: &Outputs) -> (context: Self)
        ensures
            context@.settings@ == settings@,
            context@.settings.files == settings.files,
            context@.settings.kafka.options@ == settings.kafka.options@,
            context@.files is None,
            context@.kafka is None,
    {
        OutputDriversContext { settings: settings.clone(), files: None, kafka: None }
    }

    /// Creates the contexts that the outputs of `subscriptions` need and that
    /// are not there yet.
    ///
    /// - The files context, by `new_files`, if at least one output uses the
    ///   files driver.
    /// - The Kafka context, by `new_kafka` from the Kafka settings, if at least
    ///   one output uses the Kafka driver and configures no options of its own.
    ///
    /// Neither function is called when its context is not missing, and where both
    /// are, `new_files` is called first.
    pub fn initialize_missing<E, NewFiles, NewKafka>(
        &mut self,
        subscriptions: &[SubscriptionData],
        new_files: NewFiles,
        new_kafka: NewKafka,
    ) -> (result: Result<(), E>) where
        NewFiles: FnOnce() -> F,
        NewKafka: FnOnce(&KafkaSettings) -> Result<K, E>,

        requires
            old(self)@.files is None && needs_files(subscription_views(subscriptions@))
                ==> new_files.requires(()),
            // The Kafka context may be created only once a missing files context is.
            old(self)@.kafka is None && needs_kafka(subscription_views(subscriptions@)) && (
            old(self)@.files is None && needs_files(subscription_views(subscriptions@))
                ==> exists|files: F| new_files.ensures((), files)) ==> new_kafka.requires(
                (&old(self)@.settings.kafka,),
            ),
        ensures
            initialized(
                old(self)@,
                subscription_views(subscriptions@),
                |files: F| new_files.ensures((), files),
                |kafka: Result<K, E>| new_kafka.ensures((&old(self)@.settings.kafka,), kafka),
                final(self)@,
                result,
            ),
    {
        if Self::need_files_context(subscriptions) && self.files.is_none() {
            self.files = Some(new_files());
        }
        if Self::need_kafka_context(subscriptions) && self.kafka.is_none() {
            match new_kafka(self.settings.kafka()) {
                Ok(kafka) => {
                    self.kafka = Some(kafka);
                },
                Err(error) => {
                    return Err(error);
                },
            }
        }
        Ok(())
    }

    /// Whether some output of an active subscription needs the files context.
    pub fn need_files_context(subscriptions: &[SubscriptionData]) -> (needed: bool)
        ensures
            needed == needs_files(subscription_views(subscriptions@)),
    {
        let ghost views = subscription_views(subscriptions@);
        for i in 0..subscriptions.len()
            invariant
                views == subscription_views(subscriptions@),
                forall|k: int, j: int|
                    0 <= k < i && views[k].active && 0 <= j < views[k].outputs.len()
                        ==> !output_needs_files(#[trigger] views[k].outputs[j]),
        {
            let subscription = &subscriptions[i];
            assert(views[i as int] == subscription@);
            if subscription.is_active() {
                let outputs = subscription.outputs();
                for j in 0..outputs.len()
                    invariant
                        i < subscriptions@.len(),
                        views == subscription_views(subscriptions@),
                        views[i as int] == subscription@,
                        *subscription == subscriptions@[i as int],
                        *outputs == subscription.outputs,
                        subscription.active,
                        forall|l: int|
                            0 <= l < j ==> !output_needs_files(
                                #[trigger] views[i as int].outputs[l],
                            ),
                {
                    let output = &outputs[j];
                    assert(views[i as int].outputs[j as int] == output@);
                    if output.enabled() {
                        if let SubscriptionOutputDriver::Files(_) = output.driver() {
                            assert(output_needs_files(views[i as int].outputs[j as int]));
                            return true;
                        }
                    }
                }
            }
        }
        false
    }

    /// Whether some output of an active subscription needs the Kafka context.
    pub fn need_kafka_context(subscriptions: &[SubscriptionData]) -> (needed: bool)
        ensures
            needed == needs_kafka(subscription_views(subscriptions@)),
    {
        let ghost views = subscription_views(subscriptions@);
        for i in 0..subscriptions.len()
            invariant
                views == subscription_views(subscriptions@),
                forall|k: int, j: int|
                    0 <= k < i && views[k].active && 0 <= j < views[k].outputs.len()
                        ==> !output_needs_kafka(#[trigger] views[k].outputs[j]),
        {
            let subscription = &subscriptions[i];
            assert(views[i as int] == subscription@);
            if subscription.is_active() {
                let outputs = subscription.outputs();
                for j in 0..outputs.len()
                    invariant
                        i < subscriptions@.len(),
                        views == subscription_views(subscriptions@),
                        views[i as int] == subscription@,
                        *subscription == subscriptions@[i as int],
                        *outputs == subscription.outputs,
                        subscription.active,
                        forall|l: int|
                            0 <= l < j ==> !output_needs_kafka(
                                #[trigger] views[i as int].outputs[l],
                            ),
                {
                    let output = &outputs[j];
                    assert(views[i as int].outputs[j as int] == output@);
                    if let SubscriptionOutputDriver::Kafka(config) = output.driver() {
                        if output.enabled() && config.options().is_empty() {
                            assert(output_needs_kafka(views[i as int].outputs[j as int]));
                            return true;
                        }
                    }
                }
            }
        }
        false
    }

    /// Clears the files context, by `clear_files`, if there is one.
    pub fn clear<Clear>(&mut self, clear_files: Clear) where Clear: FnOnce(&mut F)
        requires
            old(self)@.files matches Some(files) ==> forall|m: &mut F|
                *m == files ==> #[trigger] clear_files.requires((m,)),
        ensures
            files_visited(
                old(self)@,
                |before: F, after: F|
                    exists|m: &mut F|
                        *m == before && *final(m) == after && #[trigger] clear_files.ensures(
                            (m,),
                            (),
                        ),
                final(self)@,
            ),
    {
        if let Some(files) = &mut self.files {
            clear_files(files);
        }
    }

    /// Lets the files context, if there is one, release what it has not used
    /// for the timeout that `settings` gives, by `collect_files`. Never fails.
    pub fn garbage_collect<E, Collect>(
        &mut self,
        settings: &Outputs,
        collect_files: Collect,
    ) -> (result: Result<(), E>) where Collect: FnOnce(&mut F, u64)
        requires
            old(self)@.files matches Some(files) ==> forall|m: &mut F|
                *m == files ==> #[trigger] collect_files.requires(
                    (m, settings@.files_descriptor_close_timeout),
                ),
        ensures
            result is Ok,
            files_visited(
                old(self)@,
                |before: F, after: F|
                    exists|m: &mut F|
                        *m == before && *final(m) == after && #[trigger] collect_files.ensures(
                            (m, settings@.files_descriptor_close_timeout),
                            (),
                        ),
                final(self)@,
            ),
    {
        if let Some(files) = &mut self.files {
            let timeout: u64 = settings.files().files_descriptor_close_timeout();
            assert(timeout == settings@.files_descriptor_close_timeout);
            collect_files(files, timeout);
        }
        Ok(())
    }
}

/// What a driver is built from: its configuration, and the shared context if
/// it has use for one.
pub enum DriverRequest<'a, F, K> {
    Files(&'a FilesConfiguration, &'a Option<F>),
    Kafka(&'a KafkaConfiguration, &'a Option<K>),
    Tcp(&'a TcpConfiguration),
    Redis(&'a RedisConfiguration),
    UnixDatagram(&'a UnixDatagramConfiguration),
    Otlp(&'a OtlpConfiguration),
}

/// What the driver that `driver` configures is built from.
pub open spec fn request_for<'a, F, K>(
    driver: &'a SubscriptionOutputDriver,
    context: &'a ContextView<F, K>,
) -> DriverRequest<'a, F, K> {
    match driver {
        SubscriptionOutputDriver::Files(config) => DriverRequest::Files(config, &context.files),
        SubscriptionOutputDriver::Kafka(config) => DriverRequest::Kafka(config, &context.kafka),
        SubscriptionOutputDriver::Tcp(config) => DriverRequest::Tcp(config),
        SubscriptionOutputDriver::Redis(config) => DriverRequest::Redis(config),
        SubscriptionOutputDriver::UnixDatagram(config) => DriverRequest::UnixDatagram(config),
        SubscriptionOutputDriver::Otlp(config) => DriverRequest::Otlp(config),
    }
}

/// Writes batches of events somewhere. `M` is the metadata that goes with a
/// batch, most often shared, as in an `Arc`.
pub trait OutputDriver<M> {
    /// What a write gives: its outcome, or a future of it.
    type Written;

    /// Write a batch of events and associated metadata
    fn write(&self, metadata: M, events: Arc<Vec<Arc<String>>>) -> Self::Written;
}

/// Turns an event, of type `D`, and its metadata, of type `M`, into text.
pub trait OutputFormat<M, D> {
    /// Formats an event.
    /// If something wrong happens, formatter is allowed to return None.
    fn format(&self, metadata: &M, data: &D) -> Option<Arc<String>>;
}

/// An output: a format, and a driver that is open.
pub struct Output<D> {
    format: SubscriptionOutputFormat,
    driver: Arc<D>,
    // Only used for "describe()" and "driver()"
    subscription_output_driver: SubscriptionOutputDriver,
}

/// What an [`Output`] holds.
#[verifier::ext_equal]
pub struct OutputView<D> {
    pub format: SubscriptionOutputFormat,
    pub driver: D,
    pub subscription_output_driver: DriverView,
}

impl<D> View for Output<D> {
    type V = OutputView<D>;

    closed spec fn view(&self) -> OutputView<D> {
        OutputView {
            format: self.format,
            driver: *self.driver,
            subscription_output_driver: self.subscription_output_driver@,
        }
    }
}

impl<D> Output<D> {
    /// The view holds the format, the driver, and what the driver was built from.
    proof fn law_view_holds_what_is_stored(self)
        ensures
            self@.format == self.format,
            self@.driver == *self.driver,
            self@.subscription_output_driver == self.subscription_output_driver@,
    {
    }
}

/// What opening an output gives. `built` holds of the values that building the
/// driver may give: its error is passed on, and its driver becomes that of an
/// output with the given format and driver configuration.
pub open spec fn opened<D, E>(
    format: SubscriptionOutputFormat,
    driver: DriverView,
    built: spec_fn(Result<D, E>) -> bool,
    result: Result<OutputView<D>, E>,
) -> bool {
    match result {
        Ok(output) => {
            &&& built(Ok(output.driver))
            &&& output.format == format
            &&& output.subscription_output_driver == driver
        },
        Err(error) => built(Err(error)),
    }
}

/// What the result of opening an output holds.
pub open spec fn opened_view<D, E>(result: Result<Output<D>, E>) -> Result<OutputView<D>, E> {
    match result {
        Ok(output) => Ok(output@),
        Err(error) => Err(error),
    }
}

impl<D> Output<D> {
    /// Opens an output whose driver `build` builds from its configuration and
    /// the shared contexts.
    pub fn new<F, K, E, Build>(
        format: &SubscriptionOutputFormat,
        driver: &SubscriptionOutputDriver,
        context: &mut OutputDriversContext<F, K>,
        build: Build,
    ) -> (result: Result<Self, E>) where
        Build: FnOnce(DriverRequest<'_, F, K>) -> Result<D, E>,

        requires
            build.requires((request_for(driver, &old(context)@),)),
        ensures
            *final(context) == *old(context),
            opened(
                *format,
                driver@,
                |made: Result<D, E>|
                    build.ensures((request_for(driver, &old(context)@),), made),
                opened_view(result),
            ),
    {
        let request = match driver {
            SubscriptionOutputDriver::Files(config) => {
                DriverRequest::Files(config, &context.files)
            },
            SubscriptionOutputDriver::Kafka(config) => {
                DriverRequest::Kafka(config, &context.kafka)
            },
            SubscriptionOutputDriver::Tcp(config) => DriverRequest::Tcp(config),
            SubscriptionOutputDriver::Redis(config) => DriverRequest::Redis(config),
            SubscriptionOutputDriver::UnixDatagram(config) => {
                DriverRequest::UnixDatagram(config)
            },
            SubscriptionOutputDriver::Otlp(config) => DriverRequest::Otlp(config),
        };
        match build(request) {
            Ok(output_driver) => Ok(
                Output {
                    format: *format,
                    driver: Arc::new(output_driver),
                    subscription_output_driver: driver.clone(),
                },
            ),
            Err(error) => Err(error),
        }
    }

    /// Describes the output: the name of its format, and the text of its driver.
    pub fn describe(&self) -> (text: String)
        ensures
            text@ == description(
                self@.format,
                driver_text(self@.subscription_output_driver),
            ),
    {
        write_description(
            self.format,
            write_driver(&self.subscription_output_driver).as_str(),
        )
    }

    /// The text of the driver.
    pub fn driver(&self) -> (text: String)
        ensures
            text@ == driver_text(self@.subscription_output_driver),
    {
        write_driver(&self.subscription_output_driver)
    }

    /// Hands a batch of events to the driver, once, and gives what the driver gave.
    ///
    /// A write takes its metadata by value, and of a type `M` that nothing is
    /// known of there is no second value to be had. So there can be no write but
    /// the one whose outcome is given.
    pub fn write<M>(&self, metadata: M, events: Arc<Vec<Arc<String>>>) -> (written:
        D::Written) where D: OutputDriver<M>
        ensures
            call_ensures(D::write, (&self@.driver, metadata, events), written),
    {
        self.driver.write(metadata, events)
    }

    pub fn format(&self) -> (format: &SubscriptionOutputFormat)
        ensures
            *format == self@.format,
    {
        &self.format
    }
}

impl<D> Clone for Output<D> {
    /// The copy shares the driver.
    fn clone(&self) -> (copy: Self)
        ensures
            copy@ == self@,
    {
        Output {
            format: self.format,
            driver: self.driver.clone(),
            subscription_output_driver: self.subscription_output_driver.clone(),
        }
    }
}

/// One formatter for each format.
pub struct Formatters<T> {
    pub json: T,
    pub raw: T,
    pub raw_json: T,
    pub nxlog: T,
}

impl<T> Formatters<T> {
    /// The formatter for `format`.
    pub open spec fn of(self, format: SubscriptionOutputFormat) -> T {
        match format {
            SubscriptionOutputFormat::Json => self.json,
            SubscriptionOutputFormat::Raw => self.raw,
            SubscriptionOutputFormat::RawJson => self.raw_json,
            SubscriptionOutputFormat::Nxlog => self.nxlog,
        }
    }
}

/// The formatter for `format`.
pub fn get_formatter<'a, T>(
    format: &SubscriptionOutputFormat,
    formatters: &'a Formatters<T>,
) -> (formatter: &'a T)
    ensures
        *formatter == formatters.of(*format),
{
    match format {
        SubscriptionOutputFormat::Json => &formatters.json,
        SubscriptionOutputFormat::Raw => &formatters.raw,
        SubscriptionOutputFormat::RawJson => &formatters.raw_json,
        SubscriptionOutputFormat::Nxlog => &formatters.nxlog,
    }
}

} // verus!
