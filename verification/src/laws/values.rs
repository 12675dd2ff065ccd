//! Subscriptions, configurations and settings.

use crate::settings::{FilesSettings, KafkaSettings, Outputs, clone_options, option_views};
use crate::subscription::{
    FilesConfiguration, KafkaConfiguration, SubscriptionData, SubscriptionOutput,
    SubscriptionOutputDriver, SubscriptionOutputFormat,
};
use vstd::prelude::*;

verus! {

/// The view of a list of options has one entry for each option, with its name
/// and its value, in order.
pub proof fn law_option_views_keep_every_option(options: Seq<(String, String)>, k: int)
    ensures
        option_views(options).len() == options.len(),
        0 <= k < options.len() ==> option_views(options)[k].0 == options[k].0@
            && option_views(options)[k].1 == options[k].1@,
{
}

/// A copy of a list of options has the same options, in the same order.
pub proof fn law_copied_options_are_the_same(
    options: Vec<(String, String)>,
    copy: Vec<(String, String)>,
)
    requires
        call_ensures(clone_options, (&options,), copy),
    ensures
        copy@ == options@,
{
}

/// Drivers with the same view are of the same kind and agree in every field.
pub proof fn law_views_tell_drivers_apart(
    one: SubscriptionOutputDriver,
    other: SubscriptionOutputDriver,
)
    requires
        one@ == other@,
    ensures
        match one {
            SubscriptionOutputDriver::Files(a) => {
                &&& other matches SubscriptionOutputDriver::Files(b)
                &&& a.path@ == b.path@
            },
            SubscriptionOutputDriver::Kafka(a) => {
                &&& other matches SubscriptionOutputDriver::Kafka(b)
                &&& a.topic@ == b.topic@
                &&& a.options@.len() == b.options@.len()
                &&& forall|k: int|
                    0 <= k < a.options@.len() ==> {
                        &&& (#[trigger] a.options@[k]).0@ == b.options@[k].0@
                        &&& a.options@[k].1@ == b.options@[k].1@
                    }
            },
            SubscriptionOutputDriver::Tcp(a) => {
                &&& other matches SubscriptionOutputDriver::Tcp(b)
                &&& a.host@ == b.host@
                &&& a.port == b.port
            },
            SubscriptionOutputDriver::Redis(a) => {
                &&& other matches SubscriptionOutputDriver::Redis(b)
                &&& a.addr@ == b.addr@
                &&& a.list@ == b.list@
            },
            SubscriptionOutputDriver::UnixDatagram(a) => {
                &&& other matches SubscriptionOutputDriver::UnixDatagram(b)
                &&& a.path@ == b.path@
            },
            SubscriptionOutputDriver::Otlp(a) => {
                &&& other matches SubscriptionOutputDriver::Otlp(b)
                &&& a.endpoint@ == b.endpoint@
            },
        },
{
    match one {
        SubscriptionOutputDriver::Kafka(a) => {
            assert forall|k: int| 0 <= k < a.options@.len() implies {
                &&& (#[trigger] a.options@[k]).0@ == (other->Kafka_0).options@[k].0@
                &&& a.options@[k].1@ == (other->Kafka_0).options@[k].1@
            } by {
                law_option_views_keep_every_option(a.options@, k);
                law_option_views_keep_every_option((other->Kafka_0).options@, k);
            }
        },
        _ => {},
    }
}

/// A copy of a driver has the same view, so it is of the same kind and agrees in
/// every field.
pub proof fn law_copied_driver_is_the_same(
    driver: SubscriptionOutputDriver,
    copy: SubscriptionOutputDriver,
)
    requires
        call_ensures(<SubscriptionOutputDriver as Clone>::clone, (&driver,), copy),
    ensures
        copy@ == driver@,
{
}

/// The files configuration has the path that it is made with.
pub proof fn law_files_configuration_has_its_path(
    path: String,
    config: FilesConfiguration,
    told: &str,
)
    requires
        call_ensures(FilesConfiguration::new, (path,), config),
        call_ensures(FilesConfiguration::path, (&config,), told),
    ensures
        config.path == path,
        told@ == path@,
{
}

/// The Kafka configuration has the topic and the options that it is made with.
pub proof fn law_kafka_configuration_has_its_options(
    topic: String,
    options: Vec<(String, String)>,
    config: KafkaConfiguration,
    told: &Vec<(String, String)>,
)
    requires
        call_ensures(KafkaConfiguration::new, (topic, options), config),
        call_ensures(KafkaConfiguration::options, (&config,), told),
    ensures
        config.topic == topic,
        config.options == options,
        *told == options,
{
}

/// An output of a subscription tells what it is made with.
pub proof fn law_subscription_output_tells_what_it_is_made_with(
    format: SubscriptionOutputFormat,
    driver: SubscriptionOutputDriver,
    enabled: bool,
    output: SubscriptionOutput,
    told_format: &SubscriptionOutputFormat,
    told_driver: &SubscriptionOutputDriver,
    told_enabled: bool,
)
    requires
        call_ensures(SubscriptionOutput::new, (format, driver, enabled), output),
        call_ensures(SubscriptionOutput::format, (&output,), told_format),
        call_ensures(SubscriptionOutput::driver, (&output,), told_driver),
        call_ensures(SubscriptionOutput::enabled, (&output,), told_enabled),
    ensures
        *told_format == format,
        *told_driver == driver,
        told_enabled == enabled,
        output.format == format,
        output.driver == driver,
        output.enabled == enabled,
{
}

/// A new subscription is active as told, and has no outputs.
pub proof fn law_new_subscription_has_no_outputs(
    active: bool,
    subscription: SubscriptionData,
    told_active: bool,
    told_outputs: &Vec<SubscriptionOutput>,
)
    requires
        call_ensures(SubscriptionData::new, (active,), subscription),
        call_ensures(SubscriptionData::is_active, (&subscription,), told_active),
        call_ensures(SubscriptionData::outputs, (&subscription,), told_outputs),
    ensures
        subscription.active == active,
        subscription.outputs@.len() == 0,
        told_active == active,
        told_outputs@.len() == 0,
{
}

/// Adding an output puts it behind the outputs that are there, and changes
/// nothing else.
pub proof fn law_added_output_comes_last(output: SubscriptionOutput)
    ensures
        forall|subscription: &mut SubscriptionData| #[trigger]
            call_ensures(SubscriptionData::add_output, (subscription, output), ()) ==> {
                let before = *subscription;
                let after = *final(subscription);
                &&& after.active == before.active
                &&& after.outputs@.len() == before.outputs@.len() + 1
                &&& after.outputs@.last() == output
                &&& after.outputs@.drop_last() == before.outputs@
            },
{
    assert forall|subscription: &mut SubscriptionData| #[trigger]
        call_ensures(SubscriptionData::add_output, (subscription, output), ()) implies (*final(subscription)).outputs@.drop_last()
        == (*subscription).outputs@ by {
        assert((*final(subscription)).outputs@.drop_last() =~= (*subscription).outputs@);
    }
}

/// What a subscription tells of itself is what it holds.
pub proof fn law_subscription_tells_what_it_holds(
    subscription: SubscriptionData,
    told_active: bool,
    told_outputs: &Vec<SubscriptionOutput>,
)
    requires
        call_ensures(SubscriptionData::is_active, (&subscription,), told_active),
        call_ensures(SubscriptionData::outputs, (&subscription,), told_outputs),
    ensures
        told_active == subscription.active,
        *told_outputs == subscription.outputs,
{
}

/// Settings tell what they hold, and so does a copy of them.
pub proof fn law_settings_tell_what_they_hold(
    settings: Outputs,
    copy: Outputs,
    files: &FilesSettings,
    timeout: u64,
    kafka: &KafkaSettings,
)
    requires
        call_ensures(<Outputs as Clone>::clone, (&settings,), copy),
        call_ensures(Outputs::files, (&copy,), files),
        call_ensures(FilesSettings::files_descriptor_close_timeout, (files,), timeout),
        call_ensures(Outputs::kafka, (&copy,), kafka),
    ensures
        timeout == settings.files.files_descriptor_close_timeout,
        timeout == settings@.files_descriptor_close_timeout,
        kafka.options@ == settings.kafka.options@,
        kafka@ == settings@.kafka_options,
        settings@.kafka_options == option_views(settings.kafka.options@),
{
}

} // verus!
