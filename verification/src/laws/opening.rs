//! What an output is opened from, and what it then gives.

use crate::output::{
    ContextView, DriverRequest, Formatters, Output, OutputDriver, OutputDriversContext,
    get_formatter, request_for,
};
use crate::subscription::{SubscriptionOutputDriver, SubscriptionOutputFormat};
use crate::text::{write_description, write_driver};
use std::sync::Arc;
use vstd::prelude::*;

verus! {

/// What a driver is built from is of the kind of its configuration and carries
/// all of that configuration, as it is. A files driver also gets the files
/// context, and a Kafka driver the Kafka context.
pub proof fn law_request_carries_the_configuration<F, K>(
    driver: SubscriptionOutputDriver,
    context: ContextView<F, K>,
)
    ensures
        driver matches SubscriptionOutputDriver::Files(config) ==> {
            &&& request_for(&driver, &context) matches DriverRequest::Files(given, files)
            &&& given.path == config.path
            &&& *files == context.files
        },
        driver matches SubscriptionOutputDriver::Kafka(config) ==> {
            &&& request_for(&driver, &context) matches DriverRequest::Kafka(given, kafka)
            &&& given.topic == config.topic
            &&& given.options == config.options
            &&& *kafka == context.kafka
        },
        driver matches SubscriptionOutputDriver::Tcp(config) ==> {
            &&& request_for(&driver, &context) matches DriverRequest::Tcp(given)
            &&& given.host == config.host
            &&& given.port == config.port
        },
        driver matches SubscriptionOutputDriver::Redis(config) ==> {
            &&& request_for(&driver, &context) matches DriverRequest::Redis(given)
            &&& given.addr == config.addr
            &&& given.list == config.list
        },
        driver matches SubscriptionOutputDriver::UnixDatagram(config) ==> {
            &&& request_for(&driver, &context) matches DriverRequest::UnixDatagram(given)
            &&& given.path == config.path
        },
        driver matches SubscriptionOutputDriver::Otlp(config) ==> {
            &&& request_for(&driver, &context) matches DriverRequest::Otlp(given)
            &&& given.endpoint == config.endpoint
        },
{
}

/// Whether `request` hands over all of `driver`'s configuration, as it is, and of
/// `context` what drivers of that kind share.
pub open spec fn hands_over<'a, F, K>(
    request: DriverRequest<'a, F, K>,
    driver: SubscriptionOutputDriver,
    context: ContextView<F, K>,
) -> bool {
    match request {
        DriverRequest::Files(given, files) => driver == SubscriptionOutputDriver::Files(*given)
            && *files == context.files,
        DriverRequest::Kafka(given, kafka) => driver == SubscriptionOutputDriver::Kafka(*given)
            && *kafka == context.kafka,
        DriverRequest::Tcp(given) => driver == SubscriptionOutputDriver::Tcp(*given),
        DriverRequest::Redis(given) => driver == SubscriptionOutputDriver::Redis(*given),
        DriverRequest::UnixDatagram(given) => driver == SubscriptionOutputDriver::UnixDatagram(
            *given,
        ),
        DriverRequest::Otlp(given) => driver == SubscriptionOutputDriver::Otlp(*given),
    }
}

/// A request that hands over a configuration as it is agrees with it in every
/// field.
pub proof fn law_handing_over_keeps_every_field<F, K>(
    request: DriverRequest<'_, F, K>,
    driver: SubscriptionOutputDriver,
    context: ContextView<F, K>,
)
    requires
        hands_over(request, driver, context),
    ensures
        driver matches SubscriptionOutputDriver::Files(config) ==> {
            &&& request matches DriverRequest::Files(given, files)
            &&& given.path == config.path
            &&& *files == context.files
        },
        driver matches SubscriptionOutputDriver::Kafka(config) ==> {
            &&& request matches DriverRequest::Kafka(given, kafka)
            &&& given.topic == config.topic
            &&& given.options == config.options
            &&& *kafka == context.kafka
        },
        driver matches SubscriptionOutputDriver::Tcp(config) ==> {
            &&& request matches DriverRequest::Tcp(given)
            &&& given.host == config.host
            &&& given.port == config.port
        },
        driver matches SubscriptionOutputDriver::Redis(config) ==> {
            &&& request matches DriverRequest::Redis(given)
            &&& given.addr == config.addr
            &&& given.list == config.list
        },
        driver matches SubscriptionOutputDriver::UnixDatagram(config) ==> {
            &&& request matches DriverRequest::UnixDatagram(given)
            &&& given.path == config.path
        },
        driver matches SubscriptionOutputDriver::Otlp(config) ==> {
            &&& request matches DriverRequest::Otlp(given)
            &&& given.endpoint == config.endpoint
        },
{
}

/// Opening an output builds its driver from the configuration as it is, and from
/// the context that it shares. The driver that was built becomes the driver of
/// the output, and its error that of opening. The contexts stay as they are.
pub proof fn law_opening_builds_from_the_configuration<D, F, K, E, Build>(
    format: SubscriptionOutputFormat,
    driver: SubscriptionOutputDriver,
    build: Build,
    result: Result<Output<D>, E>,
) where Build: FnOnce(DriverRequest<'_, F, K>) -> Result<D, E>
    ensures
        forall|context: &mut OutputDriversContext<F, K>| #[trigger]
            call_ensures(
                Output::<D>::new::<F, K, E, Build>,
                (&format, &driver, context, build),
                result,
            ) ==> {
                &&& *final(context) == *context
                &&& match result {
                    Ok(output) => {
                        &&& output@.format == format
                        &&& output@.subscription_output_driver == driver@
                        &&& exists|request: DriverRequest<'_, F, K>|
                            hands_over(request, driver, (*context)@) && #[trigger] build.ensures(
                                (request,),
                                Ok(output@.driver),
                            )
                    },
                    Err(error) => exists|request: DriverRequest<'_, F, K>|
                        hands_over(request, driver, (*context)@) && #[trigger] build.ensures(
                            (request,),
                            Err(error),
                        ),
                }
            },
        forall|context: &mut OutputDriversContext<F, K>|
            (forall|request: DriverRequest<'_, F, K>|
                hands_over(request, driver, (*context)@) ==> #[trigger] build.requires((request,)))
                ==> #[trigger] call_requires(
                Output::<D>::new::<F, K, E, Build>,
                (&format, &driver, context, build),
            ),
{
    assert forall|context: &mut OutputDriversContext<F, K>| #[trigger]
        call_ensures(
            Output::<D>::new::<F, K, E, Build>,
            (&format, &driver, context, build),
            result,
        ) implies hands_over(request_for(&driver, &(*context)@), driver, (*context)@) by {}
}

/// An output that was opened tells the format that it was opened with. What it
/// writes out as its driver is what writing out the configuration gives, and its
/// description is that of the format and of this text.
pub proof fn law_opened_output_tells_what_it_was_opened_with<D, F, K, E, Build>(
    format: SubscriptionOutputFormat,
    driver: SubscriptionOutputDriver,
    build: Build,
    output: Output<D>,
    told_format: &SubscriptionOutputFormat,
    told_driver: String,
    told: String,
) where Build: FnOnce(DriverRequest<'_, F, K>) -> Result<D, E>
    requires
        exists|context: &mut OutputDriversContext<F, K>| #[trigger]
            call_ensures(
                Output::<D>::new::<F, K, E, Build>,
                (&format, &driver, context, build),
                Ok(output),
            ),
        call_ensures(Output::<D>::format, (&output,), told_format),
        call_ensures(Output::<D>::driver, (&output,), told_driver),
        call_ensures(Output::<D>::describe, (&output,), told),
    ensures
        *told_format == format,
        forall|text: String| #[trigger]
            call_ensures(write_driver, (&driver,), text) ==> told_driver@ == text@,
        forall|text: &str, description: String|
            told_driver@ == text@ && #[trigger] call_ensures(
                write_description,
                (format, text),
                description,
            ) ==> told@ == description@,
{
}

/// A write hands the metadata and the whole batch to the driver of the output,
/// and gives what that driver gives.
pub proof fn law_writing_is_done_by_the_driver<D, M>(
    output: Output<D>,
    metadata: M,
    events: Arc<Vec<Arc<String>>>,
    written: D::Written,
) where D: OutputDriver<M>
    requires
        call_ensures(Output::<D>::write::<M>, (&output, metadata, events), written),
    ensures
        call_ensures(D::write, (&output@.driver, metadata, events), written),
{
}

/// A copy of an output has the same format, driver and configuration.
pub proof fn law_copied_output_is_the_same<D>(output: Output<D>, copy: Output<D>)
    requires
        call_ensures(<Output<D> as Clone>::clone, (&output,), copy),
    ensures
        copy@.format == output@.format,
        copy@.driver == output@.driver,
        copy@.subscription_output_driver == output@.subscription_output_driver,
{
}

/// Each format gets the formatter that was given for it.
pub proof fn law_formatter_is_that_of_the_format<T>(
    format: SubscriptionOutputFormat,
    formatters: Formatters<T>,
    formatter: &T,
)
    requires
        call_ensures(get_formatter::<T>, (&format, &formatters), formatter),
    ensures
        format is Json ==> *formatter == formatters.json,
        format is Raw ==> *formatter == formatters.raw,
        format is RawJson ==> *formatter == formatters.raw_json,
        format is Nxlog ==> *formatter == formatters.nxlog,
{
}

} // verus!
