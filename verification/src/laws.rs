//! What holds across calls.
//!
//! The laws here speak of what calls do to contexts and outputs. Those of the
//! modules below speak of single operations: `call_ensures(operation, arguments,
//! result)` says that the operation, called on the arguments, may give the
//! result.
//!
//! - [`contexts`]: which contexts are needed and created, and what is done to them.
//! - [`opening`]: what an output is opened from, and what it then gives.
//! - [`values`]: subscriptions, configurations and settings.
//! - [`writing`]: how drivers, formats and numbers are written out.

pub mod contexts;
pub mod opening;
pub mod values;
pub mod writing;

use crate::output::{ContextView, DriverRequest, Formatters, OutputView};
use crate::subscription::{
    DriverView, SubscriptionOutputDriver, SubscriptionOutputFormat, SubscriptionOutputView,
    SubscriptionView,
};
use crate::output::{
    files_visited, initialized, needs_files, needs_kafka, opened, output_needs_files,
    output_needs_kafka, request_for, some_output,
};
use crate::text::{description, driver_text, format_text};
use vstd::prelude::*;

verus! {

/// Once the missing contexts are initialized, every enabled output of an active
/// subscription can be opened with the context that its driver shares: a files
/// driver is built from a files context, and a Kafka driver without options of
/// its own is built from a Kafka context.
pub proof fn law_initialized_contexts_serve_outputs<F, K, E>(
    pre: ContextView<F, K>,
    subscriptions: Seq<SubscriptionView>,
    files_made: spec_fn(F) -> bool,
    kafka_made: spec_fn(Result<K, E>) -> bool,
    post: ContextView<F, K>,
    i: int,
    j: int,
    driver: SubscriptionOutputDriver,
)
    requires
        initialized(pre, subscriptions, files_made, kafka_made, post, Ok(())),
        0 <= i < subscriptions.len(),
        subscriptions[i].active,
        0 <= j < subscriptions[i].outputs.len(),
        subscriptions[i].outputs[j].enabled,
        subscriptions[i].outputs[j].driver == driver@,
    ensures
        match request_for(&driver, &post) {
            DriverRequest::Files(config, context) => *context is Some,
            DriverRequest::Kafka(config, context) => config.options@.len() == 0 ==> *context is Some,
            _ => true,
        },
{
    let output = subscriptions[i].outputs[j];
    if output_needs_files(output) {
        assert(needs_files(subscriptions));
    }
    if output_needs_kafka(output) {
        assert(needs_kafka(subscriptions));
    }
}

/// Initializing the missing contexts again, for the same subscriptions, succeeds
/// and changes nothing.
pub proof fn law_initializing_again_changes_nothing<F, K, E>(
    pre: ContextView<F, K>,
    subscriptions: Seq<SubscriptionView>,
    files_made: spec_fn(F) -> bool,
    kafka_made: spec_fn(Result<K, E>) -> bool,
    between: ContextView<F, K>,
    files_made_again: spec_fn(F) -> bool,
    kafka_made_again: spec_fn(Result<K, E>) -> bool,
    post: ContextView<F, K>,
    result: Result<(), E>,
)
    requires
        initialized(pre, subscriptions, files_made, kafka_made, between, Ok(())),
        initialized(
            between,
            subscriptions,
            files_made_again,
            kafka_made_again,
            post,
            result,
        ),
    ensures
        result is Ok,
        post == between,
{
}

/// Initializing the missing contexts fails only when a Kafka context is needed,
/// is not there, and cannot be created. The Kafka context is then still missing,
/// while a files context that was needed is there, and a retry keeps it.
pub proof fn law_failed_initialization_keeps_files<F, K, E>(
    pre: ContextView<F, K>,
    subscriptions: Seq<SubscriptionView>,
    files_made: spec_fn(F) -> bool,
    kafka_made: spec_fn(Result<K, E>) -> bool,
    between: ContextView<F, K>,
    error: E,
    files_made_again: spec_fn(F) -> bool,
    kafka_made_again: spec_fn(Result<K, E>) -> bool,
    post: ContextView<F, K>,
    result: Result<(), E>,
)
    requires
        initialized(pre, subscriptions, files_made, kafka_made, between, Err(error)),
        initialized(
            between,
            subscriptions,
            files_made_again,
            kafka_made_again,
            post,
            result,
        ),
    ensures
        pre.kafka is None,
        needs_kafka(subscriptions),
        kafka_made(Err(error)),
        between.kafka is None,
        needs_files(subscriptions) ==> between.files is Some,
        post.files == between.files,
        post.kafka is Some <==> result is Ok,
{
}

/// Without a need, initializing the missing contexts succeeds and changes
/// nothing.
pub proof fn law_initializing_without_need_changes_nothing<F, K, E>(
    pre: ContextView<F, K>,
    subscriptions: Seq<SubscriptionView>,
    files_made: spec_fn(F) -> bool,
    kafka_made: spec_fn(Result<K, E>) -> bool,
    post: ContextView<F, K>,
    result: Result<(), E>,
)
    requires
        initialized(pre, subscriptions, files_made, kafka_made, post, result),
        !needs_files(subscriptions),
        !needs_kafka(subscriptions),
    ensures
        result is Ok,
        post == pre,
{
}

/// Clearing and garbage collection leave every context in place: what was
/// initialized before needs no initialization after.
pub proof fn law_visiting_files_keeps_contexts_initialized<F, K, E>(
    pre: ContextView<F, K>,
    subscriptions: Seq<SubscriptionView>,
    files_made: spec_fn(F) -> bool,
    kafka_made: spec_fn(Result<K, E>) -> bool,
    before: ContextView<F, K>,
    called: spec_fn(F, F) -> bool,
    after: ContextView<F, K>,
    files_made_again: spec_fn(F) -> bool,
    kafka_made_again: spec_fn(Result<K, E>) -> bool,
    post: ContextView<F, K>,
    result: Result<(), E>,
)
    requires
        initialized(pre, subscriptions, files_made, kafka_made, before, Ok(())),
        files_visited(before, called, after),
        initialized(after, subscriptions, files_made_again, kafka_made_again, post, result),
    ensures
        result is Ok,
        post == after,
{
}

/// Joined subscriptions have an output of some kind exactly when a part of them
/// has.
proof fn lemma_some_output_of_joined_subscriptions(
    left: Seq<SubscriptionView>,
    right: Seq<SubscriptionView>,
    wanted: spec_fn(SubscriptionOutputView) -> bool,
)
    ensures
        some_output(left + right, wanted) <==> some_output(left, wanted) || some_output(
            right,
            wanted,
        ),
{
    let joined = left + right;
    if some_output(left, wanted) {
        let (i, j): (int, int) = choose|i: int, j: int|
            0 <= i < left.len() && left[i].active && 0 <= j < left[i].outputs.len() && wanted(
                #[trigger] left[i].outputs[j],
            );
        assert(wanted(joined[i].outputs[j]));
    }
    if some_output(right, wanted) {
        let (i, j): (int, int) = choose|i: int, j: int|
            0 <= i < right.len() && right[i].active && 0 <= j < right[i].outputs.len() && wanted(
                #[trigger] right[i].outputs[j],
            );
        assert(wanted(joined[left.len() + i].outputs[j]));
    }
    if some_output(joined, wanted) {
        let (i, j): (int, int) = choose|i: int, j: int|
            0 <= i < joined.len() && joined[i].active && 0 <= j < joined[i].outputs.len()
                && wanted(#[trigger] joined[i].outputs[j]);
        if i < left.len() {
            assert(wanted(left[i].outputs[j]));
        } else {
            assert(wanted(right[i - left.len()].outputs[j]));
        }
    }
}

/// Subscriptions need what any part of them needs. So neither their order nor
/// adding one that needs nothing makes a difference, and adding any takes no
/// need away.
pub proof fn law_needs_of_joined_subscriptions(
    left: Seq<SubscriptionView>,
    right: Seq<SubscriptionView>,
)
    ensures
        needs_files(left + right) <==> needs_files(left) || needs_files(right),
        needs_kafka(left + right) <==> needs_kafka(left) || needs_kafka(right),
{
    lemma_some_output_of_joined_subscriptions(
        left,
        right,
        |output: SubscriptionOutputView| output_needs_files(output),
    );
    lemma_some_output_of_joined_subscriptions(
        left,
        right,
        |output: SubscriptionOutputView| output_needs_kafka(output),
    );
}

/// An inactive subscription needs nothing, whatever its outputs.
pub proof fn law_inactive_subscription_needs_nothing(subscription: SubscriptionView)
    requires
        !subscription.active,
    ensures
        !needs_files(seq![subscription]),
        !needs_kafka(seq![subscription]),
{
}

/// Outputs that are disabled need nothing, whether or not their subscription is
/// active.
pub proof fn law_disabled_outputs_need_nothing(subscription: SubscriptionView)
    requires
        forall|j: int|
            0 <= j < subscription.outputs.len() ==> !(#[trigger] subscription.outputs[j]).enabled,
    ensures
        !needs_files(seq![subscription]),
        !needs_kafka(seq![subscription]),
{
}

/// Where all enabled Kafka outputs of active subscriptions configure options of
/// their own, no shared Kafka context is needed.
pub proof fn law_kafka_options_of_its_own_need_no_context(subscriptions: Seq<SubscriptionView>)
    requires
        forall|i: int, j: int|
            0 <= i < subscriptions.len() && subscriptions[i].active && 0 <= j
                < subscriptions[i].outputs.len() && (
            #[trigger] subscriptions[i].outputs[j]).enabled ==> (
            subscriptions[i].outputs[j].driver matches DriverView::Kafka { topic, options }
                ==> options.len() > 0),
    ensures
        !needs_kafka(subscriptions),
{
}

/// Whether one call can take the contexts from `pre` to `post`, whatever came of
/// it.
pub open spec fn one_call<F, K, E>(pre: ContextView<F, K>, post: ContextView<F, K>) -> bool {
    ||| exists|
        subscriptions: Seq<SubscriptionView>,
        files_made: spec_fn(F) -> bool,
        kafka_made: spec_fn(Result<K, E>) -> bool,
        result: Result<(), E>,
    |
        #[trigger] initialized(pre, subscriptions, files_made, kafka_made, post, result)
    ||| exists|called: spec_fn(F, F) -> bool| #[trigger] files_visited(pre, called, post)
}

/// Whatever calls are made, the settings stay, a files context that is there
/// stays there, and a Kafka context that is there is never replaced.
pub proof fn law_contexts_outlive_calls<F, K, E>(states: Seq<ContextView<F, K>>, i: int, j: int)
    requires
        0 <= i <= j < states.len(),
        forall|k: int|
            #![trigger states[k]]
            0 <= k < states.len() - 1 ==> one_call::<F, K, E>(states[k], states[k + 1]),
    ensures
        states[j].settings == states[i].settings,
        states[i].files is Some ==> states[j].files is Some,
        states[i].kafka is Some ==> states[j].kafka == states[i].kafka,
    decreases j - i,
{
    if i < j {
        law_contexts_outlive_calls::<F, K, E>(states, i, j - 1);
        assert(one_call::<F, K, E>(states[j - 1], states[j - 1 + 1]));
    }
}

/// An output that was opened reports the format and the driver that it was
/// opened with, and writes to the driver that was built for it.
pub proof fn law_opened_output_reports_what_it_was_opened_with<D, E>(
    format: SubscriptionOutputFormat,
    driver: DriverView,
    built: spec_fn(Result<D, E>) -> bool,
    output: OutputView<D>,
)
    requires
        opened(format, driver, built, Ok(output)),
    ensures
        output.format == format,
        driver_text(output.subscription_output_driver) == driver_text(driver),
        built(Ok(output.driver)),
{
}

/// The description of an output ends with the text of its driver, and starts
/// with the name of its format.
pub proof fn law_description_holds_format_and_driver(
    format: SubscriptionOutputFormat,
    driver: DriverView,
)
    ensures
        driver_text(driver).is_suffix_of(description(format, driver_text(driver))),
        ("format: "@ + format_text(format)).is_prefix_of(
            description(format, driver_text(driver)),
        ),
{
    let text = description(format, driver_text(driver));
    let suffix = driver_text(driver);
    assert(text.subrange(text.len() - suffix.len(), text.len() as int) =~= suffix);
    let prefix = "format: "@ + format_text(format);
    assert(text.subrange(0, prefix.len() as int) =~= prefix);
}

/// Formats that share a formatter, where the four formatters differ, are the
/// same format.
pub proof fn law_each_format_has_its_formatter<T>(
    formatters: Formatters<T>,
    one: SubscriptionOutputFormat,
    other: SubscriptionOutputFormat,
)
    requires
        formatters.json != formatters.raw,
        formatters.json != formatters.raw_json,
        formatters.json != formatters.nxlog,
        formatters.raw != formatters.raw_json,
        formatters.raw != formatters.nxlog,
        formatters.raw_json != formatters.nxlog,
    ensures
        formatters.of(one) == formatters.of(other) <==> one == other,
{
}

} // verus!
