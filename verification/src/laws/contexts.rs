//! Which contexts are needed and created, and what is done to them.

use crate::output::{
    ContextView, OutputDriversContext, files_visited, needs_files, needs_kafka,
};
use crate::settings::{KafkaSettings, Outputs};
use crate::subscription::{
    DriverView, SubscriptionData, SubscriptionOutputDriver, SubscriptionView,
};
use vstd::prelude::*;

verus! {

/// The files context is needed exactly when some active subscription has an
/// enabled output with the files driver.
pub proof fn law_files_are_needed_by_files_outputs<F, K>(
    subscriptions: &[SubscriptionData],
    needed: bool,
)
    requires
        call_ensures(
            OutputDriversContext::<F, K>::need_files_context,
            (subscriptions,),
            needed,
        ),
    ensures
        needed <==> exists|i: int, j: int|
            {
                &&& 0 <= i < subscriptions@.len()
                &&& subscriptions@[i].active
                &&& 0 <= j < subscriptions@[i].outputs@.len()
                &&& (#[trigger] subscriptions@[i].outputs@[j]).enabled
                &&& subscriptions@[i].outputs@[j].driver is Files
            },
{
    let views = crate::subscription::subscription_views(subscriptions@);
    assert forall|i: int, j: int|
        0 <= i < subscriptions@.len() && 0 <= j < subscriptions@[i].outputs@.len() implies (
    #[trigger] subscriptions@[i].outputs@[j])@ == views[i].outputs[j] by {}
    if needed {
        let (i, j): (int, int) = choose|i: int, j: int|
            {
                &&& 0 <= i < views.len()
                &&& views[i].active
                &&& 0 <= j < views[i].outputs.len()
                &&& crate::output::output_needs_files(#[trigger] views[i].outputs[j])
            };
        assert(subscriptions@[i].outputs@[j].enabled);
    }
}

/// The Kafka context is needed exactly when some active subscription has an
/// enabled output with the Kafka driver and no options.
pub proof fn law_kafka_is_needed_by_outputs_without_options<F, K>(
    subscriptions: &[SubscriptionData],
    needed: bool,
)
    requires
        call_ensures(
            OutputDriversContext::<F, K>::need_kafka_context,
            (subscriptions,),
            needed,
        ),
    ensures
        needed <==> exists|i: int, j: int|
            {
                &&& 0 <= i < subscriptions@.len()
                &&& subscriptions@[i].active
                &&& 0 <= j < subscriptions@[i].outputs@.len()
                &&& (#[trigger] subscriptions@[i].outputs@[j]).enabled
                &&& subscriptions@[i].outputs@[j].driver matches SubscriptionOutputDriver::Kafka(
                    config,
                )
                &&& config.options@.len() == 0
            },
{
    let views = crate::subscription::subscription_views(subscriptions@);
    assert forall|i: int, j: int|
        0 <= i < subscriptions@.len() && 0 <= j < subscriptions@[i].outputs@.len() implies (
    #[trigger] subscriptions@[i].outputs@[j])@ == views[i].outputs[j] by {}
    if needed {
        let (i, j): (int, int) = choose|i: int, j: int|
            {
                &&& 0 <= i < views.len()
                &&& views[i].active
                &&& 0 <= j < views[i].outputs.len()
                &&& crate::output::output_needs_kafka(#[trigger] views[i].outputs[j])
            };
        assert(subscriptions@[i].outputs@[j].enabled);
    }
}

/// Where no enabled output of an active subscription uses the files driver, no
/// files context is needed.
pub proof fn law_without_files_outputs_no_files_are_needed(subscriptions: Seq<SubscriptionView>)
    requires
        forall|i: int, j: int|
            0 <= i < subscriptions.len() && subscriptions[i].active && 0 <= j
                < subscriptions[i].outputs.len() && (
            #[trigger] subscriptions[i].outputs[j]).enabled ==> !(
            subscriptions[i].outputs[j].driver is Files),
    ensures
        !needs_files(subscriptions),
{
}

/// An enabled output of an active subscription that uses the files driver needs
/// the files context, and one that uses the Kafka driver without options the
/// Kafka context.
pub proof fn law_enabled_outputs_are_needs(subscriptions: Seq<SubscriptionView>, i: int, j: int)
    requires
        0 <= i < subscriptions.len(),
        subscriptions[i].active,
        0 <= j < subscriptions[i].outputs.len(),
        subscriptions[i].outputs[j].enabled,
    ensures
        subscriptions[i].outputs[j].driver is Files ==> needs_files(subscriptions),
        subscriptions[i].outputs[j].driver matches DriverView::Kafka { topic, options }
            ==> options.len() == 0 ==> needs_kafka(subscriptions),
{
}

/// A new context has the settings that it is given, and nothing else.
pub proof fn law_new_context_has_only_settings<F, K>(
    settings: Outputs,
    context: OutputDriversContext<F, K>,
)
    requires
        call_ensures(OutputDriversContext::<F, K>::new, (&settings,), context),
    ensures
        context@.files is None,
        context@.kafka is None,
        context@.settings.files.files_descriptor_close_timeout
            == settings.files.files_descriptor_close_timeout,
        context@.settings.kafka.options@ == settings.kafka.options@,
{
}

/// Initializing the missing contexts creates the files context exactly when it
/// was missing and `need_files_context` tells that it is needed, likewise the
/// Kafka context, and fails exactly when the Kafka context cannot be created,
/// with that error.
pub proof fn law_initializing_creates_what_is_missing<F, K, E, NewFiles, NewKafka>(
    subscriptions: &[SubscriptionData],
    new_files: NewFiles,
    new_kafka: NewKafka,
    result: Result<(), E>,
    files_needed: bool,
    kafka_needed: bool,
) where NewFiles: FnOnce() -> F, NewKafka: FnOnce(&KafkaSettings) -> Result<K, E>
    requires
        call_ensures(
            OutputDriversContext::<F, K>::need_files_context,
            (subscriptions,),
            files_needed,
        ),
        call_ensures(
            OutputDriversContext::<F, K>::need_kafka_context,
            (subscriptions,),
            kafka_needed,
        ),
    ensures
        forall|context: &mut OutputDriversContext<F, K>| #[trigger]
            call_ensures(
                OutputDriversContext::<F, K>::initialize_missing::<E, NewFiles, NewKafka>,
                (context, subscriptions, new_files, new_kafka),
                result,
            ) ==> {
                let pre = (*context)@;
                let post = (*final(context))@;
                &&& post.settings == pre.settings
                &&& pre.files is Some || !files_needed ==> post.files == pre.files
                &&& pre.files is None && files_needed ==> post.files is Some && new_files.ensures(
                    (),
                    post.files->0,
                )
                &&& pre.kafka is Some || !kafka_needed ==> post.kafka == pre.kafka && result is Ok
                &&& pre.kafka is None && kafka_needed && result is Ok ==> post.kafka is Some
                    && new_kafka.ensures((&pre.settings.kafka,), Ok(post.kafka->0))
                &&& pre.kafka is None && kafka_needed && result is Err ==> post.kafka is None
                    && new_kafka.ensures((&pre.settings.kafka,), Err(result->Err_0))
            },
{
}

/// Initializing the missing contexts asks of `new_files` only that it can be
/// called where the files context is missing and needed, and of `new_kafka` only
/// that it can be called on the Kafka settings where the Kafka context is, and
/// then only after the files context, if that is missing too. So neither is
/// called otherwise.
pub proof fn law_initializing_calls_only_for_missing_contexts<F, K, E, NewFiles, NewKafka>(
    subscriptions: &[SubscriptionData],
    new_files: NewFiles,
    new_kafka: NewKafka,
    files_needed: bool,
    kafka_needed: bool,
) where NewFiles: FnOnce() -> F, NewKafka: FnOnce(&KafkaSettings) -> Result<K, E>
    requires
        call_ensures(
            OutputDriversContext::<F, K>::need_files_context,
            (subscriptions,),
            files_needed,
        ),
        call_ensures(
            OutputDriversContext::<F, K>::need_kafka_context,
            (subscriptions,),
            kafka_needed,
        ),
    ensures
        forall|context: &mut OutputDriversContext<F, K>|
            {
                let pre = (*context)@;
                &&& pre.files is None && files_needed ==> new_files.requires(())
                &&& pre.kafka is None && kafka_needed && (pre.files is Some || !files_needed || (
                exists|files: F| new_files.ensures((), files))) ==> new_kafka.requires(
                    (&pre.settings.kafka,),
                )
            } ==> #[trigger] call_requires(
                OutputDriversContext::<F, K>::initialize_missing::<E, NewFiles, NewKafka>,
                (context, subscriptions, new_files, new_kafka),
            ),
{
}

/// A call on the files context, where there is one, takes it to a value that the
/// given function takes it to, whatever else there is. Nothing else changes.
pub proof fn law_visiting_reaches_the_files_context<F, K>(
    pre: ContextView<F, K>,
    called: spec_fn(F, F) -> bool,
    post: ContextView<F, K>,
)
    requires
        files_visited(pre, called, post),
    ensures
        pre.files is Some ==> post.files is Some && called(pre.files->0, post.files->0),
        pre.files is None ==> post.files is None,
        post.kafka == pre.kafka,
        post.settings == pre.settings,
{
}

/// Clearing calls the given function on the files context, if there is one, and
/// leaves everything else as it is.
pub proof fn law_clearing_reaches_the_files_context<F, K, Clear>(
    clear_files: Clear,
) where Clear: FnOnce(&mut F)
    ensures
        forall|context: &mut OutputDriversContext<F, K>| #[trigger]
            call_ensures(
                OutputDriversContext::<F, K>::clear::<Clear>,
                (context, clear_files),
                (),
            ) ==> {
                let pre = (*context)@;
                let post = (*final(context))@;
                &&& post.settings == pre.settings
                &&& post.kafka == pre.kafka
                &&& pre.files is None ==> post.files is None
                &&& pre.files is Some ==> post.files is Some && exists|files: &mut F|
                    {
                        &&& *files == pre.files->0
                        &&& *final(files) == post.files->0
                        &&& #[trigger] clear_files.ensures((files,), ())
                    }
            },
        forall|context: &mut OutputDriversContext<F, K>|
            ((*context)@.files is Some ==> forall|files: &mut F|
                *files == (*context)@.files->0 ==> #[trigger] clear_files.requires((files,)))
                ==> #[trigger] call_requires(
                OutputDriversContext::<F, K>::clear::<Clear>,
                (context, clear_files),
            ),
{
}

/// Garbage collection calls the given function on the files context, if there is
/// one, with the timeout of the settings that it is given, leaves everything else
/// as it is, and never fails.
pub proof fn law_garbage_collection_reaches_the_files_context<F, K, E, Collect>(
    settings: Outputs,
    collect_files: Collect,
    result: Result<(), E>,
) where Collect: FnOnce(&mut F, u64)
    ensures
        forall|context: &mut OutputDriversContext<F, K>| #[trigger]
            call_ensures(
                OutputDriversContext::<F, K>::garbage_collect::<E, Collect>,
                (context, &settings, collect_files),
                result,
            ) ==> {
                let pre = (*context)@;
                let post = (*final(context))@;
                &&& result is Ok
                &&& post.settings == pre.settings
                &&& post.kafka == pre.kafka
                &&& pre.files is None ==> post.files is None
                &&& pre.files is Some ==> post.files is Some && exists|files: &mut F|
                    {
                        &&& *files == pre.files->0
                        &&& *final(files) == post.files->0
                        &&& #[trigger] collect_files.ensures(
                            (files, settings.files.files_descriptor_close_timeout),
                            (),
                        )
                    }
            },
        forall|context: &mut OutputDriversContext<F, K>|
            ((*context)@.files is Some ==> forall|files: &mut F|
                *files == (*context)@.files->0 ==> #[trigger] collect_files.requires(
                    (files, settings.files.files_descriptor_close_timeout),
                )) ==> #[trigger] call_requires(
                OutputDriversContext::<F, K>::garbage_collect::<E, Collect>,
                (context, &settings, collect_files),
            ),
{
}

} // verus!
