# openwec_output

Outputs of a Windows event collector, verified with Verus.

A subscription sends its events to outputs. Each output has a format and a driver
(files, Kafka, TCP, Redis, Unix datagrams, OpenTelemetry). Files drivers share one
context, and so do Kafka drivers that configure no options of their own.

- `src/output.rs` decides which shared contexts a set of subscriptions needs,
  creates the missing ones, opens outputs on them, and hands batches to drivers.
- `src/subscription.rs` and `src/settings.rs` hold what those decisions read.
- `src/text.rs` writes out drivers and formats for descriptions.
- `src/laws.rs` states and proves what holds across calls.
- `app/` runs outputs on asynchronous drivers.

Work that does I/O (opening a context or a driver) is passed in as functions. The
contracts say when each is called, what it is given, and where its result goes.
