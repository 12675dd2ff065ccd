//! How drivers and formats are written out as text.
//!
//! The text is what `{:?}` gives for the same value: a variant holds its
//! configuration in parentheses, a configuration names its fields in braces, and
//! strings stand as quoted literals. It is made in two steps: each string is
//! replaced by its literal, and what results is laid out.

use crate::settings::option_views;
use crate::subscription::{
    DriverView, FilesConfiguration, KafkaConfiguration, OtlpConfiguration, RedisConfiguration,
    SubscriptionOutputDriver, SubscriptionOutputFormat, TcpConfiguration,
    UnixDatagramConfiguration,
};
use vstd::prelude::*;

verus! {

/// The literal that `{:?}` gives for a string.
pub uninterp spec fn string_literal(text: Seq<char>) -> Seq<char>;

/// The literal of a string: in double quotes, with what cannot be printed or
/// would end the literal escaped. It is made by std's `Debug` for `str`, of
/// which it is only claimed that the same string always gives the same literal.
#[verifier::external_body]
fn quote(text: &str) -> (literal: String)
    ensures
        literal@ == string_literal(text@),
{
    format!("{:?}", text)
}

/// Named options, with each string replaced by its literal.
pub open spec fn quoted_options(options: Seq<(Seq<char>, Seq<char>)>) -> Seq<
    (Seq<char>, Seq<char>),
> {
    options.map_values(
        |option: (Seq<char>, Seq<char>)| (string_literal(option.0), string_literal(option.1)),
    )
}

/// A driver, with each string replaced by its literal.
pub open spec fn quoted_driver(driver: DriverView) -> DriverView {
    match driver {
        DriverView::Files { path } => DriverView::Files { path: string_literal(path) },
        DriverView::Kafka { topic, options } => DriverView::Kafka {
            topic: string_literal(topic),
            options: quoted_options(options),
        },
        DriverView::Tcp { host, port } => DriverView::Tcp { host: string_literal(host), port },
        DriverView::Redis { addr, list } => DriverView::Redis {
            addr: string_literal(addr),
            list: string_literal(list),
        },
        DriverView::UnixDatagram { path } => DriverView::UnixDatagram {
            path: string_literal(path),
        },
        DriverView::Otlp { endpoint } => DriverView::Otlp { endpoint: string_literal(endpoint) },
    }
}

/// The decimal digit of a number below ten.
pub open spec fn digit(n: nat) -> char {
    ('0' as nat + n) as char
}

/// A number in decimal digits, without leading zeros.
pub open spec fn decimal(n: nat) -> Seq<char>
    decreases n,
{
    if n < 10 {
        seq![digit(n)]
    } else {
        decimal(n / 10).push(digit(n % 10))
    }
}

/// The layout of one option.
pub open spec fn option_layout(option: (Seq<char>, Seq<char>)) -> Seq<char> {
    "("@ + option.0 + ", "@ + option.1 + ")"@
}

/// The layout of options, separated by commas.
pub open spec fn options_layout(options: Seq<(Seq<char>, Seq<char>)>) -> Seq<char>
    decreases options.len(),
{
    if options.len() == 0 {
        Seq::empty()
    } else if options.len() == 1 {
        option_layout(options[0])
    } else {
        options_layout(options.drop_last()) + ", "@ + option_layout(options.last())
    }
}

/// The layout of a driver whose strings stand as they are.
pub open spec fn driver_layout(driver: DriverView) -> Seq<char> {
    match driver {
        DriverView::Files { path } => "Files(FilesConfiguration { path: "@ + path + " })"@,
        DriverView::Kafka { topic, options } => "Kafka(KafkaConfiguration { topic: "@ + topic
            + ", options: ["@ + options_layout(options) + "] })"@,
        DriverView::Tcp { host, port } => "Tcp(TcpConfiguration { host: "@ + host + ", port: "@
            + decimal(port as nat) + " })"@,
        DriverView::Redis { addr, list } => "Redis(RedisConfiguration { addr: "@ + addr
            + ", list: "@ + list + " })"@,
        DriverView::UnixDatagram { path } => "UnixDatagram(UnixDatagramConfiguration { path: "@
            + path + " })"@,
        DriverView::Otlp { endpoint } => "Otlp(OtlpConfiguration { endpoint: "@ + endpoint
            + " })"@,
    }
}

/// The text of a driver.
pub open spec fn driver_text(driver: DriverView) -> Seq<char> {
    driver_layout(quoted_driver(driver))
}

/// The text of a format: its name.
pub open spec fn format_text(format: SubscriptionOutputFormat) -> Seq<char> {
    match format {
        SubscriptionOutputFormat::Json => "Json"@,
        SubscriptionOutputFormat::Raw => "Raw"@,
        SubscriptionOutputFormat::RawJson => "RawJson"@,
        SubscriptionOutputFormat::Nxlog => "Nxlog"@,
    }
}

/// The description of an output with a given format and text of its driver.
pub open spec fn description(format: SubscriptionOutputFormat, driver: Seq<char>) -> Seq<char> {
    "format: "@ + format_text(format) + ", driver: "@ + driver
}

fn quote_options(options: &Vec<(String, String)>) -> (quoted: Vec<(String, String)>)
    ensures
        option_views(quoted@) == quoted_options(option_views(options@)),
{
    let mut quoted: Vec<(String, String)> = Vec::new();
    for i in 0..options.len()
        invariant
            quoted@.len() == i,
            forall|j: int|
                0 <= j < i ==> {
                    &&& (#[trigger] quoted@[j]).0@ == string_literal(options@[j].0@)
                    &&& quoted@[j].1@ == string_literal(options@[j].1@)
                },
    {
        quoted.push((quote(options[i].0.as_str()), quote(options[i].1.as_str())));
    }
    assert(option_views(quoted@) =~= quoted_options(option_views(options@)));
    quoted
}

/// Replaces each string of a driver by its literal.
pub fn quote_driver(driver: &SubscriptionOutputDriver) -> (quoted: SubscriptionOutputDriver)
    ensures
        quoted@ == quoted_driver(driver@),
{
    match driver {
        SubscriptionOutputDriver::Files(config) => SubscriptionOutputDriver::Files(
            FilesConfiguration { path: quote(config.path.as_str()) },
        ),
        SubscriptionOutputDriver::Kafka(config) => SubscriptionOutputDriver::Kafka(
            KafkaConfiguration {
                topic: quote(config.topic.as_str()),
                options: quote_options(&config.options),
            },
        ),
        SubscriptionOutputDriver::Tcp(config) => SubscriptionOutputDriver::Tcp(
            TcpConfiguration { host: quote(config.host.as_str()), port: config.port },
        ),
        SubscriptionOutputDriver::Redis(config) => SubscriptionOutputDriver::Redis(
            RedisConfiguration {
                addr: quote(config.addr.as_str()),
                list: quote(config.list.as_str()),
            },
        ),
        SubscriptionOutputDriver::UnixDatagram(config) => SubscriptionOutputDriver::UnixDatagram(
            UnixDatagramConfiguration { path: quote(config.path.as_str()) },
        ),
        SubscriptionOutputDriver::Otlp(config) => SubscriptionOutputDriver::Otlp(
            OtlpConfiguration { endpoint: quote(config.endpoint.as_str()) },
        ),
    }
}

fn write_digit(n: u16) -> (text: &'static str)
    requires
        n < 10,
    ensures
        text@ == seq![digit(n as nat)],
{
    proof {
        reveal_strlit("0");
        reveal_strlit("1");
        reveal_strlit("2");
        reveal_strlit("3");
        reveal_strlit("4");
        reveal_strlit("5");
        reveal_strlit("6");
        reveal_strlit("7");
        reveal_strlit("8");
        reveal_strlit("9");
    }
    match n {
        0 => "0",
        1 => "1",
        2 => "2",
        3 => "3",
        4 => "4",
        5 => "5",
        6 => "6",
        7 => "7",
        8 => "8",
        _ => "9",
    }
}

/// Writes a number in decimal digits.
pub fn write_decimal(n: u16) -> (text: String)
    ensures
        text@ == decimal(n as nat),
    decreases n,
{
    if n < 10 {
        write_digit(n).to_owned()
    } else {
        let mut text = write_decimal(n / 10);
        text.append(write_digit(n % 10));
        text
    }
}

fn layout_options(options: &Vec<(String, String)>) -> (text: String)
    ensures
        text@ == options_layout(option_views(options@)),
{
    let ghost views = option_views(options@);
    let mut text = String::new();
    for i in 0..options.len()
        invariant
            views == option_views(options@),
            text@ == options_layout(views.take(i as int)),
    {
        assert(views.take(i + 1).drop_last() =~= views.take(i as int));
        assert(views.take(i + 1).last() == (options@[i as int].0@, options@[i as int].1@));
        let ghost before = text@;
        if i > 0 {
            text.append(", ");
        }
        text.append("(");
        text.append(options[i].0.as_str());
        text.append(", ");
        text.append(options[i].1.as_str());
        text.append(")");
        let ghost written = option_layout(views[i as int]);
        if i > 0 {
            assert(text@ =~= before + ", "@ + written);
        } else {
            assert(text@ =~= written);
        }
    }
    assert(views.take(options@.len() as int) =~= views);
    text
}

/// Lays out a driver whose strings stand as they are.
pub fn layout_driver(driver: &SubscriptionOutputDriver) -> (text: String)
    ensures
        text@ == driver_layout(driver@),
{
    match driver {
        SubscriptionOutputDriver::Files(config) => {
            let mut text = "Files(FilesConfiguration { path: ".to_owned();
            text.append(config.path.as_str());
            text.append(" })");
            text
        },
        SubscriptionOutputDriver::Kafka(config) => {
            let mut text = "Kafka(KafkaConfiguration { topic: ".to_owned();
            text.append(config.topic.as_str());
            text.append(", options: [");
            text.append(layout_options(&config.options).as_str());
            text.append("] })");
            text
        },
        SubscriptionOutputDriver::Tcp(config) => {
            let mut text = "Tcp(TcpConfiguration { host: ".to_owned();
            text.append(config.host.as_str());
            text.append(", port: ");
            text.append(write_decimal(config.port).as_str());
            text.append(" })");
            text
        },
        SubscriptionOutputDriver::Redis(config) => {
            let mut text = "Redis(RedisConfiguration { addr: ".to_owned();
            text.append(config.addr.as_str());
            text.append(", list: ");
            text.append(config.list.as_str());
            text.append(" })");
            text
        },
        SubscriptionOutputDriver::UnixDatagram(config) => {
            let mut text = "UnixDatagram(UnixDatagramConfiguration { path: ".to_owned();
            text.append(config.path.as_str());
            text.append(" })");
            text
        },
        SubscriptionOutputDriver::Otlp(config) => {
            let mut text = "Otlp(OtlpConfiguration { endpoint: ".to_owned();
            text.append(config.endpoint.as_str());
            text.append(" })");
            text
        },
    }
}

/// Writes out a driver.
pub fn write_driver(driver: &SubscriptionOutputDriver) -> (text: String)
    ensures
        text@ == driver_text(driver@),
{
    layout_driver(&quote_driver(driver))
}

/// Writes out a format.
pub fn write_format(format: SubscriptionOutputFormat) -> (text: &'static str)
    ensures
        text@ == format_text(format),
{
    match format {
        SubscriptionOutputFormat::Json => "Json",
        SubscriptionOutputFormat::Raw => "Raw",
        SubscriptionOutputFormat::RawJson => "RawJson",
        SubscriptionOutputFormat::Nxlog => "Nxlog",
    }
}

/// Describes an output with a given format and text of its driver.
pub fn write_description(format: SubscriptionOutputFormat, driver: &str) -> (text: String)
    ensures
        text@ == description(format, driver@),
{
    let mut text = "format: ".to_owned();
    text.append(write_format(format));
    text.append(", driver: ");
    text.append(driver);
    text
}

} // verus!
