//! How drivers, formats and numbers are written out.

use crate::settings::option_views;
use crate::subscription::{
    DriverView, KafkaConfiguration, SubscriptionOutputDriver, SubscriptionOutputFormat,
};
use crate::text::{
    decimal, description, driver_text, format_text, layout_driver, option_layout, options_layout,
    quote_driver, quoted_options, string_literal, write_decimal, write_description, write_driver,
    write_format,
};
use vstd::prelude::*;

verus! {

/// The number that decimal digits stand for, read from the left: each further
/// digit counts once, and what stands before it ten times.
pub open spec fn read_decimal(digits: Seq<char>) -> int
    decreases digits.len(),
{
    if digits.len() == 0 {
        0
    } else {
        10 * read_decimal(digits.drop_last()) + (digits.last() as int - '0' as int)
    }
}

/// A number is written in digits that read back as that number, and without
/// leading zeros.
pub proof fn law_decimal_reads_back(n: nat)
    ensures
        read_decimal(decimal(n)) == n,
        decimal(n).len() > 0,
        forall|k: int|
            0 <= k < decimal(n).len() ==> '0' as int <= #[trigger] decimal(n)[k] as int <= '9' as int,
        n > 0 ==> decimal(n)[0] != '0',
        n == 0 ==> decimal(n).len() == 1,
    decreases n,
{
    let digits = decimal(n);
    if n < 10 {
        assert(digits.drop_last() =~= Seq::<char>::empty());
        assert(read_decimal(digits.drop_last()) == 0);
    } else {
        law_decimal_reads_back(n / 10);
        assert(digits.drop_last() =~= decimal(n / 10));
        assert forall|k: int| 0 <= k < digits.len() implies '0' as int <= #[trigger] digits[k] as int
            <= '9' as int by {
            if k < digits.len() - 1 {
                assert(digits[k] == decimal(n / 10)[k]);
            }
        }
        assert(digits[0] == decimal(n / 10)[0]);
    }
}

/// Writing a number gives digits that read back as that number, without leading
/// zeros. A number below ten is one digit; of any other, the last digit is what
/// dividing by ten leaves over, and those before it are what writing the quotient
/// gives.
pub proof fn law_written_number_reads_back(n: u16, text: String)
    requires
        call_ensures(write_decimal, (n,), text),
    ensures
        read_decimal(text@) == n,
        text@.len() > 0,
        forall|k: int|
            0 <= k < text@.len() ==> '0' as int <= #[trigger] text@[k] as int <= '9' as int,
        n > 0 ==> text@[0] != '0',
        text@.last() as int == '0' as int + n % 10,
        n < 10 ==> text@.len() == 1,
        n >= 10 ==> forall|shorter: String| #[trigger]
            call_ensures(write_decimal, ((n / 10) as u16,), shorter) ==> text@.drop_last()
                == shorter@,
{
    law_decimal_reads_back(n as nat);
    if n >= 10 {
        assert(text@.drop_last() =~= decimal((n / 10) as nat));
    }
}

/// An option is laid out as its name and its value, in parentheses.
pub proof fn law_option_layout_holds_name_and_value(option: (Seq<char>, Seq<char>))
    ensures
        option_layout(option).len() == option.0.len() + option.1.len() + 4,
        option_layout(option) == seq!['('] + option.0 + seq![',', ' '] + option.1 + seq![')'],
{
    reveal_strlit("(");
    reveal_strlit(", ");
    reveal_strlit(")");
    assert("("@ =~= seq!['(']);
    assert(", "@ =~= seq![',', ' ']);
    assert(")"@ =~= seq![')']);
}

/// No options are laid out as nothing, one option as itself, and each further one
/// behind those before it and a comma.
pub proof fn law_each_option_is_laid_out_behind_the_others(
    options: Seq<(Seq<char>, Seq<char>)>,
    option: (Seq<char>, Seq<char>),
)
    ensures
        options_layout(Seq::empty()) == Seq::<char>::empty(),
        options_layout(seq![option]) == option_layout(option),
        options.len() > 0 ==> options_layout(options.push(option)) == options_layout(options)
            + ", "@ + option_layout(option),
{
    assert(options.push(option).drop_last() =~= options);
}

/// The layout of the first options begins that of all of them.
proof fn lemma_first_options_come_first(options: Seq<(Seq<char>, Seq<char>)>, k: int)
    requires
        0 <= k <= options.len(),
    ensures
        options_layout(options.take(k)).is_prefix_of(options_layout(options)),
    decreases options.len() - k,
{
    if k == options.len() {
        assert(options.take(k) =~= options);
    } else {
        lemma_first_options_come_first(options, k + 1);
        let first = options_layout(options.take(k));
        let more = options_layout(options.take(k + 1));
        assert(options.take(k + 1) =~= options.take(k).push(options[k]));
        if k == 0 {
            assert(options.take(0) =~= Seq::empty());
        } else {
            law_each_option_is_laid_out_behind_the_others(options.take(k), options[k]);
        }
        assert(more.subrange(0, first.len() as int) =~= first);
        let all = options_layout(options);
        assert(all.subrange(0, first.len() as int) =~= first) by {
            assert(all.subrange(0, more.len() as int) == more);
            assert forall|c: int| 0 <= c < first.len() implies all[c] == first[c] by {
                assert(all.subrange(0, more.len() as int)[c] == more[c]);
                assert(more.subrange(0, first.len() as int)[c] == more[c]);
            }
        }
    }
}

/// The layout of options holds every one of them: each occurs right behind the
/// layout of those before it, and a comma where there are any.
pub proof fn law_every_option_is_laid_out(options: Seq<(Seq<char>, Seq<char>)>, k: int)
    requires
        0 <= k < options.len(),
    ensures
        ({
            let all = options_layout(options);
            let text = option_layout(options[k]);
            let before = options_layout(options.take(k));
            let at = before.len() + (if k > 0 {
                2int
            } else {
                0int
            });
            &&& at + text.len() <= all.len()
            &&& all.subrange(at, at + text.len()) == text
            &&& all.subrange(0, before.len() as int) == before
        }),
{
    let all = options_layout(options);
    let text = option_layout(options[k]);
    let before = options_layout(options.take(k));
    let with = options_layout(options.take(k + 1));
    reveal_strlit(", ");
    lemma_first_options_come_first(options, k);
    lemma_first_options_come_first(options, k + 1);
    assert(options.take(k + 1) =~= options.take(k).push(options[k]));
    if k == 0 {
        assert(options.take(0) =~= Seq::empty());
        assert(options.take(1) =~= seq![options[0]]);
    }
    law_each_option_is_laid_out_behind_the_others(options.take(k), options[k]);
    let at = with.len() - text.len();
    assert(with.subrange(at, with.len() as int) =~= text);
    assert(all.subrange(0, with.len() as int) == with);
    assert forall|c: int| 0 <= c < text.len() implies all[at + c] == text[c] by {
        assert(all.subrange(0, with.len() as int)[at + c] == with[at + c]);
        assert(with.subrange(at, with.len() as int)[c] == text[c]);
    }
    assert(all.subrange(at, at + text.len()) =~= text);
    assert(all.subrange(0, before.len() as int) =~= before);
}

/// Replacing strings by their literals keeps the number and the order of options.
pub proof fn law_quoting_keeps_every_option(options: Seq<(Seq<char>, Seq<char>)>, k: int)
    ensures
        quoted_options(options).len() == options.len(),
        0 <= k < options.len() ==> quoted_options(options)[k].0 == string_literal(options[k].0)
            && quoted_options(options)[k].1 == string_literal(options[k].1),
{
}

/// Quoting a driver replaces each of its strings by the literal of that string,
/// and nothing else.
pub proof fn law_quoting_replaces_strings_by_literals(
    driver: SubscriptionOutputDriver,
    quoted: SubscriptionOutputDriver,
)
    requires
        call_ensures(quote_driver, (&driver,), quoted),
    ensures
        match driver {
            SubscriptionOutputDriver::Files(config) => {
                &&& quoted matches SubscriptionOutputDriver::Files(given)
                &&& given.path@ == string_literal(config.path@)
            },
            SubscriptionOutputDriver::Kafka(config) => {
                &&& quoted matches SubscriptionOutputDriver::Kafka(given)
                &&& given.topic@ == string_literal(config.topic@)
                &&& given.options@.len() == config.options@.len()
                &&& forall|k: int|
                    0 <= k < config.options@.len() ==> {
                        &&& (#[trigger] given.options@[k]).0@ == string_literal(
                            config.options@[k].0@,
                        )
                        &&& given.options@[k].1@ == string_literal(config.options@[k].1@)
                    }
            },
            SubscriptionOutputDriver::Tcp(config) => {
                &&& quoted matches SubscriptionOutputDriver::Tcp(given)
                &&& given.host@ == string_literal(config.host@)
                &&& given.port == config.port
            },
            SubscriptionOutputDriver::Redis(config) => {
                &&& quoted matches SubscriptionOutputDriver::Redis(given)
                &&& given.addr@ == string_literal(config.addr@)
                &&& given.list@ == string_literal(config.list@)
            },
            SubscriptionOutputDriver::UnixDatagram(config) => {
                &&& quoted matches SubscriptionOutputDriver::UnixDatagram(given)
                &&& given.path@ == string_literal(config.path@)
            },
            SubscriptionOutputDriver::Otlp(config) => {
                &&& quoted matches SubscriptionOutputDriver::Otlp(given)
                &&& given.endpoint@ == string_literal(config.endpoint@)
            },
        },
{
    match driver {
        SubscriptionOutputDriver::Kafka(config) => {
            let given = quoted->Kafka_0;
            let options = quoted_options(option_views(config.options@));
            assert(option_views(given.options@) == options);
            assert(given.options@.len() == option_views(given.options@).len());
            assert(config.options@.len() == options.len());
            assert forall|k: int| 0 <= k < config.options@.len() implies {
                &&& (#[trigger] given.options@[k]).0@ == string_literal(config.options@[k].0@)
                &&& given.options@[k].1@ == string_literal(config.options@[k].1@)
            } by {
                assert(option_views(given.options@)[k] == options[k]);
            }
        },
        _ => {},
    }
}

/// A driver is laid out with the name of its kind and of its configuration, and
/// each field behind its name, in order.
pub proof fn law_layout_names_every_field(driver: SubscriptionOutputDriver, text: String)
    requires
        call_ensures(layout_driver, (&driver,), text),
    ensures
        driver matches SubscriptionOutputDriver::Files(config) ==> text@
            == "Files(FilesConfiguration { path: "@ + config.path@ + " })"@,
        driver matches SubscriptionOutputDriver::Kafka(config) ==> text@
            == "Kafka(KafkaConfiguration { topic: "@ + config.topic@ + ", options: ["@
            + options_layout(option_views(config.options@)) + "] })"@,
        driver matches SubscriptionOutputDriver::Tcp(config) ==> forall|port: String| #[trigger]
            call_ensures(write_decimal, (config.port,), port) ==> text@
                == "Tcp(TcpConfiguration { host: "@ + config.host@ + ", port: "@ + port@
                + " })"@,
        driver matches SubscriptionOutputDriver::Redis(config) ==> text@
            == "Redis(RedisConfiguration { addr: "@ + config.addr@ + ", list: "@ + config.list@
            + " })"@,
        driver matches SubscriptionOutputDriver::UnixDatagram(config) ==> text@
            == "UnixDatagram(UnixDatagramConfiguration { path: "@ + config.path@ + " })"@,
        driver matches SubscriptionOutputDriver::Otlp(config) ==> text@
            == "Otlp(OtlpConfiguration { endpoint: "@ + config.endpoint@ + " })"@,
{
}

/// The layouts of two Kafka drivers, of which one has one option more, agree up to
/// where that option stands, and end alike.
pub proof fn law_further_option_is_laid_out_last(
    fewer: KafkaConfiguration,
    more: KafkaConfiguration,
    option: (String, String),
    shorter: String,
    longer: String,
)
    requires
        more.topic == fewer.topic,
        more.options@ == fewer.options@.push(option),
        call_ensures(layout_driver, (&SubscriptionOutputDriver::Kafka(fewer),), shorter),
        call_ensures(layout_driver, (&SubscriptionOutputDriver::Kafka(more),), longer),
    ensures
        exists|start: Seq<char>|
            {
                &&& shorter@ == #[trigger] (start + "] })"@)
                &&& longer@ == start + (if fewer.options@.len() > 0 {
                    ", "@
                } else {
                    Seq::empty()
                }) + "("@ + option.0@ + ", "@ + option.1@ + ")"@ + "] })"@
            },
{
    let options = option_views(fewer.options@);
    let added = (option.0@, option.1@);
    assert(option_views(more.options@) =~= options.push(added));
    law_each_option_is_laid_out_behind_the_others(options, added);
    let start = "Kafka(KafkaConfiguration { topic: "@ + fewer.topic@ + ", options: ["@
        + options_layout(options);
    assert(shorter@ == start + "] })"@);
    if fewer.options@.len() == 0 {
        assert(options =~= Seq::empty());
        assert(options.push(added) =~= seq![added]);
        assert(start =~= "Kafka(KafkaConfiguration { topic: "@ + fewer.topic@ + ", options: ["@);
    }
    assert(longer@ =~= start + (if fewer.options@.len() > 0 {
        ", "@
    } else {
        Seq::empty()
    }) + "("@ + option.0@ + ", "@ + option.1@ + ")"@ + "] })"@);
}

/// Writing out a driver lays out the driver with its strings quoted.
pub proof fn law_written_driver_is_quoted_and_laid_out(
    driver: SubscriptionOutputDriver,
    quoted: SubscriptionOutputDriver,
    laid_out: String,
    text: String,
)
    requires
        call_ensures(quote_driver, (&driver,), quoted),
        call_ensures(layout_driver, (&quoted,), laid_out),
        call_ensures(write_driver, (&driver,), text),
    ensures
        text@ == laid_out@,
{
}

/// The text of a driver names its kind, and each field with its own value: the
/// literal of a string, and the decimal digits of a port.
pub proof fn law_driver_text_names_every_field(driver: DriverView)
    ensures
        driver matches DriverView::Files { path } ==> driver_text(driver)
            == "Files(FilesConfiguration { path: "@ + string_literal(path) + " })"@,
        driver matches DriverView::Kafka { topic, options } ==> driver_text(driver)
            == "Kafka(KafkaConfiguration { topic: "@ + string_literal(topic) + ", options: ["@
            + options_layout(quoted_options(options)) + "] })"@,
        driver matches DriverView::Tcp { host, port } ==> {
            let start = "Tcp(TcpConfiguration { host: "@ + string_literal(host) + ", port: "@;
            exists|digits: Seq<char>|
                {
                    &&& driver_text(driver) == #[trigger] (start + digits) + " })"@
                    &&& read_decimal(digits) == port
                    &&& digits.len() > 0
                    &&& forall|k: int|
                        0 <= k < digits.len() ==> '0' as int <= #[trigger] digits[k] as int
                            <= '9' as int
                    &&& port > 0 ==> digits[0] != '0'
                    &&& port == 0 ==> digits.len() == 1
                }
        },
        driver matches DriverView::Redis { addr, list } ==> driver_text(driver)
            == "Redis(RedisConfiguration { addr: "@ + string_literal(addr) + ", list: "@
            + string_literal(list) + " })"@,
        driver matches DriverView::UnixDatagram { path } ==> driver_text(driver)
            == "UnixDatagram(UnixDatagramConfiguration { path: "@ + string_literal(path)
            + " })"@,
        driver matches DriverView::Otlp { endpoint } ==> driver_text(driver)
            == "Otlp(OtlpConfiguration { endpoint: "@ + string_literal(endpoint) + " })"@,
{
    match driver {
        DriverView::Tcp { host, port } => {
            let digits = decimal(port as nat);
            law_decimal_reads_back(port as nat);
            let start = "Tcp(TcpConfiguration { host: "@ + string_literal(host) + ", port: "@;
            assert(driver_text(driver) == (start + digits) + " })"@);
        },
        _ => {},
    }
}

/// TCP drivers with the same text of their host and different ports have
/// different texts.
pub proof fn law_driver_text_tells_ports_apart(host: Seq<char>, one: u16, other: u16)
    requires
        driver_text(DriverView::Tcp { host, port: one }) == driver_text(
            DriverView::Tcp { host, port: other },
        ),
    ensures
        one == other,
{
    let start = "Tcp(TcpConfiguration { host: "@ + string_literal(host) + ", port: "@;
    let first = decimal(one as nat);
    let second = decimal(other as nat);
    let text = driver_text(DriverView::Tcp { host, port: one });
    assert(text == (start + first) + " })"@);
    assert(text == (start + second) + " })"@);
    let from = start.len() as int;
    assert(text.subrange(from, text.len() - " })"@.len()) =~= first);
    assert(text.subrange(from, text.len() - " })"@.len()) =~= second);
    law_decimal_reads_back(one as nat);
    law_decimal_reads_back(other as nat);
}

/// A format is written out as its name.
pub proof fn law_format_is_written_as_its_name(format: SubscriptionOutputFormat, text: &str)
    requires
        call_ensures(write_format, (format,), text),
    ensures
        text@ == format_text(format),
        format is Json ==> text@ == seq!['J', 's', 'o', 'n'],
        format is Raw ==> text@ == seq!['R', 'a', 'w'],
        format is RawJson ==> text@ == seq!['R', 'a', 'w', 'J', 's', 'o', 'n'],
        format is Nxlog ==> text@ == seq!['N', 'x', 'l', 'o', 'g'],
{
    reveal_strlit("Json");
    reveal_strlit("Raw");
    reveal_strlit("RawJson");
    reveal_strlit("Nxlog");
}

/// A description is that of the format, named, and behind it that of the driver,
/// as it is.
pub proof fn law_description_names_format_and_driver(
    format: SubscriptionOutputFormat,
    driver: &str,
    name: &str,
    text: String,
)
    requires
        call_ensures(write_format, (format,), name),
        call_ensures(write_description, (format, driver), text),
    ensures
        text@ == "format: "@ + name@ + ", driver: "@ + driver@,
        text@ == description(format, driver@),
        text@.len() == name@.len() + driver@.len() + 18,
{
    reveal_strlit("format: ");
    reveal_strlit(", driver: ");
}

} // verus!
