//! What an agent's filters ask of the histories, by the address of a resource or by a tool.

use vstd::prelude::*;

use crate::api::mcp::filters::{
    all_known, comma_list, duration_of, events_keys, filter_value, filters_of, is_event_plan,
    is_log_plan, level_filter_of, level_of, limit_of, logs_keys, since_of, time_back,
    unknown_filter_text,
};
use crate::api::mcp::tool_bodies::{
    history_plan_of, logs_plan_of, rows_of, EventsHistoryArgs, LogsQueryArgs,
};
use crate::laws::answers::{lemma_says, says};
use crate::laws::queries::{
    begins_as_wanted, event_meets_query, gravity, is_between, is_wanted, is_within, log_meets_query,
};
use crate::state::{EventQuery, HistoricalEvent, HistoricalLogEvent, LogLevel, LogQuery};
use crate::text::{
    all_digits, decimal, digits_value, law_signed_reads_back, law_unsigned_reads_back,
    lemma_decimal_reads_back, opt_text, unsigned_value,
};

verus! {

// ---------------------------------------------------------------------
// Durations
// ---------------------------------------------------------------------

/// A number and a unit stand for so many seconds, minutes, hours or days.
pub proof fn law_durations_count_their_unit(n: nat)
    requires
        n * 86_400_000 <= i64::MAX,
    ensures
        duration_of(decimal(n).push('s')) == Ok::<int, Seq<char>>((n * 1_000) as int),
        duration_of(decimal(n).push('m')) == Ok::<int, Seq<char>>((n * 60 * 1_000) as int),
        duration_of(decimal(n).push('h')) == Ok::<int, Seq<char>>((n * 60 * 60 * 1_000) as int),
        duration_of(decimal(n).push('d')) == Ok::<int, Seq<char>>((n * 24 * 60 * 60 * 1_000) as int),
{
    let digits = decimal(n);
    lemma_decimal_reads_back(n);
    law_signed_reads_back(n as i64);
    assert(digits.push('s').drop_last() =~= digits);
    assert(digits.push('m').drop_last() =~= digits);
    assert(digits.push('h').drop_last() =~= digits);
    assert(digits.push('d').drop_last() =~= digits);
}

/// What reads as a duration is a number of milliseconds that the digits before the unit give.
pub proof fn law_durations_are_their_digits(raw: Seq<char>)
    requires
        duration_of(raw) is Ok,
    ensures
        ({
            let n = digits_value(raw.drop_last());
            duration_of(raw)->Ok_0 == (if raw.last() == 's' {
                n * 1_000
            } else if raw.last() == 'm' {
                n * 60_000
            } else if raw.last() == 'h' {
                n * 3_600_000
            } else {
                n * 86_400_000
            })
        }),
        raw.last() == 's' || raw.last() == 'm' || raw.last() == 'h' || raw.last() == 'd',
        0 <= duration_of(raw)->Ok_0 <= i64::MAX,
{
    let digits = raw.drop_last();
    assert(digits[0] == '+' || digits[0] == '-' ==> !all_digits(digits));
}

/// A duration is counted back from now: an earlier time for a longer one, and no bound without
/// one.
pub proof fn law_bounds_are_counted_back(now: i64, raw: Seq<char>, key: Seq<char>)
    ensures
        since_of(None, key, now) == Ok::<Option<i64>, Seq<char>>(None),
        duration_of(raw) matches Ok(ms) ==> (since_of(Some(raw), key, now) matches Ok(Some(at))
            && at <= now && (now - ms >= i64::MIN ==> now - at == ms)),
        duration_of(raw) is Err ==> since_of(Some(raw), key, now) is Err,
{
    if duration_of(raw) is Ok {
        law_durations_are_their_digits(raw);
    }
}

// ---------------------------------------------------------------------
// Rows and levels
// ---------------------------------------------------------------------

/// An agent gets as many rows as it asks for, from one up to a hundred, and a hundred where it
/// does not say, by an address as by a tool.
pub proof fn law_agents_get_as_many_as_they_ask_for(n: u32)
    ensures
        rows_of(None) == 100,
        limit_of(None) == Ok::<nat, Seq<char>>(100),
        1 <= n <= 100 ==> rows_of(Some(n)) == n,
        n > 100 ==> rows_of(Some(n)) == 100,
        rows_of(Some(0)) == 1,
        limit_of(Some(decimal(n as nat))) == Ok::<nat, Seq<char>>(rows_of(Some(n))),
{
    law_unsigned_reads_back(n as u64);
}

/// A level is found under its name, and under no other.
pub proof fn law_levels_have_these_names(name: Seq<char>)
    ensures
        level_of("Trace"@) == Some(LogLevel::Trace),
        level_of("Debug"@) == Some(LogLevel::Debug),
        level_of("Info"@) == Some(LogLevel::Info),
        level_of("Warn"@) == Some(LogLevel::Warn),
        level_of("Error"@) == Some(LogLevel::Error),
        level_of(name) is Some ==> name == "Trace"@ || name == "Debug"@ || name == "Info"@ || name
            == "Warn"@ || name == "Error"@,
{
    reveal_strlit("Trace");
    reveal_strlit("Debug");
    reveal_strlit("Info");
    reveal_strlit("Warn");
    reveal_strlit("Error");
    assert("Trace"@[0] == 'T' && "Debug"@[0] == 'D' && "Info"@[0] == 'I' && "Warn"@[0] == 'W'
        && "Error"@[0] == 'E');
}

/// A level that is named is the one with the name, and without a name none is asked for; a name
/// that stands for none is refused.
pub proof fn law_named_levels_are_asked_for(name: Seq<char>, level: LogLevel)
    ensures
        level_filter_of(None) == Ok::<Option<LogLevel>, Seq<char>>(None),
        level_of(name) == Some(level) ==> level_filter_of(Some(name)) == Ok::<
            Option<LogLevel>,
            Seq<char>,
        >(Some(level)),
        level_of(name) is None ==> level_filter_of(Some(name)) is Err,
{
}

/// Of a filter that is given twice the later value counts, and only what is given is a filter.
pub proof fn law_later_filters_count(pairs: Seq<(Seq<char>, Seq<char>)>, i: int)
    requires
        0 <= i < pairs.len(),
        pairs[i].0.len() > 0,
        forall|j: int| i < j < pairs.len() ==> (#[trigger] pairs[j]).0 != pairs[i].0,
    ensures
        filter_value(filters_of(pairs), pairs[i].0) == Some(pairs[i].1),
    decreases pairs.len(),
{
    if i < pairs.len() - 1 {
        let init = pairs.drop_last();
        assert forall|j: int| i < j < init.len() implies (#[trigger] init[j]).0 != init[i].0 by {
            assert(init[j] == pairs[j]);
        }
        assert(init[i] == pairs[i]);
        law_later_filters_count(init, i);
        assert(pairs[pairs.len() - 1].0 != pairs[i].0);
    }
}

/// A filter that is not given is none.
pub proof fn law_filters_are_given(pairs: Seq<(Seq<char>, Seq<char>)>, key: Seq<char>)
    requires
        forall|j: int| 0 <= j < pairs.len() ==> (#[trigger] pairs[j]).0 != key,
    ensures
        filter_value(filters_of(pairs), key) is None,
    decreases pairs.len(),
{
    if pairs.len() > 0 {
        let init = pairs.drop_last();
        assert forall|j: int| 0 <= j < init.len() implies (#[trigger] init[j]).0 != key by {
            assert(init[j] == pairs[j]);
        }
        law_filters_are_given(init, key);
        assert(pairs[pairs.len() - 1].0 != key);
    }
}

// ---------------------------------------------------------------------
// Events
// ---------------------------------------------------------------------

/// The bound that a duration sets, if it is one.
pub open spec fn bound(raw: Option<Seq<char>>, now: i64) -> Option<i64> {
    match raw {
        Some(text) => match duration_of(text) {
            Ok(ms) => Some(time_back(now, ms)),
            Err(_) => None,
        },
        None => None,
    }
}

/// Whether there is no duration, or one that reads.
pub open spec fn reads(raw: Option<Seq<char>>) -> bool {
    raw matches Some(text) ==> duration_of(text) is Ok
}

/// Whether an event is one that an agent asks for by these texts and numbers.
pub open spec fn event_is_asked_for(
    event: HistoricalEvent,
    since: Option<i64>,
    until: Option<i64>,
    device: Option<Seq<char>>,
    instance: Option<Seq<char>>,
    plugin: Option<Seq<char>>,
    topic: Option<Seq<char>>,
    topic_prefix: Option<Seq<char>>,
    after_id: Option<u64>,
    before_id: Option<u64>,
) -> bool {
    &&& is_within(event.received_ms, since, until)
    &&& is_wanted(device, opt_text(event.device_id))
    &&& is_wanted(instance, Some(event.instance_id@))
    &&& is_wanted(plugin, Some(event.plugin_id@))
    &&& if topic_prefix is Some {
        begins_as_wanted(topic_prefix, Some(event.topic@))
    } else {
        is_wanted(topic, Some(event.topic@))
    }
    &&& is_between(event.id, after_id, before_id)
}

/// Every filter of `events.history` reaches the store: where the durations read and the ids are
/// within range the call goes on, and an event meets its query exactly when it meets each filter.
pub proof fn law_history_filters_reach_the_store(
    args: EventsHistoryArgs,
    now: i64,
    event: HistoricalEvent,
)
    ensures
        ({
            let plan = history_plan_of(Ok(args), now);
            &&& plan is Ok <==> reads(opt_text(args.since)) && reads(opt_text(args.until)) && (
            args.after_id matches Some(id) ==> id <= i64::MAX) && (args.before_id matches Some(id)
                ==> id <= i64::MAX)
            &&& plan matches Ok((query, limit)) ==> limit == rows_of(args.limit) && (
            event_meets_query(event, query) <==> event_is_asked_for(
                event,
                bound(opt_text(args.since), now),
                bound(opt_text(args.until), now),
                opt_text(args.device),
                opt_text(args.instance),
                opt_text(args.plugin),
                opt_text(args.topic),
                opt_text(args.topic_prefix),
                args.after_id,
                args.before_id,
            ))
        }),
{
}

/// Every filter of an address of the event history reaches the store: an event meets the planned
/// query exactly when it meets each filter.
pub proof fn law_event_address_filters_reach_the_store(
    r: Result<(EventQuery, usize), String>,
    filters: Map<Seq<char>, Seq<char>>,
    now: i64,
    after_id: Option<u64>,
    before_id: Option<u64>,
    event: HistoricalEvent,
)
    requires
        is_event_plan(r, filters, now),
        r is Ok,
        filter_value(filters, "after_id"@) == (match after_id {
            Some(id) => Some(decimal(id as nat)),
            None => None,
        }),
        filter_value(filters, "before_id"@) == (match before_id {
            Some(id) => Some(decimal(id as nat)),
            None => None,
        }),
    ensures
        event_meets_query(event, r->Ok_0.0) <==> event_is_asked_for(
            event,
            bound(filter_value(filters, "since"@), now),
            bound(filter_value(filters, "until"@), now),
            filter_value(filters, "device"@),
            filter_value(filters, "instance"@),
            filter_value(filters, "plugin"@),
            filter_value(filters, "topic"@),
            filter_value(filters, "topic_prefix"@),
            after_id,
            before_id,
        ),
        reads(filter_value(filters, "since"@)),
        reads(filter_value(filters, "until"@)),
        filter_value(filters, "limit"@) is None ==> r->Ok_0.1 == 100,
        forall|n: u32|
            filter_value(filters, "limit"@) == Some(#[trigger] decimal(n as nat)) ==> r->Ok_0.1
                == rows_of(Some(n)),
{
    if let Some(id) = after_id {
        law_unsigned_reads_back(id);
    }
    if let Some(id) = before_id {
        law_unsigned_reads_back(id);
    }
    assert forall|n: u32|
        filter_value(filters, "limit"@) == Some(#[trigger] decimal(n as nat)) implies r->Ok_0.1
        == rows_of(Some(n)) by {
        law_agents_get_as_many_as_they_ask_for(n);
    }
}

// ---------------------------------------------------------------------
// Logs
// ---------------------------------------------------------------------

/// Whether a log entry is one that an agent asks for by these texts.
pub open spec fn log_is_asked_for(
    entry: HistoricalLogEvent,
    since: Option<i64>,
    until: Option<i64>,
    level: Option<LogLevel>,
    instance: Option<Seq<char>>,
    plugin: Option<Seq<char>>,
    device: Option<Seq<char>>,
    target: Option<Seq<char>>,
    target_prefix: Option<Seq<char>>,
    span_path_prefix: Option<Seq<char>>,
) -> bool {
    &&& is_within(entry.ts_unix_ms, since, until)
    &&& level matches Some(least) ==> gravity(least) <= gravity(entry.level)
    &&& is_wanted(instance, opt_text(entry.instance_id))
    &&& is_wanted(plugin, opt_text(entry.plugin_id))
    &&& is_wanted(device, opt_text(entry.device_id))
    &&& is_wanted(target, Some(entry.target@))
    &&& begins_as_wanted(target_prefix, Some(entry.target@))
    &&& begins_as_wanted(span_path_prefix, opt_text(entry.span_path))
}

/// Every filter of `logs.query` reaches the store: where the durations read the call goes on, and
/// a log entry meets its query exactly when it meets each filter.
pub proof fn law_log_tool_filters_reach_the_store(
    args: LogsQueryArgs,
    now: i64,
    entry: HistoricalLogEvent,
)
    ensures
        ({
            let plan = logs_plan_of(Ok(args), now);
            &&& plan is Ok <==> reads(opt_text(args.since)) && reads(opt_text(args.until))
            &&& plan matches Ok((query, limit)) ==> limit == rows_of(args.limit) && (
            log_meets_query(entry, query) <==> log_is_asked_for(
                entry,
                bound(opt_text(args.since), now),
                bound(opt_text(args.until), now),
                args.level,
                opt_text(args.instance),
                opt_text(args.plugin),
                opt_text(args.device),
                opt_text(args.target),
                opt_text(args.target_prefix),
                opt_text(args.span_path_prefix),
            ))
        }),
{
}

/// Every filter of an address of the log history reaches the store: a log entry meets the planned
/// query exactly when it meets each filter.
pub proof fn law_log_address_filters_reach_the_store(
    r: Result<(LogQuery, usize), String>,
    filters: Map<Seq<char>, Seq<char>>,
    now: i64,
    entry: HistoricalLogEvent,
)
    requires
        is_log_plan(r, filters, now),
        r is Ok,
    ensures
        log_meets_query(entry, r->Ok_0.0) <==> log_is_asked_for(
            entry,
            bound(filter_value(filters, "since"@), now),
            bound(filter_value(filters, "until"@), now),
            match filter_value(filters, "level"@) {
                Some(name) => level_of(name),
                None => None,
            },
            filter_value(filters, "instance"@),
            filter_value(filters, "plugin"@),
            filter_value(filters, "device"@),
            filter_value(filters, "target"@),
            filter_value(filters, "target_prefix"@),
            filter_value(filters, "span_path_prefix"@),
        ),
        reads(filter_value(filters, "since"@)),
        reads(filter_value(filters, "until"@)),
        filter_value(filters, "level"@) matches Some(name) ==> level_of(name) is Some,
        filter_value(filters, "limit"@) is None ==> r->Ok_0.1 == 100,
        forall|n: u32|
            filter_value(filters, "limit"@) == Some(#[trigger] decimal(n as nat)) ==> r->Ok_0.1
                == rows_of(Some(n)),
{
    assert forall|n: u32|
        filter_value(filters, "limit"@) == Some(#[trigger] decimal(n as nat)) implies r->Ok_0.1
        == rows_of(Some(n)) by {
        law_agents_get_as_many_as_they_ask_for(n);
    }
}

// ---------------------------------------------------------------------
// What is taken and what is refused
// ---------------------------------------------------------------------

/// Whether a number is not given, or reads as one up to a limit.
pub open spec fn reads_as_number(raw: Option<Seq<char>>, max: nat) -> bool {
    raw matches Some(text) ==> unsigned_value(text, max) is Some
}

/// Whether this is a filter of the event history.
pub open spec fn is_event_filter(key: Seq<char>) -> bool {
    key == "after_id"@ || key == "before_id"@ || key == "device"@ || key == "instance"@ || key
        == "limit"@ || key == "plugin"@ || key == "since"@ || key == "topic"@ || key
        == "topic_prefix"@ || key == "until"@
}

/// Whether this is a filter of the logs.
pub open spec fn is_log_filter(key: Seq<char>) -> bool {
    key == "device"@ || key == "instance"@ || key == "level"@ || key == "limit"@ || key
        == "plugin"@ || key == "since"@ || key == "span_path_prefix"@ || key == "target"@ || key
        == "target_prefix"@ || key == "until"@
}

/// The filters of the event history are taken exactly where they are all known and the times and
/// the numbers among them read.
pub proof fn law_readable_event_filters_are_taken(
    r: Result<(EventQuery, usize), String>,
    filters: Map<Seq<char>, Seq<char>>,
    now: i64,
)
    requires
        is_event_plan(r, filters, now),
    ensures
        r is Ok <==> (forall|key: Seq<char>| #[trigger]
            filters.dom().contains(key) ==> is_event_filter(key)) && reads(
            filter_value(filters, "since"@),
        ) && reads(filter_value(filters, "until"@)) && reads_as_number(
            filter_value(filters, "limit"@),
            u32::MAX as nat,
        ) && reads_as_number(filter_value(filters, "after_id"@), u64::MAX as nat)
            && reads_as_number(filter_value(filters, "before_id"@), u64::MAX as nat),
{
    let keys = events_keys();
    assert forall|key: Seq<char>| #[trigger] keys.contains(key) <==> is_event_filter(key) by {
        if is_event_filter(key) {
            assert(keys[0] == "after_id"@ && keys[1] == "before_id"@ && keys[2] == "device"@
                && keys[3] == "instance"@ && keys[4] == "limit"@ && keys[5] == "plugin"@ && keys[6]
                == "since"@ && keys[7] == "topic"@ && keys[8] == "topic_prefix"@ && keys[9]
                == "until"@);
        }
    }
    if all_known(filters, keys) {
        assert forall|key: Seq<char>| #[trigger] filters.dom().contains(key) implies
            is_event_filter(key) by {
            assert(keys.contains(key));
        }
    } else {
        let key = choose|key: Seq<char>|
            filters.dom().contains(key) && !(#[trigger] keys.contains(key));
        assert(filters.dom().contains(key) && !is_event_filter(key));
    }
}

/// The filters of the logs are taken exactly where they are all known and the times, the number and
/// the level among them read.
pub proof fn law_readable_log_filters_are_taken(
    r: Result<(LogQuery, usize), String>,
    filters: Map<Seq<char>, Seq<char>>,
    now: i64,
)
    requires
        is_log_plan(r, filters, now),
    ensures
        r is Ok <==> (forall|key: Seq<char>| #[trigger]
            filters.dom().contains(key) ==> is_log_filter(key)) && reads(
            filter_value(filters, "since"@),
        ) && reads(filter_value(filters, "until"@)) && reads_as_number(
            filter_value(filters, "limit"@),
            u32::MAX as nat,
        ) && (filter_value(filters, "level"@) matches Some(name) ==> level_of(name) is Some),
{
    let keys = logs_keys();
    assert forall|key: Seq<char>| #[trigger] keys.contains(key) <==> is_log_filter(key) by {
        if is_log_filter(key) {
            assert(keys[0] == "device"@ && keys[1] == "instance"@ && keys[2] == "level"@ && keys[3]
                == "limit"@ && keys[4] == "plugin"@ && keys[5] == "since"@ && keys[6]
                == "span_path_prefix"@ && keys[7] == "target"@ && keys[8] == "target_prefix"@
                && keys[9] == "until"@);
        }
    }
    if all_known(filters, keys) {
        assert forall|key: Seq<char>| #[trigger] filters.dom().contains(key) implies
            is_log_filter(key) by {
            assert(keys.contains(key));
        }
    } else {
        let key = choose|key: Seq<char>|
            filters.dom().contains(key) && !(#[trigger] keys.contains(key));
        assert(filters.dom().contains(key) && !is_log_filter(key));
    }
}

/// A filter that is not known is named in what is said of it.
pub proof fn law_unknown_filters_are_named(
    events: Result<(EventQuery, usize), String>,
    logs: Result<(LogQuery, usize), String>,
    filters: Map<Seq<char>, Seq<char>>,
    now: i64,
)
    requires
        is_event_plan(events, filters, now),
        is_log_plan(logs, filters, now),
    ensures
        !all_known(filters, events_keys()) ==> exists|key: Seq<char>| #[trigger]
            filters.dom().contains(key) && !events_keys().contains(key) && says(
                events->Err_0@,
                key,
            ),
        !all_known(filters, logs_keys()) ==> exists|key: Seq<char>| #[trigger]
            filters.dom().contains(key) && !logs_keys().contains(key) && says(logs->Err_0@, key),
{
    if !all_known(filters, events_keys()) {
        let key = choose|key: Seq<char>|
            filters.dom().contains(key) && !(#[trigger] events_keys().contains(key))
                && events->Err_0@ == unknown_filter_text(key, events_keys());
        lemma_says(
            events->Err_0@,
            "unknown filter `"@,
            key,
            "`; allowed: "@ + comma_list(events_keys()),
        );
        assert(filters.dom().contains(key));
    }
    if !all_known(filters, logs_keys()) {
        let key = choose|key: Seq<char>|
            filters.dom().contains(key) && !(#[trigger] logs_keys().contains(key)) && logs->Err_0@
                == unknown_filter_text(key, logs_keys());
        lemma_says(
            logs->Err_0@,
            "unknown filter `"@,
            key,
            "`; allowed: "@ + comma_list(logs_keys()),
        );
        assert(filters.dom().contains(key));
    }
}

} // verus!
