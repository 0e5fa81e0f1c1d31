//! Filters in the query of a resource address.
//!
//! A filter that is not known, or whose value cannot be read, is an error: ignoring it would widen
//! what the caller asked for.

use vstd::prelude::*;

use crate::api::queries::topic_filter;
use crate::state::{EventQuery, LogLevel, LogQuery, TopicMatch};
use crate::text::{
    all_digits, is_digit, opt_str, opt_text, parse_i64, parse_u64, parse_unsigned, signed_value,
    unsigned_value,
};
use crate::text_map::TextMap;

verus! {

/// The rows of an answer when the caller does not say, and the most that it gets.
pub const ROWS_MAX: u32 = 100;

// ---------------------------------------------------------------------
// The query
// ---------------------------------------------------------------------

/// What `serde_urlencoded` reads from a query: the decoded names and values in order, or the
/// words in which it says what is wrong.
pub uninterp spec fn urlencoded_pairs(raw: Seq<char>) -> Result<
    Seq<(Seq<char>, Seq<char>)>,
    Seq<char>,
>;

/// The views of a list of pairs.
pub open spec fn pair_views(pairs: Seq<(String, String)>) -> Seq<(Seq<char>, Seq<char>)> {
    pairs.map_values(|p: (String, String)| (p.0@, p.1@))
}

/// `serde_urlencoded::from_str` at the type `Vec<(String, String)>`.
#[verifier::external_body]
fn decode_pairs(raw: &str) -> (r: Result<Vec<(String, String)>, String>)
    ensures
        match r {
            Ok(pairs) => urlencoded_pairs(raw@) == Ok::<Seq<(Seq<char>, Seq<char>)>, Seq<char>>(
                pair_views(pairs@),
            ),
            Err(words) => urlencoded_pairs(raw@) == Err::<Seq<(Seq<char>, Seq<char>)>, Seq<char>>(
                words@,
            ),
        },
{
    serde_urlencoded::from_str::<Vec<(String, String)>>(raw).map_err(|e| e.to_string())
}

/// The filters that pairs make. A pair without a name does not count, and of two with one name
/// the later one does.
pub open spec fn filters_of(pairs: Seq<(Seq<char>, Seq<char>)>) -> Map<Seq<char>, Seq<char>>
    decreases pairs.len(),
{
    if pairs.len() == 0 {
        Map::empty()
    } else {
        let before = filters_of(pairs.drop_last());
        if pairs.last().0.len() == 0 {
            before
        } else {
            before.insert(pairs.last().0, pairs.last().1)
        }
    }
}

/// The view of filters.
pub open spec fn filter_views(filters: Map<Seq<char>, String>) -> Map<Seq<char>, Seq<char>> {
    filters.map_values(|v: String| v@)
}

/// The filters that pairs make.
pub fn filters_from_pairs(pairs: Vec<(String, String)>) -> (r: TextMap<String>)
    ensures
        filter_views(r@) == filters_of(pair_views(pairs@)),
{
    let ghost all = pair_views(pairs@);
    let mut filters: TextMap<String> = TextMap::new();
    let mut i: usize = 0;
    assert(all.take(0) =~= Seq::<(Seq<char>, Seq<char>)>::empty());
    assert(filter_views(filters@) =~= Map::<Seq<char>, Seq<char>>::empty());
    while i < pairs.len()
        invariant
            0 <= i <= pairs.len(),
            all == pair_views(pairs@),
            filter_views(filters@) == filters_of(all.take(i as int)),
        decreases pairs.len() - i,
    {
        let ghost before = filters@;
        proof {
            assert(all.take(i + 1).drop_last() =~= all.take(i as int));
            assert(all.take(i + 1).last() == all[i as int]);
        }
        if pairs[i].0.as_str().unicode_len() > 0 {
            filters.insert(pairs[i].0.clone(), pairs[i].1.clone());
            assert(filter_views(filters@) =~= filter_views(before).insert(
                pairs@[i as int].0@,
                pairs@[i as int].1@,
            ));
        }
        i += 1;
    }
    assert(all.take(i as int) =~= all);
    filters
}

/// The filters of a query, or what is wrong with it.
pub open spec fn query_of(raw: Seq<char>) -> Result<Map<Seq<char>, Seq<char>>, Seq<char>> {
    if raw.len() == 0 {
        Ok(Map::empty())
    } else {
        match urlencoded_pairs(raw) {
            Ok(pairs) => Ok(filters_of(pairs)),
            Err(words) => Err("malformed URI query: "@ + words),
        }
    }
}

/// Reads the filters of a query.
pub fn parse_query(raw: &str) -> (r: Result<TextMap<String>, String>)
    ensures
        match r {
            Ok(filters) => query_of(raw@) == Ok::<Map<Seq<char>, Seq<char>>, Seq<char>>(
                filter_views(filters@),
            ),
            Err(e) => query_of(raw@) == Err::<Map<Seq<char>, Seq<char>>, Seq<char>>(e@),
        },
{
    if raw.unicode_len() == 0 {
        let none: TextMap<String> = TextMap::new();
        assert(filter_views(none@) =~= Map::<Seq<char>, Seq<char>>::empty());
        return Ok(none);
    }
    match decode_pairs(raw) {
        Ok(pairs) => Ok(filters_from_pairs(pairs)),
        Err(words) => {
            let mut message = "malformed URI query: ".to_owned();
            message.append(words.as_str());
            Err(message)
        },
    }
}

/// The value of a filter.
pub open spec fn filter_value(filters: Map<Seq<char>, Seq<char>>, key: Seq<char>) -> Option<
    Seq<char>,
> {
    if filters.dom().contains(key) {
        Some(filters[key])
    } else {
        None
    }
}

/// A copy of the value of a filter.
fn filter_text(filters: &TextMap<String>, key: &str) -> (r: Option<String>)
    ensures
        opt_text(r) == filter_value(filter_views(filters@), key@),
{
    match filters.get(key) {
        Some(value) => Some(value.clone()),
        None => None,
    }
}

// ---------------------------------------------------------------------
// Unknown filters
// ---------------------------------------------------------------------

/// Texts with commas between them.
pub open spec fn comma_list(list: Seq<Seq<char>>) -> Seq<char>
    decreases list.len(),
{
    if list.len() == 0 {
        Seq::empty()
    } else if list.len() == 1 {
        list[0]
    } else {
        comma_list(list.drop_last()) + ", "@ + list.last()
    }
}

/// The views of a list of string slices.
pub open spec fn name_views(names: Seq<&'static str>) -> Seq<Seq<char>> {
    names.map_values(|n: &'static str| n@)
}

/// Puts commas between texts.
fn join_commas(list: &Vec<&'static str>) -> (r: String)
    ensures
        r@ == comma_list(name_views(list@)),
{
    let ghost all = name_views(list@);
    let mut out = String::new();
    let mut i: usize = 0;
    assert(all.take(0) =~= Seq::<Seq<char>>::empty());
    while i < list.len()
        invariant
            0 <= i <= list.len(),
            all == name_views(list@),
            out@ == comma_list(all.take(i as int)),
        decreases list.len() - i,
    {
        if i > 0 {
            out.append(", ");
        }
        out.append(list[i]);
        proof {
            let next = all.take(i + 1);
            assert(next.drop_last() =~= all.take(i as int));
            assert(next.last() == all[i as int]);
            assert(out@ =~= comma_list(next));
        }
        i += 1;
    }
    assert(all.take(i as int) =~= all);
    out
}

/// What is said of a filter that is not known.
pub open spec fn unknown_filter_text(key: Seq<char>, allowed: Seq<Seq<char>>) -> Seq<char> {
    "unknown filter `"@ + key + "`; allowed: "@ + comma_list(allowed)
}

/// Whether every filter is known.
pub open spec fn all_known(filters: Map<Seq<char>, Seq<char>>, allowed: Seq<Seq<char>>) -> bool {
    forall|key: Seq<char>|
        filters.dom().contains(key) ==> #[trigger] allowed.contains(key)
}

/// Whether a message says of one of the filters that it is not known.
pub open spec fn tells_unknown(
    filters: Map<Seq<char>, Seq<char>>,
    allowed: Seq<Seq<char>>,
    message: Seq<char>,
) -> bool {
    exists|key: Seq<char>|
        filters.dom().contains(key) && !(#[trigger] allowed.contains(key)) && message
            == unknown_filter_text(key, allowed)
}

/// Whether a name is in a list.
fn is_named(names: &Vec<&'static str>, name: &str) -> (r: bool)
    ensures
        r == name_views(names@).contains(name@),
{
    let mut i: usize = 0;
    while i < names.len()
        invariant
            0 <= i <= names.len(),
            forall|j: int| 0 <= j < i ==> (#[trigger] name_views(names@)[j]) != name@,
        decreases names.len() - i,
    {
        assert(name_views(names@)[i as int] == names@[i as int]@);
        if names[i].eq(name) {
            return true;
        }
        i += 1;
    }
    false
}

/// Refuses a filter that is not known. Where there are several, which one is named is left open.
pub fn reject_unknown(filters: &TextMap<String>, allowed: &Vec<&'static str>) -> (r: Result<
    (),
    String,
>)
    ensures
        match r {
            Ok(()) => all_known(filter_views(filters@), name_views(allowed@)),
            Err(message) => tells_unknown(
                filter_views(filters@),
                name_views(allowed@),
                message@,
            ),
        },
{
    let keys = filters.keys();
    let mut i: usize = 0;
    while i < keys.len()
        invariant
            0 <= i <= keys.len(),
            forall|k: Seq<char>|
                filters@.dom().contains(k) <==> exists|j: int|
                    0 <= j < keys.len() && (#[trigger] keys@[j])@ == k,
            forall|j: int|
                0 <= j < i ==> name_views(allowed@).contains((#[trigger] keys@[j])@),
        decreases keys.len() - i,
    {
        let key = keys[i];
        assert(keys@[i as int]@ == key@);
        assert(filter_views(filters@).dom().contains(key@));
        if !is_named(allowed, key) {
            let mut message = "unknown filter `".to_owned();
            message.append(key);
            message.append("`; allowed: ");
            message.append(join_commas(allowed).as_str());
            assert(!name_views(allowed@).contains(key@));
            return Err(message);
        }
        i += 1;
    }
    proof {
        assert forall|key: Seq<char>|
            filter_views(filters@).dom().contains(key) implies #[trigger] name_views(
            allowed@,
        ).contains(key) by {
            assert(filters@.dom().contains(key));
            let j = choose|j: int| 0 <= j < keys.len() && (#[trigger] keys@[j])@ == key;
            assert(name_views(allowed@).contains(keys@[j]@));
        }
    }
    Ok(())
}

// ---------------------------------------------------------------------
// Durations, numbers and levels
// ---------------------------------------------------------------------

/// The milliseconds of a unit of time.
pub open spec fn unit_ms(unit: char) -> Option<int> {
    if unit == 's' {
        Some(1_000)
    } else if unit == 'm' {
        Some(60_000)
    } else if unit == 'h' {
        Some(3_600_000)
    } else if unit == 'd' {
        Some(86_400_000)
    } else {
        None
    }
}

/// What is said of a duration, with the duration in front.
pub open spec fn duration_error(raw: Seq<char>, rest: Seq<char>) -> Seq<char> {
    "`"@ + raw + rest
}

/// What is said of a unit that is not known.
pub open spec fn unknown_unit_text(raw: Seq<char>, unit: char) -> Seq<char> {
    "`"@ + raw + "` — unknown unit `"@ + seq![unit] + "`; expected s|m|h|d"@
}

/// The milliseconds of a duration such as `30s`, or what is wrong with it.
pub open spec fn duration_of(raw: Seq<char>) -> Result<int, Seq<char>> {
    if raw.len() == 0 {
        Err("empty duration"@)
    } else if raw.last() as u32 > 127 {
        Err(unknown_unit_text(raw, raw.last()))
    } else {
        match signed_value(raw.drop_last()) {
            None => Err(duration_error(raw, "` — expected digits followed by s|m|h|d"@)),
            Some(n) => if n < 0 {
                Err(duration_error(raw, "` — duration must be non-negative"@))
            } else if !all_digits(raw.drop_last()) {
                Err(duration_error(raw, "` — expected digits followed by s|m|h|d"@))
            } else {
                match unit_ms(raw.last()) {
                    None => Err(unknown_unit_text(raw, raw.last())),
                    Some(ms) => if n * ms <= i64::MAX {
                        Ok(n * ms)
                    } else {
                        Err(duration_error(raw, "` — duration overflows i64 milliseconds"@))
                    },
                }
            },
        }
    }
}

/// Says something of a duration.
fn duration_message(raw: &str, rest: &str) -> (r: String)
    ensures
        r@ == duration_error(raw@, rest@),
{
    let mut out = "`".to_owned();
    out.append(raw);
    out.append(rest);
    out
}

/// Says that a unit is not known.
fn unknown_unit(raw: &str, unit: char) -> (r: String)
    ensures
        r@ == unknown_unit_text(raw@, unit),
{
    let mut out = "`".to_owned();
    out.append(raw);
    out.append("` — unknown unit `");
    let ghost before = out@;
    out.push(unit);
    assert(out@ =~= before + seq![unit]);
    out.append("`; expected s|m|h|d");
    out
}

/// Reads a duration: digits and one of the units `s`, `m`, `h` and `d`.
pub fn parse_duration_ms(raw: &str) -> (r: Result<i64, String>)
    ensures
        match r {
            Ok(ms) => duration_of(raw@) == Ok::<int, Seq<char>>(ms as int) && ms >= 0,
            Err(e) => duration_of(raw@) == Err::<int, Seq<char>>(e@),
        },
{
    let n = raw.unicode_len();
    if n == 0 {
        return Err("empty duration".to_owned());
    }
    let unit = raw.get_char(n - 1);
    let number = raw.substring_char(0, n - 1);
    assert(number@ =~= raw@.drop_last());
    if unit as u32 > 127 {
        return Err(unknown_unit(raw, unit));
    }
    let value: i64 = match parse_i64(number) {
        Some(v) => v,
        None => {
            return Err(duration_message(raw, "` — expected digits followed by s|m|h|d"));
        },
    };
    if value < 0 {
        return Err(duration_message(raw, "` — duration must be non-negative"));
    }
    let first = raw.get_char(0);
    if first == '+' || first == '-' {
        assert(!is_digit(raw@.drop_last()[0]));
        return Err(duration_message(raw, "` — expected digits followed by s|m|h|d"));
    }
    let per_unit: i64 = if unit == 's' {
        1_000
    } else if unit == 'm' {
        60_000
    } else if unit == 'h' {
        3_600_000
    } else if unit == 'd' {
        86_400_000
    } else {
        return Err(unknown_unit(raw, unit));
    };
    match value.checked_mul(per_unit) {
        Some(ms) => {
            assert(value * per_unit >= 0) by (nonlinear_arith)
                requires
                    value >= 0,
                    per_unit >= 0,
            ;
            Ok(ms)
        },
        None => {
            assert(value * per_unit >= 0) by (nonlinear_arith)
                requires
                    value >= 0,
                    per_unit >= 0,
            ;
            Err(duration_message(raw, "` — duration overflows i64 milliseconds"))
        },
    }
}

/// A time that lies a duration back, no earlier than the first there is.
pub open spec fn time_back(now: i64, ms: int) -> i64 {
    if now - ms < i64::MIN {
        i64::MIN
    } else {
        (now - ms) as i64
    }
}

/// A time that lies a duration back.
pub fn back_from(now: i64, ms: i64) -> (r: i64)
    requires
        ms >= 0,
    ensures
        r == time_back(now, ms as int),
{
    let at: i128 = now as i128 - ms as i128;
    if at < i64::MIN as i128 {
        i64::MIN
    } else {
        at as i64
    }
}

/// The time that a filter with a duration stands for, or what is wrong with it.
pub open spec fn since_of(value: Option<Seq<char>>, key: Seq<char>, now: i64) -> Result<
    Option<i64>,
    Seq<char>,
> {
    match value {
        None => Ok(None),
        Some(raw) => match duration_of(raw) {
            Ok(ms) => Ok(Some(time_back(now, ms))),
            Err(e) => Err("invalid `"@ + key + "` value: "@ + e),
        },
    }
}

/// The time that an optional duration stands for.
pub fn since_from(value: Option<&str>, key: &str, now: i64) -> (r: Result<Option<i64>, String>)
    ensures
        match r {
            Ok(at) => since_of(opt_str(value), key@, now) == Ok::<
                Option<i64>,
                Seq<char>,
            >(at),
            Err(e) => since_of(opt_str(value), key@, now) == Err::<
                Option<i64>,
                Seq<char>,
            >(e@),
        },
{
    match value {
        None => Ok(None),
        Some(raw) => match parse_duration_ms(raw) {
            Ok(ms) => Ok(Some(back_from(now, ms))),
            Err(e) => {
                let mut message = "invalid `".to_owned();
                message.append(key);
                message.append("` value: ");
                message.append(e.as_str());
                Err(message)
            },
        },
    }
}

/// The time that a filter with a duration stands for.
pub fn parse_since(filters: &TextMap<String>, key: &str, now: i64) -> (r: Result<
    Option<i64>,
    String,
>)
    ensures
        match r {
            Ok(at) => since_of(filter_value(filter_views(filters@), key@), key@, now) == Ok::<
                Option<i64>,
                Seq<char>,
            >(at),
            Err(e) => since_of(filter_value(filter_views(filters@), key@), key@, now) == Err::<
                Option<i64>,
                Seq<char>,
            >(e@),
        },
{
    match filters.get(key) {
        None => Ok(None),
        Some(raw) => since_from(Some(raw.as_str()), key, now),
    }
}

/// What is said of a number that cannot be read.
pub open spec fn bad_number_text(key: Seq<char>, raw: Seq<char>) -> Seq<char> {
    "invalid `"@ + key + "` value `"@ + raw + "`; expected unsigned integer"@
}

/// Says that a number cannot be read.
fn bad_number(key: &str, raw: &str) -> (r: String)
    ensures
        r@ == bad_number_text(key@, raw@),
{
    let mut out = "invalid `".to_owned();
    out.append(key);
    out.append("` value `");
    out.append(raw);
    out.append("`; expected unsigned integer");
    out
}

/// The number of a filter, or what is wrong with it.
pub open spec fn number_of(value: Option<Seq<char>>, key: Seq<char>) -> Result<
    Option<nat>,
    Seq<char>,
> {
    match value {
        None => Ok(None),
        Some(raw) => match unsigned_value(raw, u64::MAX as nat) {
            Some(n) => Ok(Some(n)),
            None => Err(bad_number_text(key, raw)),
        },
    }
}

/// The number of a filter.
pub fn parse_opt_u64(filters: &TextMap<String>, key: &str) -> (r: Result<Option<u64>, String>)
    ensures
        match r {
            Ok(None) => number_of(filter_value(filter_views(filters@), key@), key@) == Ok::<
                Option<nat>,
                Seq<char>,
            >(None),
            Ok(Some(n)) => number_of(filter_value(filter_views(filters@), key@), key@) == Ok::<
                Option<nat>,
                Seq<char>,
            >(Some(n as nat)),
            Err(e) => number_of(filter_value(filter_views(filters@), key@), key@) == Err::<
                Option<nat>,
                Seq<char>,
            >(e@),
        },
{
    match filters.get(key) {
        None => Ok(None),
        Some(raw) => match parse_u64(raw.as_str()) {
            Some(n) => Ok(Some(n)),
            None => Err(bad_number(key, raw.as_str())),
        },
    }
}

/// A number of rows between one and the most.
pub open spec fn clamp_rows(n: nat) -> nat {
    if n < 1 {
        1
    } else if n > ROWS_MAX {
        ROWS_MAX as nat
    } else {
        n
    }
}

/// How many rows a filter asks for, or what is wrong with it.
pub open spec fn limit_of(value: Option<Seq<char>>) -> Result<nat, Seq<char>> {
    match value {
        None => Ok(ROWS_MAX as nat),
        Some(raw) => match unsigned_value(raw, u32::MAX as nat) {
            Some(n) => Ok(clamp_rows(n)),
            None => Err(bad_number_text("limit"@, raw)),
        },
    }
}

/// A number of rows between one and the most.
pub fn clamp_to_rows(n: u64) -> (r: usize)
    ensures
        r == clamp_rows(n as nat),
{
    if n < 1 {
        1
    } else if n > ROWS_MAX as u64 {
        ROWS_MAX as usize
    } else {
        n as usize
    }
}

/// How many rows a filter asks for.
pub fn clamp_limit(filters: &TextMap<String>) -> (r: Result<usize, String>)
    ensures
        match r {
            Ok(n) => limit_of(filter_value(filter_views(filters@), "limit"@)) == Ok::<
                nat,
                Seq<char>,
            >(n as nat),
            Err(e) => limit_of(filter_value(filter_views(filters@), "limit"@)) == Err::<
                nat,
                Seq<char>,
            >(e@),
        },
{
    match filters.get("limit") {
        None => Ok(ROWS_MAX as usize),
        Some(raw) => match parse_unsigned(raw.as_str(), u32::MAX as u64) {
            Some(n) => Ok(clamp_to_rows(n)),
            None => Err(bad_number("limit", raw.as_str())),
        },
    }
}

/// The level with a name.
pub open spec fn level_of(name: Seq<char>) -> Option<LogLevel> {
    if name == "Trace"@ {
        Some(LogLevel::Trace)
    } else if name == "Debug"@ {
        Some(LogLevel::Debug)
    } else if name == "Info"@ {
        Some(LogLevel::Info)
    } else if name == "Warn"@ {
        Some(LogLevel::Warn)
    } else if name == "Error"@ {
        Some(LogLevel::Error)
    } else {
        None
    }
}

/// The level of a filter, or what is wrong with it.
pub open spec fn level_filter_of(value: Option<Seq<char>>) -> Result<Option<LogLevel>, Seq<char>> {
    match value {
        None => Ok(None),
        Some(name) => match level_of(name) {
            Some(level) => Ok(Some(level)),
            None => Err(
                "unknown level `"@ + name + "`; expected Trace|Debug|Info|Warn|Error"@,
            ),
        },
    }
}

/// The level with a name.
pub fn level_named(name: &str) -> (r: Option<LogLevel>)
    ensures
        r == level_of(name@),
{
    if name.eq("Trace") {
        Some(LogLevel::Trace)
    } else if name.eq("Debug") {
        Some(LogLevel::Debug)
    } else if name.eq("Info") {
        Some(LogLevel::Info)
    } else if name.eq("Warn") {
        Some(LogLevel::Warn)
    } else if name.eq("Error") {
        Some(LogLevel::Error)
    } else {
        None
    }
}

/// The level of a filter.
pub fn parse_level(filters: &TextMap<String>) -> (r: Result<Option<LogLevel>, String>)
    ensures
        match r {
            Ok(level) => level_filter_of(filter_value(filter_views(filters@), "level"@)) == Ok::<
                Option<LogLevel>,
                Seq<char>,
            >(level),
            Err(e) => level_filter_of(filter_value(filter_views(filters@), "level"@)) == Err::<
                Option<LogLevel>,
                Seq<char>,
            >(e@),
        },
{
    match filters.get("level") {
        None => Ok(None),
        Some(name) => match level_named(name.as_str()) {
            Some(level) => Ok(Some(level)),
            None => {
                let mut message = "unknown level `".to_owned();
                message.append(name.as_str());
                message.append("`; expected Trace|Debug|Info|Warn|Error");
                Err(message)
            },
        },
    }
}

// ---------------------------------------------------------------------
// Events and logs
// ---------------------------------------------------------------------

/// The filters of the event history.
pub open spec fn events_keys() -> Seq<Seq<char>> {
    seq![
        "after_id"@,
        "before_id"@,
        "device"@,
        "instance"@,
        "limit"@,
        "plugin"@,
        "since"@,
        "topic"@,
        "topic_prefix"@,
        "until"@,
    ]
}

/// The filters of the event history.
fn events_keys_list() -> (r: Vec<&'static str>)
    ensures
        name_views(r@) == events_keys(),
{
    let mut out: Vec<&'static str> = Vec::new();
    out.push("after_id");
    out.push("before_id");
    out.push("device");
    out.push("instance");
    out.push("limit");
    out.push("plugin");
    out.push("since");
    out.push("topic");
    out.push("topic_prefix");
    out.push("until");
    assert(name_views(out@) =~= events_keys());
    out
}

/// The filters of the logs.
pub open spec fn logs_keys() -> Seq<Seq<char>> {
    seq![
        "device"@,
        "instance"@,
        "level"@,
        "limit"@,
        "plugin"@,
        "since"@,
        "span_path_prefix"@,
        "target"@,
        "target_prefix"@,
        "until"@,
    ]
}

/// The filters of the logs.
fn logs_keys_list() -> (r: Vec<&'static str>)
    ensures
        name_views(r@) == logs_keys(),
{
    let mut out: Vec<&'static str> = Vec::new();
    out.push("device");
    out.push("instance");
    out.push("level");
    out.push("limit");
    out.push("plugin");
    out.push("since");
    out.push("span_path_prefix");
    out.push("target");
    out.push("target_prefix");
    out.push("until");
    assert(name_views(out@) =~= logs_keys());
    out
}

/// The view of a topic filter.
pub open spec fn topic_view(topic: Option<(String, TopicMatch)>) -> Option<(Seq<char>, TopicMatch)> {
    match topic {
        Some((t, m)) => Some((t@, m)),
        None => None,
    }
}

/// The topic filter: a prefix counts before an exact topic.
pub open spec fn topic_text_of(topic: Option<Seq<char>>, prefix: Option<Seq<char>>) -> Option<
    (Seq<char>, TopicMatch),
> {
    match (topic, prefix) {
        (_, Some(p)) => Some((p, TopicMatch::Prefix)),
        (Some(t), None) => Some((t, TopicMatch::Exact)),
        (None, None) => None,
    }
}

/// What is read from the filters of the event history besides the texts.
pub struct EventNumbers {
    pub limit: nat,
    pub since_ms: Option<i64>,
    pub until_ms: Option<i64>,
    pub after_id: Option<nat>,
    pub before_id: Option<nat>,
}

/// What is read from the filters of the event history besides the texts, or what is wrong with
/// the first of them that cannot be read.
pub open spec fn event_numbers_of(filters: Map<Seq<char>, Seq<char>>, now: i64) -> Result<
    EventNumbers,
    Seq<char>,
> {
    match limit_of(filter_value(filters, "limit"@)) {
        Err(e) => Err(e),
        Ok(limit) => match since_of(filter_value(filters, "since"@), "since"@, now) {
            Err(e) => Err(e),
            Ok(since_ms) => match since_of(filter_value(filters, "until"@), "until"@, now) {
                Err(e) => Err(e),
                Ok(until_ms) => match number_of(
                    filter_value(filters, "after_id"@),
                    "after_id"@,
                ) {
                    Err(e) => Err(e),
                    Ok(after_id) => match number_of(
                        filter_value(filters, "before_id"@),
                        "before_id"@,
                    ) {
                        Err(e) => Err(e),
                        Ok(before_id) => Ok(
                            EventNumbers { limit, since_ms, until_ms, after_id, before_id },
                        ),
                    },
                },
            },
        },
    }
}

/// The view of an optional number.
pub open spec fn opt_nat(n: Option<u64>) -> Option<nat> {
    match n {
        Some(v) => Some(v as nat),
        None => None,
    }
}

/// Whether a query of the event history is what filters ask for.
pub open spec fn is_event_query(
    query: EventQuery,
    filters: Map<Seq<char>, Seq<char>>,
    numbers: EventNumbers,
) -> bool {
    &&& query.since_ms == numbers.since_ms
    &&& query.until_ms == numbers.until_ms
    &&& opt_text(query.device_id) == filter_value(filters, "device"@)
    &&& opt_text(query.instance_id) == filter_value(filters, "instance"@)
    &&& opt_text(query.plugin_id) == filter_value(filters, "plugin"@)
    &&& topic_view(query.topic) == topic_text_of(
        filter_value(filters, "topic"@),
        filter_value(filters, "topic_prefix"@),
    )
    &&& opt_nat(query.after_id) == numbers.after_id
    &&& opt_nat(query.before_id) == numbers.before_id
}

/// Whether a result is what filters of the event history come to.
pub open spec fn is_event_plan(
    r: Result<(EventQuery, usize), String>,
    filters: Map<Seq<char>, Seq<char>>,
    now: i64,
) -> bool {
    if !all_known(filters, events_keys()) {
        r is Err && tells_unknown(filters, events_keys(), r->Err_0@)
    } else {
        match event_numbers_of(filters, now) {
            Err(e) => r is Err && r->Err_0@ == e,
            Ok(numbers) => r is Ok && is_event_query(r->Ok_0.0, filters, numbers) && r->Ok_0.1
                == numbers.limit,
        }
    }
}

/// The query of the event history that filters ask for, and the number of rows.
pub fn event_plan(filters: &TextMap<String>, now: i64) -> (r: Result<(EventQuery, usize), String>)
    ensures
        is_event_plan(r, filter_views(filters@), now),
{
    let ghost views = filter_views(filters@);
    if let Err(e) = reject_unknown(filters, &events_keys_list()) {
        proof {
            lemma_told_unknown(views, events_keys(), e@);
        }
        return Err(e);
    }
    let limit = match clamp_limit(filters) {
        Ok(n) => n,
        Err(e) => return Err(e),
    };
    let since_ms = match parse_since(filters, "since", now) {
        Ok(v) => v,
        Err(e) => return Err(e),
    };
    let until_ms = match parse_since(filters, "until", now) {
        Ok(v) => v,
        Err(e) => return Err(e),
    };
    let after_id = match parse_opt_u64(filters, "after_id") {
        Ok(v) => v,
        Err(e) => return Err(e),
    };
    let before_id = match parse_opt_u64(filters, "before_id") {
        Ok(v) => v,
        Err(e) => return Err(e),
    };
    let topic = topic_filter(filter_text(filters, "topic"), filter_text(filters, "topic_prefix"));
    let query = EventQuery {
        since_ms,
        until_ms,
        device_id: filter_text(filters, "device"),
        instance_id: filter_text(filters, "instance"),
        plugin_id: filter_text(filters, "plugin"),
        topic,
        after_id,
        before_id,
    };
    Ok((query, limit))
}

/// Where a filter is told to be unknown, not all are known.
proof fn lemma_told_unknown(
    filters: Map<Seq<char>, Seq<char>>,
    allowed: Seq<Seq<char>>,
    message: Seq<char>,
)
    requires
        tells_unknown(filters, allowed, message),
    ensures
        !all_known(filters, allowed),
{
    let key = choose|key: Seq<char>|
        filters.dom().contains(key) && !(#[trigger] allowed.contains(key)) && message
            == unknown_filter_text(key, allowed);
    assert(!allowed.contains(key));
}

/// Whether a result is what the query of an address of the event history comes to.
pub open spec fn is_events_read(
    r: Result<(EventQuery, usize), String>,
    raw: Seq<char>,
    now: i64,
) -> bool {
    match query_of(raw) {
        Err(e) => r is Err && r->Err_0@ == e,
        Ok(filters) => is_event_plan(r, filters, now),
    }
}

/// Reads the query of an address of the event history.
pub fn plan_events_read(raw: &str, now: i64) -> (r: Result<(EventQuery, usize), String>)
    ensures
        is_events_read(r, raw@, now),
{
    match parse_query(raw) {
        Ok(filters) => event_plan(&filters, now),
        Err(e) => Err(e),
    }
}

/// What is read from the filters of the logs besides the texts.
pub struct LogNumbers {
    pub limit: nat,
    pub since_ms: Option<i64>,
    pub until_ms: Option<i64>,
    pub min_level: Option<LogLevel>,
}

/// What is read from the filters of the logs besides the texts, or what is wrong with the first
/// of them that cannot be read.
pub open spec fn log_numbers_of(filters: Map<Seq<char>, Seq<char>>, now: i64) -> Result<
    LogNumbers,
    Seq<char>,
> {
    match limit_of(filter_value(filters, "limit"@)) {
        Err(e) => Err(e),
        Ok(limit) => match since_of(filter_value(filters, "since"@), "since"@, now) {
            Err(e) => Err(e),
            Ok(since_ms) => match since_of(filter_value(filters, "until"@), "until"@, now) {
                Err(e) => Err(e),
                Ok(until_ms) => match level_filter_of(filter_value(filters, "level"@)) {
                    Err(e) => Err(e),
                    Ok(min_level) => Ok(LogNumbers { limit, since_ms, until_ms, min_level }),
                },
            },
        },
    }
}

/// Whether a query of the logs is what filters ask for.
pub open spec fn is_log_query(
    query: LogQuery,
    filters: Map<Seq<char>, Seq<char>>,
    numbers: LogNumbers,
) -> bool {
    &&& query.since_ms == numbers.since_ms
    &&& query.until_ms == numbers.until_ms
    &&& query.min_level == numbers.min_level
    &&& opt_text(query.instance_id) == filter_value(filters, "instance"@)
    &&& opt_text(query.plugin_id) == filter_value(filters, "plugin"@)
    &&& opt_text(query.device_id) == filter_value(filters, "device"@)
    &&& opt_text(query.target) == filter_value(filters, "target"@)
    &&& opt_text(query.target_prefix) == filter_value(filters, "target_prefix"@)
    &&& opt_text(query.span_path_prefix) == filter_value(filters, "span_path_prefix"@)
}

/// Whether a result is what filters of the logs come to.
pub open spec fn is_log_plan(
    r: Result<(LogQuery, usize), String>,
    filters: Map<Seq<char>, Seq<char>>,
    now: i64,
) -> bool {
    if !all_known(filters, logs_keys()) {
        r is Err && tells_unknown(filters, logs_keys(), r->Err_0@)
    } else {
        match log_numbers_of(filters, now) {
            Err(e) => r is Err && r->Err_0@ == e,
            Ok(numbers) => r is Ok && is_log_query(r->Ok_0.0, filters, numbers) && r->Ok_0.1
                == numbers.limit,
        }
    }
}

/// The query of the logs that filters ask for, and the number of rows.
pub fn log_plan(filters: &TextMap<String>, now: i64) -> (r: Result<(LogQuery, usize), String>)
    ensures
        is_log_plan(r, filter_views(filters@), now),
{
    let ghost views = filter_views(filters@);
    if let Err(e) = reject_unknown(filters, &logs_keys_list()) {
        proof {
            lemma_told_unknown(views, logs_keys(), e@);
        }
        return Err(e);
    }
    let limit = match clamp_limit(filters) {
        Ok(n) => n,
        Err(e) => return Err(e),
    };
    let since_ms = match parse_since(filters, "since", now) {
        Ok(v) => v,
        Err(e) => return Err(e),
    };
    let until_ms = match parse_since(filters, "until", now) {
        Ok(v) => v,
        Err(e) => return Err(e),
    };
    let min_level = match parse_level(filters) {
        Ok(v) => v,
        Err(e) => return Err(e),
    };
    let query = LogQuery {
        since_ms,
        until_ms,
        min_level,
        instance_id: filter_text(filters, "instance"),
        plugin_id: filter_text(filters, "plugin"),
        device_id: filter_text(filters, "device"),
        target: filter_text(filters, "target"),
        target_prefix: filter_text(filters, "target_prefix"),
        span_path_prefix: filter_text(filters, "span_path_prefix"),
    };
    Ok((query, limit))
}

/// Whether a result is what the query of an address of the logs comes to.
pub open spec fn is_logs_read(
    r: Result<(LogQuery, usize), String>,
    raw: Seq<char>,
    now: i64,
) -> bool {
    match query_of(raw) {
        Err(e) => r is Err && r->Err_0@ == e,
        Ok(filters) => is_log_plan(r, filters, now),
    }
}

/// Reads the query of an address of the logs.
pub fn plan_logs_read(raw: &str, now: i64) -> (r: Result<(LogQuery, usize), String>)
    ensures
        is_logs_read(r, raw@, now),
{
    match parse_query(raw) {
        Ok(filters) => log_plan(&filters, now),
        Err(e) => Err(e),
    }
}

/// A filter of the event history that is not known is always refused: no query goes through
/// without it.
pub proof fn law_unknown_filters_are_refused(
    r: Result<(EventQuery, usize), String>,
    filters: Map<Seq<char>, Seq<char>>,
    now: i64,
    key: Seq<char>,
)
    requires
        is_event_plan(r, filters, now),
        filters.dom().contains(key),
        !events_keys().contains(key),
    ensures
        r is Err,
{
    assert(!all_known(filters, events_keys()));
}

/// A filter of the logs that is not known is always refused, too.
pub proof fn law_unknown_log_filters_are_refused(
    r: Result<(LogQuery, usize), String>,
    filters: Map<Seq<char>, Seq<char>>,
    now: i64,
    key: Seq<char>,
)
    requires
        is_log_plan(r, filters, now),
        filters.dom().contains(key),
        !logs_keys().contains(key),
    ensures
        r is Err,
{
    assert(!all_known(filters, logs_keys()));
}

/// A duration that is read is digits and one unit, without a sign.
pub proof fn law_durations_are_digits_and_a_unit(raw: Seq<char>)
    requires
        duration_of(raw) is Ok,
    ensures
        raw.len() >= 2,
        unit_ms(raw.last()) is Some,
        all_digits(raw.drop_last()),
{
}

/// However many rows are asked for, an answer has at least room for one and at most for the most.
pub proof fn law_rows_are_bounded(value: Option<Seq<char>>)
    requires
        limit_of(value) is Ok,
    ensures
        1 <= limit_of(value)->Ok_0 <= ROWS_MAX,
{
}

} // verus!
