//! Prompts: texts that tell an agent how to use the surface.
//!
//! Everyone sees which prompts there are. A prompt itself is handed out only to a caller that may
//! use what the prompt asks for.

use vstd::prelude::*;

use crate::api::mcp::error::{
    is_error, mcp_error, McpError, INVALID_PARAMS_CODE, SCOPE_DENIED_CODE,
};
use crate::api::scopes::{
    require_scope, scope_satisfied, Scope, DEVICES_LIST, EVENTS_READ, LOGS_READ, WILDCARD,
};
use crate::auth::Actor;
use crate::text::cat3;
use crate::text_map::TextMap;

verus! {

/// An argument of a prompt.
#[derive(Debug, Clone, Copy)]
pub struct PromptArgument {
    pub name: &'static str,
    pub title: &'static str,
    pub description: &'static str,
    pub required: bool,
}

/// An entry of the catalogue of prompts.
#[derive(Debug)]
pub struct PromptInfo {
    pub name: &'static str,
    pub title: &'static str,
    pub description: &'static str,
    pub arguments: Vec<PromptArgument>,
}

/// The prompts.
#[derive(Debug, Clone, Copy, PartialEq, Eq, Structural)]
pub enum PromptKind {
    SummarizeToday,
    DraftAutomation,
    ExplainRecentErrors,
}

/// What the first prompt is for.
pub const SUMMARIZE_TODAY_DESCRIPTION: &'static str = "Produce a plain-language summary of today's household activity — device state transitions, notable events, and any logged warnings or errors. Composes `oxidhome://events` + `oxidhome://logs`.";

/// What the second prompt is for.
pub const DRAFT_AUTOMATION_DESCRIPTION: &'static str = "Draft a household automation rule given a plain-language `trigger` and `action`. Uses `oxidhome://devices` + `oxidhome://devices/{id}` to see what devices + capabilities actually exist, so the draft references real device ids and real capability names. Action verbs (e.g. `toggle`, `on`, `set`) are plugin-defined and NOT enumerable from the host — the draft must either use a well-known capability convention or defer the exact verb to the operator.";

/// What the trigger of an automation is.
pub const TRIGGER_DESCRIPTION: &'static str = "Plain-language description of what should trigger the automation (e.g. `when the front door unlocks after sunset`).";

/// What the action of an automation is.
pub const ACTION_DESCRIPTION: &'static str = "Plain-language description of what should happen (e.g. `turn on the hallway lights and start the porch camera`).";

/// What the third prompt is for.
pub const EXPLAIN_RECENT_ERRORS_DESCRIPTION: &'static str = "Fetch recent error-level logs and produce a plain-language explanation of what went wrong and which components / plugins are involved. Composes `oxidhome://logs?level=Error`. Event rows carry state transitions, not command failures, so this prompt sticks to log evidence — command outcomes live in the audit ledger, which the MCP surface does not yet expose.";

/// The text of the first prompt.
pub const SUMMARIZE_TODAY_TEXT: &'static str = "You are helping the household operator understand what happened today. Use the OxidHome MCP server's `oxidhome://events?since=24h` resource to fetch the last 24 hours of historical events, and `oxidhome://logs?since=24h&level=Info` to fetch the same window of logs. Then produce a plain-language summary organised as:\n\n1. Notable device state changes (lights, switches, locks, sensors).\n2. Automation activity (scheduled jobs, custom rules that fired).\n3. Anything unusual worth an operator's attention — warnings, errors, or a plugin that went quiet.\n\nKeep it short (under 300 words). If nothing notable happened, say so.";

/// The text of the second prompt up to the trigger.
pub const DRAFT_AUTOMATION_HEAD: &'static str = "You are helping the household operator draft an automation rule. Their trigger is:\n\n> ";

/// The text of the second prompt between the trigger and the action.
pub const DRAFT_AUTOMATION_MIDDLE: &'static str = "\n\nTheir action is:\n\n> ";

/// The text of the second prompt after the action.
pub const DRAFT_AUTOMATION_TAIL: &'static str = "\n\nFirst, read `oxidhome://devices` to enumerate the household's devices, then read `oxidhome://devices/{device_id}` on any device you plan to reference. The response gives you the real `device_id` and the `capabilities: []` list — an array of capability *names* the device exposes. The host's built-in capability names are: `switch`, `dimmer`, `color-light`, `sensor`, `button`, `video-stream`, `audio-stream`. Anything else appears in the list as `extension(<name>)` — that literal wrapped form is what you must pass as the `capability` argument (a plugin that declares a custom `lock` capability shows up as `extension(lock)`, NOT bare `lock`). Ground the draft in the exact strings the resource returned — never invent a `device_id` or a capability name that isn't in the list.\n\nIMPORTANT — action verbs are NOT enumerable from the host: `device.send_command` takes a plugin-defined `action` string alongside `device_id` and `capability`, and the host does not publish a catalogue of valid actions per capability. Use a well-known convention where one clearly applies (e.g. `switch` → `on` / `off` / `toggle`; `dimmer` → `set` with a `level` arg; `color-light` → `set-color`) and mark it as a convention that the operator should confirm; when no obvious convention fits (any `extension(<name>)` capability, or a built-in used in a non-standard way), defer the exact verb to the operator rather than guess.\n\nThen produce a draft automation with:\n\n1. A short human-readable summary of what it does.\n2. The trigger condition, phrased against a specific device id + capability.\n3. The action(s), phrased as a `device.send_command` invocation with the real `device_id` and `capability`, plus an action verb (call out whether the verb is from a well-known convention or needs operator confirmation).\n4. Any preconditions or safety notes the operator should know before enabling it (e.g. `devices:command` scope, locks / alarms flagged destructive).\n\nIf a needed device or capability isn't in the fleet, say so and stop — do not draft against one that isn't there.";

/// The text of the third prompt.
pub const EXPLAIN_RECENT_ERRORS_TEXT: &'static str = "You are helping the household operator understand what recently went wrong. Fetch `oxidhome://logs?since=24h&level=Error` to see the last 24 hours of error-level logs. Note: only logs are consulted here — event rows carry state transitions, not command outcomes, so a plugin's `execute-command` that returned `Err` is NOT recoverable from the event history; it lives in the audit ledger, which this MCP server does not yet expose. Group the findings by component (host, specific plugin id, specific device) and, for each group, produce:\n\n1. A short plain-language description of what went wrong.\n2. The best evidence you have (log target + message).\n3. A suggested next step — a follow-up log query, a config check, a plugin restart, or `no action needed if transient`.\n\nBe honest about uncertainty. If a log line names an internal component the operator can't act on, say so. If there are no errors in the window, say so.";

/// The name of a prompt.
pub open spec fn prompt_name(kind: PromptKind) -> Seq<char> {
    match kind {
        PromptKind::SummarizeToday => "summarize_today"@,
        PromptKind::DraftAutomation => "draft_automation"@,
        PromptKind::ExplainRecentErrors => "explain_recent_errors"@,
    }
}

/// The prompt with a name.
pub open spec fn prompt_of(name: Seq<char>) -> Option<PromptKind> {
    if name == "summarize_today"@ {
        Some(PromptKind::SummarizeToday)
    } else if name == "draft_automation"@ {
        Some(PromptKind::DraftAutomation)
    } else if name == "explain_recent_errors"@ {
        Some(PromptKind::ExplainRecentErrors)
    } else {
        None
    }
}

/// The scopes that a prompt asks for, in the order in which they are checked.
pub open spec fn prompt_scopes(kind: PromptKind) -> Seq<Seq<char>> {
    match kind {
        PromptKind::SummarizeToday => seq![EVENTS_READ@, LOGS_READ@],
        PromptKind::DraftAutomation => seq![DEVICES_LIST@],
        PromptKind::ExplainRecentErrors => seq![LOGS_READ@],
    }
}

/// Whether an argument of a prompt is this one, and required.
pub open spec fn is_argument(
    a: PromptArgument,
    name: Seq<char>,
    title: Seq<char>,
    description: Seq<char>,
) -> bool {
    a.name@ == name && a.title@ == title && a.description@ == description && a.required
}

/// Whether an entry of the catalogue is that of a prompt.
pub open spec fn is_prompt_info(info: PromptInfo, kind: PromptKind) -> bool {
    info.name@ == prompt_name(kind) && match kind {
        PromptKind::SummarizeToday => info.title@ == "Summarize today's household activity"@
            && info.description@ == SUMMARIZE_TODAY_DESCRIPTION@ && info.arguments.len() == 0,
        PromptKind::DraftAutomation => info.title@ == "Draft a household automation"@
            && info.description@ == DRAFT_AUTOMATION_DESCRIPTION@ && info.arguments.len() == 2
            && is_argument(info.arguments@[0], "trigger"@, "Trigger"@, TRIGGER_DESCRIPTION@)
            && is_argument(info.arguments@[1], "action"@, "Action"@, ACTION_DESCRIPTION@),
        PromptKind::ExplainRecentErrors => info.title@ == "Explain recent errors"@
            && info.description@ == EXPLAIN_RECENT_ERRORS_DESCRIPTION@ && info.arguments.len()
            == 0,
    }
}

/// The catalogue of prompts. It does not depend on the caller.
pub fn list_prompts() -> (r: Vec<PromptInfo>)
    ensures
        r.len() == 3,
        is_prompt_info(r@[0], PromptKind::SummarizeToday),
        is_prompt_info(r@[1], PromptKind::DraftAutomation),
        is_prompt_info(r@[2], PromptKind::ExplainRecentErrors),
{
    let mut arguments: Vec<PromptArgument> = Vec::new();
    arguments.push(
        PromptArgument {
            name: "trigger",
            title: "Trigger",
            description: TRIGGER_DESCRIPTION,
            required: true,
        },
    );
    arguments.push(
        PromptArgument {
            name: "action",
            title: "Action",
            description: ACTION_DESCRIPTION,
            required: true,
        },
    );
    let mut out: Vec<PromptInfo> = Vec::new();
    out.push(
        PromptInfo {
            name: "summarize_today",
            title: "Summarize today's household activity",
            description: SUMMARIZE_TODAY_DESCRIPTION,
            arguments: Vec::new(),
        },
    );
    out.push(
        PromptInfo {
            name: "draft_automation",
            title: "Draft a household automation",
            description: DRAFT_AUTOMATION_DESCRIPTION,
            arguments,
        },
    );
    out.push(
        PromptInfo {
            name: "explain_recent_errors",
            title: "Explain recent errors",
            description: EXPLAIN_RECENT_ERRORS_DESCRIPTION,
            arguments: Vec::new(),
        },
    );
    out
}

/// The name under which a prompt is counted: its own, or one for all that do not exist.
#[must_use]
pub fn canonical_prompt_name(name: &str) -> (r: &'static str)
    ensures
        r@ == (match prompt_of(name@) {
            Some(kind) => prompt_name(kind),
            None => "unknown"@,
        }),
{
    if name.eq("summarize_today") {
        "summarize_today"
    } else if name.eq("draft_automation") {
        "draft_automation"
    } else if name.eq("explain_recent_errors") {
        "explain_recent_errors"
    } else {
        "unknown"
    }
}

/// An argument as the caller gave it.
#[derive(Debug)]
pub enum ArgValue {
    Text(String),
    /// Something that is no text.
    Other,
}

/// The value of an argument that has to be a text that is not empty, or what is said otherwise.
pub open spec fn string_arg_of(args: Map<Seq<char>, ArgValue>, key: Seq<char>) -> Result<
    Seq<char>,
    Seq<char>,
> {
    if !args.dom().contains(key) {
        Err("prompt argument `"@ + key + "` is required"@)
    } else {
        match args[key] {
            ArgValue::Text(t) => if t@.len() > 0 {
                Ok(t@)
            } else {
                Err("prompt argument `"@ + key + "` must not be empty"@)
            },
            ArgValue::Other => Err("prompt argument `"@ + key + "` must be a non-empty string"@),
        }
    }
}

/// The value of an argument that has to be a text that is not empty.
pub fn required_string_arg(args: &TextMap<ArgValue>, key: &str) -> (r: Result<String, McpError>)
    ensures
        match r {
            Ok(text) => string_arg_of(args@, key@) == Ok::<Seq<char>, Seq<char>>(text@),
            Err(e) => string_arg_of(args@, key@) is Err && is_error(
                e,
                INVALID_PARAMS_CODE,
                string_arg_of(args@, key@)->Err_0,
            ),
        },
{
    match args.get(key) {
        Some(ArgValue::Text(t)) => {
            if t.as_str().unicode_len() > 0 {
                Ok(t.clone())
            } else {
                Err(
                    mcp_error(
                        INVALID_PARAMS_CODE,
                        cat3("prompt argument `", key, "` must not be empty"),
                    ),
                )
            }
        },
        Some(ArgValue::Other) => Err(
            mcp_error(
                INVALID_PARAMS_CODE,
                cat3("prompt argument `", key, "` must be a non-empty string"),
            ),
        ),
        None => Err(
            mcp_error(INVALID_PARAMS_CODE, cat3("prompt argument `", key, "` is required")),
        ),
    }
}

/// The trigger and the action of an automation, or what is said otherwise.
pub open spec fn draft_args_of(args: Option<Map<Seq<char>, ArgValue>>) -> Result<
    (Seq<char>, Seq<char>),
    Seq<char>,
> {
    match args {
        None => Err("draft_automation requires `trigger` and `action` arguments"@),
        Some(map) => match string_arg_of(map, "trigger"@) {
            Ok(trigger) => match string_arg_of(map, "action"@) {
                Ok(action) => Ok((trigger, action)),
                Err(e) => Err(e),
            },
            Err(e) => Err(e),
        },
    }
}

/// The view of optional arguments.
pub open spec fn opt_args(args: Option<&TextMap<ArgValue>>) -> Option<Map<Seq<char>, ArgValue>> {
    match args {
        Some(map) => Some(map@),
        None => None,
    }
}

/// The trigger and the action of an automation.
pub fn draft_automation_args(args: Option<&TextMap<ArgValue>>) -> (r: Result<
    (String, String),
    McpError,
>)
    ensures
        match r {
            Ok((trigger, action)) => draft_args_of(opt_args(args)) == Ok::<
                (Seq<char>, Seq<char>),
                Seq<char>,
            >((trigger@, action@)),
            Err(e) => draft_args_of(opt_args(args)) is Err && is_error(
                e,
                INVALID_PARAMS_CODE,
                draft_args_of(opt_args(args))->Err_0,
            ),
        },
{
    let map = match args {
        Some(map) => map,
        None => {
            return Err(
                mcp_error(
                    INVALID_PARAMS_CODE,
                    "draft_automation requires `trigger` and `action` arguments".to_owned(),
                ),
            );
        },
    };
    let trigger = match required_string_arg(map, "trigger") {
        Ok(t) => t,
        Err(e) => return Err(e),
    };
    let action = match required_string_arg(map, "action") {
        Ok(t) => t,
        Err(e) => return Err(e),
    };
    Ok((trigger, action))
}

/// The text of the first prompt.
pub fn summarize_today_message() -> (r: String)
    ensures
        r@ == SUMMARIZE_TODAY_TEXT@,
{
    SUMMARIZE_TODAY_TEXT.to_owned()
}

/// The text of the second prompt.
pub open spec fn draft_automation_text(trigger: Seq<char>, action: Seq<char>) -> Seq<char> {
    DRAFT_AUTOMATION_HEAD@ + trigger + DRAFT_AUTOMATION_MIDDLE@ + action + DRAFT_AUTOMATION_TAIL@
}

/// The text of the second prompt.
pub fn draft_automation_message(trigger: &str, action: &str) -> (r: String)
    ensures
        r@ == draft_automation_text(trigger@, action@),
{
    let mut out = DRAFT_AUTOMATION_HEAD.to_owned();
    out.append(trigger);
    out.append(DRAFT_AUTOMATION_MIDDLE);
    out.append(action);
    out.append(DRAFT_AUTOMATION_TAIL);
    out
}

/// The text of the third prompt.
pub fn explain_recent_errors_message() -> (r: String)
    ensures
        r@ == EXPLAIN_RECENT_ERRORS_TEXT@,
{
    EXPLAIN_RECENT_ERRORS_TEXT.to_owned()
}

/// The first of the required scopes that a caller lacks.
pub open spec fn missing_scope_of(required: Seq<Seq<char>>, held: Seq<Seq<char>>) -> Option<
    Seq<char>,
>
    decreases required.len(),
{
    if required.len() == 0 {
        None
    } else if !scope_satisfied(required[0], held) {
        Some(required[0])
    } else {
        missing_scope_of(required.skip(1), held)
    }
}

/// The names of a list of scopes.
pub open spec fn scope_names(required: Seq<Scope>) -> Seq<Seq<char>> {
    required.map_values(|s: Scope| s.0@)
}

/// The first of the required scopes that a caller lacks.
pub fn first_missing_scope(actor: &Actor, required: &Vec<Scope>) -> (r: Option<Scope>)
    ensures
        match r {
            Some(scope) => missing_scope_of(scope_names(required@), actor@.scopes) == Some(scope.0@),
            None => missing_scope_of(scope_names(required@), actor@.scopes) is None,
        },
{
    let ghost names = scope_names(required@);
    let mut i: usize = 0;
    assert(names.skip(0) =~= names);
    while i < required.len()
        invariant
            0 <= i <= required.len(),
            names == scope_names(required@),
            missing_scope_of(names, actor@.scopes) == missing_scope_of(
                names.skip(i as int),
                actor@.scopes,
            ),
        decreases required.len() - i,
    {
        assert(names.skip(i as int)[0] == names[i as int]);
        if require_scope(actor, required[i]).is_err() {
            return Some(required[i]);
        }
        assert(names.skip(i as int).skip(1) =~= names.skip(i + 1));
        i += 1;
    }
    None
}

/// A prompt as it is handed out.
#[derive(Debug)]
pub struct PromptResult {
    pub description: &'static str,
    pub text: String,
}

/// What a prompt says, or what is wrong with its arguments.
pub open spec fn prompt_text_of(kind: PromptKind, args: Option<Map<Seq<char>, ArgValue>>) -> Result<
    Seq<char>,
    Seq<char>,
> {
    match kind {
        PromptKind::SummarizeToday => Ok(SUMMARIZE_TODAY_TEXT@),
        PromptKind::DraftAutomation => match draft_args_of(args) {
            Ok((trigger, action)) => Ok(draft_automation_text(trigger, action)),
            Err(e) => Err(e),
        },
        PromptKind::ExplainRecentErrors => Ok(EXPLAIN_RECENT_ERRORS_TEXT@),
    }
}

/// What goes with a prompt as it is handed out.
pub open spec fn prompt_summary(kind: PromptKind) -> Seq<char> {
    match kind {
        PromptKind::SummarizeToday => "Summarize today's household activity."@,
        PromptKind::DraftAutomation => "Draft an automation rule from a trigger and action."@,
        PromptKind::ExplainRecentErrors => "Explain recent errors from logs."@,
    }
}

/// What is said to a caller that lacks a scope for a prompt. It does not name the scope, so that a
/// caller cannot list what is required.
pub const PROMPT_DENIED_TEXT: &'static str = "scope denied for MCP prompt";

/// Whether a result is what a caller gets that asks for a prompt. The arguments are looked at
/// before the scopes.
pub open spec fn is_prompt_result(
    r: Result<PromptResult, McpError>,
    name: Seq<char>,
    args: Option<Map<Seq<char>, ArgValue>>,
    held: Seq<Seq<char>>,
) -> bool {
    match prompt_of(name) {
        None => r is Err && is_error(
            r->Err_0,
            INVALID_PARAMS_CODE,
            "unknown prompt `"@ + name + "`"@,
        ),
        Some(kind) => match prompt_text_of(kind, args) {
            Err(e) => r is Err && is_error(r->Err_0, INVALID_PARAMS_CODE, e),
            Ok(text) => match missing_scope_of(prompt_scopes(kind), held) {
                Some(_) => r is Err && is_error(
                    r->Err_0,
                    SCOPE_DENIED_CODE,
                    PROMPT_DENIED_TEXT@,
                ),
                None => r is Ok && r->Ok_0.text@ == text && r->Ok_0.description@ == prompt_summary(
                    kind,
                ),
            },
        },
    }
}

/// Hands out a prompt.
pub fn get(name: &str, arguments: Option<&TextMap<ArgValue>>, actor: &Actor) -> (r: Result<
    PromptResult,
    McpError,
>)
    ensures
        is_prompt_result(r, name@, opt_args(arguments), actor@.scopes),
{
    let mut required: Vec<Scope> = Vec::new();
    let (description, text) = if name.eq("summarize_today") {
        required.push(Scope::new(EVENTS_READ));
        required.push(Scope::new(LOGS_READ));
        assert(scope_names(required@) =~= prompt_scopes(PromptKind::SummarizeToday));
        ("Summarize today's household activity.", summarize_today_message())
    } else if name.eq("draft_automation") {
        let (trigger, action) = match draft_automation_args(arguments) {
            Ok(pair) => pair,
            Err(e) => return Err(e),
        };
        required.push(Scope::new(DEVICES_LIST));
        assert(scope_names(required@) =~= prompt_scopes(PromptKind::DraftAutomation));
        (
            "Draft an automation rule from a trigger and action.",
            draft_automation_message(trigger.as_str(), action.as_str()),
        )
    } else if name.eq("explain_recent_errors") {
        required.push(Scope::new(LOGS_READ));
        assert(scope_names(required@) =~= prompt_scopes(PromptKind::ExplainRecentErrors));
        ("Explain recent errors from logs.", explain_recent_errors_message())
    } else {
        return Err(mcp_error(INVALID_PARAMS_CODE, cat3("unknown prompt `", name, "`")));
    };
    if first_missing_scope(actor, &required).is_some() {
        return Err(mcp_error(SCOPE_DENIED_CODE, PROMPT_DENIED_TEXT.to_owned()));
    }
    Ok(PromptResult { description, text })
}

/// A caller with every scope gets every prompt whose arguments are in order.
pub proof fn law_wildcard_gets_every_prompt(kind: PromptKind, held: Seq<Seq<char>>)
    requires
        held.contains(WILDCARD@),
    ensures
        missing_scope_of(prompt_scopes(kind), held) is None,
{
    reveal_with_fuel(missing_scope_of, 3);
}

/// The catalogue and the names agree: the prompts of the catalogue are those that are handed out.
pub proof fn law_catalogue_names_are_known(kind: PromptKind)
    ensures
        prompt_of(prompt_name(kind)) == Some(kind),
{
    reveal_strlit("summarize_today");
    reveal_strlit("draft_automation");
    reveal_strlit("explain_recent_errors");
    assert("summarize_today"@.len() == 15);
    assert("draft_automation"@.len() == 16);
    assert("explain_recent_errors"@.len() == 21);
}

} // verus!
