//! What a prompt says, and what it needs.

use vstd::prelude::*;

use crate::api::mcp::error::McpError;
use crate::api::mcp::prompts::{
    draft_args_of, draft_automation_text, is_prompt_info, is_prompt_result, prompt_name,
    prompt_text_of, string_arg_of, ArgValue, PromptInfo, PromptKind, PromptResult,
    DRAFT_AUTOMATION_HEAD, DRAFT_AUTOMATION_MIDDLE, DRAFT_AUTOMATION_TAIL,
};

verus! {

/// Whether arguments give a text under a name, and it is not empty.
pub open spec fn gives(args: Map<Seq<char>, ArgValue>, name: Seq<char>, text: Seq<char>) -> bool {
    &&& args.dom().contains(name)
    &&& is_text_value(args[name], text)
    &&& text.len() > 0
}

/// Whether an argument is this text.
pub open spec fn is_text_value(value: ArgValue, text: Seq<char>) -> bool {
    value matches ArgValue::Text(t) && t@ == text
}

/// An argument is taken exactly where it is given, as a text that is not empty.
pub proof fn law_arguments_are_given(
    args: Map<Seq<char>, ArgValue>,
    name: Seq<char>,
    text: Seq<char>,
)
    ensures
        string_arg_of(args, name) == Ok::<Seq<char>, Seq<char>>(text) <==> gives(args, name, text),
{
}

/// A draft is made from the argument that is called `trigger` and the one that is called `action`,
/// and of both.
pub proof fn law_drafts_need_trigger_and_action(
    args: Map<Seq<char>, ArgValue>,
    trigger: Seq<char>,
    action: Seq<char>,
)
    ensures
        draft_args_of(None) is Err,
        draft_args_of(Some(args)) == Ok::<(Seq<char>, Seq<char>), Seq<char>>((trigger, action))
            <==> gives(args, "trigger"@, trigger) && gives(args, "action"@, action),
{
}

/// Whether a prompt names a trigger and an action, each as what it is.
pub open spec fn names_trigger_and_action(
    text: Seq<char>,
    before: Seq<char>,
    trigger: Seq<char>,
    action: Seq<char>,
    after: Seq<char>,
) -> bool {
    text == before + "Their trigger is:\n\n> "@ + trigger + "\n\nTheir action is:\n\n> "@ + action
        + after
}

/// A draft names the trigger as the trigger and the action as the action, both whole.
pub proof fn law_drafts_name_trigger_and_action(trigger: Seq<char>, action: Seq<char>)
    ensures
        exists|before: Seq<char>, after: Seq<char>| #[trigger]
            names_trigger_and_action(
                draft_automation_text(trigger, action),
                before,
                trigger,
                action,
                after,
            ),
{
    reveal_strlit(
        "You are helping the household operator draft an automation rule. Their trigger is:\n\n> ",
    );
    reveal_strlit("Their trigger is:\n\n> ");
    reveal_strlit("\n\nTheir action is:\n\n> ");
    let head = DRAFT_AUTOMATION_HEAD@;
    let label = "Their trigger is:\n\n> "@;
    let before = head.take(head.len() - label.len());
    assert(head =~= before + label);
    assert(draft_automation_text(trigger, action) =~= before + label + trigger
        + DRAFT_AUTOMATION_MIDDLE@ + action + DRAFT_AUTOMATION_TAIL@);
    assert(names_trigger_and_action(
        draft_automation_text(trigger, action),
        before,
        trigger,
        action,
        DRAFT_AUTOMATION_TAIL@,
    ));
}

/// Only a draft depends on what it is made from; the other prompts are there whatever is given.
pub proof fn law_only_drafts_read_their_arguments(
    kind: PromptKind,
    a: Option<Map<Seq<char>, ArgValue>>,
    b: Option<Map<Seq<char>, ArgValue>>,
)
    ensures
        kind != PromptKind::DraftAutomation ==> prompt_text_of(kind, a) is Ok && prompt_text_of(
            kind,
            a,
        ) == prompt_text_of(kind, b),
        prompt_text_of(PromptKind::DraftAutomation, a) is Ok <==> draft_args_of(a) is Ok,
        draft_args_of(a) matches Ok((trigger, action)) ==> prompt_text_of(
            PromptKind::DraftAutomation,
            a,
        ) == Ok::<Seq<char>, Seq<char>>(draft_automation_text(trigger, action)),
{
}

/// A prompt that is not known is refused, and so is a draft without what it is made from; both
/// before anything is said of scopes.
pub proof fn law_unknown_prompts_are_refused(
    r: Result<PromptResult, McpError>,
    name: Seq<char>,
    args: Option<Map<Seq<char>, ArgValue>>,
    held: Seq<Seq<char>>,
)
    requires
        is_prompt_result(r, name, args, held),
    ensures
        name != "summarize_today"@ && name != "draft_automation"@ && name
            != "explain_recent_errors"@ ==> r is Err && r->Err_0.code == -32602,
        name == "draft_automation"@ && draft_args_of(args) is Err ==> r is Err && r->Err_0.code
            == -32602,
{
    reveal_strlit("summarize_today");
    reveal_strlit("draft_automation");
    reveal_strlit("explain_recent_errors");
    assert("summarize_today"@[0] == 's' && "draft_automation"@[0] == 'd'
        && "explain_recent_errors"@[0] == 'e');
}

/// Only a draft takes arguments, and it says which; it needs both.
pub proof fn law_prompts_say_what_they_need(info: PromptInfo, kind: PromptKind)
    requires
        is_prompt_info(info, kind),
    ensures
        info.name@ == prompt_name(kind),
        info.arguments.len() > 0 <==> kind == PromptKind::DraftAutomation,
        kind == PromptKind::DraftAutomation ==> info.arguments.len() == 2
            && info.arguments@[0].name@ == "trigger"@ && info.arguments@[0].required
            && info.arguments@[1].name@ == "action"@ && info.arguments@[1].required,
{
}

} // verus!
