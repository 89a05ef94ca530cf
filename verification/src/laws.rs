//! What holds of every session, proved from the rules.

use crate::call::{active_engagement, fresh_call, registration_of, CallStateView};
use crate::clock::elapsed_between;
use crate::commands::{SipCommandView, SipErrorView, SipResponseView};
use crate::config::SipConfigView;
use crate::engine::{
    ask, nothing, EngineReplyView, EngineRequestView, NoticeView, OutcomeView, SipEventView,
};
use crate::model::{
    call_matches, engaged, hook_in_place, hook_left_to_policy, initial, next, on_command,
    on_event, on_reply, records, refuse, run, toggles_mid_call, wf, InputView, SessionView,
};
use vstd::prelude::*;
use vstd::string::*;

verus! {

/// Whatever happens to a well-formed session leaves it well-formed.
pub proof fn lemma_next_keeps_wf(s: SessionView, input: InputView)
    requires
        wf(s),
    ensures
        wf(next(s, input)),
{
}

/// Every session that can be reached from a new one is well-formed.
pub proof fn lemma_run_keeps_wf(config: SipConfigView, inputs: Seq<InputView>)
    ensures
        wf(run(initial(config), inputs)),
    decreases inputs.len(),
{
    if inputs.len() > 0 {
        lemma_run_keeps_wf(config, inputs.drop_last());
        lemma_next_keeps_wf(run(initial(config), inputs.drop_last()), inputs.last());
    }
}

/// A session never holds more than one call record, whatever has happened to
/// it.
pub proof fn lemma_single_call_record(config: SipConfigView, inputs: Seq<InputView>)
    ensures
        records(run(initial(config), inputs)).len() <= 1,
{
}

/// A step that takes the call's record into a state in which the user is
/// engaged in the call leaves the handset off the hook.
pub proof fn lemma_engagement_takes_the_hook_off(s: SessionView, input: InputView)
    requires
        engaged(next(s, input)),
        s.current_call is None || s.current_call->0.state != next(s, input).current_call->0.state,
    ensures
        !next(s, input).is_on_hook,
{
}

/// The hook stays where the hook policy puts it through every step but the
/// user's own toggling of it in the middle of a call.
pub proof fn lemma_step_keeps_hook_in_place(s: SessionView, input: InputView)
    requires
        hook_in_place(s),
        !toggles_mid_call(s, input),
    ensures
        hook_in_place(next(s, input)),
{
}

/// As long as the user does not toggle the hook in the middle of a call:
/// whatever has happened to a session, while its call is being placed, is
/// connected, on hold or being transferred, the handset is off the hook.
pub proof fn lemma_engaged_is_off_hook(config: SipConfigView, inputs: Seq<InputView>)
    requires
        hook_left_to_policy(initial(config), inputs),
    ensures
        ({
            let s = run(initial(config), inputs);
            s.current_call is Some && active_engagement(s.current_call->0.state)
                ==> !s.is_on_hook
        }),
    decreases inputs.len(),
{
    if inputs.len() > 0 {
        lemma_engaged_is_off_hook(config, inputs.drop_last());
        lemma_step_keeps_hook_in_place(run(initial(config), inputs.drop_last()), inputs.last());
    }
}

/// The user's toggling of the hook in the middle of a call is what puts the
/// handset back on the hook then: the hook is flipped, whatever the call's
/// state.
pub proof fn lemma_toggle_flips(s: SessionView, number: Option<u128>)
    requires
        s.initialized,
    ensures
        ({
            let step = on_command(s, SipCommandView::ToggleHook, None, number);
            &&& step.0.is_on_hook == !s.is_on_hook
            &&& step.1.response == Some(SipResponseView::HookToggled { is_on_hook: !s.is_on_hook })
        }),
{
}

/// The profile of a session changes only when the engine is started anew.
pub proof fn lemma_profile_is_fixed(s: SessionView, input: InputView)
    requires
        !(input matches InputView::Command { command, .. } && command is Initialize),
    ensures
        next(s, input).config == s.config,
{
}

/// A call record keeps its identifier, its remote party and its direction
/// for as long as it lives: only the offer of a call replaces a record by
/// another.
pub proof fn lemma_identifier_is_stable(s: SessionView, input: InputView)
    requires
        s.current_call is Some,
        next(s, input).current_call is Some,
        !(input matches InputView::Event { event, .. } && event is IncomingCall),
    ensures
        next(s, input).current_call->0.id == s.current_call->0.id,
        next(s, input).current_call->0.remote_uri == s.current_call->0.remote_uri,
        next(s, input).current_call->0.is_incoming == s.current_call->0.is_incoming,
{
}

/// The elapsed time of a call is derived: nothing but the passing of time
/// changes it, and what time makes of it is the time since the call was
/// connected.
pub proof fn lemma_duration_is_derived(s: SessionView, input: InputView)
    requires
        s.current_call is Some,
        next(s, input).current_call is Some,
        !(input matches InputView::Event { event, .. } && event is IncomingCall),
    ensures
        !(input is Tick) ==> next(s, input).current_call->0.duration
            == s.current_call->0.duration,
        input matches InputView::Tick { now } ==> next(s, input).current_call->0.duration
            == s.current_call->0.duration || (s.current_call->0.connected_at is Some && next(
            s,
            input,
        ).current_call->0.duration == elapsed_between(s.current_call->0.connected_at->0, now)),
{
}

/// The engine does not move the hook: an event leaves it where it was,
/// unless the event engages the user in the call, which takes it off.
pub proof fn lemma_events_leave_the_hook(
    s: SessionView,
    event: SipEventView,
    now: i64,
    id_text: Seq<char>,
)
    ensures
        ({
            let after = on_event(s, event, now, id_text).0;
            after.is_on_hook == s.is_on_hook || (engaged(after) && !after.is_on_hook)
        }),
{
}

/// An incoming call that is offered leaves the hook untouched: it rings while
/// the handset is on the hook.
pub proof fn lemma_offer_leaves_the_hook(
    s: SessionView,
    call_id: u128,
    from: Seq<char>,
    display_name: Option<Seq<char>>,
    now: i64,
    id_text: Seq<char>,
)
    requires
        s.initialized,
        s.is_on_hook,
    ensures
        ({
            let after = on_event(
                s,
                SipEventView::IncomingCall { call_id, from, display_name },
                now,
                id_text,
            ).0;
            &&& after.is_on_hook
            &&& after.current_call == Some(fresh_call(id_text, from, CallStateView::Ringing, true))
        }),
{
}

/// Before the engine is started, every command but the one that starts it is
/// refused and changes nothing.
pub proof fn lemma_uninitialized_refuses(
    s: SessionView,
    command: SipCommandView,
    detected: Option<Seq<char>>,
    number: Option<u128>,
)
    requires
        !s.initialized,
        !(command is Initialize),
    ensures
        on_command(s, command, detected, number) == (s, refuse(SipErrorView::NotInitialized)),
{
}

/// Every command is either answered at once or leads to a request to the
/// engine, and the reply to any request but a rejection is answered or leads
/// to another request: no command is left without an answer.
pub proof fn lemma_commands_are_answered(
    s: SessionView,
    command: SipCommandView,
    detected: Option<Seq<char>>,
    request: EngineRequestView,
    reply: EngineReplyView,
    now: i64,
    number: Option<u128>,
    id_text: Seq<char>,
)
    ensures
        ({
            let asked = on_command(s, command, detected, number).1;
            asked.response is Some || asked.request is Some
        }),
        ({
            let told = on_reply(s, request, reply, now, number, id_text).1;
            !(request is Reject) ==> told.response is Some || told.request is Some
        }),
{
}

/// Once the engine says that the registration is active, the session is
/// registered, and the presentation layer is told so.
pub proof fn lemma_active_registers(s: SessionView, now: i64, id_text: Seq<char>)
    requires
        s.initialized,
    ensures
        on_event(s, SipEventView::RegistrationStatusChanged { status: "active"@ }, now, id_text)
            == (
            SessionView { registration_state: CallStateView::Registered, ..s },
            OutcomeView {
                response: None,
                request: None,
                stop_audio: None,
                notice: Some(NoticeView::Registered),
            },
        ),
{
    reveal_strlit("active");
    reveal_strlit("pending");
    assert("active"@.len() != "pending"@.len());
}

/// A registration status that is not in the table leaves the registration
/// state as it was, and is reported to the presentation layer by name.
pub proof fn lemma_unknown_status_is_reported(
    s: SessionView,
    status: Seq<char>,
    now: i64,
    id_text: Seq<char>,
)
    requires
        s.initialized,
        registration_of(status) is None,
    ensures
        on_event(s, SipEventView::RegistrationStatusChanged { status }, now, id_text) == (
            s,
            OutcomeView {
                response: None,
                request: None,
                stop_audio: None,
                notice: Some(NoticeView::UnknownRegistrationStatus { status }),
            },
        ),
{
}

/// Off the hook, an incoming call is not offered: the session stays as it
/// is, and what is asked for is one rejection of that call by the engine.
pub proof fn lemma_off_hook_rejects(
    s: SessionView,
    call_id: u128,
    from: Seq<char>,
    display_name: Option<Seq<char>>,
    now: i64,
    id_text: Seq<char>,
)
    requires
        s.initialized,
        !s.is_on_hook,
    ensures
        on_event(s, SipEventView::IncomingCall { call_id, from, display_name }, now, id_text) == (
            s,
            ask(EngineRequestView::Reject { call_id }),
        ),
{
}

/// The session after a command and, where the command asked something of the
/// engine, after the engine's reply to it. `number` is what is read from the
/// identifier of the session's call.
pub open spec fn after_command(
    s: SessionView,
    command: SipCommandView,
    reply: EngineReplyView,
    now: i64,
    number: Option<u128>,
) -> SessionView {
    let step = on_command(s, command, None, number);
    match step.1.request {
        Some(request) => on_reply(step.0, request, reply, now, number, Seq::empty()).0,
        None => step.0,
    }
}

/// Hold, then resume, each followed by the engine's event on the call, leaves
/// the call connected, whatever the engine replied to the two requests.
pub proof fn lemma_hold_then_resume_connects(
    s: SessionView,
    hold_reply: EngineReplyView,
    resume_reply: EngineReplyView,
    now: i64,
    number: Option<u128>,
    call_id: u128,
    id_text: Seq<char>,
)
    requires
        s.initialized,
        call_matches(s, id_text),
    ensures
        ({
            let held = on_event(
                after_command(s, SipCommandView::Hold, hold_reply, now, number),
                SipEventView::CallOnHold { call_id },
                now,
                id_text,
            ).0;
            let resumed = on_event(
                after_command(held, SipCommandView::Resume, resume_reply, now, number),
                SipEventView::CallResumed { call_id },
                now,
                id_text,
            ).0;
            &&& held.current_call is Some
            &&& held.current_call->0.state is OnHold
            &&& resumed.current_call is Some
            &&& resumed.current_call->0.state is Connected
        }),
{
}

/// A call on hold that the engine agrees to resume is connected, and any
/// other call that the engine agrees to hold is on hold, before any event
/// confirms it.
pub proof fn lemma_hold_button_is_optimistic(s: SessionView, now: i64, call_id: u128)
    requires
        s.initialized,
        s.current_call is Some,
    ensures
        ({
            let after = after_command(
                s,
                SipCommandView::Hold,
                EngineReplyView::Done,
                now,
                Some(call_id),
            );
            &&& after.current_call is Some
            &&& after.current_call->0.state == (if s.current_call->0.state is OnHold {
                CallStateView::Connected
            } else {
                CallStateView::OnHold
            })
        }),
{
}

/// A hangup leaves no call record, whatever the engine replies.
pub proof fn lemma_hangup_clears(
    s: SessionView,
    reply: EngineReplyView,
    now: i64,
    number: Option<u128>,
)
    requires
        wf(s),
    ensures
        on_command(s, SipCommandView::Hangup, None, number).0.current_call is None,
        after_command(s, SipCommandView::Hangup, reply, now, number).current_call is None,
{
}

/// Toggling the hook twice leaves it where it was; on a started session the
/// first toggle answers with the other position and the second with the one
/// the hook had.
pub proof fn lemma_toggle_hook_twice(s: SessionView, number: Option<u128>)
    ensures
        ({
            let once = on_command(s, SipCommandView::ToggleHook, None, number);
            let twice = on_command(once.0, SipCommandView::ToggleHook, None, number);
            &&& twice.0.is_on_hook == s.is_on_hook
            &&& s.initialized ==> once.1.response == Some(
                SipResponseView::HookToggled { is_on_hook: !s.is_on_hook },
            ) && twice.1.response == Some(
                SipResponseView::HookToggled { is_on_hook: s.is_on_hook },
            )
        }),
{
}

/// The session after the mute button was pressed while the engine reported
/// the microphone as `muted` and carried out what it was then asked.
pub open spec fn after_mute_toggle(
    s: SessionView,
    muted: bool,
    now: i64,
    number: Option<u128>,
) -> SessionView {
    let asked = on_command(s, SipCommandView::ToggleMute, None, number);
    match asked.1.request {
        Some(query) => {
            let told = on_reply(
                asked.0,
                query,
                EngineReplyView::MuteState { muted },
                now,
                number,
                Seq::empty(),
            );
            match told.1.request {
                Some(set) => on_reply(
                    told.0,
                    set,
                    EngineReplyView::Done,
                    now,
                    number,
                    Seq::empty(),
                ).0,
                None => told.0,
            }
        },
        None => asked.0,
    }
}

/// Pressing the mute button turns the record's flag into the opposite of what
/// the engine reported.
pub proof fn lemma_toggle_mute_follows_engine(s: SessionView, muted: bool, now: i64, call_id: u128)
    requires
        s.initialized,
        s.current_call is Some,
    ensures
        ({
            let after = after_mute_toggle(s, muted, now, Some(call_id));
            after.current_call is Some && after.current_call->0.is_muted == Some(!muted)
        }),
{
}

/// Pressing the mute button twice, with an engine whose microphone is as the
/// record says and follows each toggle, leaves the record's flag as it was.
pub proof fn lemma_toggle_mute_twice(s: SessionView, muted: bool, now: i64, number: Option<u128>)
    requires
        s.current_call is Some,
        s.current_call->0.is_muted == Some(muted),
    ensures
        ({
            let once = after_mute_toggle(s, muted, now, number);
            let twice = after_mute_toggle(once, !muted, now, number);
            twice.current_call is Some && twice.current_call->0.is_muted == Some(muted)
        }),
{
}

/// While a call exists, another cannot be placed: the command is refused and
/// the session stays as it is.
pub proof fn lemma_make_call_while_in_call(
    s: SessionView,
    target: Seq<char>,
    detected: Option<Seq<char>>,
    number: Option<u128>,
)
    requires
        wf(s),
        s.current_call is Some,
    ensures
        on_command(s, SipCommandView::MakeCall { target }, detected, number) == (
            s,
            refuse(SipErrorView::AlreadyInCall),
        ),
{
}

/// Without an incoming call there is nothing to answer: the command is
/// refused and the session stays as it is.
pub proof fn lemma_answer_without_incoming_call(
    s: SessionView,
    detected: Option<Seq<char>>,
    number: Option<u128>,
)
    requires
        s.initialized,
        s.current_call is None || !s.current_call->0.is_incoming,
    ensures
        on_command(s, SipCommandView::AnswerCall, detected, number) == (
            s,
            refuse(SipErrorView::NoActiveCall),
        ),
{
}

/// An event on a call that is not the session's changes nothing and asks for
/// nothing.
pub proof fn lemma_stale_event_ignored(
    s: SessionView,
    event: SipEventView,
    now: i64,
    id_text: Seq<char>,
)
    requires
        event is CallStateChanged || event is CallEnded || event is CallOnHold
            || event is CallResumed,
        !call_matches(s, id_text),
    ensures
        on_event(s, event, now, id_text) == (s, nothing()),
{
}

} // verus!
