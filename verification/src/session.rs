//! The six hooks the host calls. Five of them abstain at once. Opening a
//! session is the one that works: it asks the host who logs in and from
//! where, has the notification posted, and tells the user when that was
//! turned down. It never speaks to the host or the network itself: it names
//! each step as an `Action`, and is told what came of it as an `Event`.

use crate::attribute::{
    bytes_of, get_rhost, get_user, spec_decode, spec_get_rhost, spec_get_user,
    spec_normalize_rhost,
};
use crate::codes::{MessageStyle, PamFlags, PamItemType, PamResult, PamResultCode};
use crate::conversation::{
    has_terminator, info, prompt_outcome, spec_info, spec_prompt_outcome, Prompt, PromptView,
};
use crate::relay::{
    judge, login_message, rejection_text_is_clean, spec_decimal, spec_judge, spec_login_message,
    spec_request, OutboundRequest, RequestView, TransferOutcome, Verdict, VerdictView,
    NO_STATUS_PREFIX, REJECTED_PREFIX,
};
use vstd::prelude::*;

verus! {

/// What the caller is to do next on behalf of the hook.
#[derive(Debug, PartialEq, Eq)]
pub enum Action {
    /// Ask the host for this item and report it as `Event::Item`.
    GetItem(PamItemType),
    /// Post this request and report the outcome as `Event::Transfer`.
    Send(OutboundRequest),
    /// Have the host show this message and report its answer as
    /// `Event::Prompted`.
    Prompt(Prompt),
    /// The hook is over: hand this code to the host.
    Return(PamResultCode),
}

/// An `Action` as the text it holds.
pub enum ActionView {
    GetItem(PamItemType),
    Send(RequestView),
    Prompt(PromptView),
    Return(PamResultCode),
}

impl View for Action {
    type V = ActionView;

    open spec fn view(&self) -> ActionView {
        match self {
            Action::GetItem(item) => ActionView::GetItem(*item),
            Action::Send(request) => ActionView::Send(request@),
            Action::Prompt(prompt) => ActionView::Prompt(prompt@),
            Action::Return(code) => ActionView::Return(*code),
        }
    }
}

/// What came of the last action.
#[derive(Debug, PartialEq, Eq)]
pub enum Event {
    /// The host's answer to an item request: its result code, and the bytes
    /// of the value where it supplied one.
    Item { code: PamResultCode, value: Option<Vec<u8>> },
    /// How posting the request ended.
    Transfer(TransferOutcome),
    /// The host's answer to a prompt.
    Prompted(PamResultCode),
}

enum Stage {
    User,
    RemoteHost { user: String },
    Transfer,
    Diagnostic { fallback: PamResultCode },
    Finished,
}

/// How far a session-open hook has come.
pub enum StageView {
    /// The user name has been asked for.
    AwaitUser,
    /// The remote host has been asked for; the user name is known.
    AwaitRemoteHost { user: Seq<char> },
    /// The notification is on its way.
    AwaitTransfer,
    /// A diagnostic is being shown. `fallback` is the code to return once
    /// the host has shown it.
    AwaitPrompt { fallback: PamResultCode },
    /// The hook has returned.
    Finished,
}

/// A session-open hook in progress.
pub struct SessionOpen {
    endpoint: String,
    stage: Stage,
}

/// A `SessionOpen` as the values it holds.
pub struct SessionView {
    pub endpoint: Seq<char>,
    pub stage: StageView,
}

impl SessionView {
    /// A diagnostic is only ever followed by a failure code.
    pub open spec fn wf(self) -> bool {
        self.stage matches StageView::AwaitPrompt { fallback } ==> fallback
            != PamResultCode::PAM_SUCCESS
    }

    /// The same hook at another stage.
    pub open spec fn at(self, stage: StageView) -> SessionView {
        SessionView { endpoint: self.endpoint, stage }
    }
}

/// The code a session-open hook returns for a result of the relay. A
/// notification that went through is no verdict on the login, so success
/// too is reported as `PAM_IGNORE`.
pub open spec fn spec_hook_code(result: PamResult<()>) -> PamResultCode {
    match result {
        Ok(()) => PamResultCode::PAM_IGNORE,
        Err(failure) => failure,
    }
}

/// A hook that has just been entered: the user name is asked for first.
pub open spec fn spec_start(endpoint: Seq<char>) -> (SessionView, ActionView) {
    (
        SessionView { endpoint, stage: StageView::AwaitUser },
        ActionView::GetItem(PamItemType::PAM_USER),
    )
}

/// The hook ends with `code`.
pub open spec fn spec_finish(session: SessionView, code: PamResultCode) -> (
    SessionView,
    ActionView,
) {
    (session.at(StageView::Finished), ActionView::Return(code))
}

/// One step of the hook: the stage it moves to and the action it asks for,
/// given the stage it is at and what came of the last action.
///
/// The user is fetched, then the remote host, and a failure of either ends
/// the hook with that failure. The notification is then composed and sent.
/// Where the relay settles at once, the hook returns. Where it wants the
/// user told, the message goes to the host unless it holds a terminator,
/// and the host's answer decides between its own failure and the fallback.
/// An event that does not answer the pending action ends the hook with
/// `PAM_SYSTEM_ERR`.
pub open spec fn spec_step(session: SessionView, event: Event) -> (SessionView, ActionView) {
    match (session.stage, event) {
        (StageView::AwaitUser, Event::Item { code, value }) => match spec_get_user(
            code,
            bytes_of(value),
        ) {
            Ok(user) => (
                session.at(StageView::AwaitRemoteHost { user }),
                ActionView::GetItem(PamItemType::PAM_RHOST),
            ),
            Err(failure) => spec_finish(session, failure),
        },
        (StageView::AwaitRemoteHost { user }, Event::Item { code, value }) => match spec_get_rhost(
            code,
            bytes_of(value),
        ) {
            Ok(rhost) => (
                session.at(StageView::AwaitTransfer),
                ActionView::Send(spec_request(session.endpoint, spec_login_message(user, rhost))),
            ),
            Err(failure) => spec_finish(session, failure),
        },
        (StageView::AwaitTransfer, Event::Transfer(outcome)) => match spec_judge(outcome) {
            VerdictView::Settled(result) => spec_finish(session, spec_hook_code(result)),
            VerdictView::Diagnose { text, fallback } => match spec_info(text) {
                Ok(prompt) => (
                    session.at(StageView::AwaitPrompt { fallback }),
                    ActionView::Prompt(prompt),
                ),
                Err(failure) => spec_finish(session, failure),
            },
        },
        (StageView::AwaitPrompt { fallback }, Event::Prompted(code)) => match spec_prompt_outcome(
            code,
        ) {
            Ok(()) => spec_finish(session, fallback),
            Err(failure) => spec_finish(session, failure),
        },
        _ => spec_finish(session, PamResultCode::PAM_SYSTEM_ERR),
    }
}

impl View for SessionOpen {
    type V = SessionView;

    closed spec fn view(&self) -> SessionView {
        SessionView {
            endpoint: self.endpoint@,
            stage: match self.stage {
                Stage::User => StageView::AwaitUser,
                Stage::RemoteHost { user } => StageView::AwaitRemoteHost { user: user@ },
                Stage::Transfer => StageView::AwaitTransfer,
                Stage::Diagnostic { fallback } => StageView::AwaitPrompt { fallback },
                Stage::Finished => StageView::Finished,
            },
        }
    }
}

/// The code to hand to the host for a result of the relay.
pub fn hook_code(result: PamResult<()>) -> (code: PamResultCode)
    ensures
        code == spec_hook_code(result),
{
    match result {
        Ok(_) => PamResultCode::PAM_IGNORE,
        Err(why) => why,
    }
}

impl SessionOpen {
    #[verifier::type_invariant]
    closed spec fn inv(self) -> bool {
        self@.wf()
    }

    fn finish(endpoint: String, code: PamResultCode) -> (next: (SessionOpen, Action))
        requires
            code != PamResultCode::PAM_SUCCESS,
        ensures
            next.0@ == (SessionView { endpoint: endpoint@, stage: StageView::Finished }),
            next.1@ == ActionView::Return(code),
    {
        (SessionOpen { endpoint, stage: Stage::Finished }, Action::Return(code))
    }

    /// Takes the hook one step further: `event` tells what came of the
    /// action asked for last, and the result holds the hook at its next
    /// stage and the action to perform now. After `Action::Return` the hook
    /// is over. The code returned is never `PAM_SUCCESS`, and a remote host
    /// that holds any bytes at all goes into the message as its text.
    pub fn step(self, event: Event) -> (next: (SessionOpen, Action))
        ensures
            (next.0@, next.1@) == spec_step(self@, event),
            next.0@.wf(),
            next.1@ != ActionView::Return(PamResultCode::PAM_SUCCESS),
            self@.stage matches StageView::AwaitRemoteHost { user } ==> (event matches Event::Item {
                value: Some(bytes),
                ..
            } ==> (bytes@.len() > 0 ==> next.1@ == ActionView::Send(
                spec_request(self@.endpoint, spec_login_message(user, spec_decode(bytes@))),
            ))),
    {
        proof {
            use_type_invariant(&self);
        }
        let SessionOpen { endpoint, stage } = self;
        match (stage, event) {
            (Stage::User, Event::Item { code, value }) => match get_user(code, value) {
                Ok(user) => (
                    SessionOpen { endpoint, stage: Stage::RemoteHost { user } },
                    Action::GetItem(PamItemType::PAM_RHOST),
                ),
                Err(failure) => Self::finish(endpoint, failure),
            },
            (Stage::RemoteHost { user }, Event::Item { code, value }) => match get_rhost(
                code,
                value,
            ) {
                Ok(rhost) => {
                    let message = login_message(user.as_str(), rhost.as_str());
                    let request = OutboundRequest::new(endpoint.as_str(), message);
                    (SessionOpen { endpoint, stage: Stage::Transfer }, Action::Send(request))
                },
                Err(failure) => Self::finish(endpoint, failure),
            },
            (Stage::Transfer, Event::Transfer(outcome)) => match judge(outcome) {
                Verdict::Settled(result) => Self::finish(endpoint, hook_code(result)),
                Verdict::Diagnose { text, fallback } => match info(text) {
                    Ok(prompt) => (
                        SessionOpen { endpoint, stage: Stage::Diagnostic { fallback } },
                        Action::Prompt(prompt),
                    ),
                    Err(failure) => Self::finish(endpoint, failure),
                },
            },
            (Stage::Diagnostic { fallback }, Event::Prompted(code)) => match prompt_outcome(code) {
                Ok(_) => Self::finish(endpoint, fallback),
                Err(failure) => Self::finish(endpoint, failure),
            },
            _ => Self::finish(endpoint, PamResultCode::PAM_SYSTEM_ERR),
        }
    }
}

/// Account management: the module abstains.
pub fn pam_sm_acct_mgmt(_flags: PamFlags) -> (code: PamResultCode)
    ensures
        code == PamResultCode::PAM_IGNORE,
{
    PamResultCode::PAM_IGNORE
}

/// Authentication: the module abstains.
pub fn pam_sm_authenticate(_flags: PamFlags) -> (code: PamResultCode)
    ensures
        code == PamResultCode::PAM_IGNORE,
{
    PamResultCode::PAM_IGNORE
}

/// Change of the authentication token: the module abstains.
pub fn pam_sm_chauthtok(_flags: PamFlags) -> (code: PamResultCode)
    ensures
        code == PamResultCode::PAM_IGNORE,
{
    PamResultCode::PAM_IGNORE
}

/// End of a session: the module abstains.
pub fn pam_sm_close_session(_flags: PamFlags) -> (code: PamResultCode)
    ensures
        code == PamResultCode::PAM_IGNORE,
{
    PamResultCode::PAM_IGNORE
}

/// Setting of credentials: the module abstains.
pub fn pam_sm_setcred(_flags: PamFlags) -> (code: PamResultCode)
    ensures
        code == PamResultCode::PAM_IGNORE,
{
    PamResultCode::PAM_IGNORE
}

/// Start of a session: enters the hook that notifies `endpoint` of the
/// login. The first action asks the host for the user name; each later one
/// comes from `SessionOpen::step`.
pub fn pam_sm_open_session(_flags: PamFlags, endpoint: String) -> (first: (SessionOpen, Action))
    ensures
        (first.0@, first.1@) == spec_start(endpoint@),
        first.0@.wf(),
{
    (SessionOpen { endpoint, stage: Stage::User }, Action::GetItem(PamItemType::PAM_USER))
}

/// No step ever ends the hook with `PAM_SUCCESS`, and every step leaves the
/// hook well-formed.
pub proof fn hook_never_grants(session: SessionView, event: Event)
    requires
        session.wf(),
    ensures
        spec_step(session, event).0.wf(),
        spec_step(session, event).1 != ActionView::Return(PamResultCode::PAM_SUCCESS),
{
}

/// The action asked for tells the stage the hook has moved to: the remote
/// host is asked for while it is awaited, a request is sent while the
/// transfer is awaited, a message is shown while the prompt is awaited, and
/// the hook returns exactly when it is finished. No step leads back to the
/// first stage.
pub proof fn action_matches_stage(session: SessionView, event: Event)
    ensures
        ({
            let (next, action) = spec_step(session, event);
            &&& next.endpoint == session.endpoint
            &&& next.stage !is AwaitUser
            &&& next.stage is AwaitRemoteHost <==> action == ActionView::GetItem(
                PamItemType::PAM_RHOST,
            )
            &&& next.stage is AwaitTransfer <==> action is Send
            &&& next.stage is AwaitPrompt <==> action is Prompt
            &&& next.stage is Finished <==> action is Return
        }),
{
}

/// A hook is over after four events at most, whatever they are; and once it
/// is over, every further event is answered with `PAM_SYSTEM_ERR`.
pub proof fn hook_ends_within_four_events(
    endpoint: Seq<char>,
    first: Event,
    second: Event,
    third: Event,
    fourth: Event,
    later: Event,
)
    ensures
        ({
            let one = spec_step(spec_start(endpoint).0, first);
            let two = spec_step(one.0, second);
            let three = spec_step(two.0, third);
            let four = spec_step(three.0, fourth);
            &&& four.0.stage is Finished
            &&& four.1 is Return
            &&& spec_step(four.0, later) == spec_finish(four.0, PamResultCode::PAM_SYSTEM_ERR)
        }),
{
}

/// A message that goes to the host is informational and holds no
/// terminator.
pub proof fn prompts_are_clean(session: SessionView, event: Event)
    ensures
        spec_step(session, event).1 matches ActionView::Prompt(prompt) ==> prompt.style
            == MessageStyle::PAM_TEXT_INFO && !has_terminator(prompt.text),
{
}

/// A diagnostic with an embedded terminator ends the hook with
/// `PAM_BUF_ERR`; the host is not asked to show anything.
pub proof fn terminator_ends_hook(session: SessionView, reason: String)
    requires
        session.stage is AwaitTransfer,
        has_terminator(reason@),
    ensures
        spec_step(session, Event::Transfer(TransferOutcome::StatusUnavailable(reason)))
            == spec_finish(session, PamResultCode::PAM_BUF_ERR),
{
    let text = NO_STATUS_PREFIX@ + reason@;
    let k = choose|k: int| 0 <= k < reason@.len() && reason@[k] == '\0';
    assert(text[NO_STATUS_PREFIX@.len() + k] == '\0');
}

/// Where the host supplies no user name, the hook ends at once and nothing
/// is sent: it returns the host's failure code, or `PAM_NO_MODULE_DATA`
/// where the host reported success.
pub proof fn missing_user_ends_hook(endpoint: Seq<char>, code: PamResultCode)
    ensures
        spec_step(spec_start(endpoint).0, Event::Item { code, value: None }) == spec_finish(
            spec_start(endpoint).0,
            if code == PamResultCode::PAM_SUCCESS {
                PamResultCode::PAM_NO_MODULE_DATA
            } else {
                code
            },
        ),
{
}

/// The request that a hook sends depends on the endpoint and on the two
/// attribute values alone: whatever codes the host returns beside them, two
/// hooks given the same values send the same request.
pub proof fn same_context_same_request(
    endpoint: Seq<char>,
    user: Vec<u8>,
    rhost: Vec<u8>,
    codes: (PamResultCode, PamResultCode),
    other_codes: (PamResultCode, PamResultCode),
)
    ensures
        ({
            let asked = spec_step(
                spec_start(endpoint).0,
                Event::Item { code: codes.0, value: Some(user) },
            );
            let sent = spec_step(asked.0, Event::Item { code: codes.1, value: Some(rhost) });
            let asked_again = spec_step(
                spec_start(endpoint).0,
                Event::Item { code: other_codes.0, value: Some(user) },
            );
            let sent_again = spec_step(
                asked_again.0,
                Event::Item { code: other_codes.1, value: Some(rhost) },
            );
            &&& sent.1 == sent_again.1
            &&& sent.1 == ActionView::Send(
                spec_request(
                    endpoint,
                    spec_login_message(
                        spec_decode(user@),
                        spec_normalize_rhost(spec_decode(rhost@)),
                    ),
                ),
            )
        }),
{
}

/// A status from 200 to 299 ends the hook with `PAM_IGNORE`, and no
/// diagnostic is shown.
pub proof fn accepted_ends_hook(session: SessionView, status: u32)
    requires
        session.stage is AwaitTransfer,
        200 <= status <= 299,
    ensures
        spec_step(session, Event::Transfer(TransferOutcome::Status(status))) == spec_finish(
            session,
            PamResultCode::PAM_IGNORE,
        ),
{
}

/// Any other status is reported to the user with the code in decimal, and
/// the hook then ends with `PAM_IGNORE` if the host showed the message, else
/// with the host's failure code.
pub proof fn refusal_is_reported(session: SessionView, status: u32, answer: PamResultCode)
    requires
        session.stage is AwaitTransfer,
        !(200 <= status <= 299),
    ensures
        ({
            let told = spec_step(session, Event::Transfer(TransferOutcome::Status(status)));
            &&& told.1 == ActionView::Prompt(
                PromptView {
                    style: MessageStyle::PAM_TEXT_INFO,
                    text: REJECTED_PREFIX@ + spec_decimal(status as nat),
                },
            )
            &&& spec_step(told.0, Event::Prompted(answer)).1 == ActionView::Return(
                if answer == PamResultCode::PAM_SUCCESS {
                    PamResultCode::PAM_IGNORE
                } else {
                    answer
                },
            )
        }),
{
    rejection_text_is_clean(status);
}

} // verus!
