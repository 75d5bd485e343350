//! The notification relay: what is sent to the webhook, and what the answer
//! means for the login.

use crate::codes::{PamResult, PamResultCode};
use vstd::prelude::*;
use vstd::string::*;

verus! {

/// Header line that names this module to the endpoint.
pub const AGENT_HEADER: &'static str = "User-Agent: pam_rc2022";

/// Name of the form field that carries the message.
pub const CONTENT_FIELD: &'static str = "content";

/// One notification, ready to be posted: a multipart form with a single
/// field, sent to `url` with one extra header line.
#[derive(Debug, PartialEq, Eq)]
pub struct OutboundRequest {
    pub url: String,
    pub header: String,
    pub field: String,
    pub content: String,
}

/// An `OutboundRequest` as the text it holds.
pub struct RequestView {
    pub url: Seq<char>,
    pub header: Seq<char>,
    pub field: Seq<char>,
    pub content: Seq<char>,
}

impl View for OutboundRequest {
    type V = RequestView;

    open spec fn view(&self) -> RequestView {
        RequestView {
            url: self.url@,
            header: self.header@,
            field: self.field@,
            content: self.content@,
        }
    }
}

/// The request that carries `message` to `endpoint`.
pub open spec fn spec_request(endpoint: Seq<char>, message: Seq<char>) -> RequestView {
    RequestView {
        url: endpoint,
        header: AGENT_HEADER@,
        field: CONTENT_FIELD@,
        content: message,
    }
}

/// Middle of the notification line, between the user and the remote host.
pub const LOGIN_INFIX: &'static str = " logging in from ";

/// The notification line: the user, then where the login comes from.
pub open spec fn spec_login_message(user: Seq<char>, rhost: Seq<char>) -> Seq<char> {
    user + LOGIN_INFIX@ + rhost
}

/// Composes the line that tells of a login.
pub fn login_message(user: &str, rhost: &str) -> (message: String)
    ensures
        message@ == spec_login_message(user@, rhost@),
{
    String::from_str(user).concat(LOGIN_INFIX).concat(rhost)
}

impl OutboundRequest {
    /// Builds the request that carries `message` to `endpoint`. The message
    /// goes out as it is; the header and the field name are fixed.
    pub fn new(endpoint: &str, message: String) -> (request: OutboundRequest)
        ensures
            request@ == spec_request(endpoint@, message@),
    {
        OutboundRequest {
            url: String::from_str(endpoint),
            header: String::from_str(AGENT_HEADER),
            field: String::from_str(CONTENT_FIELD),
            content: message,
        }
    }
}

/// How an attempt to post the request ended.
#[derive(Debug, PartialEq, Eq)]
pub enum TransferOutcome {
    /// The request could not be set up; nothing was sent.
    SetupFailed,
    /// The request was set up, but the transfer itself failed.
    TransportFailed,
    /// The transfer went through, but its status could not be read. Holds
    /// the reason as text.
    StatusUnavailable(String),
    /// The endpoint answered with this status code.
    Status(u32),
}

/// What the relay concludes from a transfer.
#[derive(Debug, PartialEq, Eq)]
pub enum Verdict {
    /// Nothing more to do: the relay ends with this result.
    Settled(PamResult<()>),
    /// The user is to be told `text`. If that goes well the relay fails with
    /// `fallback`; if it does not, with the code of that failure.
    Diagnose { text: String, fallback: PamResultCode },
}

/// A `Verdict` as the text it holds.
pub enum VerdictView {
    Settled(PamResult<()>),
    Diagnose { text: Seq<char>, fallback: PamResultCode },
}

impl View for Verdict {
    type V = VerdictView;

    open spec fn view(&self) -> VerdictView {
        match self {
            Verdict::Settled(result) => VerdictView::Settled(*result),
            Verdict::Diagnose { text, fallback } => VerdictView::Diagnose {
                text: text@,
                fallback: *fallback,
            },
        }
    }
}

/// A status code counts as success when it lies in the two hundreds.
pub open spec fn spec_is_success_status(status: u32) -> bool {
    200 <= status <= 299
}

/// The character for a single decimal digit.
pub open spec fn digit_char(d: nat) -> char
    recommends
        d < 10,
{
    if d == 0 {
        '0'
    } else if d == 1 {
        '1'
    } else if d == 2 {
        '2'
    } else if d == 3 {
        '3'
    } else if d == 4 {
        '4'
    } else if d == 5 {
        '5'
    } else if d == 6 {
        '6'
    } else if d == 7 {
        '7'
    } else if d == 8 {
        '8'
    } else {
        '9'
    }
}

/// A number written in decimal, without sign, padding or leading zeros.
pub open spec fn spec_decimal(n: nat) -> Seq<char>
    decreases n,
{
    if n < 10 {
        seq![digit_char(n)]
    } else {
        spec_decimal(n / 10).push(digit_char(n % 10))
    }
}

/// The digit that a character stands for; 0 for any other character.
pub open spec fn digit_value(c: char) -> nat {
    if c == '1' {
        1
    } else if c == '2' {
        2
    } else if c == '3' {
        3
    } else if c == '4' {
        4
    } else if c == '5' {
        5
    } else if c == '6' {
        6
    } else if c == '7' {
        7
    } else if c == '8' {
        8
    } else if c == '9' {
        9
    } else {
        0
    }
}

/// The number that a row of decimal digits stands for.
pub open spec fn decimal_value(digits: Seq<char>) -> nat
    decreases digits.len(),
{
    if digits.len() == 0 {
        0
    } else {
        decimal_value(digits.drop_last()) * 10 + digit_value(digits.last())
    }
}

/// Start of the message shown when the status of a transfer cannot be read.
pub const NO_STATUS_PREFIX: &'static str = "can't perform discord webhook: ";

/// Start of the message shown when the endpoint turns the notification down.
pub const REJECTED_PREFIX: &'static str = "can't send message to discord: got status code ";

/// What follows from each outcome of a transfer.
pub open spec fn spec_judge(outcome: TransferOutcome) -> VerdictView {
    match outcome {
        TransferOutcome::SetupFailed => VerdictView::Settled(Err(PamResultCode::PAM_SYSTEM_ERR)),
        TransferOutcome::TransportFailed => VerdictView::Settled(Err(PamResultCode::PAM_IGNORE)),
        TransferOutcome::StatusUnavailable(reason) => VerdictView::Diagnose {
            text: NO_STATUS_PREFIX@ + reason@,
            fallback: PamResultCode::PAM_SYSTEM_ERR,
        },
        TransferOutcome::Status(status) => if spec_is_success_status(status) {
            VerdictView::Settled(Ok(()))
        } else {
            VerdictView::Diagnose {
                text: REJECTED_PREFIX@ + spec_decimal(status as nat),
                fallback: PamResultCode::PAM_IGNORE,
            }
        },
    }
}

/// Tells whether a status code reports success: any code from 200 to 299,
/// which is to say any code whose hundreds are 2.
pub fn is_success_status(status: u32) -> (success: bool)
    ensures
        success == spec_is_success_status(status),
{
    status / 100 == 2
}

fn digit_text(d: u32) -> (text: &'static str)
    requires
        d < 10,
    ensures
        text@ == seq![digit_char(d as nat)],
{
    proof {
        reveal_strlit("0");
        reveal_strlit("1");
        reveal_strlit("2");
        reveal_strlit("3");
        reveal_strlit("4");
        reveal_strlit("5");
        reveal_strlit("6");
        reveal_strlit("7");
        reveal_strlit("8");
        reveal_strlit("9");
    }
    match d {
        0 => "0",
        1 => "1",
        2 => "2",
        3 => "3",
        4 => "4",
        5 => "5",
        6 => "6",
        7 => "7",
        8 => "8",
        _ => "9",
    }
}

/// Writes a number in decimal.
pub fn decimal(n: u32) -> (text: String)
    ensures
        text@ == spec_decimal(n as nat),
    decreases n,
{
    if n < 10 {
        String::from_str(digit_text(n))
    } else {
        decimal(n / 10).concat(digit_text(n % 10))
    }
}

/// A number in decimal is made of digits only.
pub proof fn decimal_is_digits(n: nat)
    ensures
        spec_decimal(n).len() >= 1,
        forall|i: int|
            0 <= i < spec_decimal(n).len() ==> '0' <= #[trigger] spec_decimal(n)[i] <= '9',
    decreases n,
{
    if n >= 10 {
        decimal_is_digits(n / 10);
    }
}

/// Reading a number back from its decimal form gives the number, and the
/// form of a number of two digits or more does not start with a zero.
pub proof fn decimal_reads_back(n: nat)
    ensures
        decimal_value(spec_decimal(n)) == n,
        n >= 10 ==> spec_decimal(n)[0] != '0',
    decreases n,
{
    if n < 10 {
        assert(spec_decimal(n).drop_last() =~= Seq::<char>::empty());
        assert(decimal_value(spec_decimal(n).drop_last()) == 0);
    } else {
        decimal_reads_back(n / 10);
        decimal_is_digits(n / 10);
        assert(spec_decimal(n).drop_last() =~= spec_decimal(n / 10));
    }
}

/// The message about a refused notification is the fixed opening followed
/// by the status code, and holds no NUL character.
pub proof fn rejection_text_is_clean(status: u32)
    ensures
        !(REJECTED_PREFIX@ + spec_decimal(status as nat)).contains('\0'),
{
    reveal_strlit("can't send message to discord: got status code ");
    decimal_is_digits(status as nat);
    let text = REJECTED_PREFIX@ + spec_decimal(status as nat);
    assert forall|i: int| 0 <= i < text.len() implies text[i] != '\0' by {
        if i >= REJECTED_PREFIX@.len() {
            assert(text[i] == spec_decimal(status as nat)[i - REJECTED_PREFIX@.len()]);
        }
    }
}

/// Decides what a transfer outcome means. A status in the 2xx range is the
/// only success. A failed transfer is passed over in silence, since an
/// unreachable endpoint must not stand in the way of a login; an endpoint
/// that refuses, or a status that cannot be read, is reported to the user.
pub fn judge(outcome: TransferOutcome) -> (verdict: Verdict)
    ensures
        verdict@ == spec_judge(outcome),
{
    match outcome {
        TransferOutcome::SetupFailed => Verdict::Settled(Err(PamResultCode::PAM_SYSTEM_ERR)),
        TransferOutcome::TransportFailed => Verdict::Settled(Err(PamResultCode::PAM_IGNORE)),
        TransferOutcome::StatusUnavailable(reason) => {
            let text = String::from_str(NO_STATUS_PREFIX).concat(reason.as_str());
            Verdict::Diagnose { text, fallback: PamResultCode::PAM_SYSTEM_ERR }
        },
        TransferOutcome::Status(status) => {
            if is_success_status(status) {
                Verdict::Settled(Ok(()))
            } else {
                let text = String::from_str(REJECTED_PREFIX).concat(decimal(status).as_str());
                Verdict::Diagnose { text, fallback: PamResultCode::PAM_IGNORE }
            }
        },
    }
}

} // verus!
