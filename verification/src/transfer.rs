//! Carrying a request to libcurl and reading back how the transfer went. The
//! transfer itself is run by the caller, between the two functions here.

use crate::conversation::has_terminator;
use crate::relay::{spec_request, OutboundRequest, TransferOutcome, AGENT_HEADER, CONTENT_FIELD};
use curl::easy::{Easy, Form, List};
use vstd::prelude::*;
use vstd::string::*;
use vstd::utf8::*;

verus! {

/// `curl::easy::Easy`, a libcurl handle for one transfer.
#[verifier::external_type_specification]
#[verifier::external_body]
pub struct ExEasy(curl::easy::Easy);

/// `curl::easy::List`, a list of header lines.
#[verifier::external_type_specification]
#[verifier::external_body]
pub struct ExList(curl::easy::List);

/// `curl::easy::Form`, the parts of a multipart form.
#[verifier::external_type_specification]
#[verifier::external_body]
pub struct ExForm(curl::easy::Form);

/// `curl::Error`, the error of an operation on a handle.
#[verifier::external_type_specification]
#[verifier::external_body]
pub struct ExError(curl::Error);

/// `curl::FormError`, the error of adding a part to a form.
#[verifier::external_type_specification]
#[verifier::external_body]
pub struct ExFormError(curl::FormError);

/// The lines that a `curl::easy::List` holds, in the order they were
/// appended: the chain of strings behind the list.
pub uninterp spec fn list_lines(list: List) -> Seq<Seq<char>>;

/// The parts that a `curl::easy::Form` holds, in the order they were added,
/// each as its name and the bytes of its contents: the chain of parts
/// behind the form.
pub uninterp spec fn form_parts(form: Form) -> Seq<(Seq<char>, Seq<u8>)>;

/// The address that a `curl::easy::Easy` was last given with `Easy::url`,
/// `None` where it was given none.
pub uninterp spec fn easy_address(easy: Easy) -> Option<Seq<char>>;

/// The header lines that a `curl::easy::Easy` adds to its request: those of
/// the list it was last given with `Easy::http_headers`.
pub uninterp spec fn easy_header_lines(easy: Easy) -> Seq<Seq<char>>;

/// The parts of the multipart form that a `curl::easy::Easy` posts: those
/// of the form it was last given with `Easy::httppost`.
pub uninterp spec fn easy_form_parts(easy: Easy) -> Seq<(Seq<char>, Seq<u8>)>;

/// `Easy::new` makes a fresh handle. Nothing is claimed of it.
pub assume_specification[ curl::easy::Easy::new ]() -> (easy: Easy);

/// `Easy::url` sets the address to contact. It turns the address into a C
/// string first, so an address that holds a NUL character is refused; it
/// may fail for other reasons too. Where it succeeds the handle has that
/// address, and its header lines and form are as before.
pub assume_specification[ curl::easy::Easy::url ](easy: &mut Easy, url: &str) -> (set: Result<
    (),
    curl::Error,
>)
    ensures
        url@.contains('\0') ==> set is Err,
        set is Ok ==> easy_address(*final(easy)) == Some(url@),
        set is Ok ==> easy_header_lines(*final(easy)) == easy_header_lines(*old(easy)),
        set is Ok ==> easy_form_parts(*final(easy)) == easy_form_parts(*old(easy)),
;

/// `List::new` makes a list without lines.
pub assume_specification[ curl::easy::List::new ]() -> (list: List)
    ensures
        list_lines(list) == Seq::<Seq<char>>::empty(),
;

/// `List::append` adds a line at the end of the list. It turns the line
/// into a C string first, and fails exactly when the line holds a NUL
/// character; the list is then as before.
pub assume_specification[ curl::easy::List::append ](list: &mut List, data: &str) -> (added:
    Result<(), curl::Error>)
    ensures
        added is Err <==> data@.contains('\0'),
        added is Ok ==> list_lines(*final(list)) == list_lines(*old(list)).push(data@),
        added is Err ==> list_lines(*final(list)) == list_lines(*old(list)),
;

/// `Easy::http_headers` hands the list to the handle, which keeps it and
/// adds its lines to the request. Where it succeeds the handle's header
/// lines are those of the list, and its address and form are as before.
pub assume_specification[ curl::easy::Easy::http_headers ](easy: &mut Easy, list: List) -> (set:
    Result<(), curl::Error>)
    ensures
        set is Ok ==> easy_header_lines(*final(easy)) == list_lines(list),
        set is Ok ==> easy_address(*final(easy)) == easy_address(*old(easy)),
        set is Ok ==> easy_form_parts(*final(easy)) == easy_form_parts(*old(easy)),
;

/// `Form::new` makes a form without parts.
pub assume_specification[ curl::easy::Form::new ]() -> (form: Form)
    ensures
        form_parts(form) == Seq::<(Seq<char>, Seq<u8>)>::empty(),
;

/// `Easy::httppost` hands the form to the handle, which keeps it and makes
/// the request a multipart POST of it. Where it succeeds the handle's form
/// parts are those of the form, and its address and header lines are as
/// before.
pub assume_specification[ curl::easy::Easy::httppost ](easy: &mut Easy, form: Form) -> (set:
    Result<(), curl::Error>)
    ensures
        set is Ok ==> easy_form_parts(*final(easy)) == form_parts(form),
        set is Ok ==> easy_address(*final(easy)) == easy_address(*old(easy)),
        set is Ok ==> easy_header_lines(*final(easy)) == easy_header_lines(*old(easy)),
;

/// `Easy::response_code` reads the status code of the last response.
/// Nothing is claimed of the result.
pub assume_specification[ curl::easy::Easy::response_code ](easy: &Easy) -> (status: Result<
    u32,
    curl::Error,
>);

/// Adds one part with the given name and contents at the end of the form,
/// through `Form::part`, `Part::contents` and `Part::add`. The name goes to
/// libcurl as a pointer and a length, and libcurl takes a length of zero to
/// mean that it must measure the name itself; so the name may not be empty.
/// Whether the part is added is left to libcurl; where it is, the form
/// holds a copy of the name and of the contents after its earlier parts.
#[verifier::external_body]
fn add_part(form: &mut Form, name: &str, contents: &[u8]) -> (added: Result<(), curl::FormError>)
    requires
        name@.len() > 0,
    ensures
        added is Ok ==> form_parts(*final(form)) == form_parts(*old(form)).push(
            (name@, contents@),
        ),
{
    form.part(name).contents(contents).add()
}

/// Writes a `curl::Error` out as text, through its `Display` impl and
/// `ToString::to_string`. The text is the error's own; nothing is claimed
/// of its wording.
#[verifier::external_body]
fn error_text(why: &curl::Error) -> (text: String)
    ensures
        to_string_from_display_ensures::<curl::Error>(why, text),
{
    why.to_string()
}

/// What a handle carries once it is set up for `request`: the address, the
/// one header line, and a form whose single part has the field's name and
/// the bytes of the message.
pub open spec fn carries(easy: Easy, request: OutboundRequest) -> bool {
    &&& easy_address(easy) == Some(request.url@)
    &&& easy_header_lines(easy) == seq![request.header@]
    &&& easy_form_parts(easy) == seq![(request.field@, encode_utf8(request.content@))]
}

/// A handle that carries a request made by `OutboundRequest::new` goes to
/// the endpoint with the module's agent line as its one header, and posts a
/// form of one part, named `content`, that holds the message byte for byte.
pub proof fn carried_notification(
    easy: Easy,
    request: OutboundRequest,
    endpoint: Seq<char>,
    message: Seq<char>,
)
    requires
        carries(easy, request),
        request@ == spec_request(endpoint, message),
    ensures
        easy_address(easy) == Some(endpoint),
        easy_header_lines(easy) == seq![AGENT_HEADER@],
        easy_form_parts(easy) == seq![(CONTENT_FIELD@, encode_utf8(message))],
{
}

/// Sets up the transfer that posts `request`: a fresh handle with the
/// address, the header line and a form whose single field holds the
/// message. A request without a field name is turned down before libcurl
/// is touched. Once the handle exists, every step that libcurl refuses ends
/// in `SetupFailed`, and it always refuses an address or a header line with
/// a NUL character. The handle that comes back carries the request and
/// nothing else of it, and has not contacted anyone yet.
pub fn discord_webhook(request: &OutboundRequest) -> (ready: Result<Easy, TransferOutcome>)
    ensures
        ready matches Ok(easy) ==> carries(easy, *request),
        ready matches Err(outcome) ==> outcome == TransferOutcome::SetupFailed,
        request.field@.len() == 0 ==> ready is Err,
        has_terminator(request.url@) || has_terminator(request.header@) ==> ready is Err,
{
    if request.field.as_str().is_empty() {
        return Err(TransferOutcome::SetupFailed);
    }
    let mut easy = Easy::new();
    if easy.url(request.url.as_str()).is_err() {
        return Err(TransferOutcome::SetupFailed);
    }
    let mut headers = List::new();
    if headers.append(request.header.as_str()).is_err() {
        return Err(TransferOutcome::SetupFailed);
    }
    if easy.http_headers(headers).is_err() {
        return Err(TransferOutcome::SetupFailed);
    }
    let mut form = Form::new();
    if add_part(&mut form, request.field.as_str(), request.content.as_str().as_bytes()).is_err() {
        return Err(TransferOutcome::SetupFailed);
    }
    if easy.httppost(form).is_err() {
        return Err(TransferOutcome::SetupFailed);
    }
    Ok(easy)
}

/// The outcome of a transfer that went through, from what reading its
/// status gave: the status code, or else the text of the error as the reason
/// why there is none.
pub fn status_outcome(read: Result<u32, curl::Error>) -> (outcome: TransferOutcome)
    ensures
        read matches Ok(status) ==> outcome == TransferOutcome::Status(status),
        read matches Err(why) ==> outcome matches TransferOutcome::StatusUnavailable(reason)
            && to_string_from_display_ensures::<curl::Error>(&why, reason),
{
    match read {
        Ok(status) => TransferOutcome::Status(status),
        Err(why) => TransferOutcome::StatusUnavailable(error_text(&why)),
    }
}

/// Reads how a transfer ended. `performed` tells whether running the
/// transfer on `easy` succeeded: where it did not, the transport failed and
/// the handle is not consulted; where it did, the outcome is what
/// `status_outcome` makes of the status read from the handle.
pub fn transfer_outcome(easy: &Easy, performed: bool) -> (outcome: TransferOutcome)
    ensures
        !performed ==> outcome == TransferOutcome::TransportFailed,
        performed ==> outcome is Status || outcome is StatusUnavailable,
{
    if !performed {
        return TransferOutcome::TransportFailed;
    }
    status_outcome(easy.response_code())
}

} // verus!
