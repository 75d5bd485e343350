//! Core of a login-notification module for a pluggable authentication
//! framework. The module abstains from every access decision; when a session
//! opens it tells a webhook who logged in and from where.
//!
//! The hooks never call the host and never touch the network. They say what
//! they need next, the caller obtains it, and the answer is handed back. The
//! webhook transfer is set up here, with libcurl, and run by the caller.

pub mod attribute;
pub mod codes;
pub mod conversation;
pub mod relay;
pub mod session;
pub mod transfer;

pub use crate::attribute::{decode, get_item, get_rhost, get_user, normalize_rhost};
pub use crate::codes::{MessageStyle, PamFlags, PamItemType, PamResult, PamResultCode, PAM_SILENT};
pub use crate::conversation::{info, prompt_outcome, Prompt};
pub use crate::relay::{
    decimal, is_success_status, judge, login_message, OutboundRequest, TransferOutcome, Verdict,
};
pub use crate::session::{
    hook_code, pam_sm_acct_mgmt, pam_sm_authenticate, pam_sm_chauthtok, pam_sm_close_session,
    pam_sm_open_session, pam_sm_setcred, Action, Event, SessionOpen,
};
pub use crate::transfer::{discord_webhook, status_outcome, transfer_outcome};
