//! The vocabulary shared with the host framework: result codes, item types
//! and message styles, each with the number the host knows it by.

use vstd::prelude::*;

verus! {

/// Flag word handed to every hook by the host.
pub type PamFlags = u32;

/// What a fallible operation of this module yields.
pub type PamResult<T> = Result<T, PamResultCode>;

/// Set in the flag word when the host wants no message emitted.
pub const PAM_SILENT: PamFlags = 0x8000;

/// A result with the value it carries, if any, taken by its view.
pub open spec fn result_view<T: View>(result: PamResult<T>) -> PamResult<T::V> {
    match result {
        Ok(value) => Ok(value@),
        Err(code) => Err(code),
    }
}

/// The result codes a module can hand back to the host.
#[allow(non_camel_case_types)]
#[derive(Debug, Clone, Copy, PartialEq, Eq, Structural)]
pub enum PamResultCode {
    PAM_SUCCESS,
    PAM_OPEN_ERR,
    PAM_SYMBOL_ERR,
    PAM_SERVICE_ERR,
    PAM_SYSTEM_ERR,
    PAM_BUF_ERR,
    PAM_PERM_DENIED,
    PAM_AUTH_ERR,
    PAM_CRED_INSUFFICIENT,
    PAM_AUTHINFO_UNAVAIL,
    PAM_USER_UNKNOWN,
    PAM_MAXTRIES,
    PAM_NEW_AUTHTOK_REQD,
    PAM_ACCT_EXPIRED,
    PAM_SESSION_ERR,
    PAM_CRED_UNAVAIL,
    PAM_CRED_EXPIRED,
    PAM_CRED_ERR,
    PAM_NO_MODULE_DATA,
    PAM_CONV_ERR,
    PAM_AUTHTOK_ERR,
    PAM_AUTHTOK_RECOVERY_ERR,
    PAM_AUTHTOK_LOCK_BUSY,
    PAM_AUTHTOK_DISABLE_AGING,
    PAM_TRY_AGAIN,
    PAM_IGNORE,
    PAM_ABORT,
    PAM_AUTHTOK_EXPIRED,
    PAM_MODULE_UNKNOWN,
    PAM_BAD_ITEM,
    PAM_CONV_AGAIN,
    PAM_INCOMPLETE,
}

impl PamResultCode {
    /// The number the host uses for this code.
    pub open spec fn spec_code(self) -> int {
        match self {
            PamResultCode::PAM_SUCCESS => 0,
            PamResultCode::PAM_OPEN_ERR => 1,
            PamResultCode::PAM_SYMBOL_ERR => 2,
            PamResultCode::PAM_SERVICE_ERR => 3,
            PamResultCode::PAM_SYSTEM_ERR => 4,
            PamResultCode::PAM_BUF_ERR => 5,
            PamResultCode::PAM_PERM_DENIED => 6,
            PamResultCode::PAM_AUTH_ERR => 7,
            PamResultCode::PAM_CRED_INSUFFICIENT => 8,
            PamResultCode::PAM_AUTHINFO_UNAVAIL => 9,
            PamResultCode::PAM_USER_UNKNOWN => 10,
            PamResultCode::PAM_MAXTRIES => 11,
            PamResultCode::PAM_NEW_AUTHTOK_REQD => 12,
            PamResultCode::PAM_ACCT_EXPIRED => 13,
            PamResultCode::PAM_SESSION_ERR => 14,
            PamResultCode::PAM_CRED_UNAVAIL => 15,
            PamResultCode::PAM_CRED_EXPIRED => 16,
            PamResultCode::PAM_CRED_ERR => 17,
            PamResultCode::PAM_NO_MODULE_DATA => 18,
            PamResultCode::PAM_CONV_ERR => 19,
            PamResultCode::PAM_AUTHTOK_ERR => 20,
            PamResultCode::PAM_AUTHTOK_RECOVERY_ERR => 21,
            PamResultCode::PAM_AUTHTOK_LOCK_BUSY => 22,
            PamResultCode::PAM_AUTHTOK_DISABLE_AGING => 23,
            PamResultCode::PAM_TRY_AGAIN => 24,
            PamResultCode::PAM_IGNORE => 25,
            PamResultCode::PAM_ABORT => 26,
            PamResultCode::PAM_AUTHTOK_EXPIRED => 27,
            PamResultCode::PAM_MODULE_UNKNOWN => 28,
            PamResultCode::PAM_BAD_ITEM => 29,
            PamResultCode::PAM_CONV_AGAIN => 30,
            PamResultCode::PAM_INCOMPLETE => 31,
        }
    }

    /// The code that bears a given number, if one does.
    pub open spec fn spec_from_code(raw: int) -> Option<PamResultCode> {
        if raw == 0 {
            Some(PamResultCode::PAM_SUCCESS)
        } else if raw == 1 {
            Some(PamResultCode::PAM_OPEN_ERR)
        } else if raw == 2 {
            Some(PamResultCode::PAM_SYMBOL_ERR)
        } else if raw == 3 {
            Some(PamResultCode::PAM_SERVICE_ERR)
        } else if raw == 4 {
            Some(PamResultCode::PAM_SYSTEM_ERR)
        } else if raw == 5 {
            Some(PamResultCode::PAM_BUF_ERR)
        } else if raw == 6 {
            Some(PamResultCode::PAM_PERM_DENIED)
        } else if raw == 7 {
            Some(PamResultCode::PAM_AUTH_ERR)
        } else if raw == 8 {
            Some(PamResultCode::PAM_CRED_INSUFFICIENT)
        } else if raw == 9 {
            Some(PamResultCode::PAM_AUTHINFO_UNAVAIL)
        } else if raw == 10 {
            Some(PamResultCode::PAM_USER_UNKNOWN)
        } else if raw == 11 {
            Some(PamResultCode::PAM_MAXTRIES)
        } else if raw == 12 {
            Some(PamResultCode::PAM_NEW_AUTHTOK_REQD)
        } else if raw == 13 {
            Some(PamResultCode::PAM_ACCT_EXPIRED)
        } else if raw == 14 {
            Some(PamResultCode::PAM_SESSION_ERR)
        } else if raw == 15 {
            Some(PamResultCode::PAM_CRED_UNAVAIL)
        } else if raw == 16 {
            Some(PamResultCode::PAM_CRED_EXPIRED)
        } else if raw == 17 {
            Some(PamResultCode::PAM_CRED_ERR)
        } else if raw == 18 {
            Some(PamResultCode::PAM_NO_MODULE_DATA)
        } else if raw == 19 {
            Some(PamResultCode::PAM_CONV_ERR)
        } else if raw == 20 {
            Some(PamResultCode::PAM_AUTHTOK_ERR)
        } else if raw == 21 {
            Some(PamResultCode::PAM_AUTHTOK_RECOVERY_ERR)
        } else if raw == 22 {
            Some(PamResultCode::PAM_AUTHTOK_LOCK_BUSY)
        } else if raw == 23 {
            Some(PamResultCode::PAM_AUTHTOK_DISABLE_AGING)
        } else if raw == 24 {
            Some(PamResultCode::PAM_TRY_AGAIN)
        } else if raw == 25 {
            Some(PamResultCode::PAM_IGNORE)
        } else if raw == 26 {
            Some(PamResultCode::PAM_ABORT)
        } else if raw == 27 {
            Some(PamResultCode::PAM_AUTHTOK_EXPIRED)
        } else if raw == 28 {
            Some(PamResultCode::PAM_MODULE_UNKNOWN)
        } else if raw == 29 {
            Some(PamResultCode::PAM_BAD_ITEM)
        } else if raw == 30 {
            Some(PamResultCode::PAM_CONV_AGAIN)
        } else if raw == 31 {
            Some(PamResultCode::PAM_INCOMPLETE)
        } else {
            None
        }
    }

    /// What a number coming from the host stands for: a number outside the
    /// vocabulary counts as `PAM_SYSTEM_ERR`.
    pub open spec fn spec_from_host(raw: int) -> PamResultCode {
        match Self::spec_from_code(raw) {
            Some(code) => code,
            None => PamResultCode::PAM_SYSTEM_ERR,
        }
    }

    /// The number to hand to the host for this code.
    pub fn code(self) -> (raw: i32)
        ensures
            raw == self.spec_code(),
            0 <= raw <= 31,
    {
        match self {
            PamResultCode::PAM_SUCCESS => 0,
            PamResultCode::PAM_OPEN_ERR => 1,
            PamResultCode::PAM_SYMBOL_ERR => 2,
            PamResultCode::PAM_SERVICE_ERR => 3,
            PamResultCode::PAM_SYSTEM_ERR => 4,
            PamResultCode::PAM_BUF_ERR => 5,
            PamResultCode::PAM_PERM_DENIED => 6,
            PamResultCode::PAM_AUTH_ERR => 7,
            PamResultCode::PAM_CRED_INSUFFICIENT => 8,
            PamResultCode::PAM_AUTHINFO_UNAVAIL => 9,
            PamResultCode::PAM_USER_UNKNOWN => 10,
            PamResultCode::PAM_MAXTRIES => 11,
            PamResultCode::PAM_NEW_AUTHTOK_REQD => 12,
            PamResultCode::PAM_ACCT_EXPIRED => 13,
            PamResultCode::PAM_SESSION_ERR => 14,
            PamResultCode::PAM_CRED_UNAVAIL => 15,
            PamResultCode::PAM_CRED_EXPIRED => 16,
            PamResultCode::PAM_CRED_ERR => 17,
            PamResultCode::PAM_NO_MODULE_DATA => 18,
            PamResultCode::PAM_CONV_ERR => 19,
            PamResultCode::PAM_AUTHTOK_ERR => 20,
            PamResultCode::PAM_AUTHTOK_RECOVERY_ERR => 21,
            PamResultCode::PAM_AUTHTOK_LOCK_BUSY => 22,
            PamResultCode::PAM_AUTHTOK_DISABLE_AGING => 23,
            PamResultCode::PAM_TRY_AGAIN => 24,
            PamResultCode::PAM_IGNORE => 25,
            PamResultCode::PAM_ABORT => 26,
            PamResultCode::PAM_AUTHTOK_EXPIRED => 27,
            PamResultCode::PAM_MODULE_UNKNOWN => 28,
            PamResultCode::PAM_BAD_ITEM => 29,
            PamResultCode::PAM_CONV_AGAIN => 30,
            PamResultCode::PAM_INCOMPLETE => 31,
        }
    }

    /// Looks up the code that bears `raw`.
    pub fn from_code(raw: i32) -> (found: Option<PamResultCode>)
        ensures
            found == Self::spec_from_code(raw as int),
    {
        match raw {
            0 => Some(PamResultCode::PAM_SUCCESS),
            1 => Some(PamResultCode::PAM_OPEN_ERR),
            2 => Some(PamResultCode::PAM_SYMBOL_ERR),
            3 => Some(PamResultCode::PAM_SERVICE_ERR),
            4 => Some(PamResultCode::PAM_SYSTEM_ERR),
            5 => Some(PamResultCode::PAM_BUF_ERR),
            6 => Some(PamResultCode::PAM_PERM_DENIED),
            7 => Some(PamResultCode::PAM_AUTH_ERR),
            8 => Some(PamResultCode::PAM_CRED_INSUFFICIENT),
            9 => Some(PamResultCode::PAM_AUTHINFO_UNAVAIL),
            10 => Some(PamResultCode::PAM_USER_UNKNOWN),
            11 => Some(PamResultCode::PAM_MAXTRIES),
            12 => Some(PamResultCode::PAM_NEW_AUTHTOK_REQD),
            13 => Some(PamResultCode::PAM_ACCT_EXPIRED),
            14 => Some(PamResultCode::PAM_SESSION_ERR),
            15 => Some(PamResultCode::PAM_CRED_UNAVAIL),
            16 => Some(PamResultCode::PAM_CRED_EXPIRED),
            17 => Some(PamResultCode::PAM_CRED_ERR),
            18 => Some(PamResultCode::PAM_NO_MODULE_DATA),
            19 => Some(PamResultCode::PAM_CONV_ERR),
            20 => Some(PamResultCode::PAM_AUTHTOK_ERR),
            21 => Some(PamResultCode::PAM_AUTHTOK_RECOVERY_ERR),
            22 => Some(PamResultCode::PAM_AUTHTOK_LOCK_BUSY),
            23 => Some(PamResultCode::PAM_AUTHTOK_DISABLE_AGING),
            24 => Some(PamResultCode::PAM_TRY_AGAIN),
            25 => Some(PamResultCode::PAM_IGNORE),
            26 => Some(PamResultCode::PAM_ABORT),
            27 => Some(PamResultCode::PAM_AUTHTOK_EXPIRED),
            28 => Some(PamResultCode::PAM_MODULE_UNKNOWN),
            29 => Some(PamResultCode::PAM_BAD_ITEM),
            30 => Some(PamResultCode::PAM_CONV_AGAIN),
            31 => Some(PamResultCode::PAM_INCOMPLETE),
            _ => None,
        }
    }

    /// Reads a number that the host returned. The host is not trusted to
    /// stay within the vocabulary: any other number is a system error.
    pub fn from_host(raw: i32) -> (code: PamResultCode)
        ensures
            code == Self::spec_from_host(raw as int),
    {
        match Self::from_code(raw) {
            Some(code) => code,
            None => PamResultCode::PAM_SYSTEM_ERR,
        }
    }

    /// Two codes with the same number are the same code.
    pub proof fn code_is_injective(a: PamResultCode, b: PamResultCode)
        requires
            a.spec_code() == b.spec_code(),
        ensures
            a == b,
    {
    }

    /// Every code is found again under its own number.
    pub proof fn from_code_inverts_code(c: PamResultCode)
        ensures
            Self::spec_from_code(c.spec_code()) == Some(c),
            Self::spec_from_host(c.spec_code()) == c,
    {
    }

    /// A number names a code exactly when it lies between 0 and 31, and the
    /// code it names bears that number.
    pub proof fn from_code_domain(raw: int)
        ensures
            Self::spec_from_code(raw) is Some <==> 0 <= raw <= 31,
            Self::spec_from_code(raw) matches Some(c) ==> c.spec_code() == raw,
    {
    }
}

/// How the host is to present a message to the user.
#[allow(non_camel_case_types)]
#[derive(Debug, Clone, Copy, PartialEq, Eq, Structural)]
pub enum MessageStyle {
    PAM_PROMPT_ECHO_OFF,
    PAM_PROMPT_ECHO_ON,
    PAM_ERROR_MSG,
    PAM_TEXT_INFO,
}

impl MessageStyle {
    /// The number the host uses for this style.
    pub open spec fn spec_code(self) -> int {
        match self {
            MessageStyle::PAM_PROMPT_ECHO_OFF => 1,
            MessageStyle::PAM_PROMPT_ECHO_ON => 2,
            MessageStyle::PAM_ERROR_MSG => 3,
            MessageStyle::PAM_TEXT_INFO => 4,
        }
    }

    /// The number to hand to the host for this style.
    pub fn code(self) -> (raw: i32)
        ensures
            raw == self.spec_code(),
    {
        match self {
            MessageStyle::PAM_PROMPT_ECHO_OFF => 1,
            MessageStyle::PAM_PROMPT_ECHO_ON => 2,
            MessageStyle::PAM_ERROR_MSG => 3,
            MessageStyle::PAM_TEXT_INFO => 4,
        }
    }
}

/// The attributes of a transaction that the host can be asked for.
#[allow(non_camel_case_types)]
#[derive(Debug, Clone, Copy, PartialEq, Eq, Structural)]
pub enum PamItemType {
    PAM_SERVICE,
    PAM_USER,
    PAM_TTY,
    PAM_RHOST,
    PAM_CONV,
    PAM_AUTHTOK,
    PAM_OLDAUTHTOK,
    PAM_RUSER,
    PAM_USER_PROMPT,
    PAM_FAIL_DELAY,
    PAM_XDISPLAY,
    PAM_XAUTHDATA,
    PAM_AUTHTOK_TYPE,
}

impl PamItemType {
    /// The number the host uses for this item type.
    pub open spec fn spec_code(self) -> int {
        match self {
            PamItemType::PAM_SERVICE => 1,
            PamItemType::PAM_USER => 2,
            PamItemType::PAM_TTY => 3,
            PamItemType::PAM_RHOST => 4,
            PamItemType::PAM_CONV => 5,
            PamItemType::PAM_AUTHTOK => 6,
            PamItemType::PAM_OLDAUTHTOK => 7,
            PamItemType::PAM_RUSER => 8,
            PamItemType::PAM_USER_PROMPT => 9,
            PamItemType::PAM_FAIL_DELAY => 10,
            PamItemType::PAM_XDISPLAY => 11,
            PamItemType::PAM_XAUTHDATA => 12,
            PamItemType::PAM_AUTHTOK_TYPE => 13,
        }
    }

    /// The number to hand to the host for this item type.
    pub fn code(self) -> (raw: i32)
        ensures
            raw == self.spec_code(),
    {
        match self {
            PamItemType::PAM_SERVICE => 1,
            PamItemType::PAM_USER => 2,
            PamItemType::PAM_TTY => 3,
            PamItemType::PAM_RHOST => 4,
            PamItemType::PAM_CONV => 5,
            PamItemType::PAM_AUTHTOK => 6,
            PamItemType::PAM_OLDAUTHTOK => 7,
            PamItemType::PAM_RUSER => 8,
            PamItemType::PAM_USER_PROMPT => 9,
            PamItemType::PAM_FAIL_DELAY => 10,
            PamItemType::PAM_XDISPLAY => 11,
            PamItemType::PAM_XAUTHDATA => 12,
            PamItemType::PAM_AUTHTOK_TYPE => 13,
        }
    }
}

} // verus!
