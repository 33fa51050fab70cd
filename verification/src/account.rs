//! Account handling: voucher codes, the result of submitting one, and the
//! formatting of account time.

use vstd::prelude::*;
use vstd::string::StringExecFns;

use crate::fmt::{push_decimal, spec_decimal_digits};
use crate::text::{alphanumeric, char_is_alphanumeric, push_char};

verus! {

/// Error code a server reply carries for a voucher that does not exist.
pub const INVALID_VOUCHER_CODE: i64 = -400;

/// Error code a server reply carries for a voucher already redeemed.
pub const VOUCHER_USED_ALREADY_CODE: i64 = -401;

/// Error code a server reply carries for an unknown account.
pub const INVALID_ACCOUNT_CODE: i64 = -200;

/// Error code reported when the daemon cannot say anything more exact.
pub const INTERNAL_ERROR_CODE: i64 = -32603;

/// The error code reported to a management client when the API answers
/// an account request with the given HTTP status: unauthorized and
/// forbidden mean the account itself is invalid, anything else is an
/// internal failure.
pub fn map_rest_account_error(http_status: u16) -> (r: i64)
    ensures
        r == if http_status == 401 || http_status == 403 {
            INVALID_ACCOUNT_CODE
        } else {
            INTERNAL_ERROR_CODE
        },
{
    if http_status == 401 || http_status == 403 {
        INVALID_ACCOUNT_CODE
    } else {
        INTERNAL_ERROR_CODE
    }
}

/// Time credited by a redeemed voucher, and the account's new expiry as a
/// Unix timestamp.
#[derive(Clone, Copy, Debug, PartialEq, Eq, Structural)]
pub struct VoucherSubmission {
    pub time_added: u64,
    pub new_expiry_unix: i64,
}

/// Why redeeming a voucher failed.
#[derive(Clone, Copy, Debug, PartialEq, Eq, Structural)]
pub enum VoucherError {
    /// The voucher code does not exist.
    InvalidVoucher,
    /// The voucher has already been redeemed.
    VoucherUsed,
    /// The server could not be reached or answered with another error.
    RpcError,
}

impl VoucherError {
    /// Which error a numeric server error code stands for.
    pub open spec fn spec_from_rpc_error_code(code: i64) -> VoucherError {
        if code == INVALID_VOUCHER_CODE {
            VoucherError::InvalidVoucher
        } else if code == VOUCHER_USED_ALREADY_CODE {
            VoucherError::VoucherUsed
        } else {
            VoucherError::RpcError
        }
    }

    /// Executable mirror of [`Self::spec_from_rpc_error_code`].
    pub fn from_rpc_error_code(code: i64) -> (r: VoucherError)
        ensures
            r == Self::spec_from_rpc_error_code(code),
    {
        if code == INVALID_VOUCHER_CODE {
            VoucherError::InvalidVoucher
        } else if code == VOUCHER_USED_ALREADY_CODE {
            VoucherError::VoucherUsed
        } else {
            VoucherError::RpcError
        }
    }
}

/// A voucher code as it is submitted to the server: every character that
/// is not alphanumeric is stripped, in order.
pub open spec fn spec_normalized_voucher(code: Seq<char>) -> Seq<char>
    decreases code.len(),
{
    if code.len() == 0 {
        Seq::<char>::empty()
    } else {
        let rest = spec_normalized_voucher(code.drop_last());
        if alphanumeric(code.last()) {
            rest.push(code.last())
        } else {
            rest
        }
    }
}

/// Strips every non-alphanumeric character from a voucher code, so that
/// separators and typos in the user's input do not reach the server.
pub fn normalize_voucher(code: &str) -> (r: String)
    ensures
        r@ == spec_normalized_voucher(code@),
{
    let code_len = code.unicode_len();
    let mut out = String::new();
    let mut i: usize = 0;
    while i < code_len
        invariant
            i <= code_len,
            code_len == code@.len(),
            out@ == spec_normalized_voucher(code@.subrange(0, i as int)),
        decreases code_len - i,
    {
        let c = code.get_char(i);
        proof {
            assert(code@.subrange(0, i + 1).drop_last() =~= code@.subrange(0, i as int));
            assert(code@.subrange(0, i + 1).last() == code@[i as int]);
        }
        if char_is_alphanumeric(c) {
            push_char(&mut out, c);
        }
        i = i + 1;
    }
    proof {
        assert(code@.subrange(0, code_len as int) =~= code@);
    }
    out
}

/// How a number of seconds of account time is shown: the largest whole
/// unit among days, hours, minutes and seconds, with its count.
pub open spec fn spec_format_duration(seconds: u64) -> Seq<char> {
    if seconds / 86400 > 0 {
        spec_decimal_digits((seconds / 86400) as nat) + " days"@
    } else if seconds / 3600 > 0 {
        spec_decimal_digits((seconds / 3600) as nat) + " hours"@
    } else if seconds / 60 > 0 {
        spec_decimal_digits((seconds / 60) as nat) + " minutes"@
    } else {
        spec_decimal_digits(seconds as nat) + " seconds"@
    }
}

/// The account command surface; what it can do without talking to a
/// server lives here.
pub struct Account;

impl Account {
    /// Renders a duration in seconds in its largest whole unit.
    pub fn format_duration(seconds: u64) -> (r: String)
        ensures
            r@ == spec_format_duration(seconds),
    {
        let mut s = String::new();
        if seconds / 86400 > 0 {
            push_decimal(&mut s, seconds / 86400);
            s.append(" days");
        } else if seconds / 3600 > 0 {
            push_decimal(&mut s, seconds / 3600);
            s.append(" hours");
        } else if seconds / 60 > 0 {
            push_decimal(&mut s, seconds / 60);
            s.append(" minutes");
        } else {
            push_decimal(&mut s, seconds);
            s.append(" seconds");
        }
        s
    }
}

} // verus!
