//! The balance endpoint's answer as the segment reads it, and the ways a fetch can fail.
use vstd::prelude::*;
use crate::text::{decimal_text, u16_text};

verus! {

/// One entry of the endpoint's `balance_infos` list; only its total is read.
#[derive(Debug)]
pub struct BalanceInfo {
    pub total_balance: String,
}

/// The fields of the endpoint's answer that the segment reads.
#[derive(Debug)]
pub struct BalanceResponse {
    pub balance_infos: Vec<BalanceInfo>,
}

impl BalanceResponse {
    /// The total of the first listed balance, as text; none when the list is empty.
    pub fn first_total_balance(&self) -> (total: Option<&str>)
        ensures
            match total {
                Some(t) => self.balance_infos@.len() > 0 && t@
                    == self.balance_infos@[0].total_balance@,
                None => self.balance_infos@.len() == 0,
            },
    {
        if self.balance_infos.len() == 0 {
            None
        } else {
            Some(self.balance_infos[0].total_balance.as_str())
        }
    }
}

/// Why a balance could not be fetched.
#[derive(Debug)]
pub enum FetchError {
    /// The request failed before an answer came back; the transport's own message.
    Transport(String),
    /// The endpoint answered with a status other than 200.
    Status(u16),
    /// The answer did not hold a readable balance.
    InvalidBody,
}

/// The only status that carries a balance.
pub const STATUS_OK: u16 = 200;

/// A status of 200 lets the body be read; any other status is an error naming it.
pub fn check_status(status: u16) -> (checked: Result<(), FetchError>)
    ensures
        checked == (if status == STATUS_OK {
            Ok::<(), FetchError>(())
        } else {
            Err(FetchError::Status(status))
        }),
{
    if status == STATUS_OK {
        Ok(())
    } else {
        Err(FetchError::Status(status))
    }
}

impl FetchError {
    /// The text that reports the error.
    pub open spec fn text(self) -> Seq<char> {
        match self {
            FetchError::Transport(message) => message@,
            FetchError::Status(status) => seq!['H', 'T', 'T', 'P', ' '] + decimal_text(
                status as nat,
            ),
            FetchError::InvalidBody => "invalid balance response"@,
        }
    }

    /// The text that reports the error: the transport's message, `HTTP <status>`, or
    /// `invalid balance response`.
    pub fn message(&self) -> (message: String)
        ensures
            message@ == self.text(),
    {
        match self {
            FetchError::Transport(message) => message.clone(),
            FetchError::Status(status) => {
                let prefix = "HTTP ";
                proof {
                    reveal_strlit("HTTP ");
                }
                let code = u16_text(*status);
                String::from_str(prefix).concat(code.as_str())
            },
            FetchError::InvalidBody => String::from_str("invalid balance response"),
        }
    }
}

} // verus!
