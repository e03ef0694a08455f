use vstd::prelude::*;
use vstd::string::StringExecFns;

use crate::client::{decimal_digits, decimal_string};

verus! {

/// The ways an operation of this library, or of the code that drives it, fails.
#[derive(Debug, Clone)]
pub enum XepherError {
    /// The address of the score page could not be formed.
    RequestBuild,
    /// The transport failed before a response arrived.
    Transport(String),
    /// The service answered with a status outside the success range.
    Fetch { user_id: u64, status: u16 },
    /// The response body does not have the expected shape.
    Decode(String),
    /// A song metadata source could not be read.
    SourceRead(String),
    /// A song metadata source does not hold a song catalog.
    SourceFormat(String),
}

/// The message that describes an error.
pub open spec fn error_message(e: XepherError) -> Seq<char> {
    match e {
        XepherError::RequestBuild => "malformed score page address"@,
        XepherError::Transport(m) => m@,
        XepherError::Fetch { user_id, .. } => "fail fetching result for user "@ + decimal_digits(
            user_id as nat,
        ),
        XepherError::Decode(m) => m@,
        XepherError::SourceRead(path) => "fail to read song db from: "@ + path@,
        XepherError::SourceFormat(path) => path@
            + " doesn't contain the correct format of an IIDX song DB"@,
    }
}

impl XepherError {
    /// The message that describes this error.
    pub fn message(&self) -> (r: String)
        ensures
            r@ == error_message(*self),
    {
        match self {
            XepherError::RequestBuild => String::from_str("malformed score page address"),
            XepherError::Transport(m) => m.clone(),
            XepherError::Fetch { user_id, .. } => {
                let s = String::from_str("fail fetching result for user ");
                let id = decimal_string(*user_id);
                s.concat(id.as_str())
            },
            XepherError::Decode(m) => m.clone(),
            XepherError::SourceRead(path) => {
                let s = String::from_str("fail to read song db from: ");
                s.concat(path.as_str())
            },
            XepherError::SourceFormat(path) => {
                let s = path.clone();
                s.concat(" doesn't contain the correct format of an IIDX song DB")
            },
        }
    }
}

} // verus!
