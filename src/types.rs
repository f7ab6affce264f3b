//! The state of a stored download, and its code in storage.

use vstd::prelude::*;
use vstd::string::*;

verus! {

/// Where a download stands.
#[derive(Debug, Clone)]
pub enum DownloadStatus {
    Active,
    Paused,
    Completed,
    Error(String),
}

/// The storage code of a status.
pub open spec fn status_code(s: DownloadStatus) -> Seq<char> {
    match s {
        DownloadStatus::Active => "active"@,
        DownloadStatus::Paused => "paused"@,
        DownloadStatus::Completed => "completed"@,
        DownloadStatus::Error(_) => "error"@,
    }
}

impl DownloadStatus {
    /// The code the status is stored under; an error's message is not kept.
    pub fn code(&self) -> (r: &'static str)
        ensures
            r@ == status_code(*self),
    {
        match self {
            DownloadStatus::Active => "active",
            DownloadStatus::Paused => "paused",
            DownloadStatus::Completed => "completed",
            DownloadStatus::Error(_) => "error",
        }
    }

    /// The status a stored code stands for; an unknown code reads as an
    /// error.
    pub fn from_code(code: &str) -> (r: DownloadStatus)
        ensures
            code@ == "active"@ ==> r is Active,
            code@ == "paused"@ ==> r is Paused,
            code@ == "completed"@ ==> r is Completed,
            code@ == "error"@ ==> (r matches DownloadStatus::Error(m) && m@ == "Unknown error"@),
            code@ != "active"@ && code@ != "paused"@ && code@ != "completed"@ && code@ != "error"@
                ==> (r matches DownloadStatus::Error(m) && m@ == "Invalid status"@),
    {
        proof {
            reveal_strlit("active");
            reveal_strlit("paused");
            reveal_strlit("completed");
            reveal_strlit("error");
            assert("paused"@[0] != "active"@[0]);
            assert("completed"@.len() != "active"@.len() && "completed"@.len() != "paused"@.len());
            assert("error"@.len() != "active"@.len() && "error"@.len() != "completed"@.len());
        }
        let c = String::from_str(code);
        if c == String::from_str("active") {
            DownloadStatus::Active
        } else if c == String::from_str("paused") {
            DownloadStatus::Paused
        } else if c == String::from_str("completed") {
            DownloadStatus::Completed
        } else if c == String::from_str("error") {
            DownloadStatus::Error(String::from_str("Unknown error"))
        } else {
            DownloadStatus::Error(String::from_str("Invalid status"))
        }
    }
}

} // verus!
