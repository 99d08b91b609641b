//! The structured log record, the request and response shapes around it,
//! and the validation rules that requests must pass.

use vstd::prelude::*;
use vstd::string::*;

verus! {

/// A stored log record.
pub struct Log {
    pub location_id: String,
    pub device_id: String,
    pub log_level: u32,
    pub log_type: String,
    pub log_message: String,
}

/// Mathematical view of a [`Log`].
pub struct LogView {
    pub location_id: Seq<char>,
    pub device_id: Seq<char>,
    pub log_level: u32,
    pub log_type: Seq<char>,
    pub log_message: Seq<char>,
}

impl View for Log {
    type V = LogView;

    open spec fn view(&self) -> LogView {
        LogView {
            location_id: self.location_id@,
            device_id: self.device_id@,
            log_level: self.log_level,
            log_type: self.log_type@,
            log_message: self.log_message@,
        }
    }
}

impl Log {
    /// A copy of the record with the same view.
    pub fn duplicate(&self) -> (r: Log)
        ensures
            r@ == self@,
    {
        Log {
            location_id: self.location_id.clone(),
            device_id: self.device_id.clone(),
            log_level: self.log_level,
            log_type: self.log_type.clone(),
            log_message: self.log_message.clone(),
        }
    }
}

/// The accepted values of a record's `log_type`.
pub open spec fn is_log_type(s: Seq<char>) -> bool {
    s == "warn"@ || s == "error"@ || s == "info"@ || s == "debug"@
}

/// Accepts exactly the four log types `warn`, `error`, `info` and `debug`.
pub fn validate_log_type(value: &str) -> (r: Result<(), String>)
    ensures
        r.is_ok() <==> is_log_type(value@),
        r matches Err(m) ==> m@
            == "Invalid log type. Accepted types are ['warn', 'error', 'info', 'debug']"@,
{
    let n = value.unicode_len();
    let mut accepted = false;
    if n == 4 {
        if value.get_char(0) == 'w' && value.get_char(1) == 'a' && value.get_char(2) == 'r'
            && value.get_char(3) == 'n' {
            accepted = true;
        } else if value.get_char(0) == 'i' && value.get_char(1) == 'n' && value.get_char(2) == 'f'
            && value.get_char(3) == 'o' {
            accepted = true;
        }
    } else if n == 5 {
        if value.get_char(0) == 'e' && value.get_char(1) == 'r' && value.get_char(2) == 'r'
            && value.get_char(3) == 'o' && value.get_char(4) == 'r' {
            accepted = true;
        } else if value.get_char(0) == 'd' && value.get_char(1) == 'e' && value.get_char(2) == 'b'
            && value.get_char(3) == 'u' && value.get_char(4) == 'g' {
            accepted = true;
        }
    }
    proof {
        reveal_strlit("warn");
        reveal_strlit("info");
        reveal_strlit("error");
        reveal_strlit("debug");
        if accepted {
            if n == 4 && value@[0] == 'w' {
                assert(value@ =~= "warn"@);
            } else if n == 4 {
                assert(value@ =~= "info"@);
            } else if value@[0] == 'e' {
                assert(value@ =~= "error"@);
            } else {
                assert(value@ =~= "debug"@);
            }
        }
    }
    if accepted {
        Ok(())
    } else {
        Err(String::from_str("Invalid log type. Accepted types are ['warn', 'error', 'info', 'debug']"))
    }
}

/// Body of a request that creates a log record.
pub struct LogEventRequest {
    pub location_id: String,
    pub device_id: String,
    pub log_level: u32,
    pub log_type: String,
    pub log_message: String,
}

impl LogEventRequest {
    /// The first field, in declaration order, that breaks its rule.
    pub open spec fn first_invalid(&self) -> Option<Seq<char>> {
        if self.location_id@.len() < 1 {
            Some("location_id"@)
        } else if self.device_id@.len() < 1 {
            Some("device_id"@)
        } else if self.log_level > 5 {
            Some("log_level"@)
        } else if !is_log_type(self.log_type@) {
            Some("log_type"@)
        } else if self.log_message@.len() < 10 {
            Some("log_message"@)
        } else {
            None
        }
    }

    /// Checks every rule; the error names the first field that breaks one.
    pub fn validate(&self) -> (r: Result<(), String>)
        ensures
            match r {
                Ok(()) => self.first_invalid() is None,
                Err(f) => self.first_invalid() == Some(f@),
            },
    {
        if self.location_id.as_str().unicode_len() < 1 {
            return Err(String::from_str("location_id"));
        }
        if self.device_id.as_str().unicode_len() < 1 {
            return Err(String::from_str("device_id"));
        }
        if self.log_level > 5 {
            return Err(String::from_str("log_level"));
        }
        if validate_log_type(self.log_type.as_str()).is_err() {
            return Err(String::from_str("log_type"));
        }
        if self.log_message.as_str().unicode_len() < 10 {
            return Err(String::from_str("log_message"));
        }
        Ok(())
    }

    /// The view of the record that this request carries.
    pub open spec fn log_view(&self) -> LogView {
        LogView {
            location_id: self.location_id@,
            device_id: self.device_id@,
            log_level: self.log_level,
            log_type: self.log_type@,
            log_message: self.log_message@,
        }
    }

    /// The record that this request carries.
    pub fn into_log(self) -> (r: Log)
        ensures
            r@ == self.log_view(),
    {
        Log {
            location_id: self.location_id,
            device_id: self.device_id,
            log_level: self.log_level,
            log_type: self.log_type,
            log_message: self.log_message,
        }
    }
}

/// Query of an upload or a file lookup: tenant, location and optional order.
pub struct UploadEventRequest {
    pub brand_id: String,
    pub location_id: String,
    pub order_id: Option<String>,
}

impl UploadEventRequest {
    /// The first field, in declaration order, that breaks its rule.
    pub open spec fn first_invalid(&self) -> Option<Seq<char>> {
        if self.brand_id@.len() < 7 {
            Some("brand_id"@)
        } else if self.location_id@.len() < 7 {
            Some("location_id"@)
        } else if self.order_id matches Some(o) && o@.len() < 1 {
            Some("order_id"@)
        } else {
            None
        }
    }

    /// Checks every rule; the error names the first field that breaks one.
    pub fn validate(&self) -> (r: Result<(), String>)
        ensures
            match r {
                Ok(()) => self.first_invalid() is None,
                Err(f) => self.first_invalid() == Some(f@),
            },
    {
        if self.brand_id.as_str().unicode_len() < 7 {
            return Err(String::from_str("brand_id"));
        }
        if self.location_id.as_str().unicode_len() < 7 {
            return Err(String::from_str("location_id"));
        }
        match &self.order_id {
            Some(o) => {
                if o.as_str().unicode_len() < 1 {
                    return Err(String::from_str("order_id"));
                }
            },
            None => {},
        }
        Ok(())
    }
}

/// Success reply of a write.
pub struct LogEventResponse {
    pub status: u32,
    pub message: String,
}

/// A page of records, newest first, with the query that chose it and the
/// number of records in the segment.
pub struct Events {
    pub status: u32,
    pub data: Vec<Log>,
    pub limit: u32,
    pub offset: u32,
    pub size: usize,
}

/// Error reply: a status text and a message.
pub struct AppError {
    pub status: String,
    pub error: String,
}

impl AppError {
    /// The reply given when an underlying storage operation failed.
    pub fn storage_failure() -> (r: AppError)
        ensures
            r.status@ == "500 Internal Server Error"@,
            r.error@ == "Something went wrong!"@,
    {
        AppError { status: String::from_str("500 Internal Server Error"), error: String::from_str("Something went wrong!") }
    }
}

} // verus!
