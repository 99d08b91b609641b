//! Accepting a new record: validation, encoding as one line, and the
//! accounting of the active segment that the write will grow.

use vstd::prelude::*;
use vstd::string::*;
use vstd::utf8::encode_utf8;
use crate::codec::record_line;
use crate::record::{AppError, LogEventRequest, LogEventResponse};
use crate::rotation::{AppendPlan, EventLogSegment};

verus! {

/// A record ready to be written: its line, ending in a line break, and the
/// disk steps to take before appending it.
pub struct Ingest {
    pub line: String,
    /// Length of `line` in bytes, as the segment counts it.
    pub len: u64,
    pub plan: AppendPlan,
}

/// The line that stores the record of a request: its JSON text and a line break.
pub open spec fn request_line(body: LogEventRequest) -> Seq<char> {
    record_line(body.log_view()) + "\n"@
}

/// Validates `body`, encodes it as one line and accounts for its bytes in
/// `segment`. An invalid body is refused with a client error naming the
/// first invalid field; a line longer than the segment threshold is refused
/// with a `413` status; either way `segment` is left as it was.
pub fn create_log_event(body: LogEventRequest, segment: &mut EventLogSegment) -> (r: Result<
    Ingest,
    AppError,
>)
    requires
        old(segment).wf(),
        old(segment).rotations < u64::MAX,
    ensures
        final(segment).wf(),
        body.first_invalid() matches Some(f) ==> (r matches Err(e) && e.status@
            == "400 Bad Request"@ && e.error@ == f),
        body.first_invalid() is None ==> (r is Ok <==> encode_utf8(request_line(body)).len()
            <= old(segment).threshold),
        body.first_invalid() is None && r is Err ==> (r matches Err(e) && e.status@
            == "413 Payload Too Large"@),
        r is Err ==> *final(segment) == *old(segment),
        r matches Ok(i) ==> (i.line@ == request_line(body) && i.len as int == encode_utf8(
            i.line@,
        ).len() && i.plan == old(segment).plan_for(i.len) && *final(segment)
            == old(segment).after_append(i.len)),
        r matches Ok(i) ==> ((i.plan.rotate <==> old(segment).size + i.len > old(segment).threshold)
            && final(segment).size == (if i.plan.rotate {
            i.len as int
        } else {
            old(segment).size + i.len
        })),
{
    match body.validate() {
        Ok(()) => {},
        Err(f) => {
            return Err(AppError { status: String::from_str("400 Bad Request"), error: f });
        },
    }
    let ghost view = body.log_view();
    let log = body.into_log();
    let text = log.to_line();
    let mut line = text.clone();
    line.append("\n");
    let line_str = line.as_str();
    let len = line_str.as_bytes().len();
    assert(line_str@ == line@);
    assert(len as int == encode_utf8(line@).len());
    assert(line@ == request_line(body)) by {
        assert(log@ == view);
        assert(text@ == record_line(view));
    }
    assert(len as u64 as int == len as int);
    if len as u64 > segment.threshold {
        return Err(
            AppError {
                status: String::from_str("413 Payload Too Large"),
                error: String::from_str("record larger than the segment size limit"),
            },
        );
    }
    match segment.append(len as u64) {
        Ok(plan) => Ok(Ingest { line, len: len as u64, plan }),
        Err(_) => Err(
            AppError {
                status: String::from_str("413 Payload Too Large"),
                error: String::from_str("record larger than the segment size limit"),
            },
        ),
    }
}

/// The reply to a record that was written.
pub fn created_response() -> (r: LogEventResponse)
    ensures
        r.status == 200,
        r.message@ == "Data Logged Successfully!"@,
{
    LogEventResponse { status: 200, message: String::from_str("Data Logged Successfully!") }
}

} // verus!
