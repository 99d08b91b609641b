//! Tenant-scoped file store: where uploads go, how they are named, and
//! which stored file a lookup returns.

use vstd::prelude::*;
use vstd::string::*;
use crate::record::{AppError, LogEventResponse, UploadEventRequest};

verus! {

/// Directory of a tenant's files: `root/brand/location`, with `/order`
/// appended when an order is given.
pub open spec fn tenant_dir_of(
    root: Seq<char>,
    brand: Seq<char>,
    location: Seq<char>,
    order: Option<Seq<char>>,
) -> Seq<char> {
    let base = root + "/"@ + brand + "/"@ + location;
    match order {
        Some(o) => base + "/"@ + o,
        None => base,
    }
}

/// The order of a request, as a view.
pub open spec fn order_view(order: Option<String>) -> Option<Seq<char>> {
    match order {
        Some(o) => Some(o@),
        None => None,
    }
}

/// The directory that holds the files of the tenant, location and order of `req`.
pub fn tenant_dir(root: &str, req: &UploadEventRequest) -> (r: String)
    ensures
        r@ == tenant_dir_of(root@, req.brand_id@, req.location_id@, order_view(req.order_id)),
{
    let mut p = String::from_str(root);
    p.append("/");
    p.append(req.brand_id.as_str());
    p.append("/");
    p.append(req.location_id.as_str());
    match &req.order_id {
        Some(o) => {
            p.append("/");
            p.append(o.as_str());
        },
        None => {},
    }
    p
}

/// Name of a stored upload: the form field's name, `_`, and the upload time.
pub open spec fn stored_name_of(field: Seq<char>, stamp: Seq<char>) -> Seq<char> {
    field + "_"@ + stamp
}

/// The file name under which an upload of `field` made at `stamp` is stored.
pub fn stored_file_name(field: &str, stamp: &str) -> (r: String)
    ensures
        r@ == stored_name_of(field@, stamp@),
{
    let mut n = String::from_str(field);
    n.append("_");
    n.append(stamp);
    n
}

/// Where an upload is written.
pub struct UploadTarget {
    /// The tenant directory, created with its parents before the write.
    pub dir: String,
    /// The file that receives the bytes.
    pub path: String,
    /// The form field's name.
    pub field: String,
}

/// Where the bytes of form field `field`, uploaded at `stamp` for the
/// tenant, location and order of `req`, are stored.
pub fn store_target(root: &str, req: &UploadEventRequest, field: String, stamp: &str) -> (r:
    UploadTarget)
    ensures
        r.field@ == field@,
        r.dir@ == tenant_dir_of(root@, req.brand_id@, req.location_id@, order_view(req.order_id)),
        r.path@ == r.dir@ + "/"@ + stored_name_of(field@, stamp@),
{
    let dir = tenant_dir(root, req);
    let mut path = dir.clone();
    path.append("/");
    let name = stored_file_name(field.as_str(), stamp);
    path.append(name.as_str());
    UploadTarget { dir, path, field }
}

/// Places an upload of form field `field` (`None` where the request carried
/// no field) made at `stamp`; without a field nothing is stored.
pub fn upload_target(
    root: &str,
    req: &UploadEventRequest,
    field: Option<String>,
    stamp: &str,
) -> (r: Result<UploadTarget, AppError>)
    ensures
        field is None ==> (r matches Err(e) && e.status@ == "200 OK"@ && e.error@
            == "No File Uploaded or Something went wrong"@),
        field is Some ==> r is Ok,
        r matches Ok(t) ==> (field matches Some(f) && t.field@ == f@ && t.dir@ == tenant_dir_of(
            root@,
            req.brand_id@,
            req.location_id@,
            order_view(req.order_id),
        ) && t.path@ == t.dir@ + "/"@ + stored_name_of(f@, stamp@)),
{
    match field {
        Some(f) => Ok(store_target(root, req, f, stamp)),
        None => Err(
            AppError {
                status: String::from_str("200 OK"),
                error: String::from_str("No File Uploaded or Something went wrong"),
            },
        ),
    }
}

/// Relies on chrono::Utc::now and its Display: the current UTC time as text.
#[verifier::external_body]
fn utc_now_text() -> (r: String)
{
    chrono::Utc::now().to_string()
}

/// Places an upload as [`upload_target`] does, stamped with the current UTC time.
pub fn upload_target_now(root: &str, req: &UploadEventRequest, field: Option<String>) -> (r: Result<
    UploadTarget,
    AppError,
>)
    ensures
        field is None ==> (r matches Err(e) && e.status@ == "200 OK"@ && e.error@
            == "No File Uploaded or Something went wrong"@),
        field is Some ==> r is Ok,
        r matches Ok(t) ==> (field matches Some(f) && t.field@ == f@ && t.dir@ == tenant_dir_of(
            root@,
            req.brand_id@,
            req.location_id@,
            order_view(req.order_id),
        ) && exists|stamp: Seq<char>| t.path@ == t.dir@ + "/"@ + stored_name_of(f@, stamp)),
{
    let stamp = utc_now_text();
    upload_target(root, req, field, stamp.as_str())
}

/// The reply to a stored upload of `field`.
pub fn upload_response(field: &str) -> (r: LogEventResponse)
    ensures
        r.status == 200,
        r.message@ == "Log: "@ + field@ + " Successful"@,
{
    let mut m = String::from_str("Log: ");
    m.append(field);
    m.append(" Successful");
    LogEventResponse { status: 200, message: m }
}

/// A directory entry and its modification time.
pub struct FileStamp {
    pub name: String,
    pub modified: u64,
}

/// Entry `i` was modified last, and no later entry in listing order was
/// modified at the same time.
pub open spec fn is_latest(entries: Seq<FileStamp>, i: int) -> bool {
    &&& 0 <= i < entries.len()
    &&& forall|j: int| 0 <= j < entries.len() ==> entries[j].modified <= entries[i].modified
    &&& forall|j: int| i < j < entries.len() ==> entries[j].modified < entries[i].modified
}

/// No stored file matches a lookup.
pub struct NotFound {
    pub entries: usize,
}

/// Name of the most recently modified entry; among entries modified at the
/// same time, the last one listed. Fails on an empty listing.
pub fn get_latest_file_name(entries: &Vec<FileStamp>) -> (r: Result<String, NotFound>)
    ensures
        entries@.len() == 0 <==> r is Err,
        r matches Ok(n) ==> exists|i: int| is_latest(entries@, i) && n@ == entries@[i].name@,
{
    if entries.len() == 0 {
        return Err(NotFound { entries: 0 });
    }
    let mut best: usize = 0;
    let mut i: usize = 1;
    while i < entries.len()
        invariant
            0 <= best < i <= entries@.len(),
            forall|j: int| 0 <= j < i ==> entries@[j].modified <= entries@[best as int].modified,
            forall|j: int| best < j < i ==> entries@[j].modified < entries@[best as int].modified,
        decreases entries@.len() - i,
    {
        if entries[i].modified >= entries[best].modified {
            best = i;
        }
        i = i + 1;
    }
    let name = entries[best].name.clone();
    assert(is_latest(entries@, best as int));
    Ok(name)
}

/// The download header value that suggests `name` as the file name.
pub fn content_disposition(name: &str) -> (r: String)
    ensures
        r@ == "attachment; filename=\""@ + name@ + "\""@,
{
    let mut h = String::from_str("attachment; filename=\"");
    h.append(name);
    h.append("\"");
    h
}

/// An empty listing has no latest entry; a single entry is the latest; of
/// two entries with distinct times the later-modified one is.
pub proof fn lemma_latest_small(entries: Seq<FileStamp>)
    ensures
        entries.len() == 0 ==> forall|i: int| !is_latest(entries, i),
        entries.len() == 1 ==> is_latest(entries, 0),
        entries.len() == 2 && entries[0].modified < entries[1].modified ==> is_latest(
            entries,
            1,
        ) && !is_latest(entries, 0),
        entries.len() == 2 && entries[1].modified < entries[0].modified ==> is_latest(
            entries,
            0,
        ) && !is_latest(entries, 1),
{
}

/// At most one entry is the latest.
pub proof fn lemma_latest_unique(entries: Seq<FileStamp>, i: int, j: int)
    requires
        is_latest(entries, i),
        is_latest(entries, j),
    ensures
        i == j,
{
    if i < j {
        assert(entries[j].modified < entries[i].modified);
        assert(entries[i].modified <= entries[j].modified);
    } else if j < i {
        assert(entries[i].modified < entries[j].modified);
        assert(entries[j].modified <= entries[i].modified);
    }
}

} // verus!
