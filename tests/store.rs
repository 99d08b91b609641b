use log_store::record::UploadEventRequest;
use log_store::store::{
    content_disposition, get_latest_file_name, stored_file_name, tenant_dir, upload_response,
    store_target, upload_target, upload_target_now, FileStamp,
};

fn query(order: Option<&str>) -> UploadEventRequest {
    UploadEventRequest {
        brand_id: "BRAND01".to_string(),
        location_id: "LOC0001".to_string(),
        order_id: order.map(|o| o.to_string()),
    }
}

fn stamp(name: &str, modified: u64) -> FileStamp {
    FileStamp { name: name.to_string(), modified }
}

#[test]
fn tenant_dir_two_and_three_levels() {
    assert_eq!(tenant_dir("log_folder", &query(None)), "log_folder/BRAND01/LOC0001");
    assert_eq!(tenant_dir("log_folder", &query(Some("O9"))), "log_folder/BRAND01/LOC0001/O9");
}

#[test]
fn stored_name_joins_field_and_stamp() {
    assert_eq!(stored_file_name("trace", "2024-01-01 00:00:00 UTC"), "trace_2024-01-01 00:00:00 UTC");
}

#[test]
fn upload_goes_under_tenant_dir() {
    let q = UploadEventRequest {
        brand_id: "BRAND01".to_string(),
        location_id: "LOC001".to_string(),
        order_id: None,
    };
    let t = upload_target("log_folder", &q, Some("trace".to_string()), "T").ok().unwrap();
    assert_eq!(t.path, "log_folder/BRAND01/LOC001/trace_T");
    let t = upload_target("log_folder", &query(None), Some("trace".to_string()), "T1").ok().unwrap();
    assert_eq!(t.dir, "log_folder/BRAND01/LOC0001");
    assert_eq!(t.path, "log_folder/BRAND01/LOC0001/trace_T1");
    assert_eq!(t.field, "trace");
}

#[test]
fn upload_without_field() {
    let e = upload_target("log_folder", &query(None), None, "T").err().unwrap();
    assert_eq!(e.status, "200 OK");
    assert_eq!(e.error, "No File Uploaded or Something went wrong");
}

#[test]
fn upload_now_is_stamped() {
    let t = upload_target_now("log_folder", &query(Some("O1")), Some("trace".to_string())).ok().unwrap();
    assert!(t.path.starts_with("log_folder/BRAND01/LOC0001/O1/trace_"));
    assert!(t.path.len() > "log_folder/BRAND01/LOC0001/O1/trace_".len());
    assert!(t.path.ends_with("UTC"));
}

#[test]
fn upload_reply() {
    let r = upload_response("trace");
    assert_eq!(r.status, 200);
    assert_eq!(r.message, "Log: trace Successful");
}

#[test]
fn latest_of_empty_is_not_found() {
    assert!(get_latest_file_name(&vec![]).is_err());
}

#[test]
fn latest_of_one() {
    assert_eq!(get_latest_file_name(&vec![stamp("a", 5)]).ok().unwrap(), "a");
}

#[test]
fn latest_of_two() {
    assert_eq!(get_latest_file_name(&vec![stamp("a", 5), stamp("b", 9)]).ok().unwrap(), "b");
    assert_eq!(get_latest_file_name(&vec![stamp("a", 9), stamp("b", 5)]).ok().unwrap(), "a");
}

#[test]
fn latest_tie_takes_last_listed() {
    let v = vec![stamp("a", 7), stamp("b", 7), stamp("c", 3)];
    assert_eq!(get_latest_file_name(&v).ok().unwrap(), "b");
}

#[test]
fn disposition_header() {
    assert_eq!(content_disposition("trace_T1"), "attachment; filename=\"trace_T1\"");
}

#[test]
fn upload_scenario_path() {
    let q = UploadEventRequest {
        brand_id: "BRAND01".to_string(),
        location_id: "LOC001".to_string(),
        order_id: None,
    };
    let t = store_target("log_folder", &q, "trace".to_string(), "2024-05-01 10:00:00.123456789 UTC");
    assert_eq!(t.dir, "log_folder/BRAND01/LOC001");
    assert_eq!(t.path, "log_folder/BRAND01/LOC001/trace_2024-05-01 10:00:00.123456789 UTC");
    assert_eq!(t.field, "trace");
}
