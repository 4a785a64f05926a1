use openai_resources::batches::{BatchListParams, Batches};
use openai_resources::error::ErrorKind;
use openai_resources::files::{
    FileCreateParams, FileExpiresAfter, FileListParams, FilePurpose, FileStatus, FileUpload, Files, WaitForProcessingOptions,
};
use openai_resources::request::{HttpMethod, MultipartPart, RequestBody};

#[test]
fn file_upload_form() {
    let params = FileCreateParams {
        file: FileUpload::new("d.jsonl".to_string(), "application/jsonl".to_string(), vec![b'{']),
        purpose: FilePurpose::FineTune,
        expires_after: Some(FileExpiresAfter { anchor: "created_at".to_string(), seconds: 3600 }),
    };
    let req = Files::new().create(params);
    assert_eq!(req.path, "/files");
    assert_eq!(req.headers, vec![("accept".to_string(), "application/json".to_string())]);
    match req.body {
        RequestBody::Multipart(parts) => {
            assert_eq!(parts.len(), 3);
            assert!(matches!(&parts[1], MultipartPart::Text { name, value } if name == "purpose" && value == "fine-tune"));
            assert!(matches!(&parts[2], MultipartPart::Text { name, value }
                if name == "expires_after" && value == "{\"anchor\":\"created_at\",\"seconds\":3600}"));
        }
        _ => panic!("multipart expected"),
    }
}

#[test]
fn file_listing_and_content() {
    let req = Files::new().list(FileListParams { after: None, limit: Some(2), order: Some("asc".to_string()), purpose: Some(FilePurpose::UserData) });
    assert_eq!(req.path, "/files?limit=2&order=asc&purpose=user_data");
    let req = Files::new().content("file-1").unwrap();
    assert_eq!(req.path, "/files/file-1/content");
    assert_eq!(req.headers, vec![("accept".to_string(), "application/octet-stream".to_string())]);
    assert_eq!(Files::new().delete("").unwrap_err().message, "file_id cannot be blank");
}

#[test]
fn waiting_for_processing() {
    let files = Files::new();
    let opts = WaitForProcessingOptions::default();
    assert_eq!(opts.poll_interval, 5000);
    assert_eq!(opts.max_wait, 1_800_000);
    assert_eq!(files.wait_for_processing("f", &Some(FileStatus::Processed), 0, opts).unwrap(), None);
    assert_eq!(files.wait_for_processing("f", &Some(FileStatus::Uploaded), 0, opts).unwrap(), Some(5000));
    let err = files.wait_for_processing("f1", &None, 1_796_000, opts).unwrap_err();
    assert_eq!(err.kind, ErrorKind::Timeout);
    assert_eq!(err.message, "Giving up on waiting for file f1 to finish processing after 1800000 milliseconds.");
}

#[test]
fn batch_requests() {
    let b = Batches::new();
    assert_eq!(b.list(BatchListParams::default()).path, "/batches");
    assert_eq!(b.list(BatchListParams { after: Some("x".to_string()), limit: Some(1) }).path, "/batches?after=x&limit=1");
    let req = b.cancel("batch_1").unwrap();
    assert_eq!(req.method, HttpMethod::Post);
    assert_eq!(req.path, "/batches/batch_1/cancel");
    assert_eq!(b.retrieve("\t").unwrap_err().message, "batch_id cannot be blank");
}
