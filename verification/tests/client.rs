use file_transfer::stream::{collect_body, download_step, StreamEvent};
use file_transfer::{upload_status, Client, Error};

#[test]
fn it_works() {
    assert_eq!(2 + 2, 4);
}

#[test]
fn resolve_relative_key_extends_path() {
    let c = Client::new(String::from("http://host/base/"));
    assert_eq!(c.url("file.txt"), Ok(String::from("http://host/base/file.txt")));
}

#[test]
fn resolve_rooted_key_replaces_path() {
    let c = Client::new(String::from("http://host/base/"));
    assert_eq!(c.url("/abs/file.txt"), Ok(String::from("http://host/abs/file.txt")));
}

#[test]
fn resolve_absolute_key_replaces_url() {
    let c = Client::new(String::from("http://host/base/"));
    assert_eq!(c.url("http://other/x"), Ok(String::from("http://other/x")));
}

#[test]
fn resolve_bad_base_is_parse_error() {
    let c = Client::new(String::from("not a url"));
    assert_eq!(c.url("file.txt"), Err(Error::ParseError));
}

#[test]
fn resolve_is_idempotent() {
    let c = Client::new(String::from("http://host/base/"));
    let first = c.url("file.txt");
    let second = c.url("file.txt");
    assert_eq!(first, second);
}

#[test]
fn download_step_appends_chunk() {
    let ev = StreamEvent::Chunk(vec![104u8, 105u8]);
    assert_eq!(download_step(&ev), Some(&vec![104u8, 105u8]));
}

#[test]
fn download_step_stops_on_end() {
    assert_eq!(download_step(&StreamEvent::End), None);
}

#[test]
fn download_step_stops_on_failure() {
    assert_eq!(download_step(&StreamEvent::Failed), None);
}

#[test]
fn download_writes_body_in_order() {
    let events = vec![
        StreamEvent::Chunk(b"hello ".to_vec()),
        StreamEvent::Chunk(b"world".to_vec()),
        StreamEvent::End,
    ];
    assert_eq!(collect_body(&events), b"hello world".to_vec());
}

#[test]
fn download_writes_error_page_body_too() {
    let events = vec![StreamEvent::Chunk(b"not found".to_vec()), StreamEvent::End];
    assert_eq!(collect_body(&events), b"not found".to_vec());
}

#[test]
fn download_truncates_at_mid_stream_failure() {
    let events = vec![
        StreamEvent::Chunk(b"he".to_vec()),
        StreamEvent::Failed,
        StreamEvent::Chunk(b"llo".to_vec()),
    ];
    assert_eq!(collect_body(&events), b"he".to_vec());
}

#[test]
fn download_of_empty_stream_is_empty() {
    let events = vec![StreamEvent::End];
    assert_eq!(collect_body(&events), Vec::<u8>::new());
}

#[test]
fn upload_accepts_exactly_200() {
    assert_eq!(upload_status(200), Ok(()));
}

#[test]
fn upload_rejects_201_with_its_code() {
    assert_eq!(upload_status(201), Err(Error::Status(201)));
}

#[test]
fn upload_rejects_404_with_its_code() {
    assert_eq!(upload_status(404), Err(Error::Status(404)));
}

#[test]
fn error_messages() {
    assert_eq!(Error::ParseError.message(), "Invalid URL");
    assert_eq!(Error::IO.message(), "I/O error");
    assert_eq!(Error::Reqest.message(), "Reqwest error");
    assert_eq!(Error::Status(500).message(), "Request failed");
}
