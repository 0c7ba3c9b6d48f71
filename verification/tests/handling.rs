//! Tests of the per-connection unit of work against in-memory doubles.

use vstd::prelude::*;
use web_server_tokio::handle_stream;
use web_server_tokio::Delay;
use web_server_tokio::FailingStore;
use web_server_tokio::IoErrorKind;
use web_server_tokio::MemoryStore;
use web_server_tokio::PayloadSource;
use web_server_tokio::RecordingDelay;
use web_server_tokio::ScriptedStream;

const HELLO_HTML: &str = "\
<!DOCTYPE html>\r
<html lang=\"en\">\r
<head>\r
    <meta charset=\"utf-8\">\r
    <title>Hello!</title>\r
</head>\r
<body>\r
<h1>Hello!</h1>\r
<p>Hi from Rust</p>\r
</body>\r
</html>";
const FOUR04_HTML: &str = "\
<!DOCTYPE html>\r
<html lang=\"en\">\r
<head>\r
    <meta charset=\"utf-8\">\r
    <title>Hello!</title>\r
</head>\r
<body>\r
<h1>Oops!</h1>\r
<p>Sorry, I don't know what you're asking for.</p>\r
</body>\r
</html>";

fn page_store() -> MemoryStore {
    MemoryStore {
        hello: HELLO_HTML.as_bytes().to_vec(),
        not_found: FOUR04_HTML.as_bytes().to_vec(),
    }
}

fn no_delay() -> RecordingDelay {
    RecordingDelay { requested: vec![] }
}

/// A real clock: suspends the caller for the requested seconds.
struct RuntimeDelay {
    runtime: tokio::runtime::Runtime,
}

impl Delay for RuntimeDelay {
    fn waited(&self) -> Seq<u64> {
        unreachable!()
    }

    fn wait_secs(&mut self, secs: u64) {
        self.runtime.block_on(async {
            tokio::time::sleep(std::time::Duration::from_secs(secs)).await;
        });
    }
}

#[test]
fn get_immediately() {
    let mut mock_stream = ScriptedStream {
        request: Ok("GET / HTTP/1.1".to_string()),
        write_outcome: Ok(()),
        written: vec![],
    };
    let expected_response = format!(
        "{}\r\nContent-Length: {}\r\n\r\n{}",
        "HTTP/1.1 200 OK",
        HELLO_HTML.len(),
        HELLO_HTML
    );
    let ok = handle_stream(&mut mock_stream, &page_store(), &mut no_delay()).unwrap();
    assert_eq!((), ok);
    assert_eq!(vec![expected_response.into_bytes()], mock_stream.written);
}

#[test]
fn get_later() {
    let mut mock_stream = ScriptedStream {
        request: Ok("GET /sleep HTTP/1.1".to_string()),
        write_outcome: Ok(()),
        written: vec![],
    };
    let expected_response = format!(
        "{}\r\nContent-Length: {}\r\n\r\n{}",
        "HTTP/1.1 200 OK",
        HELLO_HTML.len(),
        HELLO_HTML
    );
    let mut delay = RuntimeDelay {
        runtime: tokio::runtime::Builder::new_current_thread()
            .enable_time()
            .build()
            .unwrap(),
    };
    let minimum_instant = tokio::time::Instant::now() + tokio::time::Duration::from_secs(5);
    let ok = handle_stream(&mut mock_stream, &page_store(), &mut delay).unwrap();
    let now = tokio::time::Instant::now();
    assert!(now >= minimum_instant);
    assert_eq!((), ok);
    assert_eq!(vec![expected_response.into_bytes()], mock_stream.written);
}

#[test]
fn not_found() {
    let mut mock_stream = ScriptedStream {
        request: Ok("".to_string()),
        write_outcome: Ok(()),
        written: vec![],
    };
    let expected_response = format!(
        "{}\r\nContent-Length: {}\r\n\r\n{}",
        "HTTP/1.1 404 NOT FOUND",
        FOUR04_HTML.len(),
        FOUR04_HTML
    );
    let ok = handle_stream(&mut mock_stream, &page_store(), &mut no_delay()).unwrap();
    assert_eq!((), ok);
    assert_eq!(vec![expected_response.into_bytes()], mock_stream.written);
}

#[test]
fn invalid_request() {
    let kind = IoErrorKind::NotFound;
    let mut mock_stream = ScriptedStream {
        request: Err(kind.clone()),
        write_outcome: Ok(()),
        written: vec![],
    };
    let error = handle_stream(&mut mock_stream, &page_store(), &mut no_delay()).unwrap_err();
    assert_eq!(kind, error);
}

#[test]
fn invalid_response() {
    let kind = IoErrorKind::NotFound;
    let mut mock_stream = ScriptedStream {
        request: Ok("GET / HTTP/1.1".to_string()),
        write_outcome: Err(kind.clone()),
        written: vec![],
    };
    let error = handle_stream(&mut mock_stream, &page_store(), &mut no_delay()).unwrap_err();
    assert_eq!(kind, error);
}

#[test]
fn read_failure_prevents_write() {
    let mut mock_stream = ScriptedStream {
        request: Err(IoErrorKind::BrokenPipe),
        write_outcome: Ok(()),
        written: vec![],
    };
    let error = handle_stream(&mut mock_stream, &page_store(), &mut no_delay()).unwrap_err();
    assert_eq!(IoErrorKind::BrokenPipe, error);
    assert_eq!(0, mock_stream.written.len());
}

#[test]
fn load_failure_prevents_write() {
    let mut mock_stream = ScriptedStream {
        request: Ok("GET / HTTP/1.1".to_string()),
        write_outcome: Ok(()),
        written: vec![],
    };
    let store = FailingStore {
        kind: IoErrorKind::PermissionDenied,
    };
    let error = handle_stream(&mut mock_stream, &store, &mut no_delay()).unwrap_err();
    assert_eq!(IoErrorKind::PermissionDenied, error);
    assert_eq!(0, mock_stream.written.len());
}

#[test]
fn write_failure_surfaces_transport_kind() {
    let kind = IoErrorKind::ConnectionReset;
    let mut mock_stream = ScriptedStream {
        request: Ok("GET / HTTP/1.1".to_string()),
        write_outcome: Err(kind),
        written: vec![],
    };
    let error = handle_stream(&mut mock_stream, &page_store(), &mut no_delay()).unwrap_err();
    assert_eq!(kind, error);
    assert_eq!(0, mock_stream.written.len());
}

#[test]
fn sleep_route_requests_five_seconds() {
    let mut mock_stream = ScriptedStream {
        request: Ok("GET /sleep HTTP/1.1".to_string()),
        write_outcome: Ok(()),
        written: vec![],
    };
    let mut delay = RecordingDelay { requested: vec![] };
    handle_stream(&mut mock_stream, &page_store(), &mut delay).unwrap();
    assert_eq!(vec![5u64], delay.requested);
}

#[test]
fn memory_store_serves_named_pages() {
    let store = page_store();
    assert_eq!(HELLO_HTML.as_bytes().to_vec(), store.load("hello.html").unwrap());
    assert_eq!(FOUR04_HTML.as_bytes().to_vec(), store.load("404.html").unwrap());
    assert_eq!(IoErrorKind::NotFound, store.load("index.html").unwrap_err());
}

#[test]
fn immediate_routes_request_no_delay() {
    let mut mock_stream = ScriptedStream {
        request: Ok("GET / HTTP/1.1".to_string()),
        write_outcome: Ok(()),
        written: vec![],
    };
    let mut delay = RecordingDelay { requested: vec![] };
    handle_stream(&mut mock_stream, &page_store(), &mut delay).unwrap();
    assert!(delay.requested.is_empty());

    let mut not_found_stream = ScriptedStream {
        request: Ok("".to_string()),
        write_outcome: Ok(()),
        written: vec![],
    };
    handle_stream(&mut not_found_stream, &page_store(), &mut delay).unwrap();
    assert!(delay.requested.is_empty());
}
