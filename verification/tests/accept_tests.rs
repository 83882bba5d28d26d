use ws_gio::adapter::{IOStream, InputStream, OutputStream, Poll};
use ws_gio::client::{connect_async, SocketClient};
use ws_gio::error::{Error, GIOErrorCode, HandshakeError, IoErrorKind, PlatformError};
use ws_gio::handshake::{response_contains, server_handshake_response, Callback, SWITCHING_PROTOCOLS};
use ws_gio::request::{Request, Uri};
use ws_gio::server::{accept_async, accept_async_with_config, accept_hdr_async, accept_hdr_async_with_config};
use ws_gio::stream::{deliver_between, WebSocketConfig};
use ws_gio::to_std_io_error;

fn pollable_stream() -> IOStream {
    IOStream {
        input: InputStream { pollable: true, buffered: Vec::new(), eof: false },
        output: OutputStream { pollable: true, pending: Vec::new(), sent: Vec::new(), closed: false },
    }
}

#[test]
fn accept_adapts_a_pollable_connection() {
    assert!(accept_async(pollable_stream()).is_ok());
}

#[test]
fn accept_rejects_a_non_pollable_connection() {
    let mut stream = pollable_stream();
    stream.input.pollable = false;
    assert_eq!(accept_async(stream).map(|_| ()), Err(Error::UnsupportedStream));
}

#[test]
fn accept_forwards_the_config_verbatim() {
    let config = WebSocketConfig { max_message_size: None, max_frame_size: Some(4096) };
    let ws = accept_async_with_config(pollable_stream(), Some(config)).unwrap();
    assert_eq!(ws.get_config().unwrap().max_frame_size, Some(4096));
}

#[test]
fn rejecting_callback_fails_the_handshake() {
    let r = accept_hdr_async(pollable_stream(), Callback::Reject(403));
    assert_eq!(r.map(|_| ()), Err(Error::Handshake(HandshakeError::Rejected(403))));
}

#[test]
fn appended_header_appears_in_the_response() {
    let callback = Callback::AppendHeaders(vec![("X-Test".to_string(), "1".to_string())]);
    let accepted = accept_hdr_async_with_config(pollable_stream(), callback.clone(), None);
    assert!(accepted.is_ok());
    let resp = server_handshake_response(&callback).unwrap();
    assert_eq!(resp.status, SWITCHING_PROTOCOLS);
    assert!(response_contains(&resp, "X-Test", "1"));
    assert!(response_contains(&resp, "Upgrade", "websocket"));
    assert!(!response_contains(&resp, "X-Other", "1"));
}

#[test]
fn no_callback_response_is_the_plain_upgrade_answer() {
    let resp = server_handshake_response(&Callback::NoCallback).unwrap();
    assert_eq!(resp.status, SWITCHING_PROTOCOLS);
    assert_eq!(
        resp.headers,
        vec![
            ("Upgrade".to_string(), "websocket".to_string()),
            ("Connection".to_string(), "Upgrade".to_string()),
        ]
    );
}

#[test]
fn loopback_handshake_and_byte_transfer() {
    // An already-accepted connection on the listener side, and the
    // client side's connection produced by the platform connect.
    let server_conn = pollable_stream();
    let client_conn = pollable_stream();

    // Server side: adapt and perform the server handshake.
    let callback = Callback::NoCallback;
    let mut server_ws = accept_hdr_async_with_config(server_conn, callback.clone(), None)
        .expect("accept must succeed on a pollable connection");
    let wire_response = server_handshake_response(&callback).unwrap();

    // Client side: connect to ws://localhost:<port>/ over the loopback.
    let request = Request {
        uri: Uri { scheme: "ws".to_string(), host: "localhost".to_string(), port: Some(9001) },
        headers: Vec::new(),
    };
    let mut client = SocketClient::new();
    let (mut client_ws, response) = connect_async(
        &request,
        &mut client,
        Ok(client_conn),
        Ok(wire_response),
    )
    .expect("connect must succeed over the loopback");

    assert_eq!(response.status, SWITCHING_PROTOCOLS);
    assert!(!client.tls());
    assert_eq!(client.attempts()[0].address.host, "localhost".to_string());
    assert_eq!(client.attempts()[0].address.port, 9001);

    // Transmit 0x01 0x02 0x03 through the accepted stream and flush.
    match server_ws.poll_write(&[0x01, 0x02, 0x03]) {
        Poll::Ready(Ok(3)) => {}
        _ => panic!("the accepted stream must accept the bytes"),
    }
    assert!(matches!(server_ws.poll_flush(), Poll::Ready(Ok(()))));
    deliver_between(&mut server_ws, &mut client_ws);

    // The paired read on the connect side observes exactly those bytes.
    match client_ws.poll_read(1024) {
        Poll::Ready(bytes) => assert_eq!(bytes, vec![0x01, 0x02, 0x03]),
        Poll::Pending => panic!("the delivered bytes must be readable"),
    }
}

#[test]
fn recognized_platform_codes_map_to_their_kinds() {
    let cases = vec![
        (GIOErrorCode::NotFound, IoErrorKind::NotFound),
        (GIOErrorCode::PermissionDenied, IoErrorKind::PermissionDenied),
        (GIOErrorCode::ConnectionRefused, IoErrorKind::ConnectionRefused),
        (GIOErrorCode::HostUnreachable, IoErrorKind::HostUnreachable),
        (GIOErrorCode::NetworkUnreachable, IoErrorKind::NetworkUnreachable),
        (GIOErrorCode::TimedOut, IoErrorKind::TimedOut),
        (GIOErrorCode::Closed, IoErrorKind::Closed),
        (GIOErrorCode::Cancelled, IoErrorKind::Interrupted),
    ];
    for (code, kind) in cases {
        let e = PlatformError { code: Some(code), message: "x".to_string() };
        let mapped = to_std_io_error(e.clone());
        assert_eq!(mapped.kind, kind);
        assert_eq!(mapped.cause, e);
    }
}

#[test]
fn unclassified_platform_errors_map_to_other() {
    let e = PlatformError { code: None, message: "mystery".to_string() };
    let mapped = to_std_io_error(e.clone());
    assert_eq!(mapped.kind, IoErrorKind::Other);
    assert_eq!(mapped.cause, e);
}
