use proxy_cache::reply::{Reply, STATUS_INTERNAL_SERVER_ERROR, STATUS_OK, TEXT_PLAIN};

#[test]
fn ok_reply_has_status_200() {
    let reply = Reply::ok("payload".to_string());
    assert_eq!(reply.status, 200);
    assert_eq!(reply.status, STATUS_OK);
    assert_eq!(reply.content_type, "text/plain; charset=utf-8");
    assert_eq!(reply.content_type, TEXT_PLAIN);
    assert_eq!(reply.body, "payload");
}

#[test]
fn error_reply_has_status_500() {
    let reply = Reply::internal_server_error("it broke".to_string());
    assert_eq!(reply.status, 500);
    assert_eq!(reply.status, STATUS_INTERNAL_SERVER_ERROR);
    assert_eq!(reply.content_type, "text/plain; charset=utf-8");
    assert_eq!(reply.body, "it broke");
}
