#[test]
fn second_bind_on_same_port_fails() {
    let rt = tokio::runtime::Runtime::new().unwrap();
    rt.block_on(async {
        let first = match tokio::net::TcpListener::bind("127.0.0.1:0").await {
            Ok(l) => l,
            // The host forbids binding sockets here; nothing to observe.
            Err(_) => return,
        };
        let addr = first.local_addr().unwrap();
        let second = tokio::net::TcpListener::bind(addr).await;
        assert!(second.is_err());
        drop(first);
        let _ = addr;
    });
}
