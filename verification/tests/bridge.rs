use eip1193_bridge::bridge::Bridge;

#[test]
fn delivery_round_trip() {
    let mut bridge = Bridge::new();
    bridge.submit("eth_requestAccounts".to_string());
    let polled = bridge.worker_poll();
    assert_eq!(polled, Some("eth_requestAccounts".to_string()));
    bridge.worker_finish(Ok("0xABC123".to_string()));
    let received = bridge.try_receive();
    assert_eq!(received, Some("0xABC123".to_string()));
    assert_eq!(bridge.try_receive(), None);
}

#[test]
fn receive_without_submit_is_none() {
    let mut bridge = Bridge::new();
    assert_eq!(bridge.try_receive(), None);
    assert_eq!(bridge.try_receive(), None);
    assert_eq!(bridge.pending_request_count(), 0);
    assert_eq!(bridge.pending_response_count(), 0);
}

#[test]
fn failed_transport_drops_response() {
    let mut bridge = Bridge::new();
    bridge.submit("eth_requestAccounts".to_string());
    let polled = bridge.worker_poll();
    assert_eq!(polled, Some("eth_requestAccounts".to_string()));
    bridge.worker_finish(Err("provider rejected the call".to_string()));
    assert_eq!(bridge.try_receive(), None);
    assert_eq!(bridge.try_receive(), None);
    assert_eq!(bridge.pending_response_count(), 0);
}

#[test]
fn single_cycle_consumes_only_first_request() {
    let mut bridge = Bridge::new();
    bridge.submit("eth_requestAccounts".to_string());
    bridge.submit("eth_chainId".to_string());
    assert_eq!(bridge.pending_request_count(), 2);
    let polled = bridge.worker_poll();
    assert_eq!(polled, Some("eth_requestAccounts".to_string()));
    assert_eq!(bridge.pending_request_count(), 1);
}

#[test]
fn polled_request_is_never_delivered_twice() {
    let mut bridge = Bridge::new();
    bridge.submit("eth_requestAccounts".to_string());
    assert_eq!(bridge.worker_poll(), Some("eth_requestAccounts".to_string()));
    assert_eq!(bridge.worker_poll(), None);
}

#[test]
fn every_queued_request_is_serviced_once() {
    let mut bridge = Bridge::new();
    bridge.submit("eth_requestAccounts".to_string());
    bridge.submit("eth_chainId".to_string());
    bridge.submit("eth_blockNumber".to_string());
    let mut served: Vec<String> = Vec::new();
    while let Some(request) = bridge.worker_poll() {
        bridge.worker_finish(Ok(format!("done:{}", request)));
        served.push(request);
    }
    assert_eq!(
        served,
        vec![
            "eth_requestAccounts".to_string(),
            "eth_chainId".to_string(),
            "eth_blockNumber".to_string(),
        ]
    );
    assert_eq!(bridge.pending_request_count(), 0);
    assert_eq!(
        bridge.try_receive(),
        Some("done:eth_requestAccounts".to_string())
    );
    assert_eq!(bridge.try_receive(), Some("done:eth_chainId".to_string()));
    assert_eq!(bridge.try_receive(), Some("done:eth_blockNumber".to_string()));
    assert_eq!(bridge.try_receive(), None);
}

#[test]
fn responses_keep_worker_order() {
    let mut bridge = Bridge::new();
    bridge.submit("eth_requestAccounts".to_string());
    bridge.submit("eth_chainId".to_string());
    assert_eq!(bridge.worker_poll(), Some("eth_requestAccounts".to_string()));
    bridge.worker_finish(Ok("0xABC123".to_string()));
    assert_eq!(bridge.worker_poll(), Some("eth_chainId".to_string()));
    bridge.worker_finish(Ok("0x1".to_string()));
    assert_eq!(bridge.try_receive(), Some("0xABC123".to_string()));
    assert_eq!(bridge.try_receive(), Some("0x1".to_string()));
    assert_eq!(bridge.try_receive(), None);
}
