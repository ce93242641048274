use backend_supervisor::health::{
    health_request, probe_address, probe_begin, probe_next, response_is_healthy, Exchange,
    ProbeResult, ProbeStep, PROBE_TIMEOUT_MS,
};

fn run_probe(exchanges: Vec<Exchange>) -> (bool, usize) {
    let mut step = probe_begin(exchanges.len());
    let mut tried = 0;
    loop {
        match step {
            ProbeStep::Done(result) => return (result.reachable, tried),
            ProbeStep::Connect(index) => {
                assert_eq!(index, tried);
                tried += 1;
                step = probe_next(index, exchanges.len(), &exchanges[index]);
            }
        }
    }
}

fn ok_response() -> Exchange {
    Exchange::Response("HTTP/1.1 200 OK\r\nContent-Length: 2\r\n\r\nok".to_string())
}

#[test]
fn probe_timeout_is_a_second_and_a_half() {
    assert_eq!(PROBE_TIMEOUT_MS, 1500);
}

#[test]
fn probe_address_joins_host_and_port() {
    assert_eq!(probe_address("127.0.0.1", 3000), "127.0.0.1:3000");
    assert_eq!(probe_address("localhost", 80), "localhost:80");
    assert_eq!(probe_address("", 0), ":0");
}

#[test]
fn health_request_is_a_get_that_closes_the_connection() {
    assert_eq!(
        health_request("127.0.0.1"),
        "GET /api/health HTTP/1.1\r\nHost: 127.0.0.1\r\nConnection: close\r\n\r\n"
    );
    assert_eq!(
        health_request("example.org"),
        format!("GET /api/health HTTP/1.1\r\nHost: {}\r\nConnection: close\r\n\r\n", "example.org")
    );
}

#[test]
fn status_200_is_healthy() {
    assert!(response_is_healthy("HTTP/1.1 200 OK\r\n\r\n{\"status\":\"ok\"}"));
    assert!(response_is_healthy("HTTP/1.0 200 OK\r\n\r\n"));
    assert!(response_is_healthy("HTTP/1.1 200"));
}

#[test]
fn any_other_answer_is_not_healthy() {
    assert!(!response_is_healthy(""));
    assert!(!response_is_healthy("HTTP/1.1 503 Service Unavailable\r\n\r\n"));
    assert!(!response_is_healthy("HTTP/1.1 404 Not Found\r\n\r\n"));
    assert!(!response_is_healthy("HTTP/1.1 20"));
    assert!(!response_is_healthy("HTTP/2 200 OK\r\n\r\n"));
    assert!(!response_is_healthy(" HTTP/1.1 200 OK"));
    assert!(!response_is_healthy("http/1.1 200 OK"));
    assert!(!response_is_healthy("HTTP/1.1  200 OK"));
}

#[test]
fn unresolved_host_is_unreachable() {
    assert_eq!(probe_begin(0), ProbeStep::Done(ProbeResult { reachable: false }));
    assert_eq!(run_probe(Vec::new()), (false, 0));
}

#[test]
fn refused_everywhere_is_unreachable() {
    let exchanges = vec![Exchange::ConnectFailed, Exchange::ConnectFailed, Exchange::ConnectFailed];
    assert_eq!(run_probe(exchanges), (false, 3));
}

#[test]
fn first_accepted_connection_decides() {
    assert_eq!(run_probe(vec![ok_response()]), (true, 1));
    assert_eq!(run_probe(vec![Exchange::ConnectFailed, ok_response()]), (true, 2));
    assert_eq!(run_probe(vec![ok_response(), Exchange::ConnectFailed]), (true, 1));
    let unhealthy = Exchange::Response("HTTP/1.1 500 Internal Server Error\r\n\r\n".to_string());
    assert_eq!(run_probe(vec![unhealthy, ok_response()]), (false, 1));
    assert_eq!(run_probe(vec![Exchange::WriteFailed, ok_response()]), (false, 1));
    assert_eq!(run_probe(vec![Exchange::ReadFailed, ok_response()]), (false, 1));
    assert_eq!(
        run_probe(vec![Exchange::ConnectFailed, Exchange::ReadFailed, ok_response()]),
        (false, 2)
    );
}

#[test]
fn probe_next_on_single_steps() {
    assert_eq!(probe_next(0, 2, &Exchange::ConnectFailed), ProbeStep::Connect(1));
    assert_eq!(
        probe_next(1, 2, &Exchange::ConnectFailed),
        ProbeStep::Done(ProbeResult { reachable: false })
    );
    assert_eq!(
        probe_next(usize::MAX, usize::MAX, &Exchange::ConnectFailed),
        ProbeStep::Done(ProbeResult { reachable: false })
    );
    assert_eq!(probe_next(0, 5, &ok_response()), ProbeStep::Done(ProbeResult { reachable: true }));
}
