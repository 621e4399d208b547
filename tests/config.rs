use balancer::config::{
    listen_port, unix_socket_backends, ListenConfig, BACKLOG, DEFAULT_BUFFER_SIZE, DEFAULT_PORT,
};
use balancer::error::BalancerError;

fn list(names: &[&str]) -> Vec<String> {
    names.iter().map(|s| s.to_string()).collect()
}

#[test]
fn backends_split_at_commas_in_order() {
    assert_eq!(
        unix_socket_backends("/run/a.sock,/run/b.sock,/run/c.sock"),
        Ok(list(&["/run/a.sock", "/run/b.sock", "/run/c.sock"]))
    );
}

#[test]
fn single_backend_without_comma() {
    assert_eq!(unix_socket_backends("ab"), Ok(list(&["ab"])));
}

#[test]
fn empty_pieces_are_kept() {
    assert_eq!(unix_socket_backends("a,,b"), Ok(list(&["a", "", "b"])));
    assert_eq!(unix_socket_backends(","), Ok(list(&["", ""])));
}

#[test]
fn non_ascii_endpoint_is_kept_whole() {
    assert_eq!(
        unix_socket_backends("/tmp/é.sock,x"),
        Ok(list(&["/tmp/é.sock", "x"]))
    );
}

#[test]
fn empty_backend_list_is_a_configuration_error() {
    assert_eq!(unix_socket_backends(""), Err(BalancerError::Configuration));
}

#[test]
fn port_defaults_when_unset() {
    assert_eq!(listen_port(None), Ok(9999));
    assert_eq!(DEFAULT_PORT, 9999);
}

#[test]
fn port_is_read_in_decimal() {
    assert_eq!(listen_port(Some("8080")), Ok(8080));
    assert_eq!(listen_port(Some("080")), Ok(80));
    assert_eq!(listen_port(Some("0")), Ok(0));
    assert_eq!(listen_port(Some("65535")), Ok(65535));
}

#[test]
fn malformed_port_is_a_configuration_error() {
    assert_eq!(listen_port(Some("")), Err(BalancerError::Configuration));
    assert_eq!(listen_port(Some("65536")), Err(BalancerError::Configuration));
    assert_eq!(listen_port(Some("99999999999")), Err(BalancerError::Configuration));
    assert_eq!(listen_port(Some("80a")), Err(BalancerError::Configuration));
    assert_eq!(listen_port(Some("+80")), Err(BalancerError::Configuration));
    assert_eq!(listen_port(Some(" 80")), Err(BalancerError::Configuration));
}

#[test]
fn listen_config_defaults() {
    let c = ListenConfig::new(9999, None);
    assert_eq!(c.port, 9999);
    assert_eq!(c.buffer_size, 1152);
    assert_eq!(DEFAULT_BUFFER_SIZE, 1152);
    assert_eq!(c.backlog, 2048);
    assert_eq!(BACKLOG, 2048);
    assert!(c.keepalive && c.reuse_address && c.reuse_port);
}

#[test]
fn listen_config_explicit_buffer() {
    let c = ListenConfig::new(80, Some(4096));
    assert_eq!(c.port, 80);
    assert_eq!(c.buffer_size, 4096);
    assert_eq!(c.backlog, 2048);
}
