use scp::delivery::{map_io_error, DeliveryError, RelayEndpoint};
use std::io::{Error, ErrorKind};

#[test]
fn relay_endpoint_id_is_independent_of_address() {
    let tag = [42u8; 32];
    let a = RelayEndpoint::new(tag, "127.0.0.1:7700".to_string());
    let b = RelayEndpoint::new(tag, "127.0.0.1:9999".to_string());
    assert_eq!(
        a.endpoint_id(),
        b.endpoint_id(),
        "endpoint_id must be unaffected by a change in addr"
    );
    assert_ne!(a.addr(), b.addr());
}

#[test]
fn relay_endpoint_at_same_address_can_have_distinct_tags() {
    let a = RelayEndpoint::new([1u8; 32], "127.0.0.1:7700".to_string());
    let b = RelayEndpoint::new([2u8; 32], "127.0.0.1:7700".to_string());
    assert_eq!(a.addr(), b.addr());
    assert_ne!(
        a.endpoint_id(),
        b.endpoint_id(),
        "distinct operator-assigned tags remain distinct pool keys"
    );
}

#[test]
fn io_error_kinds_map_to_expected_delivery_error_variants() {
    assert!(matches!(
        map_io_error(Error::from(ErrorKind::ConnectionRefused)),
        DeliveryError::ConnectionRefused
    ));
    assert!(matches!(map_io_error(Error::from(ErrorKind::TimedOut)), DeliveryError::Timeout));
    assert!(matches!(
        map_io_error(Error::from(ErrorKind::UnexpectedEof)),
        DeliveryError::Protocol(_)
    ));
}

#[test]
fn other_io_errors_are_protocol_errors() {
    assert!(matches!(map_io_error(Error::new(ErrorKind::Other, "boom")), DeliveryError::Protocol(_)));
    assert!(matches!(map_io_error(Error::from(ErrorKind::PermissionDenied)), DeliveryError::Protocol(_)));
}
