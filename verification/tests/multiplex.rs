use fregate::multiplex::{grpc_content_type_bytes, route_index, GRPC_INDEX, REST_INDEX};

#[test]
fn grpc_content_type_routes_to_grpc() {
    let header = b"application/grpc".to_vec();
    assert_eq!(route_index(Some(header.as_slice())), GRPC_INDEX);
}

#[test]
fn absent_header_routes_to_rest() {
    assert_eq!(route_index(None), REST_INDEX);
}

#[test]
fn text_plain_routes_to_rest() {
    let header = b"text/plain".to_vec();
    assert_eq!(route_index(Some(header.as_slice())), REST_INDEX);
}

#[test]
fn parameterized_grpc_subtype_routes_to_rest() {
    let header = b"application/grpc+proto".to_vec();
    assert_eq!(route_index(Some(header.as_slice())), REST_INDEX);
}

#[test]
fn different_case_routes_to_rest() {
    let header = b"Application/Grpc".to_vec();
    assert_eq!(route_index(Some(header.as_slice())), REST_INDEX);
}

#[test]
fn empty_header_routes_to_rest() {
    let header: Vec<u8> = Vec::new();
    assert_eq!(route_index(Some(header.as_slice())), REST_INDEX);
}

#[test]
fn grpc_content_type_bytes_spells_the_literal() {
    assert_eq!(grpc_content_type_bytes(), b"application/grpc".to_vec());
}
