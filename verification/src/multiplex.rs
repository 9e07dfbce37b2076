//! Protocol multiplexer: selects between the REST service and the gRPC
//! service for each inbound request, based solely on the request's
//! `Content-Type` header. The rule is an exact byte match against
//! `application/grpc`; any other value (absent, different, or a parameterized
//! subtype such as `application/grpc+proto`) routes to REST.

use vstd::prelude::*;

verus! {

/// Index of the REST service in the composite service's service list.
pub const REST_INDEX: usize = 0;

/// Index of the gRPC service in the composite service's service list.
pub const GRPC_INDEX: usize = 1;

/// The bytes of the literal content type `application/grpc`, the sole value
/// that routes a request to the gRPC service.
pub open spec fn grpc_content_type() -> Seq<u8> {
    seq![
        97u8, 112u8, 112u8, 108u8, 105u8, 99u8, 97u8, 116u8, 105u8, 111u8, 110u8, 47u8, 103u8,
        114u8, 112u8, 99u8,
    ]
}

/// Whether a request with the given `Content-Type` header value (`None` when
/// the header is absent) is classified as a gRPC request.
pub open spec fn is_grpc(content_type: Option<Seq<u8>>) -> bool {
    content_type matches Some(ct) && ct == grpc_content_type()
}

/// The index of the service a request with the given `Content-Type` header
/// is dispatched to.
pub open spec fn route_of(content_type: Option<Seq<u8>>) -> int {
    if is_grpc(content_type) {
        GRPC_INDEX as int
    } else {
        REST_INDEX as int
    }
}

/// The exact bytes of `application/grpc`, as a vector.
pub fn grpc_content_type_bytes() -> (v: Vec<u8>)
    ensures
        v@ == grpc_content_type(),
{
    let mut v: Vec<u8> = Vec::new();
    v.push(97);  // a
    v.push(112);  // p
    v.push(112);  // p
    v.push(108);  // l
    v.push(105);  // i
    v.push(99);  // c
    v.push(97);  // a
    v.push(116);  // t
    v.push(105);  // i
    v.push(111);  // o
    v.push(110);  // n
    v.push(47);  // /
    v.push(103);  // g
    v.push(114);  // r
    v.push(112);  // p
    v.push(99);  // c
    proof {
        assert(v@ =~= grpc_content_type());
    }
    v
}

/// Byte-slice equality.
fn bytes_eq(a: &[u8], b: &[u8]) -> (r: bool)
    ensures
        r == (a@ == b@),
{
    if a.len() != b.len() {
        proof {
            assert(a@ != b@);
        }
        return false;
    }
    let mut i: usize = 0;
    while i < a.len()
        invariant
            i <= a.len(),
            a.len() == b.len(),
            forall|j: int| 0 <= j < i ==> a@[j] == b@[j],
        decreases a.len() - i,
    {
        if a[i] != b[i] {
            proof {
                assert(a@ != b@);
            }
            return false;
        }
        i += 1;
    }
    proof {
        assert(a@ =~= b@);
    }
    true
}

/// The per-request selection rule of the multiplexer: returns the index of
/// the service the request must be dispatched to, given the raw bytes of its
/// `Content-Type` header (`None` when the header is absent). Exactly the
/// literal value `application/grpc` selects the gRPC service; everything
/// else selects the REST service.
pub fn route_index(content_type: Option<&[u8]>) -> (i: usize)
    ensures
        i as int == route_of(match content_type {
            Some(ct) => Some(ct@),
            None => None::<Seq<u8>>,
        }),
        i == GRPC_INDEX <==> is_grpc(match content_type {
            Some(ct) => Some(ct@),
            None => None::<Seq<u8>>,
        }),
        i == REST_INDEX || i == GRPC_INDEX,
{
    match content_type {
        Some(ct) => {
            let expected = grpc_content_type_bytes();
            if bytes_eq(ct, expected.as_slice()) {
                GRPC_INDEX
            } else {
                REST_INDEX
            }
        },
        None => REST_INDEX,
    }
}

} // verus!
