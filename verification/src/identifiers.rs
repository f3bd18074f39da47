//! The identities that a handshake is bound to.

use vstd::prelude::*;

use crate::bytes::copy_of;
use crate::errors::ProtocolError;

verus! {

/// The greatest length of an identity or a context: it has to fit the two
/// bytes of its length prefix.
pub const MAX_PREFIXED_LEN: usize = 0xffff;

/// Identities chosen by the application. One that is left out defaults to
/// the public key of its party.
#[derive(Debug)]
pub struct Identifiers {
    pub client: Option<Vec<u8>>,
    pub server: Option<Vec<u8>>,
}

/// The client identity that is in force: the chosen one, else the client's
/// public key.
pub open spec fn spec_id_u(ids: Option<Identifiers>, client_s_pk: Seq<u8>) -> Seq<u8> {
    match ids {
        Some(Identifiers { client: Some(id), .. }) => id@,
        _ => client_s_pk,
    }
}

/// The server identity that is in force: the chosen one, else the server's
/// public key.
pub open spec fn spec_id_s(ids: Option<Identifiers>, server_s_pk: Seq<u8>) -> Seq<u8> {
    match ids {
        Some(Identifiers { server: Some(id), .. }) => id@,
        _ => server_s_pk,
    }
}

/// Whether both identities in force fit a two-byte length prefix.
pub open spec fn ids_fit(ids: Option<Identifiers>, client_s_pk: Seq<u8>, server_s_pk: Seq<u8>) -> bool {
    &&& spec_id_u(ids, client_s_pk).len() <= MAX_PREFIXED_LEN
    &&& spec_id_s(ids, server_s_pk).len() <= MAX_PREFIXED_LEN
}

/// The identities in force, `(id_u, id_s)`: each one as chosen, else the
/// public key of its party. Fails with `SerializationError` exactly where
/// one of them is longer than a two-byte length prefix can say.
pub fn bytestrings_from_identifiers(
    ids: &Option<Identifiers>,
    client_s_pk: &[u8],
    server_s_pk: &[u8],
) -> (r: Result<(Vec<u8>, Vec<u8>), ProtocolError>)
    ensures
        r is Ok <==> ids_fit(*ids, client_s_pk@, server_s_pk@),
        r matches Ok((id_u, id_s)) ==> id_u@ == spec_id_u(*ids, client_s_pk@) && id_s@ == spec_id_s(
            *ids,
            server_s_pk@,
        ),
        r matches Err(e) ==> e == ProtocolError::SerializationError,
{
    let id_u = match ids {
        Some(Identifiers { client: Some(id), .. }) => copy_of(id.as_slice()),
        _ => copy_of(client_s_pk),
    };
    let id_s = match ids {
        Some(Identifiers { server: Some(id), .. }) => copy_of(id.as_slice()),
        _ => copy_of(server_s_pk),
    };
    if id_u.len() > MAX_PREFIXED_LEN || id_s.len() > MAX_PREFIXED_LEN {
        return Err(ProtocolError::SerializationError);
    }
    Ok((id_u, id_s))
}

} // verus!
