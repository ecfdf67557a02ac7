//! The client side of the handshake: how a client declares its [`ClientType`], and how the server
//! reads that declaration back.

mod private;

use crate::scanner_shared::{
    CameraToServerMsg, ClientType, ControllerToServerMsg, DECLARE_CLIENT_TYPE_MAGIC,
};
use vstd::prelude::*;

verus! {

/// The four bytes that declare a client type: the magic numbers, then the type's byte.
pub open spec fn declaration_bytes(t: ClientType) -> Seq<u8> {
    seq![0xBEu8, 0xEFu8, 0xAFu8, t.spec_byte()]
}

/// A trait that's implemented on both [`CameraToServerMsg`] and [`ControllerToServerMsg`], so that
/// a generic client can open its connection with the right declaration.
pub trait ClientToServerMsg: private::Sealed + Sized {
    /// The type of client that sends messages of this type.
    spec fn spec_client_type() -> ClientType;

    /// Is this message the `DeclareClientType` message?
    spec fn spec_is_declaration(&self) -> bool;

    /// Make a `DeclareClientType` message.
    fn make_declare_client_type_message() -> (r: Self)
        ensures
            r.spec_is_declaration(),
    ;

    /// If this message is a `DeclareClientType`, return the relevant `[u8; 4]`, else [`None`].
    fn is_declare_client_type_message(&self) -> (r: Option<[u8; 4]>)
        ensures
            r is Some <==> self.spec_is_declaration(),
            r matches Some(b) ==> b@ == declaration_bytes(Self::spec_client_type()),
    ;
}

/// The declaration of the given client type, built from [`DECLARE_CLIENT_TYPE_MAGIC`].
pub fn make_declaration(t: ClientType) -> (r: [u8; 4])
    ensures
        r@ == declaration_bytes(t),
{
    let magic = DECLARE_CLIENT_TYPE_MAGIC;
    let r = [magic[0], magic[1], magic[2], t.as_byte()];
    assert(r@ =~= declaration_bytes(t));
    r
}

impl ClientToServerMsg for CameraToServerMsg {
    open spec fn spec_client_type() -> ClientType {
        ClientType::Camera
    }

    open spec fn spec_is_declaration(&self) -> bool {
        *self is DeclareClientType
    }

    fn make_declare_client_type_message() -> (r: Self) {
        CameraToServerMsg::DeclareClientType
    }

    fn is_declare_client_type_message(&self) -> (r: Option<[u8; 4]>) {
        match self {
            CameraToServerMsg::DeclareClientType => Some(make_declaration(ClientType::Camera)),
            _ => None,
        }
    }
}

impl ClientToServerMsg for ControllerToServerMsg {
    open spec fn spec_client_type() -> ClientType {
        ClientType::Controller
    }

    open spec fn spec_is_declaration(&self) -> bool {
        *self is DeclareClientType
    }

    fn make_declare_client_type_message() -> (r: Self) {
        ControllerToServerMsg::DeclareClientType
    }

    fn is_declare_client_type_message(&self) -> (r: Option<[u8; 4]>) {
        match self {
            ControllerToServerMsg::DeclareClientType => Some(
                make_declaration(ClientType::Controller),
            ),
            _ => None,
        }
    }
}

/// Why the first message of a connection was not a valid client type declaration.
#[derive(Clone, Copy, Debug, PartialEq, Eq, Structural)]
pub enum DeclarationError {
    /// The message is not four bytes starting with [`DECLARE_CLIENT_TYPE_MAGIC`].
    NotADeclaration,
    /// The magic numbers are right, but the last byte stands for no client type.
    UnknownClientType(u8),
}

/// What reading the first message of a connection as a declaration gives.
pub open spec fn parse_declaration_spec(bytes: Seq<u8>) -> Result<ClientType, DeclarationError> {
    if bytes.len() == 4 && bytes[0] == 0xBE && bytes[1] == 0xEF && bytes[2] == 0xAF {
        match ClientType::from_byte_spec(bytes[3]) {
            Some(t) => Ok(t),
            None => Err(DeclarationError::UnknownClientType(bytes[3])),
        }
    } else {
        Err(DeclarationError::NotADeclaration)
    }
}

/// Read the first message of a connection as a [`ClientType`] declaration.
pub fn parse_client_type_declaration(bytes: &[u8]) -> (r: Result<ClientType, DeclarationError>)
    ensures
        r == parse_declaration_spec(bytes@),
        r matches Ok(t) ==> bytes@ == declaration_bytes(t),
{
    let magic = DECLARE_CLIENT_TYPE_MAGIC;
    if bytes.len() == 4 && bytes[0] == magic[0] && bytes[1] == magic[1] && bytes[2] == magic[2] {
        let r = match ClientType::try_from(bytes[3]) {
            Ok(t) => Ok(t),
            Err(_) => Err(DeclarationError::UnknownClientType(bytes[3])),
        };
        proof {
            if let Ok(t) = r {
                assert(bytes@ =~= declaration_bytes(t));
            }
        }
        r
    } else {
        Err(DeclarationError::NotADeclaration)
    }
}

/// A declaration made by a client is read back by the server as the same client type, and no
/// other client type's declaration is read as it.
pub proof fn law_declaration_round_trip(t: ClientType, u: ClientType)
    ensures
        parse_declaration_spec(declaration_bytes(t)) == Ok::<ClientType, DeclarationError>(t),
        declaration_bytes(t) == declaration_bytes(u) ==> t == u,
{
    if declaration_bytes(t) == declaration_bytes(u) {
        assert(declaration_bytes(t)[3] == declaration_bytes(u)[3]);
    }
}

/// The declaration that a client's `DeclareClientType` message is sent as is read back by the
/// server as that client's type.
pub proof fn law_client_declaration_is_understood<M: ClientToServerMsg>(msg: M, bytes: [u8; 4])
    requires
        msg.spec_is_declaration(),
        bytes@ == declaration_bytes(M::spec_client_type()),
    ensures
        parse_declaration_spec(bytes@) == Ok::<ClientType, DeclarationError>(M::spec_client_type()),
{
    law_declaration_round_trip(M::spec_client_type(), M::spec_client_type());
}

} // verus!
