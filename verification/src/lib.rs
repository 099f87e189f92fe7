//! Link-layer raw-socket support: an interface-request codec, a link-layer
//! socket-address builder, and the state machine of a raw packet socket.
//!
//! The codec and the builder are pure byte-level constructions. The socket is
//! modelled as a state machine over the outcomes of the platform's socket
//! primitives; the caller performs the actual system calls and hands each
//! outcome back to the machine, which decides the next state and the typed
//! result.
use vstd::prelude::*;

pub mod if_req;
pub mod ll_addr;
pub mod raw_socket;

verus! {

/// The errors this library reports. Each OS-level failure carries the
/// platform error code verbatim; the state errors are programming errors
/// caught before any platform call is made.
#[derive(Clone, Copy, Debug, PartialEq, Eq, Structural)]
pub enum SockError {
    /// The interface name does not fit the fixed request buffer.
    NameTooLong,
    /// The socket-open primitive returned an invalid handle.
    SocketCreateFailed(i32),
    /// The name-to-index query failed: the interface is absent or inaccessible.
    InterfaceResolutionFailed,
    /// The bind primitive failed for a resolved interface.
    BindFailed(i32),
    /// The send primitive failed.
    SendFailed(i32),
    /// The receive primitive failed with other than a benign interrupt.
    ReceiveFailed(i32),
    /// An open outcome was handed to a socket that already left `Unopened`.
    AlreadyOpen,
    /// A bind was attempted on a socket that holds no open handle.
    NotOpen,
    /// A second bind was attempted on a socket that is already bound.
    AlreadyBound,
    /// A send or receive was attempted before a successful bind.
    NotBound,
}

} // verus!
