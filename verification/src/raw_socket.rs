//! The raw socket: the state machine of one kernel packet-socket handle.
//!
//! The machine runs `Unopened -> Open -> Bound -> Closed`, with `Closed`
//! terminal. The socket never performs a platform call itself: the caller
//! issues socket-open, interface-index query, bind, send and receive, and
//! hands each outcome back; the machine decides the next state and the typed
//! result. Out-of-order operations are state errors caught here, so the
//! corresponding primitive is never invoked; every OS failure is returned
//! with its platform code, never swallowed; and the one handle is released
//! exactly once, whatever failed before.
use vstd::prelude::*;
use vstd::string::StringSliceAdditionalSpecFns;

use crate::SockError;
use crate::if_req::IFNAMESIZE;
use crate::if_req::IFREQUNIONSIZE;
use crate::if_req::IfReq;
use crate::if_req::padded_name;
use crate::if_req::zero_seq;
use crate::ll_addr::SockAddrLl;

verus! {

/// The platform code of the benign interrupt a blocking receive absorbs.
pub const EINTR_CODE: i32 = 4;

/// Lifecycle of a raw socket. `Closed` is terminal: reopening requires a new
/// instance.
#[derive(Clone, Copy, Debug, PartialEq, Eq, Structural)]
pub enum SocketState {
    Unopened,
    Open,
    Bound,
    Closed,
}

/// The decision one receive outcome leads to.
#[derive(Clone, Copy, Debug, PartialEq, Eq, Structural)]
pub enum RecvStep {
    /// The call was interrupted benignly; the caller reissues it.
    Retry,
    /// One frame arrived: the bytes written, and the sender-address length
    /// the kernel reported.
    Done { length: usize, addr_len: u32 },
    /// The receive failed for good.
    Fail(SockError),
}

/// A raw packet socket: owns one kernel handle for its lifetime, and retains
/// the interface request it was created for so sends can reuse its address.
#[derive(Debug, PartialEq, Eq)]
pub struct RawSocket {
    /// The kernel handle; a small non-negative integer once the socket is
    /// open, `-1` before.
    pub handle: i32,
    /// The protocol identifier the socket was created for, in host order.
    pub protocol: u16,
    /// The interface request retained from construction.
    pub interface: IfReq,
    /// The address bound to, present exactly from a successful bind on.
    pub address: Option<SockAddrLl>,
    pub state: SocketState,
}

impl RawSocket {
    /// A handle exists exactly while the socket is open or bound, and a bound
    /// socket retains the address it was bound with.
    pub open spec fn wf(self) -> bool {
        &&& self.interface.wf()
        &&& (self.state is Unopened ==> self.handle == -1)
        &&& ((self.state is Open || self.state is Bound) ==> self.handle >= 0)
        &&& (self.state is Bound ==> self.address is Some)
        &&& (self.address matches Some(a) ==> a.wf())
    }

    /// What recording a socket-open outcome does: from `Unopened`, a valid
    /// (non-negative) handle moves the socket to `Open`; an invalid one
    /// reports the creation failure with its platform code. Any other state
    /// refuses the outcome unchanged.
    pub open spec fn opened_spec(s: RawSocket, handle: i32, os_error: i32) -> (RawSocket, Result<
        (),
        SockError,
    >) {
        if !(s.state is Unopened) {
            (s, Err(SockError::AlreadyOpen))
        } else if handle >= 0 {
            (RawSocket { handle, state: SocketState::Open, ..s }, Ok(()))
        } else {
            (s, Err(SockError::SocketCreateFailed(os_error)))
        }
    }

    /// What recording a bind outcome does: a bound socket refuses the attempt
    /// unchanged, a socket without an open handle likewise; from `Open`, a
    /// successful outcome retains the address and moves to `Bound`, a failed
    /// one reports its platform code and stays `Open`.
    pub open spec fn bind_spec(
        s: RawSocket,
        address: SockAddrLl,
        bind_result: i32,
        os_error: i32,
    ) -> (RawSocket, Result<(), SockError>) {
        if s.state is Bound {
            (s, Err(SockError::AlreadyBound))
        } else if !(s.state is Open) {
            (s, Err(SockError::NotOpen))
        } else if bind_result >= 0 {
            (RawSocket { address: Some(address), state: SocketState::Bound, ..s }, Ok(()))
        } else {
            (s, Err(SockError::BindFailed(os_error)))
        }
    }

    /// What closing does: an open or bound socket hands back its handle, the
    /// one value left to release; otherwise there is nothing to release.
    /// Either way the socket ends `Closed`.
    pub open spec fn close_spec(s: RawSocket) -> (RawSocket, Option<i32>) {
        if s.state is Open || s.state is Bound {
            (RawSocket { state: SocketState::Closed, ..s }, Some(s.handle))
        } else {
            (RawSocket { state: SocketState::Closed, ..s }, None)
        }
    }

    /// Begins the lifecycle: checks the interface name and yields an
    /// `Unopened` socket retaining the encoded request and the protocol
    /// identifier. No handle exists yet — an oversized name is rejected here
    /// with `NameTooLong` before any could be allocated. The caller opens a
    /// packet-family raw handle for the protocol and records the outcome with
    /// `opened`.
    pub fn new(interface: &str, protocol: u16) -> (r: Result<RawSocket, SockError>)
        ensures
            interface.spec_bytes().len() < IFNAMESIZE ==> (r matches Ok(s) && s.wf()
                && s.state is Unopened && s.handle == -1 && s.protocol == protocol
                && s.address is None && s.interface.ifr_name@ == padded_name(
                interface.spec_bytes(),
            ) && s.interface.union_data.data@ == zero_seq(IFREQUNIONSIZE as nat)),
            interface.spec_bytes().len() >= IFNAMESIZE ==> r == Err::<RawSocket, SockError>(
                SockError::NameTooLong,
            ),
    {
        match IfReq::with_if_name(interface) {
            Ok(req) => Ok(
                RawSocket {
                    handle: -1,
                    protocol,
                    interface: req,
                    address: None,
                    state: SocketState::Unopened,
                },
            ),
            Err(e) => Err(e),
        }
    }

    /// Records the outcome of the caller's socket-open call, as
    /// `opened_spec` says.
    pub fn opened(&mut self, handle: i32, os_error: i32) -> (r: Result<(), SockError>)
        requires
            old(self).wf(),
        ensures
            final(self).wf(),
            (*final(self), r) == Self::opened_spec(*old(self), handle, os_error),
    {
        match self.state {
            SocketState::Unopened => {
                if handle >= 0 {
                    self.handle = handle;
                    self.state = SocketState::Open;
                    Ok(())
                } else {
                    Err(SockError::SocketCreateFailed(os_error))
                }
            },
            _ => Err(SockError::AlreadyOpen),
        }
    }

    /// The first bind step: refuses out-of-order calls before any platform
    /// primitive could run, then encodes the request the caller hands to the
    /// platform's interface-index query.
    pub fn bind_request(&self, interface: &str) -> (r: Result<IfReq, SockError>)
        requires
            self.wf(),
        ensures
            self.state is Bound ==> r == Err::<IfReq, SockError>(SockError::AlreadyBound),
            (self.state is Unopened || self.state is Closed) ==> r == Err::<IfReq, SockError>(
                SockError::NotOpen,
            ),
            self.state is Open && interface.spec_bytes().len() >= IFNAMESIZE ==> r == Err::<
                IfReq,
                SockError,
            >(SockError::NameTooLong),
            self.state is Open && interface.spec_bytes().len() < IFNAMESIZE ==> (r matches Ok(req)
                && req.wf() && req.ifr_name@ == padded_name(interface.spec_bytes())
                && req.union_data.data@ == zero_seq(IFREQUNIONSIZE as nat)),
    {
        match self.state {
            SocketState::Bound => Err(SockError::AlreadyBound),
            SocketState::Open => IfReq::with_if_name(interface),
            _ => Err(SockError::NotOpen),
        }
    }

    /// Interprets the outcome of the interface-index query: a failed query
    /// means the interface is absent or inaccessible, distinct from a later
    /// bind failure; a successful one carries the index in the request's
    /// union region.
    pub fn resolve_index(request: &IfReq, ioctl_result: i32) -> (r: Result<i32, SockError>)
        requires
            request.wf(),
        ensures
            ioctl_result < 0 ==> r == Err::<i32, SockError>(SockError::InterfaceResolutionFailed),
            ioctl_result >= 0 ==> (r matches Ok(ix) && ix as int == request.union_data.spec_int()),
    {
        if ioctl_result < 0 {
            Err(SockError::InterfaceResolutionFailed)
        } else {
            Ok(request.ifr_ifindex())
        }
    }

    /// Completes a bind: records the outcome of the caller's bind call made
    /// with `address`, as `bind_spec` says. A second bind is refused with
    /// `AlreadyBound`, so the underlying primitive is never retried silently.
    pub fn bind(&mut self, address: SockAddrLl, bind_result: i32, os_error: i32) -> (r: Result<
        (),
        SockError,
    >)
        requires
            old(self).wf(),
            address.wf(),
        ensures
            final(self).wf(),
            (*final(self), r) == Self::bind_spec(*old(self), address, bind_result, os_error),
    {
        match self.state {
            SocketState::Bound => Err(SockError::AlreadyBound),
            SocketState::Open => {
                if bind_result >= 0 {
                    self.address = Some(address);
                    self.state = SocketState::Bound;
                    Ok(())
                } else {
                    Err(SockError::BindFailed(os_error))
                }
            },
            _ => Err(SockError::NotOpen),
        }
    }

    /// The retained address a frame must be addressed with. Only a bound
    /// socket has one: sending in any other state is a state error, caught
    /// before the send primitive could run.
    pub fn send_address(&self) -> (r: Result<&SockAddrLl, SockError>)
        requires
            self.wf(),
        ensures
            self.state is Bound ==> (r matches Ok(a) && self.address == Some(*a)),
            !(self.state is Bound) ==> r == Err::<&SockAddrLl, SockError>(SockError::NotBound),
    {
        match self.state {
            SocketState::Bound => match &self.address {
                Some(a) => Ok(a),
                None => Err(SockError::NotBound),
            },
            _ => Err(SockError::NotBound),
        }
    }

    /// Interprets the outcome of one send call: a negative count is a send
    /// failure carrying its platform code — never retried here, retry policy
    /// belongs to the caller — otherwise the kernel accepted that many bytes.
    pub fn send_outcome(&self, sent: isize, os_error: i32) -> (r: Result<usize, SockError>)
        requires
            self.wf(),
        ensures
            !(self.state is Bound) ==> r == Err::<usize, SockError>(SockError::NotBound),
            self.state is Bound && sent < 0 ==> r == Err::<usize, SockError>(
                SockError::SendFailed(os_error),
            ),
            self.state is Bound && sent >= 0 ==> r == Ok::<usize, SockError>(sent as usize),
    {
        match self.state {
            SocketState::Bound => {
                if sent < 0 {
                    Err(SockError::SendFailed(os_error))
                } else {
                    Ok(sent as usize)
                }
            },
            _ => Err(SockError::NotBound),
        }
    }

    /// Decides one step of a blocking receive: a non-negative count completes
    /// the call with the bytes written and the sender-address length
    /// observed; a benign interrupt is absorbed by asking the caller to
    /// reissue the call, so an interrupted wait never surfaces; any other
    /// failure carries its platform code. Receiving on an unbound socket is a
    /// state error.
    pub fn receive_step(&self, received: isize, os_error: i32, addr_len: u32) -> (r: RecvStep)
        requires
            self.wf(),
        ensures
            !(self.state is Bound) ==> r == RecvStep::Fail(SockError::NotBound),
            self.state is Bound && received >= 0 ==> r == (RecvStep::Done {
                length: received as usize,
                addr_len,
            }),
            self.state is Bound && received < 0 && os_error == EINTR_CODE ==> r == RecvStep::Retry,
            self.state is Bound && received < 0 && os_error != EINTR_CODE ==> r == RecvStep::Fail(
                SockError::ReceiveFailed(os_error),
            ),
    {
        match self.state {
            SocketState::Bound => {
                if received >= 0 {
                    RecvStep::Done { length: received as usize, addr_len }
                } else if os_error == EINTR_CODE {
                    RecvStep::Retry
                } else {
                    RecvStep::Fail(SockError::ReceiveFailed(os_error))
                }
            },
            _ => RecvStep::Fail(SockError::NotBound),
        }
    }

    /// Releases the lifecycle, as `close_spec` says: the first close of an
    /// open or bound socket hands back the one handle the caller must
    /// release; closing an unopened or already closed socket is a no-op that
    /// still ends `Closed`. So the handle is released exactly once on every
    /// path, a failed bind or send notwithstanding.
    pub fn close(&mut self) -> (r: Option<i32>)
        requires
            old(self).wf(),
        ensures
            final(self).wf(),
            (*final(self), r) == Self::close_spec(*old(self)),
    {
        let r = match self.state {
            SocketState::Open | SocketState::Bound => Some(self.handle),
            _ => None,
        };
        self.state = SocketState::Closed;
        r
    }
}

/// After a successful bind the socket is `Bound`, and a second bind attempt —
/// whatever outcome the caller could hand it — is refused with `AlreadyBound`
/// and changes nothing, so the underlying bind primitive need never be
/// invoked again.
pub proof fn lemma_second_bind_rejected(
    s: RawSocket,
    first_addr: SockAddrLl,
    first_result: i32,
    first_error: i32,
    second_addr: SockAddrLl,
    second_result: i32,
    second_error: i32,
)
    requires
        s.state is Open,
        first_result >= 0,
    ensures
        ({
            let (bound, first) = RawSocket::bind_spec(s, first_addr, first_result, first_error);
            let (after, second) = RawSocket::bind_spec(
                bound,
                second_addr,
                second_result,
                second_error,
            );
            first == Ok::<(), SockError>(()) && bound.state is Bound && second == Err::<
                (),
                SockError,
            >(SockError::AlreadyBound) && after == bound
        }),
{
}

/// Close is idempotent: after one close the socket is `Closed`, and a second
/// close returns no handle and changes nothing, so the one handle value is
/// never released twice — a drop after an explicit close has nothing left to
/// release.
pub proof fn lemma_close_idempotent(s: RawSocket)
    ensures
        ({
            let (closed, first) = RawSocket::close_spec(s);
            let (again, second) = RawSocket::close_spec(closed);
            closed.state is Closed && second is None && again == closed
        }),
{
}

} // verus!
