//! The interface-request codec: builds the fixed-layout request record that
//! interface queries use, and decodes the union region of a filled-in record
//! as a socket address, a 32-bit integer or a 16-bit integer.
//!
//! The union region is kept as a flat byte buffer with typed read accessors,
//! because its meaning depends entirely on which kernel query filled it. The
//! accessors read big-endian values; the caller picks the accessor that
//! matches the query it actually issued.
use vstd::prelude::*;
use vstd::slice::slice_to_vec;
use vstd::string::StringSliceAdditionalSpecFns;

use crate::SockError;

verus! {

/// Size of the fixed interface-name buffer, the implicit terminator included.
pub const IFNAMESIZE: usize = 16;

/// Size of the union region of an interface request.
pub const IFREQUNIONSIZE: usize = 24;

/// A sequence of `n` zero bytes.
pub open spec fn zero_seq(n: nat) -> Seq<u8> {
    Seq::new(n, |i: int| 0u8)
}

/// A name that fits the buffer, followed by zero padding up to the buffer size.
pub open spec fn padded_name(name: Seq<u8>) -> Seq<u8>
    recommends
        name.len() <= IFNAMESIZE,
{
    name + zero_seq((IFNAMESIZE - name.len()) as nat)
}

/// The unsigned value of two bytes read in big-endian order.
pub open spec fn be_u16_value(b0: u8, b1: u8) -> int {
    b0 * 0x100 + b1
}

/// The unsigned value of four bytes read in big-endian order.
pub open spec fn be_u32_value(b0: u8, b1: u8, b2: u8, b3: u8) -> int {
    b0 * 0x1000000 + b1 * 0x10000 + b2 * 0x100 + b3
}

/// The two's-complement reading of the big-endian 16-bit value of two bytes.
pub open spec fn be_i16_value(b0: u8, b1: u8) -> int {
    if be_u16_value(b0, b1) < 0x8000 {
        be_u16_value(b0, b1)
    } else {
        be_u16_value(b0, b1) - 0x10000
    }
}

/// The two's-complement reading of the big-endian 32-bit value of four bytes.
pub open spec fn be_i32_value(b0: u8, b1: u8, b2: u8, b3: u8) -> int {
    if be_u32_value(b0, b1, b2, b3) < 0x80000000 {
        be_u32_value(b0, b1, b2, b3)
    } else {
        be_u32_value(b0, b1, b2, b3) - 0x100000000
    }
}

/// The two's-complement reading of one byte.
pub open spec fn signed_byte(b: u8) -> int {
    if b < 0x80 {
        b as int
    } else {
        b - 0x100
    }
}

/// The four-byte big-endian encoding of an unsigned 32-bit value.
pub open spec fn be_bytes_u32(n: u32) -> Seq<u8> {
    seq![
        (n / 0x1000000) as u8,
        ((n / 0x10000) % 0x100) as u8,
        ((n / 0x100) % 0x100) as u8,
        (n % 0x100) as u8,
    ]
}

/// A vector of `n` zero bytes.
pub(crate) fn zero_bytes(n: usize) -> (r: Vec<u8>)
    ensures
        r@ == zero_seq(n as nat),
{
    let mut v: Vec<u8> = Vec::new();
    let mut i: usize = 0;
    while i < n
        invariant
            i <= n,
            v@.len() == i,
            forall|j: int| 0 <= j < i ==> v@[j] == 0u8,
        decreases n - i,
    {
        v.push(0u8);
        i = i + 1;
    }
    proof {
        assert(v@ =~= zero_seq(n as nat));
    }
    v
}

/// The union region of an interface request: a flat byte buffer reinterpreted
/// through typed accessors, one per kind of kernel query.
#[derive(Debug, PartialEq, Eq)]
pub struct IfReqUnion {
    pub data: Vec<u8>,
}

impl IfReqUnion {
    /// The buffer has exactly the platform-defined union size.
    pub open spec fn wf(self) -> bool {
        self.data@.len() == IFREQUNIONSIZE
    }

    /// The big-endian family tag in the first two bytes.
    pub open spec fn spec_family(self) -> int {
        be_u16_value(self.data@[0], self.data@[1])
    }

    /// The big-endian signed 32-bit value in the first four bytes.
    pub open spec fn spec_int(self) -> int {
        be_i32_value(self.data@[0], self.data@[1], self.data@[2], self.data@[3])
    }

    /// The big-endian signed 16-bit value in the first two bytes.
    pub open spec fn spec_short(self) -> int {
        be_i16_value(self.data@[0], self.data@[1])
    }

    /// Reads the union region as a socket address: a big-endian 16-bit family
    /// tag, then fourteen address bytes normalized to signed bytes.
    pub(crate) fn as_sockaddr(&self) -> (r: SockAddr)
        requires
            self.wf(),
        ensures
            r.wf(),
            r.sa_family == self.spec_family(),
            forall|i: int| 0 <= i < 14 ==> r.sa_data@[i] == signed_byte(self.data@[2 + i]),
    {
        let sa_family: u16 = (self.data[0] as u16) * 0x100 + (self.data[1] as u16);
        let mut sa_data: Vec<i8> = Vec::new();
        let mut i: usize = 0;
        while i < 14
            invariant
                self.wf(),
                i <= 14,
                sa_data@.len() == i,
                forall|j: int| 0 <= j < i ==> sa_data@[j] == signed_byte(self.data@[2 + j]),
            decreases 14 - i,
        {
            let b: u8 = self.data[2 + i];
            let s: i8 = if b < 0x80 {
                b as i8
            } else {
                ((b as i16) - 0x100) as i8
            };
            sa_data.push(s);
            i = i + 1;
        }
        SockAddr { sa_family, sa_data }
    }

    /// Reads the first four bytes as a big-endian 32-bit integer.
    pub(crate) fn as_int(&self) -> (r: i32)
        requires
            self.wf(),
        ensures
            r as int == self.spec_int(),
    {
        let v: u32 = (self.data[0] as u32) * 0x1000000 + (self.data[1] as u32) * 0x10000 + (
        self.data[2] as u32) * 0x100 + (self.data[3] as u32);
        if v < 0x80000000 {
            v as i32
        } else {
            ((v as i64) - 0x100000000i64) as i32
        }
    }

    /// Reads the first two bytes as a big-endian 16-bit integer.
    pub(crate) fn as_short(&self) -> (r: i16)
        requires
            self.wf(),
        ensures
            r as int == self.spec_short(),
    {
        let v: u16 = (self.data[0] as u16) * 0x100 + (self.data[1] as u16);
        if v < 0x8000 {
            v as i16
        } else {
            ((v as i32) - 0x10000i32) as i16
        }
    }
}

impl Default for IfReqUnion {
    /// An empty union region: every byte zero.
    fn default() -> (r: IfReqUnion)
        ensures
            r.wf(),
            r.data@ == zero_seq(IFREQUNIONSIZE as nat),
    {
        IfReqUnion { data: zero_bytes(IFREQUNIONSIZE) }
    }
}

/// A plain socket-address record: a family tag and fourteen signed address
/// bytes, laid out as the platform's generic address structure reads them.
#[derive(Debug, PartialEq, Eq)]
pub struct SockAddr {
    pub sa_family: u16,
    pub sa_data: Vec<i8>,
}

impl SockAddr {
    /// The record carries exactly fourteen address bytes.
    pub open spec fn wf(self) -> bool {
        self.sa_data@.len() == 14
    }
}

/// The fixed-layout interface request: a bounded name buffer paired with the
/// union region a kernel query fills.
#[derive(Debug, PartialEq, Eq)]
pub struct IfReq {
    pub ifr_name: Vec<u8>,
    pub union_data: IfReqUnion,
}

impl IfReq {
    /// The name buffer and the union region have their fixed sizes.
    pub open spec fn wf(self) -> bool {
        self.ifr_name@.len() == IFNAMESIZE && self.union_data.wf()
    }

    /// Builds a request carrying `if_name` zero-padded, with a zeroed union
    /// region, so the record holds no uninitialized byte. A name that leaves
    /// no room for the implicit terminator is rejected here, before any
    /// platform call could be made with it.
    pub fn with_if_name(if_name: &str) -> (r: Result<IfReq, SockError>)
        ensures
            if_name.spec_bytes().len() < IFNAMESIZE ==> (r matches Ok(req) && req.wf()
                && req.ifr_name@ == padded_name(if_name.spec_bytes())
                && req.union_data.data@ == zero_seq(IFREQUNIONSIZE as nat)),
            if_name.spec_bytes().len() >= IFNAMESIZE ==> r == Err::<IfReq, SockError>(
                SockError::NameTooLong,
            ),
    {
        let bytes: &[u8] = if_name.as_bytes();
        if bytes.len() >= IFNAMESIZE {
            return Err(SockError::NameTooLong);
        }
        let mut name: Vec<u8> = Vec::new();
        let mut i: usize = 0;
        while i < bytes.len()
            invariant
                bytes@.len() < IFNAMESIZE,
                i <= bytes@.len(),
                name@.len() == i,
                forall|j: int| 0 <= j < i ==> name@[j] == bytes@[j],
            decreases bytes@.len() - i,
        {
            name.push(*vstd::slice::slice_index_get(bytes, i));
            i = i + 1;
        }
        while i < IFNAMESIZE
            invariant
                bytes@.len() < IFNAMESIZE,
                bytes@.len() <= i <= IFNAMESIZE,
                name@.len() == i,
                forall|j: int| 0 <= j < bytes@.len() ==> name@[j] == bytes@[j],
                forall|j: int| bytes@.len() <= j < i ==> name@[j] == 0u8,
            decreases IFNAMESIZE - i,
        {
            name.push(0u8);
            i = i + 1;
        }
        proof {
            assert(name@ =~= padded_name(if_name.spec_bytes()));
        }
        Ok(IfReq { ifr_name: name, union_data: IfReqUnion::default() })
    }

    /// Overwrites the union region with the bytes a kernel query produced,
    /// leaving the name untouched.
    pub fn fill_union(&mut self, data: &[u8])
        requires
            old(self).wf(),
            data@.len() == IFREQUNIONSIZE,
        ensures
            final(self).wf(),
            final(self).union_data.data@ == data@,
            final(self).ifr_name@ == old(self).ifr_name@,
    {
        self.union_data = IfReqUnion { data: slice_to_vec(data) };
    }

    /// The union region read as the hardware address the kernel reported.
    pub fn ifr_hwaddr(&self) -> (r: SockAddr)
        requires
            self.wf(),
        ensures
            r.wf(),
            r.sa_family == self.union_data.spec_family(),
            forall|i: int| 0 <= i < 14 ==> r.sa_data@[i] == signed_byte(self.union_data.data@[2 + i]),
    {
        self.union_data.as_sockaddr()
    }

    /// The union region read as the broadcast address the kernel reported.
    pub fn ifr_broadaddr(&self) -> (r: SockAddr)
        requires
            self.wf(),
        ensures
            r.wf(),
            r.sa_family == self.union_data.spec_family(),
            forall|i: int| 0 <= i < 14 ==> r.sa_data@[i] == signed_byte(self.union_data.data@[2 + i]),
    {
        self.union_data.as_sockaddr()
    }

    /// The union region read as the interface index, big-endian.
    pub fn ifr_ifindex(&self) -> (r: i32)
        requires
            self.wf(),
        ensures
            r as int == self.union_data.spec_int(),
    {
        self.union_data.as_int()
    }

    /// The union region read as the media type, big-endian.
    pub fn ifr_media(&self) -> (r: i32)
        requires
            self.wf(),
        ensures
            r as int == self.union_data.spec_int(),
    {
        self.union_data.as_int()
    }

    /// The union region read as the interface flags, big-endian.
    pub fn ifr_flags(&self) -> (r: i16)
        requires
            self.wf(),
        ensures
            r as int == self.union_data.spec_short(),
    {
        self.union_data.as_short()
    }
}

impl Default for IfReq {
    /// An empty request: name buffer and union region all zero.
    fn default() -> (r: IfReq)
        ensures
            r.wf(),
            r.ifr_name@ == zero_seq(IFNAMESIZE as nat),
            r.union_data.data@ == zero_seq(IFREQUNIONSIZE as nat),
    {
        IfReq { ifr_name: zero_bytes(IFNAMESIZE), union_data: IfReqUnion::default() }
    }
}

/// A name shorter than the buffer round-trips through the built request: the
/// padded name field starts with exactly the original bytes and carries zero
/// padding in every position after them.
pub proof fn lemma_name_round_trip(name: Seq<u8>)
    requires
        name.len() < IFNAMESIZE,
    ensures
        padded_name(name).len() == IFNAMESIZE,
        padded_name(name).take(name.len() as int) == name,
        forall|i: int| name.len() <= i < IFNAMESIZE ==> padded_name(name)[i] == 0u8,
{
    assert(padded_name(name).take(name.len() as int) =~= name);
}

/// Byte-order law of the index accessor: decoding the four-byte big-endian
/// encoding of a 32-bit value yields that value back, and for values that fit
/// the signed range the signed reading agrees.
pub proof fn lemma_index_round_trip(n: u32)
    ensures
        be_u32_value(
            be_bytes_u32(n)[0],
            be_bytes_u32(n)[1],
            be_bytes_u32(n)[2],
            be_bytes_u32(n)[3],
        ) == n,
        n < 0x80000000 ==> be_i32_value(
            be_bytes_u32(n)[0],
            be_bytes_u32(n)[1],
            be_bytes_u32(n)[2],
            be_bytes_u32(n)[3],
        ) == n,
{
    assert(be_u32_value(
        be_bytes_u32(n)[0],
        be_bytes_u32(n)[1],
        be_bytes_u32(n)[2],
        be_bytes_u32(n)[3],
    ) == n) by (bit_vector);
}

} // verus!
