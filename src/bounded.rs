//! Fixed-capacity strings and 16-byte addresses: the value types of event payloads.
use vstd::prelude::*;

verus! {

broadcast use vstd::array::group_array_axioms;

/// Capacity of paths, command names and device names.
pub const MAX_STRING_LEN: usize = 4096;

/// Capacity of an argument list.
pub const MAX_ARGV_LEN: usize = 8192;

/// Capacity of short identifiers such as filesystem type names.
pub const MAX_NAME_LEN: usize = 256;

/// An address, always held in IPv6 form; IPv4 addresses are IPv4-mapped.
#[derive(Clone, Copy, Debug, PartialEq, Eq)]
pub struct IpAddr {
    pub v6: [u8; 16],
}

/// The IPv4-mapped form `::ffff:a.b.c.d` of four octets.
pub open spec fn v4_mapped(o: Seq<u8>) -> Seq<u8> {
    seq![0u8, 0, 0, 0, 0, 0, 0, 0, 0, 0, 0xff, 0xff] + o
}

impl IpAddr {
    pub fn from_v4(octets: [u8; 4]) -> (r: IpAddr)
        ensures
            r.v6@ == v4_mapped(octets@),
    {
        let r = IpAddr {
            v6: [
                0,
                0,
                0,
                0,
                0,
                0,
                0,
                0,
                0,
                0,
                0xff,
                0xff,
                octets[0],
                octets[1],
                octets[2],
                octets[3],
            ],
        };
        assert(r.v6@ =~= v4_mapped(octets@));
        r
    }

    pub fn from_v6(octets: [u8; 16]) -> (r: IpAddr)
        ensures
            r.v6@ == octets@,
    {
        IpAddr { v6: octets }
    }
}

/// Two addresses with the same bytes are the same address.
pub proof fn lemma_addr_injective(a: IpAddr, b: IpAddr)
    requires
        a.v6@ == b.v6@,
    ensures
        a == b,
{
    assert(a.v6 =~= b.v6);
}

/// A byte buffer of capacity `N` and an explicit length.
#[derive(Clone, Copy, Debug, PartialEq, Eq)]
pub struct BoundedString<const N: usize> {
    pub data: [u8; N],
    pub len: usize,
}

/// The first `n` bytes of `s`, or all of them when there are fewer.
pub open spec fn truncated(s: Seq<u8>, n: nat) -> Seq<u8> {
    if s.len() <= n {
        s
    } else {
        s.take(n as int)
    }
}

/// The well-formed string of capacity `N` that holds the first `N` bytes of `b`.
pub open spec fn bounded_of<const N: usize>(b: Seq<u8>) -> BoundedString<N> {
    choose|s: BoundedString<N>| s.wf() && s@ == truncated(b, N as nat)
}

impl<const N: usize> View for BoundedString<N> {
    type V = Seq<u8>;

    /// The bytes held; a length above the capacity counts as the capacity.
    open spec fn view(&self) -> Seq<u8> {
        if self.len <= N {
            self.data@.take(self.len as int)
        } else {
            self.data@
        }
    }
}

impl<const N: usize> BoundedString<N> {
    /// The length is within the capacity and every byte past it is zero.
    pub open spec fn wf(&self) -> bool {
        &&& self.len <= N
        &&& forall|i: int| self.len <= i < N ==> self.data@[i] == 0
    }

    pub fn new() -> (r: Self)
        ensures
            r.wf(),
            r.len == 0,
            r@ == Seq::<u8>::empty(),
    {
        let r = BoundedString { data: [0u8; N], len: 0 };
        assert(r@ =~= Seq::<u8>::empty());
        r
    }

    /// Copies at most `N` bytes; whatever lies beyond the capacity is dropped.
    pub fn from_bytes(bytes: &[u8]) -> (r: Self)
        ensures
            r.wf(),
            r.len == if bytes@.len() <= N {
                bytes@.len()
            } else {
                N as nat
            },
            r@ == truncated(bytes@, N as nat),
            r == bounded_of::<N>(bytes@),
    {
        let mut s = Self::new();
        let n = if bytes.len() < N {
            bytes.len()
        } else {
            N
        };
        let mut i: usize = 0;
        while i < n
            invariant
                i <= n <= N,
                n <= bytes@.len(),
                s.len == 0,
                forall|j: int| 0 <= j < i ==> s.data@[j] == bytes@[j],
                forall|j: int| i <= j < N ==> s.data@[j] == 0,
            decreases n - i,
        {
            s.data[i] = bytes[i];
            i = i + 1;
        }
        s.len = n;
        assert(s@ =~= truncated(bytes@, N as nat));
        proof {
            let c = bounded_of::<N>(bytes@);
            lemma_bounded_injective(c, s);
        }
        s
    }

    /// The bytes held.
    pub fn as_bytes(&self) -> (r: &[u8])
        ensures
            r@ == self@,
    {
        let n = if self.len <= N {
            self.len
        } else {
            N
        };
        let all = self.data.as_slice();
        let r = vstd::slice::slice_subrange(all, 0, n);
        assert(r@ =~= self@);
        r
    }

    /// A copy of the bytes held.
    pub fn to_vec(&self) -> (r: Vec<u8>)
        ensures
            r@ == self@,
    {
        vstd::slice::slice_to_vec(self.as_bytes())
    }
}

impl<const N: usize> Default for BoundedString<N> {
    fn default() -> (r: Self)
        ensures
            r.wf(),
            r@ == Seq::<u8>::empty(),
    {
        Self::new()
    }
}

/// Two well-formed strings that hold the same bytes are equal.
pub proof fn lemma_bounded_injective<const N: usize>(a: BoundedString<N>, b: BoundedString<N>)
    requires
        a.wf(),
        b.wf(),
        a@ == b@,
    ensures
        a == b,
{
    assert(a@.len() == a.len && b@.len() == b.len);
    assert forall|i: int| 0 <= i < N implies a.data@[i] == b.data@[i] by {
        if i < a.len {
            assert(a.data@[i] == a@[i]);
            assert(b.data@[i] == b@[i]);
        }
    }
    assert(a.data =~= b.data);
}

} // verus!
