//! The interface-request record: the fixed-size argument of the
//! interface-flag ioctls, modeled as plain bytes. It pairs a null-padded
//! interface-name buffer with an opaque union region whose first two bytes
//! carry the interface flags.

use vstd::prelude::*;
use vstd::string::StringSliceAdditionalSpecFns;
use crate::abi::{
    IF_NAME_SIZE, IF_REQ_UNION_SIZE, decode_flags, encode_flags, lemma_flags_round_trip,
    spec_decode_flags, spec_encode_flags,
};
use crate::err::SockError;

verus! {

/// The logical interface name carried by a null-padded name buffer: the
/// bytes before the first null, read as the kernel reads a C string.
pub open spec fn c_name(s: Seq<u8>) -> Seq<u8>
    decreases s.len(),
{
    if s.len() == 0 || s[0] == 0 {
        Seq::empty()
    } else {
        seq![s[0]] + c_name(s.drop_first())
    }
}

/// Whether `s` holds a null byte.
pub open spec fn has_null(s: Seq<u8>) -> bool {
    exists|i: int| 0 <= i < s.len() && s[i] == 0
}

/// The name buffer an interface request carries for the logical name
/// `name`: the name bytes, null-padded to the width of the name field.
/// Meaningful for names shorter than the field.
pub open spec fn padded_name(name: Seq<u8>) -> Seq<u8> {
    name + Seq::new((IF_NAME_SIZE - name.len()) as nat, |i: int| 0u8)
}

/// If the first `n` bytes of `s` are nonzero and byte `n` (or the end of
/// `s`) stops the scan, the logical name is exactly those `n` bytes.
pub proof fn lemma_c_name_prefix(s: Seq<u8>, n: int)
    requires
        0 <= n <= s.len(),
        forall|i: int| 0 <= i < n ==> s[i] != 0,
        n == s.len() || s[n] == 0,
    ensures
        c_name(s) == s.take(n),
    decreases n,
{
    if n == 0 {
        assert(c_name(s) =~= s.take(0));
    } else {
        lemma_c_name_prefix(s.drop_first(), n - 1);
        assert(c_name(s) == seq![s[0]] + c_name(s.drop_first()));
        assert(seq![s[0]] + s.drop_first().take(n - 1) =~= s.take(n));
    }
}

/// A null-free name padded into the name field reads back unchanged.
pub proof fn lemma_c_name_of_padded(name: Seq<u8>)
    requires
        name.len() < IF_NAME_SIZE,
        !has_null(name),
    ensures
        c_name(padded_name(name)) == name,
{
    lemma_c_name_prefix(padded_name(name), name.len() as int);
    assert(padded_name(name).take(name.len() as int) =~= name);
}

/// A vector of `n` zero bytes.
pub fn zero_vec(n: usize) -> (r: Vec<u8>)
    ensures
        r@ == Seq::new(n as nat, |i: int| 0u8),
{
    let mut v: Vec<u8> = Vec::new();
    let mut i: usize = 0;
    while i < n
        invariant
            i <= n,
            v@.len() == i,
            forall|j: int| 0 <= j < i ==> v@[j] == 0u8,
        decreases n - i,
    {
        v.push(0);
        i = i + 1;
    }
    assert(v@ =~= Seq::new(n as nat, |i: int| 0u8));
    v
}

/// One interface-flag request: the fixed-size record handed to the flag
/// ioctls, held as plain bytes.
#[derive(Debug)]
pub struct IfReq {
    /// Null-padded interface-name bytes; always [`IF_NAME_SIZE`] long.
    pub ifr_name: Vec<u8>,
    /// Raw bytes of the union region; always [`IF_REQ_UNION_SIZE`] long.
    pub ifr_union: Vec<u8>,
}

impl IfReq {
    /// Both buffers have their fixed kernel-ABI lengths.
    pub open spec fn wf(&self) -> bool {
        self.ifr_name@.len() == IF_NAME_SIZE && self.ifr_union@.len() == IF_REQ_UNION_SIZE
    }

    /// The flags word carried by the first two union bytes.
    pub open spec fn spec_flags(&self) -> i16 {
        spec_decode_flags(self.ifr_union@[0], self.ifr_union@[1])
    }

    /// A request whose name field holds `if_name` null-padded and whose
    /// union region is zeroed; fails exactly when the name does not fit
    /// the name field.
    pub fn with_if_name(if_name: &str) -> (r: Result<IfReq, SockError>)
        ensures
            r is Err <==> if_name.spec_bytes().len() >= IF_NAME_SIZE,
            r is Err ==> r == Err::<IfReq, SockError>(SockError::InterfaceNameTooLong),
            r matches Ok(q) ==> q.wf() && q.ifr_name@ == padded_name(if_name.spec_bytes())
                && q.ifr_union@ == Seq::new(IF_REQ_UNION_SIZE as nat, |i: int| 0u8)
                && q.spec_flags() == 0i16,
    {
        let bytes = if_name.as_bytes();
        if bytes.len() >= IF_NAME_SIZE {
            return Err(SockError::InterfaceNameTooLong);
        }
        let mut name: Vec<u8> = Vec::new();
        let mut i: usize = 0;
        while i < IF_NAME_SIZE
            invariant
                i <= IF_NAME_SIZE,
                bytes@.len() < IF_NAME_SIZE,
                bytes@ == if_name.spec_bytes(),
                name@.len() == i,
                forall|j: int|
                    0 <= j < i ==> name@[j] == (if j < bytes@.len() {
                        bytes@[j]
                    } else {
                        0u8
                    }),
            decreases IF_NAME_SIZE - i,
        {
            if i < bytes.len() {
                name.push(bytes[i]);
            } else {
                name.push(0);
            }
            i = i + 1;
        }
        assert(name@ =~= padded_name(if_name.spec_bytes()));
        let q = IfReq { ifr_name: name, ifr_union: zero_vec(IF_REQ_UNION_SIZE) };
        assert(q.spec_flags() == spec_decode_flags(0u8, 0u8));
        assert(spec_decode_flags(0u8, 0u8) == 0i16) by (bit_vector);
        Ok(q)
    }

    /// The interface flags this request carries.
    pub fn ifr_flags(&self) -> (r: i16)
        requires
            self.wf(),
        ensures
            r == self.spec_flags(),
    {
        decode_flags(self.ifr_union[0], self.ifr_union[1])
    }

    /// Writes `flags` into the two union bytes that carry the flags word,
    /// leaving the name and the rest of the union region unchanged.
    pub fn set_ifr_flags(&mut self, flags: i16)
        requires
            old(self).wf(),
        ensures
            final(self).wf(),
            final(self).ifr_name@ == old(self).ifr_name@,
            final(self).spec_flags() == flags,
            final(self).ifr_union@ == old(self).ifr_union@.update(
                0,
                spec_encode_flags(flags).0,
            ).update(1, spec_encode_flags(flags).1),
    {
        let (lo, hi) = encode_flags(flags);
        self.ifr_union.set(0, lo);
        self.ifr_union.set(1, hi);
        proof {
            lemma_flags_round_trip(flags);
        }
    }

    /// The logical interface name in the name field: the bytes before its
    /// first null.
    pub fn name_bytes(&self) -> (r: Vec<u8>)
        requires
            self.wf(),
        ensures
            r@ == c_name(self.ifr_name@),
    {
        let mut out: Vec<u8> = Vec::new();
        let mut i: usize = 0;
        while i < IF_NAME_SIZE && self.ifr_name[i] != 0
            invariant
                self.wf(),
                i <= IF_NAME_SIZE,
                out@ == self.ifr_name@.take(i as int),
                forall|j: int| 0 <= j < i ==> self.ifr_name@[j] != 0,
            decreases IF_NAME_SIZE - i,
        {
            out.push(self.ifr_name[i]);
            assert(out@ =~= self.ifr_name@.take(i + 1));
            i = i + 1;
        }
        proof {
            lemma_c_name_prefix(self.ifr_name@, i as int);
        }
        out
    }
}

impl Default for IfReq {
    /// An all-zero interface request.
    fn default() -> (r: IfReq)
        ensures
            r.wf(),
            r.ifr_name@ == Seq::new(IF_NAME_SIZE as nat, |i: int| 0u8),
            r.ifr_union@ == Seq::new(IF_REQ_UNION_SIZE as nat, |i: int| 0u8),
            r.spec_flags() == 0i16,
    {
        let r = IfReq { ifr_name: zero_vec(IF_NAME_SIZE), ifr_union: zero_vec(IF_REQ_UNION_SIZE) };
        assert(r.spec_flags() == spec_decode_flags(0u8, 0u8));
        assert(spec_decode_flags(0u8, 0u8) == 0i16) by (bit_vector);
        r
    }
}

} // verus!
