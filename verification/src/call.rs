//! The identity of one exchange and the key derived from it.
//!
//! An identity packs a call id and a connection slot into 32 bits, the call
//! id in the upper half. One bit pattern, all ones, is set aside for "no
//! call": a finished exchange is overwritten with it and never leaves it.
//!
//! Keys are ordered by their packed value, so by call id first and by
//! connection slot second.

use core::cmp::Ordering;
use vstd::prelude::*;
use vstd::std_specs::cmp::PartialOrdSpec;
use crate::simple_call::Phase;
use crate::simple_call::SimpleCall;

verus! {

/// The packed value of the identity that names no call.
pub const EMPTY_PACKED: u32 = 0xffff_ffff;

/// The connection slot and the call id that the empty identity carries.
pub const EMPTY_ID: u16 = 0xffff;

/// Packs a connection slot and a call id: the call id in the upper sixteen
/// bits, the connection slot in the lower sixteen.
pub open spec fn pack(con_id: u16, call_id: u16) -> u32 {
    ((call_id as u32) << 16) | (con_id as u32)
}

/// The connection slot held in a packed value.
pub open spec fn packed_con_id(packed: u32) -> u16 {
    (packed & 0xffff) as u16
}

/// The call id held in a packed value.
pub open spec fn packed_call_id(packed: u32) -> u16 {
    ((packed >> 16) & 0xffff) as u16
}

/// Packing keeps both ids: each can be read back from the packed value.
pub proof fn lemma_pack_unpack(con_id: u16, call_id: u16)
    ensures
        packed_con_id(pack(con_id, call_id)) == con_id,
        packed_call_id(pack(con_id, call_id)) == call_id,
{
    assert(((((call_id as u32) << 16) | (con_id as u32)) & 0xffff) as u16 == con_id)
        by (bit_vector);
    assert((((((call_id as u32) << 16) | (con_id as u32)) >> 16) & 0xffff) as u16 == call_id)
        by (bit_vector);
}

/// Every packed value is the packing of the two ids read from it.
pub proof fn lemma_unpack_pack(packed: u32)
    ensures
        pack(packed_con_id(packed), packed_call_id(packed)) == packed,
{
    assert(((((((packed >> 16) & 0xffff) as u16) as u32) << 16) | (((packed & 0xffff) as u16)
        as u32)) == packed) by (bit_vector);
}

/// Only the pair of all-ones ids packs to the empty value.
pub proof fn lemma_pack_empty(con_id: u16, call_id: u16)
    ensures
        pack(con_id, call_id) == EMPTY_PACKED <==> con_id == EMPTY_ID && call_id == EMPTY_ID,
{
    lemma_pack_unpack(con_id, call_id);
    assert(pack(0xffff, 0xffff) == 0xffff_ffffu32) by (bit_vector);
    assert(packed_con_id(0xffff_ffff) == 0xffffu16) by (bit_vector);
    assert(packed_call_id(0xffff_ffff) == 0xffffu16) by (bit_vector);
}

/// The handle of one exchange. There is one per exchange: it is neither
/// `Clone` nor `Copy`, and once invalidated it stays empty.
#[derive(Debug, PartialEq, Eq, Structural)]
pub struct Call(pub(crate) u32, pub(crate) usize);

/// A copy of a call's identity, for use as a key when a readiness event is
/// matched with the exchange it belongs to. It has no operation that changes
/// a call.
#[derive(Clone, Copy, Debug, PartialEq, Eq, Ord, Hash, Structural)]
pub struct CallRef(pub(crate) u32, pub(crate) usize);

impl View for Call {
    type V = (u16, u16);

    /// The connection slot and the call id.
    closed spec fn view(&self) -> (u16, u16) {
        (packed_con_id(self.0), packed_call_id(self.0))
    }
}

impl View for CallRef {
    type V = (u16, u16);

    /// The connection slot and the call id.
    closed spec fn view(&self) -> (u16, u16) {
        (packed_con_id(self.0), packed_call_id(self.0))
    }
}

impl CallRef {
    /// The 32-bit value that holds both ids.
    pub closed spec fn packed(&self) -> u32 {
        self.0
    }

    /// The second word, which is always the largest `usize`.
    #[verifier::type_invariant]
    pub closed spec fn wf(&self) -> bool {
        self.1 == usize::MAX
    }

    /// The key of `call_id` on connection slot `con_id`.
    pub closed spec fn spec_new(con_id: u16, call_id: u16) -> CallRef {
        CallRef(pack(con_id, call_id), usize::MAX)
    }

    /// Two keys are the same exactly when their packed values are.
    pub proof fn lemma_wf_equal(self, other: CallRef)
        requires
            self.wf(),
            other.wf(),
        ensures
            self == other <==> self.packed() == other.packed(),
            self == other <==> self@ == other@,
    {
        lemma_unpack_pack(self.packed());
        lemma_unpack_pack(other.packed());
    }

    /// The key of `call_id` on connection slot `con_id`, made without the
    /// call at hand.
    #[verifier::when_used_as_spec(spec_new)]
    pub fn new(con_id: u16, call_id: u16) -> (r: CallRef)
        ensures
            r == CallRef::spec_new(con_id, call_id),
            r@ == (con_id, call_id),
            r.packed() == pack(con_id, call_id),
    {
        let con: u32 = con_id as u32;
        let call: u32 = call_id as u32;
        proof {
            lemma_pack_unpack(con_id, call_id);
        }
        CallRef((call << 16) | con, usize::MAX)
    }
}

impl Call {
    /// The 32-bit value that holds both ids.
    pub closed spec fn packed(&self) -> u32 {
        self.0
    }

    /// The second word, which is always the largest `usize`.
    #[verifier::type_invariant]
    pub closed spec fn wf(&self) -> bool {
        self.1 == usize::MAX
    }

    /// The identity of `call_id` on connection slot `con_id`.
    pub closed spec fn spec_new(con_id: u16, call_id: u16) -> Call {
        Call(pack(con_id, call_id), usize::MAX)
    }

    /// The identity that names no call.
    pub closed spec fn spec_empty() -> Call {
        Call(EMPTY_PACKED, usize::MAX)
    }

    /// Whether this is the identity that names no call.
    pub open spec fn spec_is_empty(&self) -> bool {
        *self == Call::spec_empty()
    }

    /// What an identity is after it was invalidated: empty, whatever it was.
    pub open spec fn invalidated(self) -> Call {
        Call::spec_empty()
    }

    /// The key that matches this identity.
    pub closed spec fn spec_get_ref(&self) -> CallRef {
        CallRef(self.0, self.1)
    }

    /// Whether `r` is a key of this identity: the packed values agree.
    pub open spec fn spec_is_ref(&self, r: CallRef) -> bool {
        self.packed() == r.packed()
    }

    /// The identity of `call_id` on connection slot `con_id`. With both ids
    /// all ones it is the empty identity, which names no call.
    #[verifier::when_used_as_spec(spec_new)]
    pub fn new(con_id: u16, call_id: u16) -> (c: Call)
        ensures
            c == Call::spec_new(con_id, call_id),
            c@ == (con_id, call_id),
            c.packed() == pack(con_id, call_id),
            c.spec_is_empty() <==> con_id == EMPTY_ID && call_id == EMPTY_ID,
    {
        let con: u32 = con_id as u32;
        let call: u32 = call_id as u32;
        proof {
            lemma_pack_unpack(con_id, call_id);
            lemma_pack_empty(con_id, call_id);
        }
        Call((call << 16) | con, usize::MAX)
    }

    /// The identity that names no call.
    #[verifier::when_used_as_spec(spec_empty)]
    pub fn empty() -> (c: Call)
        ensures
            c == Call::spec_empty(),
            c@ == (EMPTY_ID, EMPTY_ID),
            c.packed() == EMPTY_PACKED,
    {
        proof {
            lemma_pack_empty(EMPTY_ID, EMPTY_ID);
            lemma_pack_unpack(EMPTY_ID, EMPTY_ID);
        }
        Call(0xffff_ffff, usize::MAX)
    }

    /// Whether this identity names no call.
    #[verifier::when_used_as_spec(spec_is_empty)]
    pub fn is_empty(&self) -> (r: bool)
        ensures
            r == self.spec_is_empty(),
            r == (self.packed() == EMPTY_PACKED),
            r == (self@ == (EMPTY_ID, EMPTY_ID)),
    {
        proof {
            use_type_invariant(self);
            lemma_unpack_pack(self.0);
            lemma_pack_empty(packed_con_id(self.0), packed_call_id(self.0));
        }
        self.0 == 0xffff_ffff && self.1 == usize::MAX
    }

    /// The call id, from the upper sixteen bits.
    pub fn call_id(&self) -> (id: u16)
        ensures
            id == self@.1,
            id == packed_call_id(self.packed()),
    {
        let packed: u32 = self.0;
        let hi: u32 = (packed >> 16) & 0xffff;
        assert(hi <= 0xffff) by (bit_vector)
            requires
                hi == (packed >> 16) & 0xffff,
        ;
        hi as u16
    }

    /// The connection slot, from the lower sixteen bits.
    pub fn con_id(&self) -> (id: u16)
        ensures
            id == self@.0,
            id == packed_con_id(self.packed()),
    {
        let packed: u32 = self.0;
        let lo: u32 = packed & 0xffff;
        assert(lo <= 0xffff) by (bit_vector)
            requires
                lo == packed & 0xffff,
        ;
        lo as u16
    }

    /// Overwrites the identity with the empty one. Nothing leads back: an
    /// empty identity stays empty under every operation of this type.
    pub fn invalidate(&mut self)
        ensures
            *final(self) == old(self).invalidated(),
            final(self).spec_is_empty(),
    {
        *self = Call::empty();
    }

    /// The key that matches this identity.
    #[verifier::when_used_as_spec(spec_get_ref)]
    pub fn get_ref(&self) -> (r: CallRef)
        ensures
            r == self.spec_get_ref(),
            r@ == self@,
            r.packed() == self.packed(),
    {
        proof {
            use_type_invariant(self);
        }
        CallRef(self.0, self.1)
    }

    /// Hands the call over to a [`SimpleCall`], which follows the exchange
    /// from its first step.
    pub fn simple(self) -> (sc: SimpleCall)
        ensures
            sc == SimpleCall::spec_from(self),
            sc.id() == self,
            sc.spec_phase() == if self.spec_is_empty() {
                Phase::Finished
            } else {
                Phase::Sending
            },
    {
        proof {
            SimpleCall::lemma_spec_from(self);
        }
        SimpleCall::from(self)
    }

    /// Whether `r` is a key of this identity. Only the packed values are
    /// compared, so a key taken from a finished call also matches a later
    /// call that was given the same slot and id.
    #[verifier::when_used_as_spec(spec_is_ref)]
    pub fn is_ref(&self, r: CallRef) -> (b: bool)
        ensures
            b == self.spec_is_ref(r),
            b == (self@ == r@),
    {
        proof {
            lemma_unpack_pack(self.0);
            lemma_unpack_pack(r.0);
        }
        self.0 == r.0
    }
}

/// What the identities and keys that are named by ids hold: the ids, packed
/// as [`pack`] says, beside a second word that is in order.
pub proof fn lemma_named_by_ids(con_id: u16, call_id: u16)
    ensures
        Call::spec_new(con_id, call_id)@ == (con_id, call_id),
        Call::spec_new(con_id, call_id).packed() == pack(con_id, call_id),
        Call::spec_new(con_id, call_id).wf(),
        CallRef::spec_new(con_id, call_id)@ == (con_id, call_id),
        CallRef::spec_new(con_id, call_id).packed() == pack(con_id, call_id),
        CallRef::spec_new(con_id, call_id).wf(),
{
    lemma_pack_unpack(con_id, call_id);
}

/// What the empty identity holds: all ones in both ids.
pub proof fn lemma_empty_holds_all_ones()
    ensures
        Call::spec_empty()@ == (EMPTY_ID, EMPTY_ID),
        Call::spec_empty().packed() == EMPTY_PACKED,
        Call::spec_empty().wf(),
        Call::spec_empty() == Call::spec_new(EMPTY_ID, EMPTY_ID),
{
    lemma_pack_empty(EMPTY_ID, EMPTY_ID);
    lemma_pack_unpack(EMPTY_ID, EMPTY_ID);
}

/// Two identities are the same exactly when they carry the same ids.
pub proof fn lemma_equal_iff_same_ids(a: Call, b: Call)
    requires
        a.wf(),
        b.wf(),
    ensures
        a == b <==> a@ == b@,
        a == b <==> a.packed() == b.packed(),
{
    lemma_unpack_pack(a.packed());
    lemma_unpack_pack(b.packed());
}

/// A pair of ids always makes the same identity, and two different pairs
/// make two different identities.
pub proof fn lemma_new_injective(con_a: u16, call_a: u16, con_b: u16, call_b: u16)
    ensures
        Call::spec_new(con_a, call_a) == Call::spec_new(con_a, call_a),
        Call::spec_new(con_a, call_a) == Call::spec_new(con_b, call_b) <==> con_a == con_b
            && call_a == call_b,
{
    lemma_pack_unpack(con_a, call_a);
    lemma_pack_unpack(con_b, call_b);
}

/// The empty identity is empty, and a new identity is empty only for the
/// pair of ids that is set aside for it.
pub proof fn lemma_new_is_empty(con_id: u16, call_id: u16)
    ensures
        Call::spec_empty().spec_is_empty(),
        Call::spec_new(con_id, call_id).spec_is_empty() <==> con_id == EMPTY_ID && call_id
            == EMPTY_ID,
{
    lemma_pack_empty(con_id, call_id);
}

/// Invalidation ends in the empty identity whatever it started from, and
/// invalidating a second time changes nothing.
pub proof fn lemma_invalidate_idempotent(c: Call)
    ensures
        c.invalidated().spec_is_empty(),
        c.invalidated().invalidated() == c.invalidated(),
{
}

/// A call is matched by its own key. The key outlives the call: it still
/// matches a later call made with the same ids, because only the packed
/// values are compared. The invalidated call itself no longer matches,
/// unless the key is that of the empty identity.
pub proof fn lemma_is_ref_round_trip(con_id: u16, call_id: u16)
    ensures
        Call::spec_new(con_id, call_id).spec_is_ref(Call::spec_new(con_id, call_id).spec_get_ref()),
        Call::spec_new(con_id, call_id).spec_get_ref() == CallRef::spec_new(con_id, call_id),
        Call::spec_new(con_id, call_id).invalidated().spec_is_ref(
            Call::spec_new(con_id, call_id).spec_get_ref(),
        ) <==> con_id == EMPTY_ID && call_id == EMPTY_ID,
{
    lemma_pack_empty(con_id, call_id);
}

/// Any identity, live or empty, is matched by the key taken from it.
pub proof fn lemma_own_ref_matches(c: Call)
    ensures
        c.spec_is_ref(c.spec_get_ref()),
        c.spec_get_ref()@ == c@,
{
}

/// A key matches exactly the identities that carry its ids.
pub proof fn lemma_is_ref_iff_same_ids(c: Call, r: CallRef)
    ensures
        c.spec_is_ref(r) <==> c@ == r@,
{
    lemma_unpack_pack(c.packed());
    lemma_unpack_pack(r.packed());
}

impl PartialOrd for CallRef {
    fn partial_cmp(&self, other: &CallRef) -> (r: Option<Ordering>) {
        proof {
            use_type_invariant(self);
            use_type_invariant(other);
        }
        if self.0 < other.0 {
            Some(Ordering::Less)
        } else if self.0 > other.0 {
            Some(Ordering::Greater)
        } else if self.1 < other.1 {
            Some(Ordering::Less)
        } else if self.1 > other.1 {
            Some(Ordering::Greater)
        } else {
            Some(Ordering::Equal)
        }
    }
}

impl vstd::std_specs::cmp::PartialOrdSpecImpl for CallRef {
    open spec fn obeys_partial_cmp_spec() -> bool {
        true
    }

    open spec fn partial_cmp_spec(&self, other: &CallRef) -> Option<Ordering> {
        if self.packed() < other.packed() {
            Some(Ordering::Less)
        } else if self.packed() > other.packed() {
            Some(Ordering::Greater)
        } else {
            Some(Ordering::Equal)
        }
    }
}

/// Any two keys are ordered, and in one way only: one comes first, or the
/// other does, or they are the same key.
pub proof fn lemma_order_is_total(a: CallRef, b: CallRef)
    requires
        a.wf(),
        b.wf(),
    ensures
        a.partial_cmp_spec(&b) is Some,
        a.partial_cmp_spec(&b) == Some(Ordering::Equal) <==> a == b,
        a.partial_cmp_spec(&b) == Some(Ordering::Less) <==> b.partial_cmp_spec(&a) == Some(
            Ordering::Greater,
        ),
{
    a.lemma_wf_equal(b);
}

/// The order goes by call id first and by connection slot second.
pub proof fn lemma_order_by_ids(a: CallRef, b: CallRef)
    ensures
        a.partial_cmp_spec(&b) == Some(Ordering::Less) <==> a@.1 < b@.1 || (a@.1 == b@.1 && a@.0
            < b@.0),
{
    let p = a.packed();
    let q = b.packed();
    assert(p < q <==> packed_call_id(p) < packed_call_id(q) || (packed_call_id(p)
        == packed_call_id(q) && packed_con_id(p) < packed_con_id(q))) by (bit_vector);
}

/// Coming first carries over: if `a` comes before `b` and `b` before `c`,
/// then `a` comes before `c`.
pub proof fn lemma_order_is_transitive(a: CallRef, b: CallRef, c: CallRef)
    requires
        a.partial_cmp_spec(&b) == Some(Ordering::Less),
        b.partial_cmp_spec(&c) == Some(Ordering::Less),
    ensures
        a.partial_cmp_spec(&c) == Some(Ordering::Less),
{
}

} // verus!
