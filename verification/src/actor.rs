//! Actor identifiers: the 256-bit addresses of programs and users.

use vstd::prelude::*;
use vstd::std_specs::cmp::PartialEqSpecImpl;

verus! {

/// Whether all 32 bytes of an identifier are zero.
pub open spec fn all_zero(bytes: Seq<u8>) -> bool {
    forall|i: int| 0 <= i < 32 ==> bytes[i] == 0u8
}

/// The identifier that stands for "nobody": all of its bytes are zero.
pub open spec fn nobody() -> ActorId {
    ActorId { bytes: vstd::array::spec_array_fill_for_copy_type::<u8, 32>(0u8) }
}

/// `gstd::ActorId::zero`, as raw bytes: the identifier whose bytes are all
/// zero, as its source builds it from `[0; 32]`.
#[verifier::external_body]
fn zero_bytes() -> (bytes: [u8; 32])
    ensures
        all_zero(bytes@),
{
    gstd::ActorId::zero().into_bytes()
}

/// `gstd::ActorId::is_zero`, on raw bytes: the source compares the identifier
/// with `zero()`, so the answer is `true` exactly when every byte is zero.
#[verifier::external_body]
fn bytes_are_zero(bytes: &[u8; 32]) -> (zero: bool)
    ensures
        zero == all_zero(bytes@),
{
    gstd::ActorId::new(*bytes).is_zero()
}

/// The derived `==` of `gstd::ActorId`, on raw bytes: the identifier is a
/// single array of 32 bytes, and two are equal exactly when the arrays are.
#[verifier::external_body]
fn bytes_are_equal(left: &[u8; 32], right: &[u8; 32]) -> (equal: bool)
    ensures
        equal == (left@ == right@),
{
    gstd::ActorId::new(*left) == gstd::ActorId::new(*right)
}

/// `gstd::ReservationId`: the token of a gas reservation. The library stores
/// such tokens and hands them back; it never looks inside one.
#[verifier::external_type_specification]
#[verifier::external_body]
pub struct ExReservationId(gstd::ReservationId);

/// The address of a program or a user.
#[derive(Clone, Copy, Debug, Eq, Hash)]
pub struct ActorId {
    pub bytes: [u8; 32],
}

impl View for ActorId {
    type V = Seq<u8>;

    open spec fn view(&self) -> Seq<u8> {
        self.bytes@
    }
}

impl ActorId {
    /// Whether this is the zero identifier, which stands for "nobody".
    pub open spec fn spec_is_zero(&self) -> bool {
        all_zero(self@)
    }

    /// The identifier with the given bytes.
    pub fn new(bytes: [u8; 32]) -> (id: ActorId)
        ensures
            id.bytes == bytes,
    {
        ActorId { bytes }
    }

    /// The zero identifier.
    pub fn zero() -> (id: ActorId)
        ensures
            id == nobody(),
            id.spec_is_zero(),
    {
        let id = ActorId { bytes: zero_bytes() };
        proof {
            lemma_zero_unique(id, nobody());
        }
        id
    }

    /// Tells whether this is the zero identifier.
    #[verifier::when_used_as_spec(spec_is_zero)]
    pub fn is_zero(&self) -> (zero: bool)
        ensures
            zero == self.spec_is_zero(),
            zero == (*self == nobody()),
    {
        proof {
            lemma_nobody_is_zero(*self);
        }
        bytes_are_zero(&self.bytes)
    }

    /// The 32 bytes of the identifier.
    pub fn into_bytes(self) -> (bytes: [u8; 32])
        ensures
            bytes == self.bytes,
    {
        self.bytes
    }
}

/// Two identifiers with the same bytes are the same identifier.
pub proof fn lemma_actor_ext(a: ActorId, b: ActorId)
    requires
        a@ == b@,
    ensures
        a == b,
{
    assert(a.bytes =~= b.bytes);
}

/// All zero identifiers are one and the same.
pub proof fn lemma_zero_unique(a: ActorId, b: ActorId)
    requires
        a.spec_is_zero(),
        b.spec_is_zero(),
    ensures
        a == b,
{
    assert(a.bytes =~= b.bytes);
}

/// An identifier is zero exactly when it is `nobody()`.
pub proof fn lemma_nobody_is_zero(id: ActorId)
    ensures
        nobody().spec_is_zero(),
        id.spec_is_zero() <==> id == nobody(),
{
    if id.spec_is_zero() {
        lemma_zero_unique(id, nobody());
    }
}

impl PartialEq for ActorId {
    fn eq(&self, other: &ActorId) -> (equal: bool) {
        let equal = bytes_are_equal(&self.bytes, &other.bytes);
        proof {
            if equal {
                lemma_actor_ext(*self, *other);
            }
        }
        equal
    }
}

impl PartialEqSpecImpl for ActorId {
    open spec fn obeys_eq_spec() -> bool {
        true
    }

    open spec fn eq_spec(&self, other: &ActorId) -> bool {
        *self == *other
    }
}

} // verus!
