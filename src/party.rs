use vstd::prelude::*;

verus! {

/// An amount of value held or moved by a contract.
pub type Balance = u128;

/// Identity of an account: 32 opaque bytes, compared for equality only.
#[derive(Clone, Copy, Debug)]
pub struct ActorId {
    bytes: [u8; 32],
}

impl View for ActorId {
    type V = Seq<u8>;

    closed spec fn view(&self) -> Seq<u8> {
        self.bytes@
    }
}

impl ActorId {
    /// The identity made of the given bytes.
    pub fn new(bytes: [u8; 32]) -> (r: ActorId)
        ensures
            r@ == bytes@,
    {
        ActorId { bytes }
    }

    /// The bytes of this identity.
    pub fn to_bytes(&self) -> (r: [u8; 32])
        ensures
            r@ == self@,
    {
        self.bytes
    }

    /// Whether two identities are the same account.
    pub fn same_as(&self, other: &ActorId) -> (r: bool)
        ensures
            r == (self@ == other@),
    {
        let mut i: usize = 0;
        while i < 32
            invariant
                0 <= i <= 32,
                self.bytes@.len() == 32,
                other.bytes@.len() == 32,
                forall|k: int| 0 <= k < i ==> self.bytes@[k] == other.bytes@[k],
            decreases 32 - i,
        {
            if self.bytes[i] != other.bytes[i] {
                return false;
            }
            i = i + 1;
        }
        assert(self.bytes@ =~= other.bytes@);
        true
    }
}

impl PartialEq for ActorId {
    fn eq(&self, other: &ActorId) -> (r: bool) {
        self.same_as(other)
    }
}

impl vstd::std_specs::cmp::PartialEqSpecImpl for ActorId {
    open spec fn obeys_eq_spec() -> bool {
        true
    }

    open spec fn eq_spec(&self, other: &ActorId) -> bool {
        self@ == other@
    }
}

impl Eq for ActorId {
}

/// What the hosting environment reports about the message being handled.
#[derive(Clone, Copy, Debug)]
pub struct MessageContext {
    /// The account that sent the message.
    pub source: ActorId,
    /// The value attached to the message.
    pub value: Balance,
    /// The current block time.
    pub timestamp: u64,
}

/// An outbound movement of value that the environment must perform.
#[derive(Clone, Copy, Debug, PartialEq, Eq)]
pub struct Transfer {
    pub to: ActorId,
    pub value: Balance,
}

} // verus!
