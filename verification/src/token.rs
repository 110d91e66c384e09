//! Generation-stamped slot tokens.

use vstd::prelude::*;

verus! {

/// Names one occupancy of one registry slot.
#[derive(Clone, Copy, Debug, PartialEq, Eq, Structural)]
pub struct SlotToken {
    pub slot: u32,
    pub generation: u32,
}

/// Names a connection, or the connection-manager route that becomes one.
pub type ConnectionToken = SlotToken;

/// Names a connection-manager route.
pub type CmRouteToken = SlotToken;

/// Names a listener.
pub type ListenerToken = SlotToken;

/// Names a connect, accept or listen request.
pub type RequestToken = SlotToken;

/// Names a posted operation.
pub type OperationToken = SlotToken;

impl SlotToken {
    /// The 64-bit form: the generation above, the slot below.
    pub open spec fn encoded(self) -> int {
        self.generation * 0x1_0000_0000 + self.slot
    }

    pub fn encode(self) -> (bits: u64)
        ensures
            bits == self.encoded(),
    {
        (self.generation as u64) * 0x1_0000_0000 + (self.slot as u64)
    }

    /// The token with this 64-bit form.
    pub open spec fn decoded(bits: u64) -> SlotToken {
        SlotToken {
            slot: (bits % 0x1_0000_0000) as u32,
            generation: (bits / 0x1_0000_0000) as u32,
        }
    }

    pub fn decode(bits: u64) -> (token: SlotToken)
        ensures
            token == SlotToken::decoded(bits),
            token.encoded() == bits,
    {
        let slot = (bits % 0x1_0000_0000) as u32;
        let generation = (bits / 0x1_0000_0000) as u32;
        SlotToken { slot, generation }
    }
}

/// Decoding undoes encoding: two tokens with one 64-bit form are one token.
pub proof fn encoded_is_injective(a: SlotToken, b: SlotToken)
    requires
        a.encoded() == b.encoded(),
    ensures
        a == b,
{
}

/// No token that a slot table issues has the 64-bit form 0, which stands for "no route".
pub proof fn issued_tokens_are_not_zero(token: SlotToken)
    requires
        token.generation >= 1,
    ensures
        token.encoded() != 0,
{
}

} // verus!
