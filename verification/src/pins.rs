//! Ownership of the physical pins: each pin is handed out once, with the
//! role it was asked for, as a handle that cannot be copied. The record of
//! what was handed out goes with the microcontroller into the board, so
//! that it is the same record for every claim.

use vstd::prelude::*;

verus! {

/// Number of pins on a port.
pub const PINS_PER_PORT: u8 = 16;

/// Number of pins the registry keeps track of: sixteen on each of nine ports.
pub const PIN_COUNT: usize = 144;

/// Logic level of a digital line.
#[derive(Clone, Copy, Debug, PartialEq, Eq, Structural)]
pub enum Level {
    Low,
    High,
}

impl Level {
    pub open spec fn spec_toggled(self) -> Level {
        match self {
            Level::Low => Level::High,
            Level::High => Level::Low,
        }
    }

    /// The opposite level.
    #[verifier::when_used_as_spec(spec_toggled)]
    pub fn toggled(self) -> (out: Level)
        ensures
            out == self.spec_toggled(),
    {
        match self {
            Level::Low => Level::High,
            Level::High => Level::Low,
        }
    }
}

/// Slew rate of an output driver.
#[derive(Clone, Copy, Debug, PartialEq, Eq, Structural)]
pub enum Speed {
    Low,
    Medium,
    High,
    VeryHigh,
}

/// Electrical role a pin is claimed for.
#[derive(Clone, Copy, Debug, PartialEq, Eq, Structural)]
pub enum PinRole {
    /// Push-pull digital output with the given slew rate.
    Output(Speed),
}

/// A GPIO port.
#[derive(Clone, Copy, Debug, PartialEq, Eq, Structural)]
pub enum Port {
    A,
    B,
    C,
    D,
    E,
    F,
    G,
    H,
    I,
}

impl Port {
    pub open spec fn spec_number(self) -> u8 {
        match self {
            Port::A => 0,
            Port::B => 1,
            Port::C => 2,
            Port::D => 3,
            Port::E => 4,
            Port::F => 5,
            Port::G => 6,
            Port::H => 7,
            Port::I => 8,
        }
    }

    /// Position of the port, counting from zero for port A.
    #[verifier::when_used_as_spec(spec_number)]
    pub fn number(self) -> (n: u8)
        ensures
            n == self.spec_number(),
    {
        match self {
            Port::A => 0,
            Port::B => 1,
            Port::C => 2,
            Port::D => 3,
            Port::E => 4,
            Port::F => 5,
            Port::G => 6,
            Port::H => 7,
            Port::I => 8,
        }
    }
}

/// Name of a physical pin: a port and a position on it.
#[derive(Clone, Copy, Debug, PartialEq, Eq, Structural)]
pub struct PinId {
    pub port: Port,
    /// Position on the port, `0..16`.
    pub pin: u8,
}

impl PinId {
    /// The name is that of a pin that exists.
    pub open spec fn spec_valid(&self) -> bool {
        self.pin < PINS_PER_PORT
    }

    /// Tells whether the name is that of a pin that exists.
    #[verifier::when_used_as_spec(spec_valid)]
    pub fn valid(&self) -> (yes: bool)
        ensures
            yes == self.spec_valid(),
    {
        self.pin < PINS_PER_PORT
    }

    /// Position of the pin among all pins: sixteen times the port's number
    /// plus the position on the port.
    pub open spec fn position(&self) -> int {
        self.port.number() * PINS_PER_PORT + self.pin
    }

    /// Position of the pin among all pins; `None` for a name that is not
    /// that of a pin.
    pub fn index(&self) -> (i: Option<u8>)
        ensures
            i == if self.valid() {
                Some(self.position() as u8)
            } else {
                None
            },
            self.valid() ==> self.position() < PIN_COUNT,
    {
        if self.pin < PINS_PER_PORT {
            Some(self.port.number() * PINS_PER_PORT + self.pin)
        } else {
            None
        }
    }
}

/// Why a pin was not handed out.
#[derive(Clone, Copy, Debug, PartialEq, Eq, Structural)]
pub enum PinError {
    /// There is no pin of that name.
    NoSuchPin,
    /// The pin has an owner.
    AlreadyClaimed,
}

/// Exclusive ownership of one pin in one role. A handle comes out of
/// [`PinRegistry::claim`] only, and cannot be copied.
#[derive(Debug, PartialEq, Eq)]
pub struct PinHandle {
    id: PinId,
    role: PinRole,
}

impl PinHandle {
    pub closed spec fn spec_id(&self) -> PinId {
        self.id
    }

    /// The pin that is owned.
    #[verifier::when_used_as_spec(spec_id)]
    pub fn id(&self) -> (id: PinId)
        ensures
            id == self.spec_id(),
    {
        self.id
    }

    pub closed spec fn spec_role(&self) -> PinRole {
        self.role
    }

    /// The role the pin was claimed for.
    #[verifier::when_used_as_spec(spec_role)]
    pub fn role(&self) -> (role: PinRole)
        ensures
            role == self.spec_role(),
    {
        self.role
    }
}

/// Whether a claim of `pin` is refused while the pins in `claimed` have
/// owners, and why; `None` where it is granted.
pub open spec fn claim_refusal(claimed: Set<PinId>, pin: PinId) -> Option<PinError> {
    if !pin.valid() {
        Some(PinError::NoSuchPin)
    } else if claimed.contains(pin) {
        Some(PinError::AlreadyClaimed)
    } else {
        None
    }
}

/// The pins that have owners after a claim of `pin`: one more where the
/// claim is granted, the same as before where it is refused.
pub open spec fn claimed_after(claimed: Set<PinId>, pin: PinId) -> Set<PinId> {
    if claim_refusal(claimed, pin) is None {
        claimed.insert(pin)
    } else {
        claimed
    }
}

/// Record of which pins have owners. One record stands for the pins of one
/// microcontroller and is kept for as long as the firmware runs: a pin is
/// owned once on the record it was claimed on, and no claim is ever taken
/// back.
pub struct PinRegistry {
    taken: [bool; PIN_COUNT],
}

impl View for PinRegistry {
    type V = Set<PinId>;

    /// The pins that have owners.
    closed spec fn view(&self) -> Set<PinId> {
        Set::new(|id: PinId| id.valid() && self.taken@[id.position()])
    }
}

impl PinRegistry {
    /// A registry in which no pin has an owner.
    pub fn new() -> (registry: PinRegistry)
        ensures
            registry@ == Set::<PinId>::empty(),
    {
        let registry = PinRegistry { taken: [false; PIN_COUNT] };
        assert(registry@ =~= Set::<PinId>::empty());
        registry
    }

    /// Tells whether `pin` has an owner. A pin that does not exist has none.
    pub fn is_claimed(&self, pin: PinId) -> (yes: bool)
        ensures
            yes == self@.contains(pin),
    {
        match pin.index() {
            Some(i) => self.taken[i as usize],
            None => false,
        }
    }

    /// Claims `pin` for `role`.
    ///
    /// The claim is granted where the pin exists and has no owner: the pin
    /// then has one, and the handle names the pin and the role asked for.
    /// Otherwise the registry stays as it was and the reason is returned.
    pub fn claim(&mut self, pin: PinId, role: PinRole) -> (r: Result<PinHandle, PinError>)
        ensures
            final(self)@ == claimed_after(old(self)@, pin),
            match r {
                Ok(handle) => claim_refusal(old(self)@, pin) is None && handle.id() == pin
                    && handle.role() == role,
                Err(e) => claim_refusal(old(self)@, pin) == Some(e),
            },
    {
        let i: usize = match pin.index() {
            Some(i) => i as usize,
            None => {
                return Err(PinError::NoSuchPin);
            },
        };
        if self.taken[i] {
            return Err(PinError::AlreadyClaimed);
        }
        self.taken[i] = true;
        proof {
            assert forall|id: PinId| #[trigger]
                self@.contains(id) == old(self)@.insert(pin).contains(id) by {
                if id.valid() {
                    lemma_index_injective(id, pin);
                }
            }
            assert(self@ =~= old(self)@.insert(pin));
        }
        Ok(PinHandle { id: pin, role })
    }
}

/// Two pins with the same position among all pins are the same pin.
pub proof fn lemma_index_injective(a: PinId, b: PinId)
    requires
        a.valid(),
        b.valid(),
    ensures
        a.position() == b.position() <==> a == b,
{
}

/// A pin that exists and has no owner is granted to whoever claims it, and
/// from then on refused to everyone else.
pub proof fn lemma_claim_once(claimed: Set<PinId>, pin: PinId)
    requires
        pin.valid(),
        !claimed.contains(pin),
    ensures
        claim_refusal(claimed, pin) is None,
        claimed_after(claimed, pin).contains(pin),
        claim_refusal(claimed_after(claimed, pin), pin) == Some(PinError::AlreadyClaimed),
{
}

/// A pin that has an owner keeps it, whatever is claimed afterwards: no
/// claim takes a pin back.
pub proof fn lemma_claimed_stays(claimed: Set<PinId>, pin: PinId, next: PinId)
    requires
        claimed.contains(pin),
    ensures
        claimed_after(claimed, next).contains(pin),
        claim_refusal(claimed_after(claimed, next), pin) is Some,
{
}

/// A claim changes the ownership of no pin but the one it asks for.
pub proof fn lemma_claim_leaves_others(claimed: Set<PinId>, pin: PinId, other: PinId)
    requires
        other != pin,
    ensures
        claimed_after(claimed, pin).contains(other) == claimed.contains(other),
        claim_refusal(claimed_after(claimed, pin), other) == claim_refusal(claimed, other),
{
}

} // verus!
