//! The network stack builder: seed derivation from two hardware draws, the
//! fixed pool of connection resources, and the atomic construction of the
//! stack together with its background runner.

use vstd::prelude::*;
use crate::wifi::WifiDevice;

verus! {

/// Fixed number of connection/socket resource slots the stack owns.
pub const STACK_RESOURCE_SLOTS: usize = 4;

/// Runtime conditions of the stack's fixed slot pool.
#[derive(Clone, Copy, Debug, PartialEq, Eq, Structural)]
pub enum StackError {
    /// Every slot is in use; one more concurrent consumer is rejected.
    ResourcesExhausted,
    /// A release came while no consumer held a slot.
    NoConsumerActive,
}

/// IPv4 configuration for the stack. DHCP is the only supported addressing
/// mode; static addressing is out of scope.
#[derive(Clone, Copy, Debug, PartialEq, Eq, Structural)]
pub enum IpConfig {
    Dhcpv4,
}

/// The pool of connection/socket resource slots backing the stack's
/// internal state, sized at its fixed capacity on construction.
pub struct StackResources {
    capacity: usize,
}

impl StackResources {
    /// How many slots the pool provides.
    pub closed spec fn capacity(&self) -> usize {
        self.capacity
    }

    /// A pool of the fixed capacity.
    pub fn new() -> (r: Self)
        ensures
            r.capacity() == STACK_RESOURCE_SLOTS,
    {
        StackResources { capacity: STACK_RESOURCE_SLOTS }
    }
}

/// The 64-bit stack seed obtained by concatenating two independent 32-bit
/// draws: the first draw is the high word, the second the low word.
pub open spec fn seed_of(high: u32, low: u32) -> u64 {
    ((high as u64) << 32) | (low as u64)
}

/// Law: the seed concatenates the two draws losslessly — its high word
/// recovers the first draw and its low word the second — so distinct draw
/// pairs give distinct seeds and the seed depends on nothing else.
pub proof fn lemma_seed_of_words(high: u32, low: u32)
    ensures
        seed_of(high, low) >> 32 == high as u64,
        seed_of(high, low) & 0xFFFFFFFFu64 == low as u64,
{
    assert((((high as u64) << 32) | (low as u64)) >> 32 == high as u64) by (bit_vector);
    assert((((high as u64) << 32) | (low as u64)) & 0xFFFFFFFFu64 == low as u64) by (bit_vector);
}

/// Derives the stack seed from two independent draws of the hardware RNG.
/// The seed is a pure function of the two draws and of nothing else.
pub fn derive_seed(high: u32, low: u32) -> (r: u64)
    ensures
        r == seed_of(high, low),
{
    ((high as u64) << 32) | (low as u64)
}

/// The network stack: it records the device it is bound to, its seed, its
/// DHCP-driven IPv4 configuration, and the fixed pool of slots it manages
/// for its internal concurrent consumers.
pub struct NetworkStack {
    device: u8,
    seed: u64,
    config: IpConfig,
    slots_capacity: usize,
    slots_used: usize,
}

/// The background runner that drives the stack's internal event
/// processing. It is produced together with its stack, bound to the same
/// device, and must never be separated from it.
pub struct StackRunner {
    device: u8,
}

impl StackRunner {
    /// The identity of the radio device the runner drives I/O for.
    pub closed spec fn spec_device(&self) -> u8 {
        self.device
    }

    /// The identity of the radio device the runner drives I/O for.
    #[verifier::when_used_as_spec(spec_device)]
    pub fn device(&self) -> (r: u8)
        ensures
            r == self.spec_device(),
    {
        self.device
    }
}

impl NetworkStack {
    /// The identity of the radio device the stack is bound to.
    pub closed spec fn spec_device(&self) -> u8 {
        self.device
    }

    /// The identity of the radio device the stack is bound to.
    #[verifier::when_used_as_spec(spec_device)]
    pub fn device(&self) -> (r: u8)
        ensures
            r == self.spec_device(),
    {
        self.device
    }

    /// The seed the stack was built with.
    pub closed spec fn spec_seed(&self) -> u64 {
        self.seed
    }

    /// The seed the stack was built with.
    #[verifier::when_used_as_spec(spec_seed)]
    pub fn seed(&self) -> (r: u64)
        ensures
            r == self.spec_seed(),
    {
        self.seed
    }

    /// The stack's addressing configuration.
    pub closed spec fn config(&self) -> IpConfig {
        self.config
    }

    /// How many slots the stack's pool provides.
    pub closed spec fn spec_slots_capacity(&self) -> usize {
        self.slots_capacity
    }

    /// How many slots the stack's pool provides.
    #[verifier::when_used_as_spec(spec_slots_capacity)]
    pub fn slots_capacity(&self) -> (r: usize)
        ensures
            r == self.spec_slots_capacity(),
    {
        self.slots_capacity
    }

    /// How many slots are currently held by consumers.
    pub closed spec fn spec_slots_used(&self) -> usize {
        self.slots_used
    }

    /// How many slots are currently held by consumers.
    #[verifier::when_used_as_spec(spec_slots_used)]
    pub fn slots_used(&self) -> (r: usize)
        ensures
            r == self.spec_slots_used(),
    {
        self.slots_used
    }

    /// Claims one slot for a new internal concurrent consumer. Once all
    /// slots are held, one more consumer is rejected without effect.
    pub fn acquire_slot(&mut self) -> (r: Result<(), StackError>)
        ensures
            old(self).slots_used() < old(self).slots_capacity()
                ==> r == Ok::<(), StackError>(())
                    && final(self).slots_used() == old(self).slots_used() + 1,
            old(self).slots_used() >= old(self).slots_capacity()
                ==> r == Err::<(), StackError>(StackError::ResourcesExhausted)
                    && final(self).slots_used() == old(self).slots_used(),
            final(self).slots_capacity() == old(self).slots_capacity(),
            final(self).device() == old(self).device(),
            final(self).seed() == old(self).seed(),
            final(self).config() == old(self).config(),
    {
        if self.slots_used < self.slots_capacity {
            self.slots_used = self.slots_used + 1;
            Ok(())
        } else {
            Err(StackError::ResourcesExhausted)
        }
    }

    /// Returns one slot to the pool when a consumer finishes.
    pub fn release_slot(&mut self) -> (r: Result<(), StackError>)
        ensures
            old(self).slots_used() > 0
                ==> r == Ok::<(), StackError>(())
                    && final(self).slots_used() == old(self).slots_used() - 1,
            old(self).slots_used() == 0
                ==> r == Err::<(), StackError>(StackError::NoConsumerActive)
                    && final(self).slots_used() == old(self).slots_used(),
            final(self).slots_capacity() == old(self).slots_capacity(),
            final(self).device() == old(self).device(),
            final(self).seed() == old(self).seed(),
            final(self).config() == old(self).config(),
    {
        if self.slots_used > 0 {
            self.slots_used = self.slots_used - 1;
            Ok(())
        } else {
            Err(StackError::NoConsumerActive)
        }
    }
}

/// Builds the network stack and its background runner together, in one
/// atomic construction, from the promoted device, the addressing
/// configuration, the slot pool and the seed. Both halves of the pair are
/// bound to the same underlying device; nothing can rebuild either half
/// alone.
pub fn new(
    device: &WifiDevice,
    config: IpConfig,
    resources: &StackResources,
    seed: u64,
) -> (r: (NetworkStack, StackRunner))
    ensures
        r.0.device() == device.radio(),
        r.1.device() == device.radio(),
        r.0.seed() == seed,
        r.0.config() == config,
        r.0.slots_capacity() == resources.capacity(),
        r.0.slots_used() == 0,
{
    let stack = NetworkStack {
        device: device.radio(),
        seed,
        config,
        slots_capacity: resources.capacity,
        slots_used: 0,
    };
    let runner = StackRunner { device: device.radio() };
    (stack, runner)
}

} // verus!
