use vstd::prelude::*;

verus! {

/// Why a device could not be taken out of a [`ResourceCell`].
#[derive(Clone, Copy, Debug, PartialEq, Eq, Structural)]
pub enum AcquireError {
    /// The slot was already empty: some other holder has the device.
    ResourceUnavailable,
}

/// A slot holding zero or one owned device.
///
/// The device moves out on `acquire` and back in on `release`; a mutex that
/// the caller wraps around the cell serialises the two, and each call is a
/// single swap or store, so no lock is ever held across device use.
pub struct ResourceCell<D> {
    slot: Option<D>,
}

impl<D> View for ResourceCell<D> {
    type V = Option<D>;

    closed spec fn view(&self) -> Option<D> {
        self.slot
    }
}

impl<D> ResourceCell<D> {
    /// A cell that holds `device`.
    pub fn new(device: D) -> (r: Self)
        ensures
            r@ == Some(device),
    {
        ResourceCell { slot: Some(device) }
    }

    /// A cell with an empty slot.
    pub fn empty() -> (r: Self)
        ensures
            r@ == None::<D>,
    {
        ResourceCell { slot: None }
    }

    /// Whether the slot currently holds a device.
    pub fn is_occupied(&self) -> (r: bool)
        ensures
            r == self@.is_some(),
    {
        self.slot.is_some()
    }

    /// Swaps the slot to empty and hands out the device that was in it.
    /// The slot is empty afterwards in either case.
    pub fn acquire(&mut self) -> (r: Result<D, AcquireError>)
        ensures
            final(self)@ == None::<D>,
            match old(self)@ {
                Some(d) => r == Ok::<D, AcquireError>(d),
                None => r == Err::<D, AcquireError>(AcquireError::ResourceUnavailable),
            },
    {
        match self.slot.take() {
            Some(d) => Ok(d),
            None => Err(AcquireError::ResourceUnavailable),
        }
    }

    /// Stores `device` in the slot, whatever the slot held before.
    pub fn release(&mut self, device: D)
        ensures
            final(self)@ == Some(device),
    {
        self.slot = Some(device);
    }
}

} // verus!
