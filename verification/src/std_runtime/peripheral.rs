use crate::peripherals::gpio::{gpio_kind, Gpio};
use crate::peripherals::PeripheralKind;
use std::collections::HashMap;
use vstd::prelude::*;

verus! {

/// A simulated GPIO pin: its port and pin numbers and its level.
pub struct GpioState {
    pub port: u32,
    pub pin: u32,
    pub state: bool,
}

/// The simulated platform layer: the open GPIO pins by id. Other peripheral kinds are
/// not simulated: requests for them are ignored (opening one gives the id 0).
pub struct GpioRegistry {
    gpios: HashMap<usize, GpioState>,
}

impl GpioRegistry {
    /// The open pins by id.
    pub closed spec fn gpios(&self) -> Map<usize, GpioState> {
        self.gpios@
    }

    pub fn new() -> (r: Self)
        ensures
            r.gpios() == Map::<usize, GpioState>::empty(),
    {
        GpioRegistry { gpios: HashMap::new() }
    }

    /// Opens a pin: its id is the number of open pins (which overwrites a pin with that
    /// id, if one is open), and it starts low.
    pub fn peripheral_open(&mut self, peripheral_kind: usize, port: u32, pin: u32) -> (id: usize)
        ensures
            peripheral_kind != gpio_kind() ==> id == 0 && final(self).gpios() == old(self).gpios(),
            peripheral_kind == gpio_kind() ==> {
                &&& id == old(self).gpios().len()
                &&& final(self).gpios() == old(self).gpios().insert(
                    id,
                    GpioState { port, pin, state: false },
                )
            },
    {
        broadcast use vstd::std_specs::hash::group_hash_axioms;

        if peripheral_kind != Gpio::peripheral_kind() {
            return 0;
        }
        let id = self.gpios.len();
        self.gpios.insert(id, GpioState { port, pin, state: false });
        id
    }

    /// Closes the pin `id`.
    pub fn peripheral_close(&mut self, peripheral_kind: usize, id: usize)
        ensures
            peripheral_kind != gpio_kind() ==> final(self).gpios() == old(self).gpios(),
            peripheral_kind == gpio_kind() ==> final(self).gpios() == old(self).gpios().remove(id),
    {
        broadcast use vstd::std_specs::hash::group_hash_axioms;

        if peripheral_kind != Gpio::peripheral_kind() {
            return;
        }
        self.gpios.remove(&id);
    }

    /// Sets the level of the pin `id`, if it is open.
    pub fn peripheral_write(&mut self, peripheral_kind: usize, id: usize, data: bool)
        ensures
            peripheral_kind == gpio_kind() && old(self).gpios().contains_key(id) ==> final(self).gpios()
                == old(self).gpios().insert(
                id,
                GpioState { state: data, ..old(self).gpios()[id] },
            ),
            !(peripheral_kind == gpio_kind() && old(self).gpios().contains_key(id)) ==> final(self).gpios() == old(self).gpios(),
    {
        broadcast use vstd::std_specs::hash::group_hash_axioms;

        if peripheral_kind != Gpio::peripheral_kind() {
            return;
        }
        match self.gpios.remove(&id) {
            Some(gpio) => {
                self.gpios.insert(id, GpioState { port: gpio.port, pin: gpio.pin, state: data });
                assert(self.gpios@ =~= old(self).gpios().insert(
                    id,
                    GpioState { state: data, ..old(self).gpios()[id] },
                ));
            },
            None => {
                assert(self.gpios@ =~= old(self).gpios());
            },
        }
    }

    /// The level of the pin `id`; nothing when it is not open (the caller's buffer is
    /// then left as it was).
    pub fn peripheral_read(&self, peripheral_kind: usize, id: usize) -> (data: Option<bool>)
        ensures
            peripheral_kind == gpio_kind() && self.gpios().contains_key(id) ==> data == Some(
                self.gpios()[id].state,
            ),
            !(peripheral_kind == gpio_kind() && self.gpios().contains_key(id)) ==> data is None,
    {
        broadcast use vstd::std_specs::hash::group_hash_axioms;

        if peripheral_kind != Gpio::peripheral_kind() {
            return None;
        }
        match self.gpios.get(&id) {
            Some(gpio) => Some(gpio.state),
            None => None,
        }
    }
}


/// Reading an open pin gives back the level last written to it, and the write keeps
/// the pin's port and pin numbers.
pub proof fn lemma_read_after_write(gpios: Map<usize, GpioState>, id: usize, data: bool)
    requires
        gpios.contains_key(id),
    ensures
        ({
            let after = gpios.insert(id, GpioState { state: data, ..gpios[id] });
            &&& after.contains_key(id)
            &&& after[id].state == data
            &&& after[id].port == gpios[id].port
            &&& after[id].pin == gpios[id].pin
            &&& after.dom() == gpios.dom()
        }),
{
    let after = gpios.insert(id, GpioState { state: data, ..gpios[id] });
    assert(after.dom() =~= gpios.dom());
}

} // verus!
