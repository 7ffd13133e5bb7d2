use crate::common::result::HATError;
use crate::peripherals::{Peripheral, PeripheralKind};
use vstd::prelude::*;

verus! {

/// How many tasks may wait for one pin.
pub const TASK_NUM: usize = 3;

/// Pins per port.
pub const PIN_NUM: usize = 3;

/// Ports.
pub const PORT_NUM: usize = 1;

/// The configuration of a GPIO pin: its port and pin numbers.
pub struct Gpio {
    port: u32,
    pin: u32,
}

/// The number GPIO pins are known by.
pub open spec fn gpio_kind() -> usize {
    1
}

impl PeripheralKind for Gpio {
    fn peripheral_kind() -> (kind: usize)
        ensures
            kind == gpio_kind(),
    {
        1
    }
}

impl Gpio {
    pub closed spec fn port(&self) -> u32 {
        self.port
    }

    pub closed spec fn pin(&self) -> u32 {
        self.pin
    }

    /// The port number handed to the platform layer when the pin is opened.
    pub fn port_number(&self) -> (port: u32)
        ensures
            port == self.port(),
    {
        self.port
    }

    /// The pin number handed to the platform layer when the pin is opened.
    pub fn pin_number(&self) -> (pin: u32)
        ensures
            pin == self.pin(),
    {
        self.pin
    }

    /// The table of pins: `PORT_NUM` ports of `PIN_NUM` pins each, every pin configured
    /// with its own port and pin number.
    pub fn init() -> (table: Vec<Vec<Gpio>>)
        ensures
            table@.len() == PORT_NUM,
            forall|port: int|
                #![trigger table@[port]]
                0 <= port < PORT_NUM ==> {
                    &&& table@[port]@.len() == PIN_NUM
                    &&& forall|pin: int|
                        0 <= pin < PIN_NUM ==> (#[trigger] table@[port]@[pin]).port() == port
                            && table@[port]@[pin].pin() == pin
                },
    {
        let mut table: Vec<Vec<Gpio>> = Vec::new();
        let mut port: usize = 0;
        while port < PORT_NUM
            invariant
                port <= PORT_NUM,
                table@.len() == port,
                forall|q: int|
                    #![trigger table@[q]]
                    0 <= q < port ==> {
                        &&& table@[q]@.len() == PIN_NUM
                        &&& forall|pin: int|
                            0 <= pin < PIN_NUM ==> (#[trigger] table@[q]@[pin]).port() == q
                                && table@[q]@[pin].pin() == pin
                    },
            decreases PORT_NUM - port,
        {
            let mut pins: Vec<Gpio> = Vec::new();
            let mut pin: usize = 0;
            while pin < PIN_NUM
                invariant
                    pin <= PIN_NUM,
                    port < PORT_NUM,
                    pins@.len() == pin,
                    forall|k: int|
                        0 <= k < pin ==> (#[trigger] pins@[k]).port() == port && pins@[k].pin() == k,
                decreases PIN_NUM - pin,
            {
                pins.push(Gpio { port: port as u32, pin: pin as u32 });
                pin = pin + 1;
            }
            table.push(pins);
            port = port + 1;
        }
        table
    }

    /// Checks a pin address against a table of ports: a port past the table is
    /// `WrongGPIOPort`, a pin past its port is `WrongGPIOPin`.
    pub fn check_address<P>(table: &Vec<Vec<P>>, port: usize, pin: usize) -> (r: Result<(), HATError>)
        ensures
            port >= table@.len() ==> r == Err::<(), HATError>(HATError::WrongGPIOPort),
            port < table@.len() && pin >= table@[port as int]@.len() ==> r == Err::<(), HATError>(
                HATError::WrongGPIOPin,
            ),
            port < table@.len() && pin < table@[port as int]@.len() ==> r is Ok,
    {
        if port >= table.len() {
            return Err(HATError::WrongGPIOPort);
        }
        if pin >= table[port].len() {
            return Err(HATError::WrongGPIOPin);
        }
        Ok(())
    }
}

impl Peripheral<bool, Gpio> {
    /// The level to write to toggle a pin that reads `current`: the other one.
    pub fn toggle(&self, current: bool) -> (next: bool)
        requires
            self.spec_id() is Some,
        ensures
            next == !current,
    {
        if current {
            false
        } else {
            true
        }
    }
}

} // verus!
