//! The standard controller: eight buttons read out one bit at a time.

use vstd::prelude::*;

verus! {

/// Button A.
pub const BTN_A: u8 = 0;

/// Button B.
pub const BTN_B: u8 = 1;

/// Select.
pub const BTN_SELECT: u8 = 2;

/// Start.
pub const BTN_START: u8 = 3;

/// Up.
pub const BTN_UP: u8 = 4;

/// Down.
pub const BTN_DOWN: u8 = 5;

/// Left.
pub const BTN_LEFT: u8 = 6;

/// Right.
pub const BTN_RIGHT: u8 = 7;

/// A controller.
#[derive(Debug, Clone, Copy)]
pub struct Controller {
    /// One bit per button, bit `n` for button `n`; set while it is held.
    pub button_state: u8,
    /// The buttons as they were latched, shifted right on every read.
    pub shift_register: u8,
    /// While the strobe is high the shift register follows the buttons.
    pub strobe: bool,
}

impl Controller {
    /// A controller with no button held.
    pub open spec fn spec_new() -> Controller {
        Controller { button_state: 0, shift_register: 0, strobe: false }
    }

    /// Whether `button` (0 to 7) is held.
    pub open spec fn spec_pressed(self, button: u8) -> bool {
        (self.button_state >> button) & 1 == 1
    }

    /// The state after `button` was pressed or released; numbers above 7
    /// name no button and change nothing.
    pub open spec fn spec_set_button(self, button: u8, pressed: bool) -> Controller {
        if button > 7 {
            self
        } else {
            Controller {
                button_state: if pressed {
                    self.button_state | (1u8 << button)
                } else {
                    self.button_state & !(1u8 << button)
                },
                ..self
            }
        }
    }

    /// The state after a write: bit 0 of `data` is the new strobe. While
    /// it is high, and when it falls, the shift register takes the buttons.
    pub open spec fn spec_write(self, data: u8) -> Controller {
        let strobe = data % 2 == 1;
        Controller {
            strobe,
            shift_register: if strobe || self.strobe {
                self.button_state
            } else {
                self.shift_register
            },
            ..self
        }
    }

    /// The bit that a read returns: the first button while the strobe is
    /// high, else the lowest bit of the shift register.
    pub open spec fn spec_read_value(self) -> u8 {
        if self.strobe {
            self.button_state % 2
        } else {
            self.shift_register % 2
        }
    }

    /// The state after a read: with the strobe low the shift register has
    /// moved right by one and a one has come in at the top.
    pub open spec fn spec_read(self) -> Controller {
        if self.strobe {
            self
        } else {
            Controller { shift_register: (self.shift_register / 2 + 128) as u8, ..self }
        }
    }

    /// A controller with no button held.
    pub fn new() -> (c: Controller)
        ensures
            c == Controller::spec_new(),
    {
        Controller { button_state: 0, shift_register: 0, strobe: false }
    }

    /// Presses or releases a button: 0 A, 1 B, 2 Select, 3 Start, 4 Up,
    /// 5 Down, 6 Left, 7 Right.
    pub fn set_button(&mut self, button: u8, pressed: bool)
        ensures
            *final(self) == old(self).spec_set_button(button, pressed),
    {
        if button > 7 {
            return ;
        }
        if pressed {
            self.button_state = self.button_state | (1u8 << button);
        } else {
            self.button_state = self.button_state & !(1u8 << button);
        }
    }

    /// The CPU writes the strobe.
    pub fn write(&mut self, data: u8)
        ensures
            *final(self) == old(self).spec_write(data),
    {
        let new_strobe = data % 2 == 1;
        if self.strobe && !new_strobe {
            self.shift_register = self.button_state;
        }
        self.strobe = new_strobe;
        if self.strobe {
            self.shift_register = self.button_state;
        }
    }

    /// The CPU reads the next button.
    pub fn read(&mut self) -> (bit: u8)
        ensures
            bit == old(self).spec_read_value(),
            *final(self) == old(self).spec_read(),
            bit <= 1,
    {
        if self.strobe {
            return self.button_state % 2;
        }
        let value = self.shift_register % 2;
        self.shift_register = self.shift_register / 2 + 128;
        value
    }

    /// Releases all buttons and clears the latch.
    pub fn reset(&mut self)
        ensures
            *final(self) == Controller::spec_new(),
    {
        self.button_state = 0;
        self.shift_register = 0;
        self.strobe = false;
    }
}

/// Two to the power of `n`, for `n` up to 8.
pub open spec fn two_to(n: nat) -> int {
    if n == 0 {
        1
    } else if n == 1 {
        2
    } else if n == 2 {
        4
    } else if n == 3 {
        8
    } else if n == 4 {
        16
    } else if n == 5 {
        32
    } else if n == 6 {
        64
    } else if n == 7 {
        128
    } else {
        256
    }
}

/// The controller after `n` reads.
pub open spec fn spec_reads(c: Controller, n: nat) -> Controller
    decreases n,
{
    if n == 0 {
        c
    } else {
        spec_reads(c, (n - 1) as nat).spec_read()
    }
}

/// With the strobe low, `n` reads have moved the latched buttons right by
/// `n` places and filled up with ones from the top.
pub proof fn lemma_reads_shift(c: Controller, n: nat)
    requires
        !c.strobe,
        n <= 8,
    ensures
        !spec_reads(c, n).strobe,
        spec_reads(c, n).button_state == c.button_state,
        spec_reads(c, n).shift_register == c.shift_register as int / two_to(n) + 256 - two_to(
            (8 - n) as nat,
        ),
    decreases n,
{
    if n > 0 {
        lemma_reads_shift(c, (n - 1) as nat);
    }
}

/// Pressing or releasing a button changes that button and no other.
pub proof fn lemma_set_button(c: Controller, button: u8, pressed: bool, other: u8)
    requires
        button < 8,
        other < 8,
    ensures
        c.spec_set_button(button, pressed).spec_pressed(button) == pressed,
        other != button ==> c.spec_set_button(button, pressed).spec_pressed(other)
            == c.spec_pressed(other),
{
    let s = c.button_state;
    assert(button < 8 && other < 8 ==> ((s | (1u8 << button)) >> button) & 1 == 1 && ((s & !(1u8
        << button)) >> button) & 1 == 0 && (other != button ==> ((s | (1u8 << button)) >> other)
        & 1 == (s >> other) & 1 && ((s & !(1u8 << button)) >> other) & 1 == (s >> other) & 1))
        by (bit_vector);
}

/// Bit `n` of a byte is the parity of the byte divided by two to the `n`.
proof fn lemma_bit_is_parity(s: u8, n: u8)
    requires
        n < 8,
    ensures
        ((s >> n) & 1 == 1) == ((s as int / two_to(n as nat)) % 2 == 1),
{
    assert((s >> 0u8) & 1 == s % 2 && (s >> 1u8) & 1 == (s / 2) % 2 && (s >> 2u8) & 1 == (s / 4)
        % 2 && (s >> 3u8) & 1 == (s / 8) % 2 && (s >> 4u8) & 1 == (s / 16) % 2 && (s >> 5u8) & 1
        == (s / 32) % 2 && (s >> 6u8) & 1 == (s / 64) % 2 && (s >> 7u8) & 1 == (s / 128) % 2)
        by (bit_vector);
}

/// After the strobe went high and low again, the reads return the buttons
/// in their order, one bit each: the read after `n` others (`n` below 8)
/// returns 1 if button `n` was held when the strobe fell, else 0.
pub proof fn lemma_latched_reads_return_the_buttons(c: Controller, n: u8)
    requires
        n < 8,
    ensures
        ({
            let latched = c.spec_write(1).spec_write(0);
            spec_reads(latched, n as nat).spec_read_value() == (if c.spec_pressed(n) {
                1u8
            } else {
                0u8
            })
        }),
{
    let latched = c.spec_write(1).spec_write(0);
    lemma_reads_shift(latched, n as nat);
    lemma_bit_is_parity(c.button_state, n);
}

/// After eight reads every further read returns 1.
pub proof fn lemma_reads_after_the_eighth(c: Controller, n: nat)
    requires
        n >= 8,
    ensures
        ({
            let latched = c.spec_write(1).spec_write(0);
            &&& spec_reads(latched, n).shift_register == 0xFF
            &&& spec_reads(latched, n).spec_read_value() == 1
        }),
    decreases n,
{
    let latched = c.spec_write(1).spec_write(0);
    if n == 8 {
        lemma_reads_shift(latched, 8);
    } else {
        lemma_reads_after_the_eighth(c, (n - 1) as nat);
    }
}

} // verus!
