use vstd::prelude::*;

use crate::frame::{state_request_frame, state_request_spec, STATE_LEN};

verus! {

/// The counter of the state exchanges with the device.
pub struct Session {
    pub poll_counter: u16,
}

/// The counter after `n` exchanges from a fresh session.
pub open spec fn counter_after(n: nat) -> int
    decreases n,
{
    if n == 0 {
        1
    } else {
        (counter_after((n - 1) as nat) + 1) % 0x1_0000
    }
}

/// The counter advances by one per exchange, modulo 2^16, from 1.
pub proof fn lemma_counter_after(n: nat)
    ensures
        counter_after(n) == (1 + n) % 0x1_0000,
    decreases n,
{
    if n > 0 {
        lemma_counter_after((n - 1) as nat);
        vstd::arithmetic::div_mod::lemma_add_mod_noop(n as int, 1, 0x1_0000);
        vstd::arithmetic::div_mod::lemma_mod_twice(n as int, 0x1_0000);
        vstd::arithmetic::div_mod::lemma_add_mod_noop((n - 1) as int + 1, 1, 0x1_0000);
    }
}

impl Session {
    /// A session whose first exchange uses counter 1.
    pub fn new() -> (r: Session)
        ensures
            r.poll_counter == counter_after(0),
    {
        Session { poll_counter: 1 }
    }

    /// The counter for the next exchange (its write and its read use the same value); the
    /// counter then advances, from 0xFFFF to 0.
    pub fn next_counter(&mut self) -> (r: u16)
        ensures
            r == old(self).poll_counter,
            final(self).poll_counter == (old(self).poll_counter + 1) % 0x1_0000,
    {
        let c = self.poll_counter;
        self.poll_counter = if c == 0xFFFF {
            0
        } else {
            c + 1
        };
        c
    }

    /// Starts a state exchange: the counter to use and the outgoing scratch, zero but for
    /// its two magic fields.
    pub fn state_request(&mut self) -> (r: (u16, Vec<u8>))
        ensures
            r.0 == old(self).poll_counter,
            r.1@ == state_request_spec(),
            r.1@.len() == STATE_LEN,
            final(self).poll_counter == (old(self).poll_counter + 1) % 0x1_0000,
    {
        let c = self.next_counter();
        (c, state_request_frame())
    }
}

/// From a fresh session, the exchange number `n` (from 0) uses counter (1 + n) mod 2^16.
pub proof fn lemma_poll_counter_sequence(s: Session, n: nat)
    requires
        s.poll_counter == counter_after(n),
    ensures
        s.poll_counter == (1 + n) % 0x1_0000,
        (s.poll_counter + 1) % 0x1_0000 == counter_after(n + 1),
{
    lemma_counter_after(n);
}

} // verus!
