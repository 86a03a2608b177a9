use vstd::prelude::*;

verus! {

/// A MIDI event that the core consumes.
#[derive(Clone, Copy, PartialEq, Eq, Debug)]
pub enum MidiMessage {
    ControlChange { channel: u8, controller: u8, value: u8 },
}

#[verifier::external_type_specification]
#[verifier::external_body]
#[verifier::reject_recursive_types(T)]
pub struct ExReceiver<T>(std::sync::mpsc::Receiver<T>);

/// The receiving end of the queue that the MIDI input thread fills.
pub struct MidiInput {
    receiver: std::sync::mpsc::Receiver<MidiMessage>,
}

impl MidiInput {
    /// Takes the receiving end of the queue of the MIDI input thread.
    pub fn from_receiver(receiver: std::sync::mpsc::Receiver<MidiMessage>) -> (r: MidiInput) {
        MidiInput { receiver }
    }

    /// Relies on std's `Receiver::try_recv`: the next queued message, if one is waiting;
    /// what it returns depends on the other thread, so nothing is stated of it.
    #[verifier::external_body]
    pub fn try_recv(&self) -> Option<MidiMessage> {
        self.receiver.try_recv().ok()
    }
}

} // verus!
