use vstd::prelude::*;
use vstd::string::StringSliceAdditionalSpecFns;
use uart_16550::SerialPort;

verus! {

#[verifier::external_type_specification]
#[verifier::external_body]
pub struct ExSerialPort(SerialPort);

/// Relies on uart_16550::SerialPort::send: waits until the transmitter is
/// empty and hands it one byte (a backspace or delete goes out as
/// backspace, space, backspace). It spins for as long as the device is busy.
#[verifier::external_body]
fn port_send(port: &mut SerialPort, data: u8) {
    port.send(data)
}

/// A serial port together with the record of every byte handed to it, in
/// the order it was handed over.
pub struct SerialChannel {
    port: SerialPort,
    sent: Ghost<Seq<u8>>,
}

impl SerialChannel {
    /// The bytes handed to the port so far, oldest first.
    pub closed spec fn sent(&self) -> Seq<u8> {
        self.sent@
    }

    /// A channel over an initialised port, with nothing sent yet.
    pub fn new(port: SerialPort) -> (r: SerialChannel)
        ensures
            r.sent() == Seq::<u8>::empty(),
    {
        SerialChannel { port, sent: Ghost(Seq::empty()) }
    }

    /// Hands one byte to the port, after every byte handed before it.
    pub fn send(&mut self, data: u8)
        ensures
            final(self).sent() == old(self).sent().push(data),
    {
        port_send(&mut self.port, data);
        self.sent = Ghost(self.sent@.push(data));
    }
}

/// Transmits the bytes of `text` on the channel, one after another in order.
/// The caller holds the channel exclusively for the whole text, so the bytes
/// of two calls never mix.
pub fn _print(channel: &mut SerialChannel, text: &str)
    ensures
        final(channel).sent() == old(channel).sent() + text.spec_bytes(),
{
    let bytes = text.as_bytes();
    let mut i: usize = 0;
    while i < bytes.len()
        invariant
            i <= bytes@.len(),
            bytes@ == text.spec_bytes(),
            channel.sent() == old(channel).sent() + bytes@.take(i as int),
        decreases bytes@.len() - i,
    {
        channel.send(bytes[i]);
        proof {
            assert(bytes@.take(i as int + 1) =~= bytes@.take(i as int).push(bytes@[i as int]));
        }
        i += 1;
    }
    proof {
        assert(bytes@.take(i as int) =~= bytes@);
    }
}

} // verus!
