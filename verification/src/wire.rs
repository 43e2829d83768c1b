//! Endpoints, outgoing writes and the textual frames of the device family.

use vstd::prelude::*;

verus! {

/// A logical channel of a connected device.
#[derive(Clone, Copy, Debug, PartialEq, Eq, Structural)]
pub enum Endpoint {
    /// The channel on which the device notifies the host.
    Rx,
    /// The channel on which the host commands the device.
    Tx,
}

/// One write that the caller has to hand to the transport.
#[derive(Clone, Debug, PartialEq, Eq)]
pub struct DeviceWrite {
    pub endpoint: Endpoint,
    pub data: Vec<u8>,
    pub expect_response: bool,
}

impl DeviceWrite {
    /// The write as plain values: endpoint, payload, response flag.
    pub open spec fn view(&self) -> (Endpoint, Seq<u8>, bool) {
        (self.endpoint, self.data@, self.expect_response)
    }

    /// A write of `data` to the command channel that expects no response.
    pub fn command(data: Vec<u8>) -> (write: DeviceWrite)
        ensures
            write@ == command_write(data@),
    {
        DeviceWrite { endpoint: Endpoint::Tx, data, expect_response: false }
    }
}

/// The view of a command-channel write carrying `frame`.
pub open spec fn command_write(frame: Seq<u8>) -> (Endpoint, Seq<u8>, bool) {
    (Endpoint::Tx, frame, false)
}

/// Whether `writes` are command-channel writes of `frames`, one each, in order.
pub open spec fn carries(writes: Seq<DeviceWrite>, frames: Seq<Seq<u8>>) -> bool {
    &&& writes.len() == frames.len()
    &&& forall|i: int| 0 <= i < writes.len() ==> (#[trigger] writes[i])@ == command_write(frames[i])
}

/// The decimal digits of `n`, most significant first, as ASCII bytes.
pub open spec fn decimal(n: nat) -> Seq<u8>
    decreases n,
{
    if n < 10 {
        seq![('0' as u8 + n) as u8]
    } else {
        decimal(n / 10).push(('0' as u8 + n % 10) as u8)
    }
}

/// The bytes of a text of ASCII characters.
pub open spec fn ascii(text: Seq<char>) -> Seq<u8> {
    Seq::new(text.len(), |i: int| text[i] as u8)
}

/// `"DeviceType;"`: asks the device to report its identity.
pub open spec fn identify_frame() -> Seq<u8> {
    ascii("DeviceType;"@)
}

/// `"Vibrate:<level>;"`: sets every motor to `level`.
pub open spec fn vibrate_all_frame(level: u32) -> Seq<u8> {
    ascii("Vibrate:"@) + decimal(level as nat) + ascii(";"@)
}

/// `"Vibrate<n>:<level>;"`: sets the motor with one-based number `n` to `level`.
pub open spec fn vibrate_one_frame(motor_number: nat, level: u32) -> Seq<u8> {
    ascii("Vibrate"@) + decimal(motor_number) + ascii(":"@) + decimal(level as nat) + ascii(";"@)
}

/// `"RotateChange;"`: reverses the direction of rotation.
pub open spec fn rotate_change_frame() -> Seq<u8> {
    ascii("RotateChange;"@)
}

/// `"Rotate:<level>;"`: sets the speed of rotation.
pub open spec fn rotate_frame(level: u32) -> Seq<u8> {
    ascii("Rotate:"@) + decimal(level as nat) + ascii(";"@)
}

/// Appends the decimal digits of `n` to `out`.
pub fn push_decimal(out: &mut Vec<u8>, n: u64)
    ensures
        final(out)@ == old(out)@ + decimal(n as nat),
    decreases n,
{
    if n < 10 {
        let digit: u8 = '0' as u8 + (n as u8);
        out.push(digit);
        assert(final(out)@ =~= old(out)@ + decimal(n as nat));
    } else {
        push_decimal(out, n / 10);
        let digit: u8 = '0' as u8 + ((n % 10) as u8);
        out.push(digit);
        assert(out@ =~= old(out)@ + decimal(n as nat));
    }
}

/// Builds the frame that asks the device for its identity.
pub fn identify_bytes() -> (frame: Vec<u8>)
    ensures
        frame@ == identify_frame(),
{
    let frame = vec!['D' as u8, 'e' as u8, 'v' as u8, 'i' as u8, 'c' as u8, 'e' as u8, 'T' as u8, 'y' as u8, 'p' as u8, 'e' as u8, ';' as u8];
    proof {
        reveal_strlit("DeviceType;");
    }
    assert(frame@ =~= identify_frame());
    frame
}

/// Builds the frame that sets every motor to `level`.
pub fn vibrate_all_bytes(level: u32) -> (frame: Vec<u8>)
    ensures
        frame@ == vibrate_all_frame(level),
{
    let mut frame = vec!['V' as u8, 'i' as u8, 'b' as u8, 'r' as u8, 'a' as u8, 't' as u8, 'e' as u8, ':' as u8];
    push_decimal(&mut frame, level as u64);
    frame.push(';' as u8);
    proof {
        reveal_strlit("Vibrate:");
        reveal_strlit(";");
    }
    assert(frame@ =~= vibrate_all_frame(level));
    frame
}

/// Builds the frame that sets the motor at zero-based `index` to `level`.
pub fn vibrate_one_bytes(index: usize, level: u32) -> (frame: Vec<u8>)
    requires
        index < usize::MAX,
    ensures
        frame@ == vibrate_one_frame((index + 1) as nat, level),
{
    let mut frame = vec!['V' as u8, 'i' as u8, 'b' as u8, 'r' as u8, 'a' as u8, 't' as u8, 'e' as u8];
    push_decimal(&mut frame, (index + 1) as u64);
    frame.push(':' as u8);
    push_decimal(&mut frame, level as u64);
    frame.push(';' as u8);
    proof {
        reveal_strlit("Vibrate");
        reveal_strlit(":");
        reveal_strlit(";");
    }
    assert(frame@ =~= vibrate_one_frame((index + 1) as nat, level));
    frame
}

/// Builds the frame that reverses the direction of rotation.
pub fn rotate_change_bytes() -> (frame: Vec<u8>)
    ensures
        frame@ == rotate_change_frame(),
{
    let frame = vec!['R' as u8, 'o' as u8, 't' as u8, 'a' as u8, 't' as u8, 'e' as u8, 'C' as u8, 'h' as u8, 'a' as u8, 'n' as u8, 'g' as u8, 'e' as u8, ';' as u8];
    proof {
        reveal_strlit("RotateChange;");
    }
    assert(frame@ =~= rotate_change_frame());
    frame
}

/// Builds the frame that sets the speed of rotation to `level`.
pub fn rotate_bytes(level: u32) -> (frame: Vec<u8>)
    ensures
        frame@ == rotate_frame(level),
{
    let mut frame = vec!['R' as u8, 'o' as u8, 't' as u8, 'a' as u8, 't' as u8, 'e' as u8, ':' as u8];
    push_decimal(&mut frame, level as u64);
    frame.push(';' as u8);
    proof {
        reveal_strlit("Rotate:");
        reveal_strlit(";");
    }
    assert(frame@ =~= rotate_frame(level));
    frame
}

} // verus!
