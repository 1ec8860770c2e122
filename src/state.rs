//! Decoding of the controller's 24-byte input report into a snapshot of its
//! buttons and knobs.
use vstd::prelude::*;
use crate::codec::{bit_is_set, combine_be16, hex2bin};
use crate::controls::{button_address, knob_bytes, knob_slot, Button, Encoder, EncoderState, Knob};
use crate::transport::{transfer_outcome, X1Error};

verus! {

/// Whether an input report flags button `b` as pressed: the bit that the
/// button table gives, in status byte `1 + group`.
pub open spec fn report_pressed(report: Seq<u8>, b: Button) -> bool {
    bit_is_set(report[1 + button_address(b).0], button_address(b).1)
}

/// The raw reading of knob `k` in an input report: its two bytes, big-endian.
pub open spec fn report_knob(report: Seq<u8>, k: Knob) -> int {
    report[knob_bytes(k).0] as int * 256 + report[knob_bytes(k).1] as int
}

/// A snapshot of the controller decoded from one input report: the five
/// status bytes expanded to bits, and the byte pairs of the eight knobs.
#[derive(Clone, Copy)]
pub struct X1State {
    button_bits: [[u8; 8]; 5],
    knob_bytes: [(u8, u8); 8],
}

impl X1State {
    /// Whether this snapshot holds button `b` as pressed.
    pub closed spec fn pressed(self, b: Button) -> bool {
        self.button_bits@[button_address(b).0]@[button_address(b).1] > 0
    }

    /// The reading that this snapshot holds for knob `k`.
    pub closed spec fn knob(self, k: Knob) -> int {
        let pair = self.knob_bytes@[knob_slot(k)];
        pair.0 as int * 256 + pair.1 as int
    }

    /// This snapshot holds exactly what `report` says of every button and knob.
    pub open spec fn decoded_from(self, report: Seq<u8>) -> bool {
        &&& forall|b: Button| #[trigger] self.pressed(b) == report_pressed(report, b)
        &&& forall|k: Knob| #[trigger] self.knob(k) == report_knob(report, k)
    }

    /// Decodes an input report.
    pub fn new(buffer: [u8; 24]) -> (s: Self)
        ensures
            s.decoded_from(buffer@),
    {
        let bin_0 = hex2bin(buffer[1]);
        let bin_1 = hex2bin(buffer[2]);
        let bin_2 = hex2bin(buffer[3]);
        let bin_3 = hex2bin(buffer[4]);
        let bin_4 = hex2bin(buffer[5]);

        let button_bits = [bin_0, bin_1, bin_2, bin_3, bin_4];

        let knob_bytes = [
            (buffer[16], buffer[17]),
            (buffer[20], buffer[21]),
            (buffer[22], buffer[23]),
            (buffer[18], buffer[19]),
            (buffer[12], buffer[13]),
            (buffer[10], buffer[11]),
            (buffer[8], buffer[9]),
            (buffer[14], buffer[15]),
        ];

        let s = X1State { button_bits, knob_bytes };
        assert forall|b: Button| #[trigger] s.pressed(b) == report_pressed(buffer@, b) by {
            let g = button_address(b).0;
            let i = button_address(b).1;
            assert(0 <= i < 8);
            if g == 0 {
                assert(s.button_bits@[g] == bin_0);
            } else if g == 1 {
                assert(s.button_bits@[g] == bin_1);
            } else if g == 2 {
                assert(s.button_bits@[g] == bin_2);
            } else if g == 3 {
                assert(s.button_bits@[g] == bin_3);
            } else {
                assert(s.button_bits@[g] == bin_4);
            }
        }
        s
    }

    /// Whether the snapshot shows `button` as pressed.
    pub fn is_button_pressed(&self, button: Button) -> (r: bool)
        ensures
            r == self.pressed(button),
    {
        let address = button.input_address();
        self.button_bits[address.0][address.1] > 0
    }

    /// The raw 16-bit reading of `knob`, unscaled.
    pub fn read_knob(&self, knob: Knob) -> (r: u16)
        ensures
            r as int == self.knob(knob),
    {
        let pair = self.knob_bytes[knob.slot()];
        combine_be16(pair.0, pair.1)
    }

    /// The movement of a rotary encoder. Where the report carries the
    /// encoders is not known, so no encoder can be decoded: the result is
    /// always `None`.
    pub fn read_encoder(&self, encoder: Encoder) -> (r: Option<EncoderState>)
        ensures
            r is None,
    {
        None
    }
}

/// The snapshot that one read of an input report gives: `read` is what the
/// bulk read returned and `buffer` what it filled. Only a read of exactly 24
/// bytes is decoded; a shorter one is `ShortReport`, and a failed one is
/// reported as `transfer_outcome` reports it.
pub fn decode_read(read: Result<usize, rusb::Error>, buffer: [u8; 24]) -> (r: Result<X1State, X1Error>)
    ensures
        r is Ok <==> read == Ok::<usize, rusb::Error>(24),
        r is Ok ==> r->Ok_0.decoded_from(buffer@),
        read is Ok && read->Ok_0 != 24 ==> r == Err::<X1State, X1Error>(
            X1Error::ShortReport(read->Ok_0),
        ),
        read is Err ==> (r->Err_0 is Timeout <==> read->Err_0 is Timeout),
        read is Err && !(read->Err_0 is Timeout) ==> r->Err_0 == X1Error::Libusb(read->Err_0),
{
    match transfer_outcome(read) {
        Ok(n) => {
            if n == 24 {
                Ok(X1State::new(buffer))
            } else {
                Err(X1Error::ShortReport(n))
            }
        },
        Err(e) => Err(e),
    }
}

/// Exactly one set status bit, bit `bit` of group `group`, shows as pressed
/// exactly the buttons that the button table places at that bit.
pub proof fn lemma_single_status_bit(report: Seq<u8>, group: int, bit: int, state: X1State, b: Button)
    requires
        report.len() == 24,
        0 <= group < 5,
        0 <= bit < 8,
        report[1 + group] == 1u8 << (bit as u8),
        forall|j: int| 1 <= j < 6 && j != 1 + group ==> #[trigger] report[j] == 0u8,
        state.decoded_from(report),
    ensures
        state.pressed(b) <==> button_address(b) == (group, bit),
{
    let g = button_address(b).0;
    let i = button_address(b).1;
    assert(state.pressed(b) == report_pressed(report, b));
    let x = bit as u8;
    let y = i as u8;
    assert(((1u8 << x) >> y) & 1u8 == 1u8 <==> x == y) by (bit_vector)
        requires
            x < 8,
            y < 8,
    ;
    assert((0u8 >> y) & 1u8 != 1u8) by (bit_vector);
    if g != group {
        assert(report[1 + g] == 0u8);
    }
}

} // verus!
