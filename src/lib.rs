//! Driver logic for the Traktor Kontrol X1 DJ controller: the bit and byte
//! codec, the decoder of the device's input report, the encoder of its LED
//! output report, and the mapping of transport errors.
pub mod codec;
pub mod controls;
pub mod leds;
pub mod state;
pub mod transport;

pub use codec::{combine_be16, hex2bin};
pub use controls::{Button, DeckButton, DeckEncoder, Encoder, EncoderState, FxButton, FxKnob, Knob};
pub use leds::LedWriter;
pub use state::{decode_read, X1State};
pub use transport::{is_x1, transfer_outcome, usb_error, X1Error};
