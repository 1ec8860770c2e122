//! The LED writer: a sparse set of pending LED intensities, and its encoding
//! into the controller's 32-byte output report.
use vstd::prelude::*;
use crate::controls::{led_offset, lemma_led_offsets_distinct, Button};

verus! {

/// The first byte of every output report, which marks its type.
pub const LED_REPORT_TAG: u8 = 0x0c;

/// The highest intensity that the controller takes; higher ones are clamped.
pub const LED_MAX: u8 = 0x7f;

/// An intensity as the controller receives it: clamped to `LED_MAX`.
pub open spec fn led_clamp(v: u8) -> u8 {
    if v > LED_MAX { LED_MAX } else { v }
}

/// Byte `i` (1 to 31) of the output report for the pending intensities `m`:
/// the clamped intensity of the button whose LED lives there, if `m` holds
/// one, else 0.
pub open spec fn led_byte(m: Map<Button, u8>, i: int) -> u8 {
    if exists|b: Button| #[trigger] m.contains_key(b) && led_offset(b) == Some(i) {
        let b = choose|b: Button| #[trigger] m.contains_key(b) && led_offset(b) == Some(i);
        led_clamp(m[b])
    } else {
        0
    }
}

/// The output report for the pending intensities `m`.
pub open spec fn led_report(m: Map<Button, u8>) -> Seq<u8> {
    Seq::new(32, |i: int| if i == 0 { LED_REPORT_TAG } else { led_byte(m, i) })
}

/// The intensities that a list of assignments leaves, the later ones winning.
pub open spec fn assignments_map(s: Seq<(Button, u8)>) -> Map<Button, u8>
    decreases s.len(),
{
    if s.len() == 0 {
        Map::empty()
    } else {
        assignments_map(s.drop_last()).insert(s.last().0, s.last().1)
    }
}

/// Recording intensity `v` for `b` changes only the byte of `b`'s LED.
pub proof fn lemma_led_byte_insert(m: Map<Button, u8>, b: Button, v: u8, i: int)
    ensures
        led_byte(m.insert(b, v), i) == (if led_offset(b) == Some(i) {
            led_clamp(v)
        } else {
            led_byte(m, i)
        }),
{
    let m2 = m.insert(b, v);
    if led_offset(b) == Some(i) {
        assert(m2.contains_key(b) && led_offset(b) == Some(i));
        let c = choose|c: Button| #[trigger] m2.contains_key(c) && led_offset(c) == Some(i);
        lemma_led_offsets_distinct(c, b);
    } else {
        if exists|c: Button| #[trigger] m2.contains_key(c) && led_offset(c) == Some(i) {
            let c2 = choose|c: Button| #[trigger] m2.contains_key(c) && led_offset(c) == Some(i);
            assert(m.contains_key(c2) && led_offset(c2) == Some(i));
            let c1 = choose|c: Button| #[trigger] m.contains_key(c) && led_offset(c) == Some(i);
            lemma_led_offsets_distinct(c1, c2);
        } else {
            if exists|c: Button| #[trigger] m.contains_key(c) && led_offset(c) == Some(i) {
                let c1 = choose|c: Button| #[trigger] m.contains_key(c) && led_offset(c) == Some(i);
                assert(m2.contains_key(c1));
            }
        }
    }
}

/// With no intensity pending, every LED byte is 0.
pub proof fn lemma_led_byte_empty(i: int)
    ensures
        led_byte(Map::<Button, u8>::empty(), i) == 0,
{
}

/// A builder of one LED update: it collects intensities per button, the last
/// one set for a button winning, and encodes them into an output report.
pub struct LedWriter {
    leds: Vec<(Button, u8)>,
}

impl View for LedWriter {
    type V = Map<Button, u8>;

    closed spec fn view(&self) -> Map<Button, u8> {
        assignments_map(self.leds@)
    }
}

impl LedWriter {
    /// Each button is listed at most once.
    pub closed spec fn wf(&self) -> bool {
        forall|i: int, j: int|
            0 <= i < j < self.leds@.len() ==> #[trigger] self.leds@[i].0 != #[trigger] self.leds@[j].0
    }

    /// A writer with no intensity pending.
    pub fn new() -> (w: Self)
        ensures
            w.wf(),
            w@ == Map::<Button, u8>::empty(),
    {
        LedWriter { leds: Vec::new() }
    }

    /// Records intensity `on` for `button`, replacing any pending one.
    pub fn set_led(&mut self, button: Button, on: u8) -> (r: &mut Self)
        requires
            old(self).wf(),
        ensures
            r.wf(),
            r@ == old(self)@.insert(button, on),
            *final(self) == *final(r),
    {
        let mut j: usize = 0;
        while j < self.leds.len()
            invariant
                0 <= j <= self.leds@.len(),
                self.wf(),
                self.leds@ == old(self).leds@,
                forall|k: int| 0 <= k < j ==> (#[trigger] self.leds@[k]).0 != button,
            decreases self.leds@.len() - j,
        {
            if self.leds[j].0 == button {
                proof {
                    lemma_assignments_update(self.leds@, j as int, button, on);
                }
                self.leds.set(j, (button, on));
                return self;
            }
            j = j + 1;
        }
        let ghost before = self.leds@;
        self.leds.push((button, on));
        assert(self.leds@.drop_last() =~= before);
        assert(self@ == assignments_map(before).insert(button, on));
        self
    }

    /// A writer holding the given assignments, the later ones winning.
    pub fn from_pairs(pairs: &[(Button, u8)]) -> (w: Self)
        ensures
            w.wf(),
            w@ == assignments_map(pairs@),
    {
        let mut w = LedWriter::new();
        let mut k: usize = 0;
        while k < pairs.len()
            invariant
                0 <= k <= pairs@.len(),
                w.wf(),
                w@ == assignments_map(pairs@.take(k as int)),
            decreases pairs@.len() - k,
        {
            let (button, on) = pairs[k];
            w.set_led(button, on);
            assert(pairs@.take(k + 1).drop_last() =~= pairs@.take(k as int));
            k = k + 1;
        }
        assert(pairs@.take(pairs@.len() as int) =~= pairs@);
        w
    }

    /// The output report for the pending intensities.
    pub fn encode(&self) -> (buffer: [u8; 32])
        ensures
            buffer@ == led_report(self@),
    {
        let mut buffer = [0u8; 32];
        buffer[0] = LED_REPORT_TAG;
        let mut k: usize = 0;
        while k < self.leds.len()
            invariant
                0 <= k <= self.leds@.len(),
                forall|i: int|
                    0 <= i < 32 ==> #[trigger] buffer@[i] == led_report(
                        assignments_map(self.leds@.take(k as int)),
                    )[i],
            decreases self.leds@.len() - k,
        {
            let (button, on) = self.leds[k];
            let ghost before = buffer@;
            let ghost m = assignments_map(self.leds@.take(k as int));
            match button.led_address() {
                Some(address) => {
                    buffer[address] = if on > LED_MAX { LED_MAX } else { on };
                },
                None => {},
            }
            assert(self.leds@.take(k + 1).drop_last() =~= self.leds@.take(k as int));
            assert forall|i: int| 0 <= i < 32 implies #[trigger] buffer@[i] == led_report(
                assignments_map(self.leds@.take(k + 1)),
            )[i] by {
                if i > 0 {
                    lemma_led_byte_insert(m, button, on, i);
                }
            }
            k = k + 1;
        }
        assert(self.leds@.take(self.leds@.len() as int) =~= self.leds@);
        assert(buffer@ =~= led_report(self@));
        buffer
    }
}

/// Overwriting the entry of `b` in a list without repeated buttons records
/// `v` for `b` and changes nothing else.
proof fn lemma_assignments_update(s: Seq<(Button, u8)>, j: int, b: Button, v: u8)
    requires
        0 <= j < s.len(),
        s[j].0 == b,
        forall|i: int, k: int| 0 <= i < k < s.len() ==> #[trigger] s[i].0 != #[trigger] s[k].0,
    ensures
        assignments_map(s.update(j, (b, v))) == assignments_map(s).insert(b, v),
    decreases s.len(),
{
    let t = s.update(j, (b, v));
    if j == s.len() - 1 {
        assert(t.drop_last() =~= s.drop_last());
        assert(assignments_map(t) =~= assignments_map(s).insert(b, v));
    } else {
        assert(t.drop_last() =~= s.drop_last().update(j, (b, v)));
        lemma_assignments_update(s.drop_last(), j, b, v);
        assert(s.last().0 != b);
        assert(assignments_map(t) =~= assignments_map(s).insert(b, v));
    }
}

/// Setting one LED on an empty writer gives a report with the tag in byte 0,
/// the clamped intensity in that LED's byte, and 0 everywhere else.
pub proof fn lemma_single_led(b: Button, v: u8)
    requires
        led_offset(b) is Some,
    ensures
        ({
            let r = led_report(Map::<Button, u8>::empty().insert(b, v));
            &&& r.len() == 32
            &&& r[0] == LED_REPORT_TAG
            &&& r[led_offset(b)->0] == (if v > 127 { 127 } else { v })
            &&& forall|i: int|
                1 <= i < 32 && i != led_offset(b)->0 ==> #[trigger] r[i] == 0
        }),
{
    let r = led_report(Map::<Button, u8>::empty().insert(b, v));
    lemma_led_byte_insert(Map::<Button, u8>::empty(), b, v, led_offset(b)->0);
    assert forall|i: int| 1 <= i < 32 && i != led_offset(b)->0 implies #[trigger] r[i] == 0 by {
        lemma_led_byte_insert(Map::<Button, u8>::empty(), b, v, i);
        lemma_led_byte_empty(i);
    }
}

/// Setting a button's LED twice before encoding is the same as setting it
/// once to the last intensity.
pub proof fn lemma_set_led_last_wins(m: Map<Button, u8>, b: Button, x: u8, y: u8)
    ensures
        m.insert(b, x).insert(b, y) == m.insert(b, y),
        led_report(m.insert(b, x).insert(b, y)) == led_report(m.insert(b, y)),
{
    assert(m.insert(b, x).insert(b, y) =~= m.insert(b, y));
}

} // verus!
