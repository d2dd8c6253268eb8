//! Encoding of one LED-matrix refresh frame.
//!
//! The matrix driver chip shifts frames in over a synchronous serial bus. A
//! frame is a 4-byte start marker of zeros, then one 4-byte group per LED
//! unit — a header byte followed by the brightness value repeated once per
//! color channel — and a 4-byte end marker of `0xFF` bytes, long enough to
//! satisfy the chip's minimum-clocking requirement for the fixed LED count.

use vstd::prelude::*;

verus! {

/// Number of LED units in the fixed matrix topology.
pub const LED_COUNT: usize = 9;

/// Bytes in one complete frame: the start marker, one 4-byte group per LED,
/// and the end marker.
pub const FRAME_LEN: usize = 4 + 4 * LED_COUNT + 4;

/// The 5-bit global-brightness sub-field of every LED header byte, held at
/// its maximum: global brightness is never modulated, only the per-channel
/// values are.
pub const GLOBAL_BRIGHTNESS: u8 = 0b11111;

/// Header byte opening each 4-byte LED group: the fixed top-bits pattern the
/// driver chip requires, combined with the global-brightness sub-field.
pub const LED_HEADER: u8 = 0b1110_0000 | GLOBAL_BRIGHTNESS;

/// The 4-byte group for LED `k` of `s` carries the header byte and then the
/// brightness value once per color channel. The channels are not
/// differentiated: all three carry the same value.
pub open spec fn led_group_matches(s: Seq<u8>, brightness: u8, k: int) -> bool {
    &&& s[4 + 4 * k] == LED_HEADER
    &&& s[4 + 4 * k + 1] == brightness
    &&& s[4 + 4 * k + 2] == brightness
    &&& s[4 + 4 * k + 3] == brightness
}

/// Encode the frame that drives every LED of the matrix at `brightness`.
///
/// Total over the whole input range: every brightness from 0 to 255 yields a
/// frame of exactly [`FRAME_LEN`] bytes, bracketed by the start and end
/// markers, with one well-formed group per LED.
pub fn generate_led_data(brightness: u8) -> (frame: Vec<u8>)
    ensures
        frame@.len() == FRAME_LEN,
        forall|i: int| 0 <= i < 4 ==> frame@[i] == 0u8,
        forall|i: int| 4 + 4 * (LED_COUNT as int) <= i < FRAME_LEN ==> frame@[i] == 0xffu8,
        forall|k: int| 0 <= k < LED_COUNT ==> led_group_matches(frame@, brightness, k),
{
    let mut frame: Vec<u8> = Vec::new();

    // Start marker: resets the driver chip's shift state.
    frame.push(0x00);
    frame.push(0x00);
    frame.push(0x00);
    frame.push(0x00);

    let mut led: usize = 0;
    while led < LED_COUNT
        invariant
            led <= LED_COUNT,
            frame@.len() == 4 + 4 * led,
            forall|i: int| 0 <= i < 4 ==> frame@[i] == 0u8,
            forall|k: int| 0 <= k < led ==> led_group_matches(frame@, brightness, k),
        decreases LED_COUNT - led,
    {
        let ghost pre = frame@;
        frame.push(LED_HEADER);
        frame.push(brightness);
        frame.push(brightness);
        frame.push(brightness);
        proof {
            assert(frame@ =~= pre + seq![LED_HEADER, brightness, brightness, brightness]);
            assert forall|k: int| 0 <= k < led + 1 implies led_group_matches(
                frame@,
                brightness,
                k,
            ) by {
                if k < led {
                    assert(led_group_matches(pre, brightness, k));
                    assert(4 + 4 * k + 3 < pre.len());
                }
            }
        }
        led = led + 1;
    }

    // End marker: clocks the last shifted bits through the whole chain.
    let ghost body = frame@;
    frame.push(0xff);
    frame.push(0xff);
    frame.push(0xff);
    frame.push(0xff);
    proof {
        assert(frame@ =~= body + seq![0xffu8, 0xffu8, 0xffu8, 0xffu8]);
        assert forall|k: int| 0 <= k < LED_COUNT implies led_group_matches(
            frame@,
            brightness,
            k,
        ) by {
            assert(led_group_matches(body, brightness, k));
            assert(4 + 4 * k + 3 < body.len());
        }
    }

    frame
}

} // verus!
