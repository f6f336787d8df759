//! Decoding of the FT6206 capacitive touch controller's register protocol.

use vstd::prelude::*;

verus! {

/// I2C address of the touch controller.
pub const FT6206_ADDR: u8 = 0x38;
/// Device mode register.
pub const FT6206_REG_MODE: u8 = 0x00;
/// Interrupt mode register.
pub const FT6206_REG_CTRL: u8 = 0x86;
/// Gesture code register.
pub const FT6206_REG_GEST: u8 = 0x01;
/// Register holding the number of active touches in its low nibble.
pub const FT6206_REG_NUM_TOUCHES: u8 = 0x02;
/// First byte of the first contact record.
pub const FT6206_REG_TOUCH1_XH: u8 = 0x03;
/// Length of one contact record.
pub const CONTACT_RECORD_LEN: usize = 6;
/// Number of bytes read for the contact records of both touch points.
pub const CONTACT_DATA_LEN: usize = 12;

/// Phase of a contact as reported by the controller.
#[derive(Debug, Clone, Copy, PartialEq, Eq, Structural)]
pub enum TouchEvent {
    Press,
    Move,
    Release,
}

/// Gesture recognised by the controller.
#[derive(Debug, Clone, Copy, PartialEq, Eq, Structural)]
pub enum TouchGesture {
    Move,
    ZoomIn,
    ZoomOut,
}

/// One decoded contact. `event` is `None` when the phase bits hold the
/// reserved value.
#[derive(Debug, Clone, Copy, PartialEq, Eq)]
pub struct TouchPoint {
    pub x: u16,
    pub y: u16,
    pub id: u8,
    pub event: Option<TouchEvent>,
}

/// Phase encoded by the two top bits of a record's first byte.
pub open spec fn phase_of(flag: int) -> Option<TouchEvent> {
    if flag == 0 {
        Some(TouchEvent::Press)
    } else if flag == 1 {
        Some(TouchEvent::Release)
    } else if flag == 2 {
        Some(TouchEvent::Move)
    } else {
        None
    }
}

/// The contact described by the six-byte record starting at `start`.
pub open spec fn contact_at(data: Seq<u8>, start: int) -> TouchPoint {
    TouchPoint {
        x: ((data[start] % 16) * 256 + data[start + 1]) as u16,
        y: ((data[start + 2] % 16) * 256 + data[start + 3]) as u16,
        id: (data[start + 2] / 16) as u8,
        event: phase_of((data[start] / 64) as int),
    }
}

/// Number of touches that the status byte reports; counts above two are
/// treated as no touch at all.
pub open spec fn reported_count(status: u8) -> nat {
    let c = status % 16;
    if 1 <= c <= 2 {
        c as nat
    } else {
        0
    }
}

/// The touch points decoded from a status byte and the contact records.
pub open spec fn decoded_touches(status: u8, data: Seq<u8>) -> Seq<TouchPoint> {
    Seq::new(reported_count(status), |i: int| contact_at(data, 6 * i))
}

/// The gesture named by a gesture code.
pub open spec fn gesture_of(code: u8) -> Option<TouchGesture> {
    if code == 0x10 {
        Some(TouchGesture::Move)
    } else if code == 0x18 {
        Some(TouchGesture::ZoomIn)
    } else if code == 0x14 {
        Some(TouchGesture::ZoomOut)
    } else {
        None
    }
}

proof fn lemma_nibble_word(hi: u8, lo: u8)
    by (bit_vector)
    ensures
        (((hi & 0x0F) as u16) << 8u16) | (lo as u16) == (hi % 16) as u16 * 256 + lo as u16,
        (hi % 16) as u16 * 256 + lo as u16 <= 4095,
        hi >> 4u8 == hi / 16,
        (hi >> 6u8) & 0x03 == hi / 64,
{
}

/// Number of touches reported by the status register.
pub fn touch_count(status: u8) -> (n: usize)
    ensures
        n == reported_count(status),
        n <= 2,
{
    let c = status & 0x0F;
    assert(c == status % 16) by (bit_vector)
        requires
            c == status & 0x0F,
    ;
    if c > 0 && c <= 2 {
        c as usize
    } else {
        0
    }
}

/// Decodes the six-byte contact record that starts at `start`.
pub fn decode_contact(data: &[u8], start: usize) -> (p: TouchPoint)
    requires
        start + CONTACT_RECORD_LEN <= data@.len(),
    ensures
        p == contact_at(data@, start as int),
{
    let b0 = data[start];
    let b1 = data[start + 1];
    let b2 = data[start + 2];
    let b3 = data[start + 3];
    proof {
        lemma_nibble_word(b0, b1);
        lemma_nibble_word(b2, b3);
    }
    let flag = (b0 >> 6u8) & 0x03u8;
    let x = (((b0 & 0x0Fu8) as u16) << 8u16) | (b1 as u16);
    let y = (((b2 & 0x0Fu8) as u16) << 8u16) | (b3 as u16);
    let id = b2 >> 4u8;
    let event = if flag == 0 {
        Some(TouchEvent::Press)
    } else if flag == 1 {
        Some(TouchEvent::Release)
    } else if flag == 2 {
        Some(TouchEvent::Move)
    } else {
        None
    };
    TouchPoint { x, y, id, event }
}

/// Decodes the touch points from the status byte and the contact records
/// that follow it.
pub fn decode_touches(status: u8, data: &[u8]) -> (points: Vec<TouchPoint>)
    requires
        6 * reported_count(status) <= data@.len(),
    ensures
        points@ == decoded_touches(status, data@),
        points@.len() == reported_count(status),
{
    let count = touch_count(status);
    let mut points: Vec<TouchPoint> = Vec::new();
    let mut i: usize = 0;
    while i < count
        invariant
            count == reported_count(status),
            count <= 2,
            6 * count <= data@.len(),
            i <= count,
            points@ =~= decoded_touches(status, data@).take(i as int),
        decreases count - i,
    {
        let p = decode_contact(data, CONTACT_RECORD_LEN * i);
        points.push(p);
        i = i + 1;
    }
    assert(points@ =~= decoded_touches(status, data@));
    points
}

/// Decodes a gesture code; unknown codes give `None`.
pub fn decode_gesture(code: u8) -> (g: Option<TouchGesture>)
    ensures
        g == gesture_of(code),
{
    if code == 0x10 {
        Some(TouchGesture::Move)
    } else if code == 0x18 {
        Some(TouchGesture::ZoomIn)
    } else if code == 0x14 {
        Some(TouchGesture::ZoomOut)
    } else {
        None
    }
}

/// For every status byte whose touch count is 0, 1 or 2, decoding yields
/// exactly that many points, each with a phase that is one of the three
/// phases or unknown.
pub proof fn lemma_decoded_count(status: u8, data: Seq<u8>)
    requires
        status % 16 <= 2,
        6 * (status % 16) <= data.len(),
    ensures
        decoded_touches(status, data).len() == status % 16,
        forall|i: int|
            0 <= i < decoded_touches(status, data).len() ==> {
                let e = #[trigger] decoded_touches(status, data)[i].event;
                e == Some(TouchEvent::Press) || e == Some(TouchEvent::Move) || e == Some(
                    TouchEvent::Release,
                ) || e.is_none()
            },
{
}

} // verus!
