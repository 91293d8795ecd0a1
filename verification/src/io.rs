//! The I/O port layer: the keyboard matrix and the EAR bit on port `0xFE`.

use vstd::prelude::*;
use crate::tape::Tape;

verus! {

/// The keys of the ZX81 keyboard.
#[derive(Clone, Copy, Debug, PartialEq, Eq, Structural)]
pub enum Key {
    Shift,
    Z,
    X,
    C,
    V,
    A,
    S,
    D,
    F,
    G,
    Q,
    W,
    E,
    R,
    T,
    Key1,
    Key2,
    Key3,
    Key4,
    Key5,
    Key0,
    Key9,
    Key8,
    Key7,
    Key6,
    P,
    O,
    I,
    U,
    Y,
    Enter,
    L,
    K,
    J,
    H,
    Space,
    Period,
    M,
    N,
    B,
}

/// Number of half-rows in the matrix.
pub const ROWS: usize = 8;

/// Number of keys in a half-row.
pub const COLS: usize = 5;

/// The key at a row and a column of the matrix.
pub open spec fn key_at(row: int, col: int) -> Key {
    let i = row * 5 + col;
    if i == 0 { Key::Shift } else if i == 1 { Key::Z } else if i == 2 { Key::X }
    else if i == 3 { Key::C } else if i == 4 { Key::V } else if i == 5 { Key::A }
    else if i == 6 { Key::S } else if i == 7 { Key::D } else if i == 8 { Key::F }
    else if i == 9 { Key::G } else if i == 10 { Key::Q } else if i == 11 { Key::W }
    else if i == 12 { Key::E } else if i == 13 { Key::R } else if i == 14 { Key::T }
    else if i == 15 { Key::Key1 } else if i == 16 { Key::Key2 } else if i == 17 { Key::Key3 }
    else if i == 18 { Key::Key4 } else if i == 19 { Key::Key5 } else if i == 20 { Key::Key0 }
    else if i == 21 { Key::Key9 } else if i == 22 { Key::Key8 } else if i == 23 { Key::Key7 }
    else if i == 24 { Key::Key6 } else if i == 25 { Key::P } else if i == 26 { Key::O }
    else if i == 27 { Key::I } else if i == 28 { Key::U } else if i == 29 { Key::Y }
    else if i == 30 { Key::Enter } else if i == 31 { Key::L } else if i == 32 { Key::K }
    else if i == 33 { Key::J } else if i == 34 { Key::H } else if i == 35 { Key::Space }
    else if i == 36 { Key::Period } else if i == 37 { Key::M } else if i == 38 { Key::N }
    else { Key::B }
}

/// The half-row that the high address byte selects, if it selects exactly
/// one.
pub open spec fn row_of(a_hi: u8) -> Option<int> {
    if a_hi == 0xFE {
        Some(0)
    } else if a_hi == 0xFD {
        Some(1)
    } else if a_hi == 0xFB {
        Some(2)
    } else if a_hi == 0xF7 {
        Some(3)
    } else if a_hi == 0xEF {
        Some(4)
    } else if a_hi == 0xDF {
        Some(5)
    } else if a_hi == 0xBF {
        Some(6)
    } else if a_hi == 0x7F {
        Some(7)
    } else {
        None
    }
}

/// The level of the EAR line: that of a playing tape, high otherwise.
pub open spec fn ear_spec(tape: Option<Tape>) -> bool {
    match tape {
        Some(t) => !t.playing || t.level,
        None => true,
    }
}

/// The byte read from the keyboard port: bits 0 to 4 are clear for pressed
/// keys, bit 6 is the EAR line, bits 5 and 7 are set.
pub open spec fn scan_value(k0: bool, k1: bool, k2: bool, k3: bool, k4: bool, ear: bool) -> u8 {
    (0xA0 + (if ear { 0x40int } else { 0 }) + (if k0 { 0int } else { 1 }) + (if k1 { 0int } else { 2 })
        + (if k2 { 0int } else { 4 }) + (if k3 { 0int } else { 8 }) + (if k4 { 0int } else { 16 })) as u8
}

/// The scan byte bit by bit: bit `i` of the low five is clear exactly if key
/// `i` of the half-row is pressed, bit 6 is the EAR line, and bits 5 and 7
/// are set.
pub proof fn lemma_scan_value_bits(k0: bool, k1: bool, k2: bool, k3: bool, k4: bool, ear: bool)
    ensures
        (scan_value(k0, k1, k2, k3, k4, ear) & 0x01 == 0) == k0,
        (scan_value(k0, k1, k2, k3, k4, ear) & 0x02 == 0) == k1,
        (scan_value(k0, k1, k2, k3, k4, ear) & 0x04 == 0) == k2,
        (scan_value(k0, k1, k2, k3, k4, ear) & 0x08 == 0) == k3,
        (scan_value(k0, k1, k2, k3, k4, ear) & 0x10 == 0) == k4,
        scan_value(k0, k1, k2, k3, k4, ear) & 0x20 != 0,
        (scan_value(k0, k1, k2, k3, k4, ear) & 0x40 != 0) == ear,
        scan_value(k0, k1, k2, k3, k4, ear) & 0x80 != 0,
{
    let b0: u8 = if k0 { 0 } else { 0x01 };
    let b1: u8 = if k1 { 0 } else { 0x02 };
    let b2: u8 = if k2 { 0 } else { 0x04 };
    let b3: u8 = if k3 { 0 } else { 0x08 };
    let b4: u8 = if k4 { 0 } else { 0x10 };
    let b6: u8 = if ear { 0x40 } else { 0 };
    let v = scan_value(k0, k1, k2, k3, k4, ear);
    assert(v == 0xA0 + b6 + b0 + b1 + b2 + b3 + b4);
    assert(v == 0xA0 | b6 | b0 | b1 | b2 | b3 | b4) by (bit_vector)
        requires
            v == 0xA0 + b6 + b0 + b1 + b2 + b3 + b4,
            b0 == 0 || b0 == 0x01,
            b1 == 0 || b1 == 0x02,
            b2 == 0 || b2 == 0x04,
            b3 == 0 || b3 == 0x08,
            b4 == 0 || b4 == 0x10,
            b6 == 0 || b6 == 0x40,
    ;
    assert((v & 0x01 == 0) == (b0 == 0) && (v & 0x02 == 0) == (b1 == 0) && (v & 0x04 == 0) == (b2
        == 0) && (v & 0x08 == 0) == (b3 == 0) && (v & 0x10 == 0) == (b4 == 0) && v & 0x20 != 0 && (v
        & 0x40 != 0) == (b6 != 0) && v & 0x80 != 0) by (bit_vector)
        requires
            v == 0xA0 | b6 | b0 | b1 | b2 | b3 | b4,
            b0 == 0 || b0 == 0x01,
            b1 == 0 || b1 == 0x02,
            b2 == 0 || b2 == 0x04,
            b3 == 0 || b3 == 0x08,
            b4 == 0 || b4 == 0x10,
            b6 == 0 || b6 == 0x40,
    ;
}

/// The keyboard matrix as the driver last reported it.
pub struct IoController {
    keyboard_state: Vec<bool>,
}

impl IoController {
    /// The matrix holds one entry for each key.
    pub closed spec fn wf(&self) -> bool {
        self.keyboard_state.len() == ROWS * COLS
    }

    /// Whether the key at `row` and `col` is held down.
    pub closed spec fn pressed(&self, row: int, col: int) -> bool {
        self.keyboard_state@[row * 5 + col]
    }

    /// What a read of port `port` returns with `a_hi` on the upper address
    /// lines.
    pub open spec fn port_spec(&self, port: u8, a_hi: u8, tape: Option<Tape>) -> u8 {
        if port % 2 != 0 {
            0xFF
        } else {
            match row_of(a_hi) {
                Some(row) => scan_value(
                    self.pressed(row, 0),
                    self.pressed(row, 1),
                    self.pressed(row, 2),
                    self.pressed(row, 3),
                    self.pressed(row, 4),
                    ear_spec(tape),
                ),
                None => 0xBF,
            }
        }
    }

    /// A keyboard with no key pressed.
    pub fn new() -> (io: IoController)
        ensures
            io.wf(),
            forall|row: int, col: int| 0 <= row < 8 && 0 <= col < 5 ==> !io.pressed(row, col),
    {
        let io = IoController { keyboard_state: vec![false; 40] };
        assert forall|row: int, col: int| 0 <= row < 8 && 0 <= col < 5 implies !io.pressed(
            row,
            col,
        ) by {
            assert(0 <= row * 5 + col < 40);
        }
        io
    }

    /// Reads a port. Even ports answer with a keyboard scan of the half-row
    /// that `addr_high` selects and the EAR line in bit 6; odd ports are not
    /// connected.
    pub fn read_port(&self, port: u8, addr_high: u8, tape: &Option<Tape>) -> (v: u8)
        requires
            self.wf(),
        ensures
            v == self.port_spec(port, addr_high, *tape),
    {
        if port % 2 != 0 {
            return 0xFF;
        }
        let row: usize = match addr_high {
            0xFE => 0,
            0xFD => 1,
            0xFB => 2,
            0xF7 => 3,
            0xEF => 4,
            0xDF => 5,
            0xBF => 6,
            0x7F => 7,
            _ => {
                return 0xBF;
            },
        };
        let ear = match tape {
            Some(t) => !t.is_playing() || t.get_level(),
            None => true,
        };
        let mut result: u8 = if ear { 0xE0 } else { 0xA0 };
        if !self.keyboard_state[row * 5] {
            result += 1;
        }
        if !self.keyboard_state[row * 5 + 1] {
            result += 2;
        }
        if !self.keyboard_state[row * 5 + 2] {
            result += 4;
        }
        if !self.keyboard_state[row * 5 + 3] {
            result += 8;
        }
        if !self.keyboard_state[row * 5 + 4] {
            result += 16;
        }
        result
    }

    /// The place of a key in the matrix: its half-row and its column.
    pub fn map_key(key: Key) -> (pos: (usize, usize))
        ensures
            pos.0 < 8,
            pos.1 < 5,
            key_at(pos.0 as int, pos.1 as int) == key,
    {
        match key {
            Key::Shift => (0, 0),
            Key::Z => (0, 1),
            Key::X => (0, 2),
            Key::C => (0, 3),
            Key::V => (0, 4),
            Key::A => (1, 0),
            Key::S => (1, 1),
            Key::D => (1, 2),
            Key::F => (1, 3),
            Key::G => (1, 4),
            Key::Q => (2, 0),
            Key::W => (2, 1),
            Key::E => (2, 2),
            Key::R => (2, 3),
            Key::T => (2, 4),
            Key::Key1 => (3, 0),
            Key::Key2 => (3, 1),
            Key::Key3 => (3, 2),
            Key::Key4 => (3, 3),
            Key::Key5 => (3, 4),
            Key::Key0 => (4, 0),
            Key::Key9 => (4, 1),
            Key::Key8 => (4, 2),
            Key::Key7 => (4, 3),
            Key::Key6 => (4, 4),
            Key::P => (5, 0),
            Key::O => (5, 1),
            Key::I => (5, 2),
            Key::U => (5, 3),
            Key::Y => (5, 4),
            Key::Enter => (6, 0),
            Key::L => (6, 1),
            Key::K => (6, 2),
            Key::J => (6, 3),
            Key::H => (6, 4),
            Key::Space => (7, 0),
            Key::Period => (7, 1),
            Key::M => (7, 2),
            Key::N => (7, 3),
            Key::B => (7, 4),
        }
    }

    /// Replaces the matrix: a key is held down exactly if `keys` names it.
    #[verifier::rlimit(40)]
    pub fn update_keys(&mut self, keys: &[Key])
        ensures
            final(self).wf(),
            forall|row: int, col: int|
                0 <= row < 8 && 0 <= col < 5 ==> (#[trigger] final(self).pressed(row, col)
                    <==> keys@.contains(key_at(row, col))),
    {
        self.keyboard_state = vec![false; 40];
        let mut i: usize = 0;
        while i < keys.len()
            invariant
                i <= keys.len(),
                self.keyboard_state.len() == 40,
                forall|p: int|
                    0 <= p < 40 ==> (#[trigger] self.keyboard_state@[p] <==> exists|j: int|
                        0 <= j < i && #[trigger] keys@[j] == key_at(p / 5, p % 5)),
            decreases keys.len() - i,
        {
            let (row, col) = IoController::map_key(keys[i]);
            let ghost before = self.keyboard_state@;
            self.keyboard_state.set(row * 5 + col, true);
            proof {
                let q = row * 5 + col;
                assert(q / 5 == row && q % 5 == col);
                assert forall|p: int| 0 <= p < 40 implies (#[trigger] self.keyboard_state@[p]
                    <==> exists|j: int|
                    0 <= j < i + 1 && #[trigger] keys@[j] == key_at(p / 5, p % 5)) by {
                    if p == q {
                        assert(keys@[i as int] == key_at(p / 5, p % 5));
                    } else {
                        assert(self.keyboard_state@[p] == before[p]);
                        assert(key_at(p / 5, p % 5) != key_at(row as int, col as int));
                    }
                }
            }
            i += 1;
        }
        assert forall|row: int, col: int| 0 <= row < 8 && 0 <= col < 5 implies (
        #[trigger] self.pressed(row, col) <==> keys@.contains(key_at(row, col))) by {
            let p = row * 5 + col;
            assert(p / 5 == row && p % 5 == col);
            if keys@.contains(key_at(row, col)) {
                let j = choose|j: int| 0 <= j < keys@.len() && keys@[j] == key_at(row, col);
                assert(keys@[j] == key_at(p / 5, p % 5));
            }
        }
    }

    /// Writes a port. Nothing in the core listens.
    pub fn write_port(&mut self, _port: u8, _value: u8)
        ensures
            *final(self) == *old(self),
    {
    }
}

} // verus!
