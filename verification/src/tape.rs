//! The cassette: a program image, the pulse train that carries it, and a
//! playback cursor that moves in T-states.

use vstd::prelude::*;

verus! {

/// T-states per second.
pub const CLOCK_HZ: u64 = 3_250_000;

/// Length of the silent leader.
pub const LEADER_T: u64 = 16_250_000;

/// Width of the high half of a pulse.
pub const PULSE_HIGH_T: u64 = 488;

/// Width of the low half of a pulse.
pub const PULSE_LOW_T: u64 = 487;

/// Silence after each bit.
pub const SILENCE_BIT_T: u64 = 4225;

/// Silence after the last byte.
pub const PAUSE_END_T: u64 = 3_250_000;

/// Length of the header that some image files carry.
pub const HEADER_LEN: usize = 128;

/// The byte that ends the file name on tape.
pub const NAME_END: u8 = 0xA6;

/// A loaded cassette.
pub struct Tape {
    /// The program image.
    pub data: Vec<u8>,
    /// The pulse train: a level and its duration in T-states.
    pub pulses: Vec<(bool, u64)>,
    pub playing: bool,
    pub current_index: usize,
    /// T-states left in the current pulse.
    pub remaining: u64,
    pub level: bool,
}

/// The playback cursor of a tape.
pub struct Cursor {
    pub playing: bool,
    pub index: int,
    pub remaining: u64,
    pub level: bool,
}

/// The program image in a file: a file that starts with a zero byte and is
/// longer than 128 bytes carries a header of 128 bytes, which is skipped.
pub open spec fn strip_header(file: Seq<u8>) -> Seq<u8> {
    if file.len() > HEADER_LEN && file[0] == 0 {
        file.subrange(HEADER_LEN as int, file.len() as int)
    } else {
        file
    }
}

/// `n` pulses, each a high half and a low half.
pub open spec fn burst(n: int) -> Seq<(bool, u64)> {
    Seq::new(
        (2 * n) as nat,
        |i: int|
            if i % 2 == 0 {
                (true, PULSE_HIGH_T)
            } else {
                (false, PULSE_LOW_T)
            },
    )
}

/// One bit on tape: nine pulses for a one, four for a zero, then silence.
pub open spec fn bit_pulses(bit: bool) -> Seq<(bool, u64)> {
    burst(if bit { 9 } else { 4 }).push((false, SILENCE_BIT_T))
}

/// The bit of `b` that is sent in place `k`, the most significant first.
pub open spec fn tape_bit(b: u8, k: u8) -> bool {
    (b >> ((7 - k) as u8)) & 1 != 0
}

/// The first `k` bits of a byte on tape.
pub open spec fn bits_pulses(b: u8, k: u8) -> Seq<(bool, u64)>
    decreases k,
{
    if k == 0 {
        Seq::empty()
    } else {
        bits_pulses(b, (k - 1) as u8) + bit_pulses(tape_bit(b, (k - 1) as u8))
    }
}

/// One byte on tape: its eight bits, the most significant first.
pub open spec fn byte_pulses(b: u8) -> Seq<(bool, u64)> {
    bits_pulses(b, 8)
}

/// The bytes of an image on tape, in order.
pub open spec fn data_pulses(data: Seq<u8>) -> Seq<(bool, u64)>
    decreases data.len(),
{
    if data.len() == 0 {
        Seq::empty()
    } else {
        data_pulses(data.drop_last()) + byte_pulses(data.last())
    }
}

/// What stands on tape before the image: the leader, a sync pulse with a
/// low half of double width, and the byte that ends the file name.
pub open spec fn lead_in() -> Seq<(bool, u64)> {
    seq![(false, LEADER_T), (true, PULSE_HIGH_T), (false, 974u64)] + byte_pulses(NAME_END)
}

/// The whole pulse train of an image.
pub open spec fn tape_pulses(data: Seq<u8>) -> Seq<(bool, u64)> {
    (lead_in() + data_pulses(data)).push((false, PAUSE_END_T))
}

/// The cursor after `dt` more T-states: time is taken from the current
/// pulse, then from those that follow; behind the last pulse the tape stops
/// and the line falls low.
pub open spec fn advance_spec(pulses: Seq<(bool, u64)>, c: Cursor, dt: u64) -> Cursor
    decreases pulses.len() - c.index,
{
    if !c.playing || dt == 0 {
        c
    } else if c.remaining > dt {
        Cursor { remaining: (c.remaining - dt) as u64, ..c }
    } else if c.index + 1 >= pulses.len() {
        Cursor { playing: false, index: c.index + 1, remaining: c.remaining, level: false }
    } else {
        advance_spec(
            pulses,
            Cursor {
                playing: true,
                index: c.index + 1,
                remaining: pulses[c.index + 1].1,
                level: pulses[c.index + 1].0,
            },
            (dt - c.remaining) as u64,
        )
    }
}

/// Whether two cursors stand at the same place: the same pulse and level,
/// both playing or both stopped, and while playing the same time left.
pub open spec fn same_place(c: Cursor, d: Cursor) -> bool {
    &&& c.playing == d.playing
    &&& c.index == d.index
    &&& c.level == d.level
    &&& c.playing ==> c.remaining == d.remaining
}

/// Playback time adds up: moving on by `a` and then by `b` T-states leaves
/// the cursor at the place where moving on by `a + b` leaves it.
pub proof fn lemma_advance_adds_up(pulses: Seq<(bool, u64)>, c: Cursor, a: u64, b: u64)
    requires
        0 <= c.index,
        a + b <= u64::MAX,
    ensures
        same_place(
            advance_spec(pulses, advance_spec(pulses, c, a), b),
            advance_spec(pulses, c, (a + b) as u64),
        ),
    decreases pulses.len() - c.index,
{
    let first = advance_spec(pulses, c, a);
    if !c.playing || a == 0 {
        assert(first == c);
    } else if c.remaining > a {
        assert(first == Cursor { remaining: (c.remaining - a) as u64, ..c });
        if b > 0 && first.remaining <= b && c.index + 1 < pulses.len() {
            assert((b - first.remaining) as u64 == (a + b - c.remaining) as u64);
        }
    } else if c.index + 1 >= pulses.len() {
        assert(!first.playing);
    } else {
        let next = Cursor {
            playing: true,
            index: c.index + 1,
            remaining: pulses[c.index + 1].1,
            level: pulses[c.index + 1].0,
        };
        assert(first == advance_spec(pulses, next, (a - c.remaining) as u64));
        lemma_advance_adds_up(pulses, next, (a - c.remaining) as u64, b);
        assert((a - c.remaining + b) as u64 == (a + b - c.remaining) as u64);
    }
}

/// Behind the last pulse the tape has stopped and the line is low, however
/// much time goes by.
pub proof fn lemma_advance_past_end(pulses: Seq<(bool, u64)>, c: Cursor, dt: u64)
    requires
        c.playing,
        c.index + 1 >= pulses.len(),
        dt >= c.remaining,
        dt > 0,
    ensures
        !advance_spec(pulses, c, dt).playing,
        !advance_spec(pulses, c, dt).level,
{
}

/// Appends one bit to a pulse train.
pub fn push_bit(pulses: &mut Vec<(bool, u64)>, bit: bool)
    ensures
        final(pulses)@ == old(pulses)@ + bit_pulses(bit),
{
    let n: usize = if bit { 9 } else { 4 };
    let mut i: usize = 0;
    while i < n
        invariant
            i <= n,
            n <= 9,
            pulses@ =~= old(pulses)@ + burst(i as int),
        decreases n - i,
    {
        pulses.push((true, PULSE_HIGH_T));
        pulses.push((false, PULSE_LOW_T));
        i += 1;
    }
    pulses.push((false, SILENCE_BIT_T));
    assert(pulses@ =~= old(pulses)@ + bit_pulses(bit));
}

/// Appends one byte to a pulse train, the most significant bit first.
pub fn push_byte(pulses: &mut Vec<(bool, u64)>, byte: u8)
    ensures
        final(pulses)@ == old(pulses)@ + byte_pulses(byte),
{
    let mut k: u8 = 0;
    assert(pulses@ =~= old(pulses)@ + bits_pulses(byte, 0));
    while k < 8
        invariant
            k <= 8,
            pulses@ == old(pulses)@ + bits_pulses(byte, k),
        decreases 8 - k,
    {
        let ghost before = pulses@;
        push_bit(pulses, (byte >> (7 - k)) & 1 != 0);
        assert(pulses@ =~= old(pulses)@ + bits_pulses(byte, (k + 1) as u8)) by {
            assert(pulses@ == before + bit_pulses(tape_bit(byte, k)));
        }
        k += 1;
    }
}

/// The image in a file, without its header if it has one.
pub fn program_data(file: &Vec<u8>) -> (data: Vec<u8>)
    ensures
        data@ == strip_header(file@),
{
    let start: usize = if file.len() > HEADER_LEN && file[0] == 0 {
        HEADER_LEN
    } else {
        0
    };
    let mut data: Vec<u8> = Vec::new();
    let mut i: usize = start;
    while i < file.len()
        invariant
            start <= i <= file.len(),
            data@ =~= file@.subrange(start as int, i as int),
        decreases file.len() - i,
    {
        data.push(file[i]);
        i += 1;
    }
    assert(file@.subrange(0, file.len() as int) =~= file@);
    data
}

impl Tape {
    /// The cursor as a value.
    pub open spec fn cursor(&self) -> Cursor {
        Cursor {
            playing: self.playing,
            index: self.current_index as int,
            remaining: self.remaining,
            level: self.level,
        }
    }

    /// A playing tape stands on one of its pulses.
    pub open spec fn wf(&self) -> bool {
        self.playing ==> self.current_index < self.pulses.len()
    }

    /// A stopped tape with the image of `file` and its pulse train.
    pub fn new(file: Vec<u8>) -> (tape: Tape)
        ensures
            tape.wf(),
            tape.data@ == strip_header(file@),
            tape.pulses@ == tape_pulses(tape.data@),
            tape.cursor() == (Cursor { playing: false, index: 0, remaining: 0, level: false }),
    {
        let data = program_data(&file);
        let pulses = Tape::generate_pulses(&data);
        Tape { data, pulses, playing: false, current_index: 0, remaining: 0, level: false }
    }

    /// The pulse train of an image.
    #[verifier::rlimit(40)]
    pub fn generate_pulses(data: &Vec<u8>) -> (pulses: Vec<(bool, u64)>)
        ensures
            pulses@ == tape_pulses(data@),
    {
        let mut pulses: Vec<(bool, u64)> = Vec::new();
        pulses.push((false, LEADER_T));
        pulses.push((true, PULSE_HIGH_T));
        pulses.push((false, PULSE_LOW_T * 2));
        push_byte(&mut pulses, NAME_END);
        assert(pulses@ =~= lead_in());
        let mut i: usize = 0;
        while i < data.len()
            invariant
                i <= data.len(),
                pulses@ == lead_in() + data_pulses(data@.take(i as int)),
            decreases data.len() - i,
        {
            push_byte(&mut pulses, data[i]);
            proof {
                let next = data@.take(i + 1);
                assert(next.drop_last() =~= data@.take(i as int));
                assert(next.last() == data@[i as int]);
                assert(pulses@ =~= lead_in() + data_pulses(next));
            }
            i += 1;
        }
        assert(data@.take(data.len() as int) =~= data@);
        pulses.push((false, PAUSE_END_T));
        pulses
    }

    /// Starts playback at the first pulse. A tape without pulses stays as it
    /// is.
    pub fn start_playing(&mut self)
        ensures
            old(self).wf() ==> final(self).wf(),
            final(self).data == old(self).data,
            final(self).pulses == old(self).pulses,
            old(self).pulses.len() == 0 ==> final(self).cursor() == old(self).cursor(),
            old(self).pulses.len() > 0 ==> final(self).cursor() == (Cursor {
                playing: true,
                index: 0,
                remaining: old(self).pulses[0].1,
                level: old(self).pulses[0].0,
            }),
    {
        if self.pulses.len() > 0 {
            self.playing = true;
            self.current_index = 0;
            self.remaining = self.pulses[0].1;
            self.level = self.pulses[0].0;
        }
    }

    /// Stops playback and rewinds.
    pub fn stop_playing(&mut self)
        ensures
            final(self).wf(),
            final(self).data == old(self).data,
            final(self).pulses == old(self).pulses,
            final(self).cursor() == (Cursor {
                playing: false,
                index: 0,
                remaining: 0,
                level: old(self).level,
            }),
    {
        self.playing = false;
        self.current_index = 0;
        self.remaining = 0;
    }

    /// Moves the cursor on by `cycles` T-states.
    #[verifier::rlimit(40)]
    pub fn advance(&mut self, cycles: u64)
        requires
            old(self).wf(),
        ensures
            final(self).wf(),
            final(self).data == old(self).data,
            final(self).pulses == old(self).pulses,
            final(self).cursor() == advance_spec(old(self).pulses@, old(self).cursor(), cycles),
    {
        if !self.playing {
            return ;
        }
        let mut remaining_cycles = cycles;
        while remaining_cycles > 0 && self.playing
            invariant
                self.wf(),
                self.data == old(self).data,
                self.pulses == old(self).pulses,
                advance_spec(old(self).pulses@, old(self).cursor(), cycles) == advance_spec(
                    self.pulses@,
                    self.cursor(),
                    remaining_cycles,
                ),
            decreases self.pulses.len() - self.current_index, remaining_cycles,
        {
            if self.remaining > remaining_cycles {
                self.remaining -= remaining_cycles;
                remaining_cycles = 0;
            } else {
                remaining_cycles -= self.remaining;
                self.current_index += 1;
                if self.current_index >= self.pulses.len() {
                    self.playing = false;
                    self.level = false;
                } else {
                    self.level = self.pulses[self.current_index].0;
                    self.remaining = self.pulses[self.current_index].1;
                }
            }
        }
    }

    /// The level of the EAR line.
    pub fn get_level(&self) -> (level: bool)
        ensures
            level == self.level,
    {
        self.level
    }

    /// Whether the tape is running.
    pub fn is_playing(&self) -> (playing: bool)
        ensures
            playing == self.playing,
    {
        self.playing
    }
}

} // verus!
