//! The one-byte command protocol: a signed byte is a direction and a duration.

use vstd::prelude::*;

verus! {

/// The direction in which the desk travels.
#[derive(Debug, PartialEq, Eq, Structural, Clone, Copy)]
pub enum Direction {
    /// Raise the desk.
    Up,
    /// Lower the desk.
    Down,
}

/// The signed value that a received byte stands for, in two's complement.
pub open spec fn byte_as_signed(byte: u8) -> int {
    if byte < 128 {
        byte as int
    } else {
        byte - 256
    }
}

/// The direction of a command: down for negative values, up for all others.
pub open spec fn direction_of(raw: int) -> Direction {
    if raw < 0 {
        Direction::Down
    } else {
        Direction::Up
    }
}

/// The duration of a command in milliseconds: ten for each unit of
/// magnitude.
pub open spec fn duration_ms(raw: int) -> int {
    if raw < 0 {
        -raw * 10
    } else {
        raw * 10
    }
}

/// The name of a direction in diagnostics.
pub open spec fn direction_text(direction: Direction) -> Seq<char> {
    match direction {
        Direction::Up => seq!['u', 'p'],
        Direction::Down => seq!['d', 'o', 'w', 'n'],
    }
}

/// The character of a decimal digit.
pub open spec fn digit_char(digit: int) -> char {
    if digit == 0 {
        '0'
    } else if digit == 1 {
        '1'
    } else if digit == 2 {
        '2'
    } else if digit == 3 {
        '3'
    } else if digit == 4 {
        '4'
    } else if digit == 5 {
        '5'
    } else if digit == 6 {
        '6'
    } else if digit == 7 {
        '7'
    } else if digit == 8 {
        '8'
    } else {
        '9'
    }
}

/// A number in decimal, without leading zeros.
pub open spec fn decimal_text(value: nat) -> Seq<char>
    decreases value,
{
    if value < 10 {
        seq![digit_char(value as int)]
    } else {
        decimal_text(value / 10).push(digit_char((value % 10) as int))
    }
}

/// A command in diagnostics: direction, a slash, the duration and `ms`.
pub open spec fn command_text(raw: int) -> Seq<char> {
    direction_text(direction_of(raw)) + seq!['/'] + decimal_text(duration_ms(raw) as nat) + seq![
        'm',
        's',
    ]
}

/// Every byte is a command: one of the upper half travels down, one of the
/// lower half up, and the duration is ten milliseconds for each unit of the
/// signed magnitude, which is largest for the byte 128.
pub proof fn lemma_codec(byte: u8)
    ensures
        -128 <= byte_as_signed(byte) <= 127,
        direction_of(byte_as_signed(byte)) == Direction::Down <==> byte >= 128,
        direction_of(byte_as_signed(byte)) == Direction::Up <==> byte < 128,
        byte < 128 ==> duration_ms(byte_as_signed(byte)) == byte * 10,
        byte >= 128 ==> duration_ms(byte_as_signed(byte)) == (256 - byte) * 10,
        byte == 128 ==> duration_ms(byte_as_signed(byte)) == 1280,
        0 <= duration_ms(byte_as_signed(byte)) <= 1280,
{
}

/// A value and its negative last equally long.
pub proof fn lemma_duration_symmetric(raw: int)
    ensures
        duration_ms(-raw) == duration_ms(raw),
{
}

impl Direction {
    /// The name of the direction in diagnostics: `up` or `down`.
    pub fn as_str(&self) -> (text: &'static str)
        ensures
            text@ == direction_text(*self),
    {
        match self {
            Direction::Up => {
                proof {
                    reveal_strlit("up");
                }
                assert("up"@ =~= direction_text(Direction::Up));
                "up"
            },
            Direction::Down => {
                proof {
                    reveal_strlit("down");
                }
                assert("down"@ =~= direction_text(Direction::Down));
                "down"
            },
        }
    }
}

/// The text of one decimal digit.
fn digit_str(digit: u16) -> (text: &'static str)
    requires
        digit < 10,
    ensures
        text@ == seq![digit_char(digit as int)],
{
    proof {
        reveal_strlit("0");
        reveal_strlit("1");
        reveal_strlit("2");
        reveal_strlit("3");
        reveal_strlit("4");
        reveal_strlit("5");
        reveal_strlit("6");
        reveal_strlit("7");
        reveal_strlit("8");
        reveal_strlit("9");
    }
    let text = match digit {
        0 => "0",
        1 => "1",
        2 => "2",
        3 => "3",
        4 => "4",
        5 => "5",
        6 => "6",
        7 => "7",
        8 => "8",
        _ => "9",
    };
    assert(text@ =~= seq![digit_char(digit as int)]);
    text
}

/// Appends `value` in decimal to `out`.
fn push_decimal(out: &mut String, value: u16)
    ensures
        final(out)@ == old(out)@ + decimal_text(value as nat),
    decreases value,
{
    if value >= 10 {
        push_decimal(out, value / 10);
    }
    out.append(digit_str(value % 10));
    proof {
        let digit = seq![digit_char((value % 10) as int)];
        if value >= 10 {
            assert(old(out)@ + decimal_text((value / 10) as nat) + digit =~= old(out)@
                + decimal_text((value / 10) as nat).push(digit_char((value % 10) as int)));
        }
    }
}

/// One motion instruction. Two commands with the same signed value are equal.
#[derive(Debug, PartialEq, Eq, Structural, Clone, Copy)]
pub struct Command(i8);

impl View for Command {
    type V = int;

    /// The signed value of the command.
    closed spec fn view(&self) -> int {
        self.0 as int
    }
}

impl Command {
    /// The signed value is that of one byte, and the duration follows from it.
    pub proof fn lemma_bounds(self)
        ensures
            -128 <= self@ <= 127,
            0 <= duration_ms(self@) <= 1280,
    {
    }

    /// A command is its signed value and nothing else: two commands with the
    /// same value are equal.
    pub proof fn lemma_equal_by_value(self, other: Command)
        ensures
            self@ == other@ <==> self == other,
    {
    }

    /// The command with the signed value `byte`.
    pub fn new(byte: i8) -> (command: Command)
        ensures
            command@ == byte,
    {
        Command(byte)
    }

    /// Decodes a received byte. Every byte is a command.
    pub fn from_u8(byte: u8) -> (command: Command)
        ensures
            command@ == byte_as_signed(byte),
    {
        let signed: i8 = #[verifier::truncate]
        (byte as i8);
        assert(if byte < 128u8 {
            signed >= 0i8 && signed as u8 == byte
        } else {
            signed < 0i8 && (signed as i16 + 256i16) as u8 == byte
        }) by (bit_vector)
            requires
                signed == byte as i8,
        ;
        Command(signed)
    }

    /// The duration of the motion in milliseconds.
    pub fn get_ms(&self) -> (ms: u16)
        ensures
            ms == duration_ms(self@),
            ms <= 1280,
    {
        if self.0 == -128 {
            // The magnitude of -128 does not fit into an i8.
            1280
        } else if self.0 < 0 {
            ((-self.0) as u16) * 10
        } else {
            (self.0 as u16) * 10
        }
    }

    /// The command as it appears in diagnostics, such as `down/100ms`.
    pub fn display(&self) -> (text: String)
        ensures
            text@ == command_text(self@),
    {
        let mut text = String::from_str(self.get_direction().as_str());
        text.append("/");
        push_decimal(&mut text, self.get_ms());
        text.append("ms");
        proof {
            reveal_strlit("/");
            reveal_strlit("ms");
            assert("/"@ =~= seq!['/']);
            assert("ms"@ =~= seq!['m', 's']);
        }
        text
    }

    /// The direction of the motion.
    pub fn get_direction(&self) -> (direction: Direction)
        ensures
            direction == direction_of(self@),
    {
        if self.0 < 0 {
            Direction::Down
        } else {
            Direction::Up
        }
    }
}

} // verus!
