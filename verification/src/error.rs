//! Decode failures: what went wrong, and where in the input.

use vstd::prelude::*;
use vstd::string::StringExecFns;

verus! {

/// The cause of a decode failure. Where a value that was read is at fault, the
/// cause holds it.
#[derive(Clone, Copy, Debug, PartialEq, Eq, Structural)]
pub enum ErrorKind {
    /// The input ended before the bytes of an item were complete.
    MalformedStream,
    /// The input does not begin with the four magic bytes.
    InvalidMagic,
    /// The version field holds this, which is not 1.
    UnsupportedVersion(u32),
    /// This section code is custom (0) or outside the known set.
    UnsupportedSection(u8),
    /// A table section with more than one entry.
    MultipleTables,
    /// A memory section with more than one entry.
    MultipleMemories,
    /// The function section and the code section differ in length.
    FunctionCodeMismatch,
    /// An entry of the type section begins with this byte, which is not the
    /// function-type marker.
    InvalidTypeMarker(u8),
    /// This byte is no value type.
    InvalidValueType(u8),
    /// This byte is neither the empty block type nor a value type.
    InvalidBlockType(u8),
    /// This mutability flag is neither 0 nor 1.
    InvalidMutability(u8),
    /// This import or export descriptor tag is outside 0..=3.
    InvalidDescriptor(u8),
    /// This table element type is not the function reference.
    InvalidElementType(u8),
    /// This limits flag is neither 0 nor 1.
    InvalidLimitsFlag(u8),
    /// This byte is no opcode of the instruction set.
    InvalidOpcode(u8),
    /// A variable-length integer that does not fit its bit width.
    IntegerOverflow,
    /// A name whose bytes are not valid UTF-8.
    InvalidUtf8,
    /// Blocks nested deeper than [`crate::grammar::instructions::MAX_NESTING_DEPTH`].
    NestingTooDeep,
}

impl ErrorKind {
    /// The cause in words, without the value at fault.
    pub open spec fn phrase_text(self) -> Seq<char> {
        match self {
            ErrorKind::MalformedStream => "Buffer read error"@,
            ErrorKind::InvalidMagic => "Wrong binary magic"@,
            ErrorKind::UnsupportedVersion(_) => "Unsupported version, only version 1 is supported"@,
            ErrorKind::UnsupportedSection(_) => "Unsupported section type"@,
            ErrorKind::MultipleTables => "Only one table allowed per module in version 1.0"@,
            ErrorKind::MultipleMemories => "Only one memory allowed per module in version 1.0"@,
            ErrorKind::FunctionCodeMismatch => "Function section and code section differ in length"@,
            ErrorKind::InvalidTypeMarker(_) => "Wrong elements stored in section type"@,
            ErrorKind::InvalidValueType(_) => "Could not derive a ValType from code"@,
            ErrorKind::InvalidBlockType(_) => "Invalid blocktype"@,
            ErrorKind::InvalidMutability(_) => "Invalid mutability modifier for global"@,
            ErrorKind::InvalidDescriptor(_) => "Malicious import description"@,
            ErrorKind::InvalidElementType(_) => "This element type is not supported"@,
            ErrorKind::InvalidLimitsFlag(_) => "Invalid Limits type"@,
            ErrorKind::InvalidOpcode(_) => "This opcode is currently not supported"@,
            ErrorKind::IntegerOverflow => "Error decoding integer"@,
            ErrorKind::InvalidUtf8 => "Name is not valid UTF-8"@,
            ErrorKind::NestingTooDeep => "Blocks are nested too deeply"@,
        }
    }

    /// The value at fault, where the cause holds one.
    pub open spec fn found(self) -> Option<nat> {
        match self {
            ErrorKind::UnsupportedVersion(version) => Some(version as nat),
            ErrorKind::UnsupportedSection(byte)
            | ErrorKind::InvalidTypeMarker(byte)
            | ErrorKind::InvalidValueType(byte)
            | ErrorKind::InvalidBlockType(byte)
            | ErrorKind::InvalidMutability(byte)
            | ErrorKind::InvalidDescriptor(byte)
            | ErrorKind::InvalidElementType(byte)
            | ErrorKind::InvalidLimitsFlag(byte)
            | ErrorKind::InvalidOpcode(byte) => Some(byte as nat),
            _ => None,
        }
    }

    /// The cause in words: the phrase and, where a value is at fault, that
    /// value in hexadecimal.
    pub open spec fn text(self) -> Seq<char> {
        match self.found() {
            Some(value) => self.phrase_text() + ": 0x"@ + hex(value),
            None => self.phrase_text(),
        }
    }

    /// The cause in words, without the value at fault.
    pub fn phrase(&self) -> (words: &'static str)
        ensures
            words@ == self.phrase_text(),
    {
        match self {
            ErrorKind::MalformedStream => "Buffer read error",
            ErrorKind::InvalidMagic => "Wrong binary magic",
            ErrorKind::UnsupportedVersion(_) => "Unsupported version, only version 1 is supported",
            ErrorKind::UnsupportedSection(_) => "Unsupported section type",
            ErrorKind::MultipleTables => "Only one table allowed per module in version 1.0",
            ErrorKind::MultipleMemories => "Only one memory allowed per module in version 1.0",
            ErrorKind::FunctionCodeMismatch => "Function section and code section differ in length",
            ErrorKind::InvalidTypeMarker(_) => "Wrong elements stored in section type",
            ErrorKind::InvalidValueType(_) => "Could not derive a ValType from code",
            ErrorKind::InvalidBlockType(_) => "Invalid blocktype",
            ErrorKind::InvalidMutability(_) => "Invalid mutability modifier for global",
            ErrorKind::InvalidDescriptor(_) => "Malicious import description",
            ErrorKind::InvalidElementType(_) => "This element type is not supported",
            ErrorKind::InvalidLimitsFlag(_) => "Invalid Limits type",
            ErrorKind::InvalidOpcode(_) => "This opcode is currently not supported",
            ErrorKind::IntegerOverflow => "Error decoding integer",
            ErrorKind::InvalidUtf8 => "Name is not valid UTF-8",
            ErrorKind::NestingTooDeep => "Blocks are nested too deeply",
        }
    }

    /// The value at fault, where the cause holds one.
    pub fn value_found(&self) -> (value: Option<usize>)
        ensures
            match value {
                Some(v) => self.found() == Some(v as nat),
                None => self.found() is None,
            },
    {
        match self {
            ErrorKind::UnsupportedVersion(version) => Some(*version as usize),
            ErrorKind::UnsupportedSection(byte)
            | ErrorKind::InvalidTypeMarker(byte)
            | ErrorKind::InvalidValueType(byte)
            | ErrorKind::InvalidBlockType(byte)
            | ErrorKind::InvalidMutability(byte)
            | ErrorKind::InvalidDescriptor(byte)
            | ErrorKind::InvalidElementType(byte)
            | ErrorKind::InvalidLimitsFlag(byte)
            | ErrorKind::InvalidOpcode(byte) => Some(*byte as usize),
            _ => None,
        }
    }

    /// The cause in words: the phrase and, where a value is at fault, that
    /// value in hexadecimal.
    pub fn description(&self) -> (words: String)
        ensures
            words@ == self.text(),
    {
        let mut words = String::from_str(self.phrase());
        if let Some(value) = self.value_found() {
            words.append(": 0x");
            push_hex(&mut words, value);
        }
        words
    }
}

/// The hexadecimal digit for a number below 16.
pub open spec fn hex_digit(d: nat) -> char {
    if d == 0 {
        '0'
    } else if d == 1 {
        '1'
    } else if d == 2 {
        '2'
    } else if d == 3 {
        '3'
    } else if d == 4 {
        '4'
    } else if d == 5 {
        '5'
    } else if d == 6 {
        '6'
    } else if d == 7 {
        '7'
    } else if d == 8 {
        '8'
    } else if d == 9 {
        '9'
    } else if d == 10 {
        'a'
    } else if d == 11 {
        'b'
    } else if d == 12 {
        'c'
    } else if d == 13 {
        'd'
    } else if d == 14 {
        'e'
    } else {
        'f'
    }
}

/// A number in hexadecimal, without leading zeros and in lower case.
pub open spec fn hex(n: nat) -> Seq<char>
    decreases n,
{
    if n < 16 {
        seq![hex_digit(n)]
    } else {
        hex(n / 16).push(hex_digit(n % 16))
    }
}

/// The hexadecimal digit for a number below 16, as a string.
fn hex_digit_str(d: usize) -> (digit: &'static str)
    requires
        d < 16,
    ensures
        digit@ == seq![hex_digit(d as nat)],
{
    proof {
        reveal_strlit("0");
        reveal_strlit("1");
        reveal_strlit("2");
        reveal_strlit("3");
        reveal_strlit("4");
        reveal_strlit("5");
        reveal_strlit("6");
        reveal_strlit("7");
        reveal_strlit("8");
        reveal_strlit("9");
        reveal_strlit("a");
        reveal_strlit("b");
        reveal_strlit("c");
        reveal_strlit("d");
        reveal_strlit("e");
        reveal_strlit("f");
    }
    let digit = match d {
        0 => "0",
        1 => "1",
        2 => "2",
        3 => "3",
        4 => "4",
        5 => "5",
        6 => "6",
        7 => "7",
        8 => "8",
        9 => "9",
        10 => "a",
        11 => "b",
        12 => "c",
        13 => "d",
        14 => "e",
        _ => "f",
    };
    assert(digit@ =~= seq![hex_digit(d as nat)]);
    digit
}

/// Writes a number in hexadecimal at the end of a string.
fn push_hex(out: &mut String, n: usize)
    ensures
        final(out)@ == old(out)@ + hex(n as nat),
    decreases n,
{
    if n >= 16 {
        push_hex(out, n / 16);
    }
    out.append(hex_digit_str(n % 16));
    proof {
        if n >= 16 {
            assert(old(out)@ + hex((n / 16) as nat) + seq![hex_digit((n % 16) as nat)] =~= old(out)@
                + hex(n as nat));
        }
    }
}

/// The mathematical content of a [`DecodeError`].
pub struct Failure {
    pub kind: ErrorKind,
    pub offset: nat,
    pub context: Seq<nat>,
}

/// A decode failure.
///
/// `offset` is the byte the failure points at: for a malformed stream the
/// offset at which more bytes were needed, for a wrong magic the offset at
/// which the magic began, and otherwise the last byte read before the failure
/// was found. Each vector that had to be abandoned because one of its elements
/// failed adds to `context`, innermost first, the offset of the last byte read
/// at that moment.
#[derive(Debug, PartialEq, Eq)]
pub struct DecodeError {
    pub kind: ErrorKind,
    pub offset: usize,
    pub context: Vec<usize>,
}

impl View for DecodeError {
    type V = Failure;

    open spec fn view(&self) -> Failure {
        Failure {
            kind: self.kind,
            offset: self.offset as nat,
            context: self.context@.map_values(|o: usize| o as nat),
        }
    }
}

impl Failure {
    /// A failure of the given kind at `offset`, outside any vector.
    pub open spec fn at(kind: ErrorKind, offset: nat) -> Failure {
        Failure { kind, offset, context: Seq::empty() }
    }

    /// The same failure, seen from a vector abandoned at `offset`.
    pub open spec fn within(self, offset: nat) -> Failure {
        Failure { context: self.context.push(offset), ..self }
    }

    /// The failure in words: for each vector that was abandoned, outermost
    /// first, its offset and a note; then the offset that the failure points
    /// at and its cause. Offsets are in hexadecimal.
    pub open spec fn text(self) -> Seq<char>
        decreases self.context.len(),
    {
        if self.context.len() == 0 {
            "Byte address: "@ + hex(self.offset) + ", "@ + self.kind.text()
        } else {
            let inner = Failure { context: self.context.drop_last(), ..self };
            "Byte address: "@ + hex(self.context.last()) + ", Error processing Vector: "@
                + inner.text()
        }
    }
}

impl DecodeError {
    /// The failure in words.
    pub fn message(&self) -> (words: String)
        ensures
            words@ == self@.text(),
    {
        let ghost whole = self@;
        let mut words = String::new();
        let mut left = self.context.len();
        assert(whole.context.take(left as int) =~= whole.context);
        while left > 0
            invariant
                whole == self@,
                left <= self.context.len(),
                whole.text() == words@ + (Failure {
                    context: whole.context.take(left as int),
                    ..whole
                }).text(),
            decreases left,
        {
            let ghost rest = Failure { context: whole.context.take(left as int), ..whole };
            let ghost before = words@;
            left = left - 1;
            words.append("Byte address: ");
            push_hex(&mut words, self.context[left]);
            words.append(", Error processing Vector: ");
            proof {
                assert(rest.context.last() == self.context[left as int] as nat);
                assert(rest.context.drop_last() =~= whole.context.take(left as int));
                let inner = Failure { context: whole.context.take(left as int), ..whole };
                assert(rest.text() == "Byte address: "@ + hex(rest.context.last())
                    + ", Error processing Vector: "@ + inner.text());
                assert(before + ("Byte address: "@ + hex(rest.context.last())
                    + ", Error processing Vector: "@ + inner.text()) =~= before + "Byte address: "@
                    + hex(rest.context.last()) + ", Error processing Vector: "@ + inner.text());
            }
        }
        let ghost before = words@;
        words.append("Byte address: ");
        push_hex(&mut words, self.offset);
        words.append(", ");
        let cause = self.kind.description();
        words.append(cause.as_str());
        proof {
            let bare = Failure { context: whole.context.take(0), ..whole };
            assert(bare.context.len() == 0);
            assert(before + ("Byte address: "@ + hex(self.offset as nat) + ", "@
                + self.kind.text()) =~= before + "Byte address: "@ + hex(self.offset as nat) + ", "@
                + self.kind.text());
        }
        words
    }

    /// A failure of the given kind at `offset`, outside any vector.
    pub fn new(kind: ErrorKind, offset: usize) -> (e: DecodeError)
        ensures
            e@ == Failure::at(kind, offset as nat),
    {
        let e = DecodeError { kind, offset, context: Vec::new() };
        assert(e@.context =~= Seq::<nat>::empty());
        e
    }

    /// Records that a vector was abandoned at `offset` because of this failure.
    pub fn within(self, offset: usize) -> (e: DecodeError)
        ensures
            e@ == self@.within(offset as nat),
    {
        let mut context = self.context;
        context.push(offset);
        let e = DecodeError { kind: self.kind, offset: self.offset, context };
        assert(e@.context =~= self@.context.push(offset as nat));
        e
    }
}

} // verus!
