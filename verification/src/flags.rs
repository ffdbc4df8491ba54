//! Free-space targets and how they are written on the command line.

use vstd::prelude::*;
use vstd::string::*;
use crate::bytes::{find, lemma_position_bounds, position_from};

verus! {

/// One percent, in the unit in which [`DiskSpace::Percent`] counts.
pub const PERCENT: u64 = 1_000_000;

pub const KIB: u64 = 1024;
pub const MIB: u64 = 1_048_576;
pub const GIB: u64 = 1_073_741_824;
pub const TIB: u64 = 1_099_511_627_776;

/// How many digits after the decimal point a percentage keeps.
pub const PERCENT_DIGITS: usize = 6;

/// An amount of disk space: a share of the whole filesystem, or a number of
/// bytes.
///
/// A share is held in millionths of a percent, so `Percent(25 * PERCENT)` is
/// a quarter of the filesystem and `Percent(9 * PERCENT + PERCENT / 2)` is
/// 9.5 percent.
#[derive(Debug, Clone, Copy, PartialEq, Eq, Structural)]
pub enum DiskSpace {
    Percent(u64),
    Bytes(u64),
}

impl Default for DiskSpace {
    fn default() -> (r: DiskSpace)
        ensures
            r == DiskSpace::Bytes(0),
    {
        DiskSpace::Bytes(0)
    }
}

/// Why a text is no amount of disk space.
#[derive(Debug, Clone, Copy, PartialEq, Eq, Structural)]
pub enum ParseFault {
    /// The text, or its number, is empty.
    Empty,
    /// A character that is no digit stands where a digit must.
    InvalidDigit,
    /// The amount does not fit in 64 bits.
    TooLarge,
    /// The last character is neither a digit nor one of `K`, `M`, `G`, `T`, `%`.
    UnknownUnit,
}

/// The failure of [`DiskSpace::from_str`], with a message for the user.
#[derive(Debug)]
pub struct DiskSpaceParseError {
    fault: ParseFault,
    message: String,
}

impl DiskSpaceParseError {
    /// What went wrong.
    pub closed spec fn fault_spec(&self) -> ParseFault {
        self.fault
    }

    /// The message, as a sequence of characters.
    pub closed spec fn message_spec(&self) -> Seq<char> {
        self.message@
    }

    /// What went wrong.
    #[verifier::when_used_as_spec(fault_spec)]
    pub fn fault(&self) -> (r: ParseFault)
        ensures
            r == self.fault_spec(),
    {
        self.fault
    }

    /// The message for the user.
    pub fn to_str(&self) -> (r: &str)
        ensures
            r@ == self.message_spec(),
    {
        self.message.as_str()
    }

    fn new(fault: ParseFault, text: &str) -> (r: DiskSpaceParseError)
        ensures
            r.fault_spec() == fault,
            r.message_spec() == fault_text(fault) + text@,
    {
        let head = match fault {
            ParseFault::Empty => "cannot parse integer from empty string",
            ParseFault::InvalidDigit => "invalid digit found in string",
            ParseFault::TooLarge => "number too large to fit in target type",
            ParseFault::UnknownUnit => "unrecognize unit in ",
        };
        let message = String::from_str(head).concat(text);
        DiskSpaceParseError { fault, message }
    }
}

/// The text with which the message of a fault begins. For an unknown unit
/// the text that was parsed follows; for the others nothing does.
pub open spec fn fault_text(fault: ParseFault) -> Seq<char> {
    match fault {
        ParseFault::Empty => "cannot parse integer from empty string"@,
        ParseFault::InvalidDigit => "invalid digit found in string"@,
        ParseFault::TooLarge => "number too large to fit in target type"@,
        ParseFault::UnknownUnit => "unrecognize unit in "@,
    }
}

pub open spec fn is_digit(b: u8) -> bool {
    0x30 <= b <= 0x39
}

pub open spec fn all_digits(s: Seq<u8>) -> bool {
    forall|i: int| 0 <= i < s.len() ==> is_digit(#[trigger] s[i])
}

/// The number that a sequence of decimal digits writes, most significant
/// digit first.
pub open spec fn digits_value(s: Seq<u8>) -> nat
    decreases s.len(),
{
    if s.len() == 0 {
        0
    } else {
        digits_value(s.drop_last()) * 10 + (s.last() - 0x30) as nat
    }
}

/// What a text means as an unsigned number: an optional `+`, then one digit
/// or more, naming a value that fits in 64 bits.
pub open spec fn parse_u64_spec(s: Seq<u8>) -> Result<u64, ParseFault> {
    let digits = if s.len() > 0 && s[0] == 0x2b {
        s.subrange(1, s.len() as int)
    } else {
        s
    };
    if s.len() == 0 {
        Err(ParseFault::Empty)
    } else if digits.len() == 0 || !all_digits(digits) {
        Err(ParseFault::InvalidDigit)
    } else if digits_value(digits) > u64::MAX {
        Err(ParseFault::TooLarge)
    } else {
        Ok(digits_value(digits) as u64)
    }
}

/// The first [`PERCENT_DIGITS`] digits of `s` read as a decimal fraction, in
/// millionths: `"5"` is 500000, `"25"` is 250000, `"0000019"` is 1.
pub open spec fn fraction_value(s: Seq<u8>) -> nat {
    if s.len() >= PERCENT_DIGITS {
        digits_value(s.subrange(0, PERCENT_DIGITS as int))
    } else {
        digits_value(s) * pow10((PERCENT_DIGITS - s.len()) as nat)
    }
}

pub open spec fn pow10(n: nat) -> nat
    decreases n,
{
    if n == 0 {
        1
    } else {
        10 * pow10((n - 1) as nat)
    }
}

/// The place of the first `.` in `s`, or the length of `s` where it has none.
pub open spec fn point_index(s: Seq<u8>) -> int {
    position_from(s, 0x2e, 0)
}

/// What a text means as a percentage: digits, then optionally a point and
/// more digits, with a digit on at least one side. The result counts
/// millionths of a percent; digits past the sixth after the point are
/// dropped.
pub open spec fn parse_percent_spec(s: Seq<u8>) -> Result<u64, ParseFault> {
    let p = point_index(s);
    let whole = s.subrange(0, p);
    let frac = if p < s.len() {
        s.subrange(p + 1, s.len() as int)
    } else {
        Seq::<u8>::empty()
    };
    let value = digits_value(whole) * (PERCENT as nat) + fraction_value(frac);
    if s.len() == 0 {
        Err(ParseFault::Empty)
    } else if whole.len() + frac.len() == 0 || !all_digits(whole) || !all_digits(frac) {
        Err(ParseFault::InvalidDigit)
    } else if value > u64::MAX {
        Err(ParseFault::TooLarge)
    } else {
        Ok(value as u64)
    }
}

/// The number of bytes that a unit letter stands for; 1 for a digit, which
/// is then part of the number itself.
pub open spec fn unit_of(b: u8) -> Option<u64> {
    if b == 0x54 {
        Some(TIB)
    } else if b == 0x47 {
        Some(GIB)
    } else if b == 0x4d {
        Some(MIB)
    } else if b == 0x4b {
        Some(KIB)
    } else if is_digit(b) {
        Some(1u64)
    } else {
        None
    }
}

/// What a text means as an amount of disk space.
///
/// A text that ends in `%` is a percentage. Any other text is a number of
/// bytes, which may end in one of the binary units `K`, `M`, `G`, `T`.
pub open spec fn parse_disk_space(s: Seq<u8>) -> Result<DiskSpace, ParseFault> {
    if s.len() == 0 {
        Err(ParseFault::Empty)
    } else if s.last() == 0x25 {
        match parse_percent_spec(s.drop_last()) {
            Ok(p) => Ok(DiskSpace::Percent(p)),
            Err(f) => Err(f),
        }
    } else {
        match unit_of(s.last()) {
            None => Err(ParseFault::UnknownUnit),
            Some(unit) => {
                let number = if unit > 1 {
                    s.drop_last()
                } else {
                    s
                };
                match parse_u64_spec(number) {
                    Err(f) => Err(f),
                    Ok(n) => if n * unit > u64::MAX {
                        Err(ParseFault::TooLarge)
                    } else {
                        Ok(DiskSpace::Bytes((n * unit) as u64))
                    },
                }
            },
        }
    }
}

pub proof fn lemma_digits_value_push(s: Seq<u8>, b: u8)
    ensures
        digits_value(s.push(b)) == digits_value(s) * 10 + (b - 0x30) as nat,
{
    assert(s.push(b).drop_last() =~= s);
}

/// Reads a run of digits as a number.
fn parse_digits(s: &[u8], from: usize, to: usize) -> (r: Result<u64, ParseFault>)
    requires
        from <= to <= s@.len(),
    ensures
        r == (if !all_digits(s@.subrange(from as int, to as int)) {
            Err::<u64, ParseFault>(ParseFault::InvalidDigit)
        } else if digits_value(s@.subrange(from as int, to as int)) > u64::MAX {
            Err(ParseFault::TooLarge)
        } else {
            Ok(digits_value(s@.subrange(from as int, to as int)) as u64)
        }),
{
    let ghost run = s@.subrange(from as int, to as int);
    let mut acc: u64 = 0;
    let mut large = false;
    let mut i: usize = from;
    while i < to
        invariant
            from <= i <= to <= s@.len(),
            run == s@.subrange(from as int, to as int),
            all_digits(run.subrange(0, i - from)),
            !large ==> acc == digits_value(run.subrange(0, i - from)),
            large ==> digits_value(run.subrange(0, i - from)) > u64::MAX,
        decreases to - i,
    {
        let b = s[i];
        let ghost before = run.subrange(0, i - from);
        let ghost after = run.subrange(0, i - from + 1);
        if b < 0x30 || b > 0x39 {
            assert(run[i - from] == b);
            assert(!is_digit(run[i - from]));
            return Err(ParseFault::InvalidDigit);
        }
        proof {
            assert(after =~= before.push(b));
            lemma_digits_value_push(before, b);
            assert forall|k: int| 0 <= k < after.len() implies is_digit(#[trigger] after[k]) by {
                if k < before.len() {
                    assert(after[k] == before[k]);
                }
            }
        }
        if !large {
            let d: u64 = (b - 0x30) as u64;
            if acc > (u64::MAX - d) / 10 {
                large = true;
            } else {
                acc = acc * 10 + d;
            }
        }
        i = i + 1;
    }
    proof {
        assert(run.subrange(0, to - from) =~= run);
    }
    if large {
        Err(ParseFault::TooLarge)
    } else {
        Ok(acc)
    }
}

/// Whether every byte of `s` from `from` up to `to` is a digit.
fn digits_only(s: &[u8], from: usize, to: usize) -> (r: bool)
    requires
        from <= to <= s@.len(),
    ensures
        r == all_digits(s@.subrange(from as int, to as int)),
{
    let ghost run = s@.subrange(from as int, to as int);
    let mut i: usize = from;
    while i < to
        invariant
            from <= i <= to <= s@.len(),
            run == s@.subrange(from as int, to as int),
            forall|k: int| 0 <= k < i - from ==> is_digit(#[trigger] run[k]),
        decreases to - i,
    {
        if s[i] < 0x30 || s[i] > 0x39 {
            assert(!is_digit(run[i - from]));
            return false;
        }
        i = i + 1;
    }
    true
}

/// Reads an unsigned number.
fn parse_u64(s: &[u8], end: usize) -> (r: Result<u64, ParseFault>)
    requires
        end <= s@.len(),
    ensures
        r == parse_u64_spec(s@.subrange(0, end as int)),
{
    let ghost text = s@.subrange(0, end as int);
    if end == 0 {
        return Err(ParseFault::Empty);
    }
    let from: usize = if s[0] == 0x2b { 1 } else { 0 };
    proof {
        assert(text[0] == s@[0]);
        if from == 1 {
            assert(text.subrange(1, text.len() as int) =~= s@.subrange(1, end as int));
        } else {
            assert(text =~= s@.subrange(0, end as int));
        }
    }
    if from == end {
        return Err(ParseFault::InvalidDigit);
    }
    parse_digits(s, from, end)
}

pub proof fn lemma_digits_value_bound(s: Seq<u8>)
    requires
        all_digits(s),
    ensures
        digits_value(s) < pow10(s.len()),
    decreases s.len(),
{
    if s.len() > 0 {
        assert(is_digit(s.last()));
        assert forall|i: int| 0 <= i < s.drop_last().len() implies is_digit(
            #[trigger] s.drop_last()[i],
        ) by {
            assert(s.drop_last()[i] == s[i]);
        }
        lemma_digits_value_bound(s.drop_last());
    }
}

/// Reads a percentage, in millionths of a percent.
fn parse_percent(s: &[u8], end: usize) -> (r: Result<u64, ParseFault>)
    requires
        end <= s@.len(),
    ensures
        r == parse_percent_spec(s@.subrange(0, end as int)),
{
    let ghost text = s@.subrange(0, end as int);
    if end == 0 {
        return Err(ParseFault::Empty);
    }
    let dot = find(s, 0x2e, 0);
    let p: usize = if dot < end { dot } else { end };
    let frac_from: usize = if p < end { p + 1 } else { end };
    let ghost whole = text.subrange(0, p as int);
    let ghost frac = if p < end {
        text.subrange(p + 1, end as int)
    } else {
        Seq::<u8>::empty()
    };
    proof {
        lemma_position_bounds(s@, 0x2e, 0);
        lemma_position_bounds(text, 0x2e, 0);
        let q = position_from(text, 0x2e, 0);
        if q < p {
            assert(text[q] == s@[q]);
        }
        if p < q {
            assert(text[p as int] == s@[p as int]);
        }
        assert(point_index(text) == p);
        assert(whole =~= s@.subrange(0, p as int));
        assert(frac =~= s@.subrange(frac_from as int, end as int));
    }
    if p == 0 && frac_from == end {
        return Err(ParseFault::InvalidDigit);
    }
    if !digits_only(s, 0, p) || !digits_only(s, frac_from, end) {
        return Err(ParseFault::InvalidDigit);
    }
    let kept: usize = if end - frac_from > PERCENT_DIGITS {
        frac_from + PERCENT_DIGITS
    } else {
        end
    };
    let ghost head = s@.subrange(frac_from as int, kept as int);
    proof {
        assert(head =~= frac.subrange(0, kept - frac_from));
        assert forall|k: int| 0 <= k < head.len() implies is_digit(#[trigger] head[k]) by {
            assert(head[k] == frac[k]);
        }
        lemma_digits_value_bound(head);
        assert(pow10(6) == 1_000_000) by {
            reveal_with_fuel(pow10, 7);
        }
        assert(pow10(head.len()) <= 1_000_000) by {
            reveal_with_fuel(pow10, 7);
        }
    }
    let mut part: u64 = match parse_digits(s, frac_from, kept) {
        Ok(v) => v,
        Err(_) => {
            return Err(ParseFault::InvalidDigit);
        },
    };
    let mut n: usize = kept - frac_from;
    proof {
        assert(pow10(0) == 1) by {
            reveal_with_fuel(pow10, 2);
        }
        let one = pow10((n - head.len()) as nat);
        assert(digits_value(head) * one == digits_value(head)) by (nonlinear_arith)
            requires
                one == 1,
        ;
    }
    while n < PERCENT_DIGITS
        invariant
            n <= PERCENT_DIGITS,
            head.len() <= n,
            part == digits_value(head) * pow10((n - head.len()) as nat),
            part < pow10(n as nat),
        decreases PERCENT_DIGITS - n,
    {
        proof {
            reveal_with_fuel(pow10, 7);
            assert(pow10(n as nat) <= 100_000);
            assert(pow10((n + 1 - head.len()) as nat) == 10 * pow10((n - head.len()) as nat));
            assert(digits_value(head) * (10 * pow10((n - head.len()) as nat)) == (digits_value(
                head,
            ) * pow10((n - head.len()) as nat)) * 10) by (nonlinear_arith);
        }
        part = part * 10;
        n = n + 1;
    }
    proof {
        assert(pow10(0) == 1) by {
            reveal_with_fuel(pow10, 2);
        }
        assert(n == PERCENT_DIGITS);
        if frac.len() >= PERCENT_DIGITS {
            assert(head.len() == PERCENT_DIGITS);
            assert(head =~= frac.subrange(0, PERCENT_DIGITS as int));
            let one = pow10((n - head.len()) as nat);
            assert(digits_value(head) * one == digits_value(head)) by (nonlinear_arith)
                requires
                    one == 1,
            ;
        } else {
            assert(head =~= frac);
        }
        assert(part == fraction_value(frac));
    }
    let whole_value: u64 = match parse_digits(s, 0, p) {
        Ok(v) => v,
        Err(f) => {
            assert(digits_value(whole) * (PERCENT as nat) > u64::MAX) by (nonlinear_arith)
                requires
                    digits_value(whole) > u64::MAX,
                    PERCENT == 1_000_000,
            ;
            return Err(f);
        },
    };
    if whole_value > (u64::MAX - part) / PERCENT {
        assert(whole_value * PERCENT + part > u64::MAX) by (nonlinear_arith)
            requires
                whole_value > (u64::MAX - part) / (PERCENT as int),
                PERCENT == 1_000_000,
                part >= 0,
        ;
        return Err(ParseFault::TooLarge);
    }
    assert(whole_value * PERCENT + part <= u64::MAX) by (nonlinear_arith)
        requires
            whole_value <= (u64::MAX - part) / (PERCENT as int),
            PERCENT == 1_000_000,
            0 <= part <= u64::MAX,
    ;
    Ok(whole_value * PERCENT + part)
}

/// Reads an unsigned number from the bytes of a text: an optional `+` and
/// digits.
pub fn parse_number(s: &[u8]) -> (r: Result<u64, ParseFault>)
    ensures
        r == parse_u64_spec(s@),
{
    proof {
        assert(s@ =~= s@.subrange(0, s@.len() as int));
    }
    parse_u64(s, s.len())
}

/// Reads an amount of disk space from the bytes of a text.
pub fn parse(s: &[u8]) -> (r: Result<DiskSpace, ParseFault>)
    ensures
        r == parse_disk_space(s@),
{
    let n = s.len();
    if n == 0 {
        return Err(ParseFault::Empty);
    }
    let last = s[n - 1];
    proof {
        assert(s@.drop_last() =~= s@.subrange(0, n - 1));
        assert(s@ =~= s@.subrange(0, n as int));
    }
    if last == 0x25 {
        return match parse_percent(s, n - 1) {
            Ok(p) => Ok(DiskSpace::Percent(p)),
            Err(f) => Err(f),
        };
    }
    let unit: u64 = if last == 0x54 {
        TIB
    } else if last == 0x47 {
        GIB
    } else if last == 0x4d {
        MIB
    } else if last == 0x4b {
        KIB
    } else if 0x30 <= last && last <= 0x39 {
        1
    } else {
        return Err(ParseFault::UnknownUnit);
    };
    let number = if unit > 1 {
        parse_u64(s, n - 1)
    } else {
        parse_u64(s, n)
    };
    match number {
        Err(f) => Err(f),
        Ok(v) => {
            if v > u64::MAX / unit {
                assert(v * unit > u64::MAX) by (nonlinear_arith)
                    requires
                        v > u64::MAX / unit,
                        unit > 0,
                ;
                Err(ParseFault::TooLarge)
            } else {
                assert(v * unit <= u64::MAX) by (nonlinear_arith)
                    requires
                        v <= u64::MAX / unit,
                        unit > 0,
                        v >= 0,
                ;
                Ok(DiskSpace::Bytes(v * unit))
            }
        },
    }
}

impl DiskSpace {
    /// Reads an amount of disk space: `25G`, `512`, `9.5%`.
    ///
    /// The result is what [`parse_disk_space`] makes of the bytes of `s`. On
    /// failure the error names the fault; its message is the fault's text,
    /// followed by `s` itself where the unit was not known.
    pub fn from_str(s: &str) -> (r: Result<DiskSpace, DiskSpaceParseError>)
        ensures
            match parse_disk_space(s.spec_bytes()) {
                Ok(d) => r == Ok::<DiskSpace, DiskSpaceParseError>(d),
                Err(f) => r is Err && r->Err_0.fault_spec() == f && r->Err_0.message_spec()
                    == fault_text(f) + (if f == ParseFault::UnknownUnit {
                    s@
                } else {
                    Seq::<char>::empty()
                }),
            },
    {
        match parse(s.as_bytes()) {
            Ok(d) => Ok(d),
            Err(f) => {
                proof {
                    reveal_strlit("");
                    assert(""@ =~= Seq::<char>::empty());
                }
                match f {
                    ParseFault::UnknownUnit => Err(DiskSpaceParseError::new(f, s)),
                    _ => Err(DiskSpaceParseError::new(f, "")),
                }
            },
        }
    }
}

/// What the command line said.
#[derive(Debug)]
pub struct FlagStorage {
    /// The directory whose files are cached.
    pub cat_from: Vec<u8>,
    /// The directory that holds the cache.
    pub cat_to: Vec<u8>,
    /// Where the filesystem is mounted.
    pub mount_point: Vec<u8>,
    /// Options handed on to the kernel protocol layer, each after a `-o`.
    pub mount_options: Vec<Vec<u8>>,
    /// Whether the program stays in the foreground.
    pub foreground: bool,
    /// How much space the cache filesystem must keep free; zero bytes turns
    /// eviction off.
    pub free_space: DiskSpace,
    /// The user to run as after mounting; zero leaves it as it is.
    pub uid: u32,
    /// The group to run as after mounting; zero leaves it as it is.
    pub gid: u32,
}

impl Default for FlagStorage {
    fn default() -> (r: FlagStorage)
        ensures
            r.cat_from@.len() == 0,
            r.cat_to@.len() == 0,
            r.mount_point@.len() == 0,
            r.mount_options@.len() == 0,
            !r.foreground,
            r.free_space == DiskSpace::Bytes(0),
            r.uid == 0,
            r.gid == 0,
    {
        FlagStorage {
            cat_from: Vec::new(),
            cat_to: Vec::new(),
            mount_point: Vec::new(),
            mount_options: Vec::new(),
            foreground: false,
            free_space: DiskSpace::Bytes(0),
            uid: 0,
            gid: 0,
        }
    }
}

} // verus!
