use vstd::prelude::*;
use vstd::string::*;
use vstd::utf8::*;

verus! {

/// Width, in bytes, of one line of the timing board.
pub const LINE_LENGTH: usize = 80;

/// Whether two string slices hold the same characters.
///
/// The comparison runs over the UTF-8 bytes; two strings have the same bytes
/// exactly when they have the same characters.
pub fn str_eq(a: &str, b: &str) -> (same: bool)
    ensures
        same == (a@ == b@),
{
    broadcast use encode_utf8_decode_utf8;

    let x = a.as_bytes();
    let y = b.as_bytes();
    if x.len() != y.len() {
        return false;
    }
    let mut i: usize = 0;
    while i < x.len()
        invariant
            i <= x@.len(),
            x@.len() == y@.len(),
            x@ == encode_utf8(a@),
            y@ == encode_utf8(b@),
            forall|k: int| 0 <= k < i ==> x@[k] == y@[k],
        decreases x@.len() - i,
    {
        if x[i] != y[i] {
            return false;
        }
        i += 1;
    }
    assert(x@ =~= y@);
    assert(decode_utf8(encode_utf8(a@)) == a@);
    assert(decode_utf8(encode_utf8(b@)) == b@);
    true
}

/// The character that writes the decimal digit `d`.
pub open spec fn digit_char(d: int) -> char {
    if d == 0 {
        '0'
    } else if d == 1 {
        '1'
    } else if d == 2 {
        '2'
    } else if d == 3 {
        '3'
    } else if d == 4 {
        '4'
    } else if d == 5 {
        '5'
    } else if d == 6 {
        '6'
    } else if d == 7 {
        '7'
    } else if d == 8 {
        '8'
    } else {
        '9'
    }
}

/// The decimal numeral of `n`, most significant digit first, without leading
/// zeros (`0` is written "0").
pub open spec fn decimal(n: nat) -> Seq<char>
    decreases n,
{
    if n < 10 {
        seq![digit_char(n as int)]
    } else {
        decimal(n / 10).push(digit_char((n % 10) as int))
    }
}

/// The decimal numeral of a signed integer: a minus sign before the numeral
/// of the magnitude when the value is negative.
pub open spec fn signed_decimal(v: int) -> Seq<char> {
    if v < 0 {
        seq!['-'] + decimal((-v) as nat)
    } else {
        decimal(v as nat)
    }
}

fn digit_str(d: u64) -> (s: &'static str)
    requires
        d < 10,
    ensures
        s@ == seq![digit_char(d as int)],
{
    proof {
        reveal_strlit("0");
        reveal_strlit("1");
        reveal_strlit("2");
        reveal_strlit("3");
        reveal_strlit("4");
        reveal_strlit("5");
        reveal_strlit("6");
        reveal_strlit("7");
        reveal_strlit("8");
        reveal_strlit("9");
    }
    let s = if d == 0 {
        "0"
    } else if d == 1 {
        "1"
    } else if d == 2 {
        "2"
    } else if d == 3 {
        "3"
    } else if d == 4 {
        "4"
    } else if d == 5 {
        "5"
    } else if d == 6 {
        "6"
    } else if d == 7 {
        "7"
    } else if d == 8 {
        "8"
    } else {
        "9"
    };
    assert(s@ =~= seq![digit_char(d as int)]);
    s
}

/// Writes `n` in decimal.
pub fn decimal_string(n: u64) -> (s: String)
    ensures
        s@ == decimal(n as nat),
    decreases n,
{
    if n < 10 {
        String::from_str(digit_str(n))
    } else {
        let mut s = decimal_string(n / 10);
        s.append(digit_str(n % 10));
        assert(s@ =~= decimal(n as nat));
        s
    }
}

/// Writes the difference `a - b` in decimal, with a minus sign when it is
/// negative.
pub fn difference_string(a: i64, b: i64) -> (s: String)
    ensures
        s@ == signed_decimal(a - b),
{
    let d: i128 = a as i128 - b as i128;
    if d < 0 {
        proof {
            reveal_strlit("-");
        }
        let mut s = String::from_str("-");
        s.append(decimal_string((-d) as u64).as_str());
        assert(s@ =~= signed_decimal(a - b));
        s
    } else {
        decimal_string(d as u64)
    }
}

/// A decimal numeral has at least one character, and all its characters are
/// ASCII.
pub proof fn lemma_decimal_is_ascii(n: nat)
    ensures
        is_ascii_chars(decimal(n)),
        decimal(n).len() >= 1,
    decreases n,
{
    if n >= 10 {
        lemma_decimal_is_ascii(n / 10);
    }
}

/// All characters of a signed decimal numeral are ASCII.
pub proof fn lemma_signed_decimal_is_ascii(v: int)
    ensures
        is_ascii_chars(signed_decimal(v)),
{
    if v < 0 {
        lemma_decimal_is_ascii((-v) as nat);
    } else {
        lemma_decimal_is_ascii(v as nat);
    }
}

/// A run of `n` zero digits.
pub open spec fn zeros(n: nat) -> Seq<char> {
    Seq::new(n, |i: int| '0')
}

/// The decimal numeral of `n`, with zeros put in front until it is at least
/// `width` characters long. A numeral that is already that long is left as
/// it is.
pub open spec fn zero_padded(n: nat, width: nat) -> Seq<char> {
    let digits = decimal(n);
    if digits.len() >= width {
        digits
    } else {
        zeros((width - digits.len()) as nat) + digits
    }
}

/// All characters of a zero-padded numeral are ASCII.
pub proof fn lemma_zero_padded_is_ascii(n: nat, width: nat)
    ensures
        is_ascii_chars(zero_padded(n, width)),
{
    lemma_decimal_is_ascii(n);
}

/// Writes `segment` in decimal, zero-padded on the left to `length` digits.
pub fn pad_lap_segment(segment: u64, length: usize) -> (padded: String)
    ensures
        padded@ == zero_padded(segment as nat, length as nat),
{
    let input = decimal_string(segment);
    let len = input.as_str().unicode_len();
    if len >= length {
        input
    } else {
        let missing = length - len;
        let mut padded = String::new();
        let mut i: usize = 0;
        while i < missing
            invariant
                i <= missing,
                padded@ == zeros(i as nat),
            decreases missing - i,
        {
            proof {
                reveal_strlit("0");
            }
            padded.append("0");
            i += 1;
            assert(padded@ =~= zeros(i as nat));
        }
        padded.append(input.as_str());
        padded
    }
}

/// The number of bytes that `s` takes in UTF-8.
pub open spec fn utf8_len(s: Seq<char>) -> nat {
    encode_utf8(s).len()
}

/// A run of `n` blanks.
pub open spec fn spaces(n: nat) -> Seq<char> {
    Seq::new(n, |i: int| ' ')
}

/// Whether `s` can be brought to the width of a line: a text of more than
/// `LINE_LENGTH` bytes must have a whole number of characters in its first
/// `LINE_LENGTH` bytes, since the cut may not fall inside a character.
pub open spec fn can_pad(s: Seq<char>) -> bool {
    utf8_len(s) > LINE_LENGTH ==> is_char_boundary(encode_utf8(s), LINE_LENGTH as int)
}

/// `s` brought to the width of a line: cut after its first `LINE_LENGTH`
/// bytes when it is longer, filled up with blanks when it is shorter.
pub open spec fn padded_line(s: Seq<char>) -> Seq<char> {
    if utf8_len(s) > LINE_LENGTH {
        decode_utf8(encode_utf8(s).subrange(0, LINE_LENGTH as int))
    } else {
        s + spaces((LINE_LENGTH - utf8_len(s)) as nat)
    }
}

/// The UTF-8 bytes of two texts put together are the bytes of the first
/// followed by the bytes of the second.
pub proof fn lemma_utf8_of_concat(a: Seq<char>, b: Seq<char>)
    ensures
        encode_utf8(a + b) == encode_utf8(a) + encode_utf8(b),
    decreases a.len(),
{
    if a.len() == 0 {
        assert(a + b =~= b);
        assert(encode_utf8(a) + encode_utf8(b) =~= encode_utf8(b));
    } else {
        lemma_utf8_of_concat(a.drop_first(), b);
        assert((a + b).drop_first() =~= a.drop_first() + b);
        assert(encode_utf8(a + b) =~= encode_utf8(a) + encode_utf8(b));
    }
}

/// A text that `pad_string` accepts comes out exactly one line wide.
pub proof fn lemma_padded_line_width(s: Seq<char>)
    requires
        can_pad(s),
    ensures
        utf8_len(padded_line(s)) == LINE_LENGTH,
{
    broadcast use {encode_utf8_valid_utf8, valid_utf8_split, decode_utf8_encode_utf8};

    let bytes = encode_utf8(s);
    if utf8_len(s) > LINE_LENGTH {
        let head = bytes.subrange(0, LINE_LENGTH as int);
        assert(valid_utf8(bytes));
        assert(valid_utf8(head));
        assert(encode_utf8(decode_utf8(head)) == head);
    } else {
        let fill = spaces((LINE_LENGTH - utf8_len(s)) as nat);
        lemma_utf8_of_concat(s, fill);
        is_ascii_chars_encode_utf8(fill);
    }
}

/// A text of ASCII characters can always be brought to the width of a line:
/// every cut falls between two characters.
pub proof fn lemma_ascii_can_pad(s: Seq<char>)
    requires
        is_ascii_chars(s),
    ensures
        can_pad(s),
{
    broadcast use {encode_utf8_valid_utf8, is_char_boundary_iff_not_is_continuation_byte};

    let bytes = encode_utf8(s);
    is_ascii_chars_encode_utf8(s);
    if utf8_len(s) > LINE_LENGTH {
        let at = LINE_LENGTH as int;
        let b = bytes[at];
        assert(s[at] as u8 == b);
        assert(b < 128);
        assert(!is_continuation_byte(b)) by (bit_vector)
            requires
                b < 128,
        ;
        assert(valid_utf8(bytes));
        assert(is_char_boundary(bytes, at));
    }
}

/// Tells whether `pad_string` accepts `input`.
pub fn is_paddable(input: &str) -> (ok: bool)
    ensures
        ok == can_pad(input@),
{
    input.as_bytes().len() <= LINE_LENGTH || input.is_char_boundary(LINE_LENGTH)
}

/// Brings `input` to exactly one line's width, by cutting it or by filling
/// it up with blanks.
pub fn pad_string(input: String) -> (line: String)
    requires
        can_pad(input@),
    ensures
        line@ == padded_line(input@),
        utf8_len(line@) == LINE_LENGTH,
{
    broadcast use encode_utf8_decode_utf8;

    proof {
        lemma_padded_line_width(input@);
    }

    let len = input.as_str().as_bytes().len();
    if len > LINE_LENGTH {
        let (head, _) = input.as_str().split_at(LINE_LENGTH);
        assert(decode_utf8(encode_utf8(head@)) == head@);
        String::from_str(head)
    } else {
        let missing = LINE_LENGTH - len;
        let ghost text = input@;
        let mut padded = input;
        let mut i: usize = 0;
        assert(padded@ =~= text + spaces(0));
        while i < missing
            invariant
                i <= missing,
                padded@ == text + spaces(i as nat),
            decreases missing - i,
        {
            proof {
                reveal_strlit(" ");
            }
            padded.append(" ");
            i += 1;
            assert(padded@ =~= text + spaces(i as nat));
        }
        padded
    }
}

/// Brings `input` to one line's width where that can be done, and says so
/// where it cannot: a text that is too long and whose cut would fall inside
/// a character gives `None`.
pub fn try_pad_string(input: String) -> (line: Option<String>)
    ensures
        match line {
            Some(l) => can_pad(input@) && l@ == padded_line(input@) && utf8_len(l@) == LINE_LENGTH,
            None => !can_pad(input@),
        },
{
    if is_paddable(input.as_str()) {
        Some(pad_string(input))
    } else {
        None
    }
}

} // verus!
