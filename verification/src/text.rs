//! Text helpers: number formatting, report decoding and path checks.

use vstd::prelude::*;
use vstd::string::*;
use vstd::utf8::*;

verus! {

/// The digit character of a value below sixteen, in lower-case hexadecimal.
pub open spec fn digit_char(digit: nat) -> char {
    if digit < 10 {
        (digit + '0' as nat) as char
    } else {
        (digit - 10 + 'a' as nat) as char
    }
}

/// `n` in decimal notation, without leading zeros.
pub open spec fn decimal_text(n: nat) -> Seq<char>
    decreases n,
{
    if n < 10 {
        seq![digit_char(n)]
    } else {
        decimal_text(n / 10).push(digit_char(n % 10))
    }
}

/// `n` as `0x` followed by four hexadecimal digits.
pub open spec fn hex_text(n: u16) -> Seq<char> {
    seq![
        '0',
        'x',
        digit_char((n / 4096) as nat),
        digit_char((n / 256 % 16) as nat),
        digit_char((n / 16 % 16) as nat),
        digit_char((n % 16) as nat),
    ]
}

/// The report's bytes without the zero bytes that pad it.
pub open spec fn without_zeros(bytes: Seq<u8>) -> Seq<u8> {
    bytes.filter(|b: u8| b != 0)
}

/// What `String::from_utf8_lossy` makes of `bytes`.
pub uninterp spec fn lossy_text(bytes: Seq<u8>) -> Seq<char>;

/// Whether `text` is free of NUL characters.
pub open spec fn no_nul(text: Seq<char>) -> bool {
    !text.contains('\0')
}

/// Calls `String::from_utf8_lossy`. Claims that the text depends on the bytes alone, that valid
/// UTF-8 is decoded as it stands, and that a NUL character only comes of a zero byte: what stands
/// in for an invalid sequence is never a NUL. What else it is, is left unsaid.
#[verifier::external_body]
fn utf8_lossy(bytes: &Vec<u8>) -> (text: String)
    ensures
        text@ == lossy_text(bytes@),
        valid_utf8(bytes@) ==> text@ == decode_utf8(bytes@),
        !bytes@.contains(0) ==> no_nul(text@),
{
    String::from_utf8_lossy(bytes).into_owned()
}

/// The text that a report of the text protocol carries: its bytes without the padding, decoded.
pub open spec fn report_text(report: Seq<u8>) -> Seq<char> {
    lossy_text(without_zeros(report))
}

/// Drops the zero bytes of `bytes`.
pub fn strip_zeros(bytes: &Vec<u8>) -> (kept: Vec<u8>)
    ensures
        kept@ == without_zeros(bytes@),
{
    let mut kept: Vec<u8> = Vec::new();
    let mut i: usize = 0;
    let ghost nonzero = |b: u8| b != 0;
    assert(bytes@.take(0).filter(nonzero) =~= Seq::<u8>::empty()) by {
        reveal(Seq::filter);
    }
    while i < bytes.len()
        invariant
            i <= bytes.len(),
            nonzero == (|b: u8| b != 0),
            kept@ == bytes@.take(i as int).filter(nonzero),
        decreases bytes.len() - i,
    {
        let b: u8 = bytes[i];
        assert(bytes@.take(i as int + 1).filter(nonzero) == if nonzero(b) {
            kept@.push(b)
        } else {
            kept@
        }) by {
            reveal(Seq::filter);
            assert(bytes@.take(i as int + 1).drop_last() =~= bytes@.take(i as int));
            assert(bytes@.take(i as int + 1).last() == b);
        }
        if b != 0 {
            kept.push(b);
        }
        i = i + 1;
    }
    assert(bytes@.take(i as int) =~= bytes@);
    kept
}

/// No zero byte is left.
pub(crate) proof fn lemma_without_zeros(bytes: Seq<u8>)
    ensures
        !without_zeros(bytes).contains(0),
{
    broadcast use Seq::lemma_filter_pred;

}

/// The text that a report of the text protocol carries.
pub fn decode_report(report: &Vec<u8>) -> (text: String)
    ensures
        text@ == report_text(report@),
        valid_utf8(without_zeros(report@)) ==> text@ == decode_utf8(without_zeros(report@)),
        no_nul(text@),
{
    let kept = strip_zeros(report);
    proof {
        lemma_without_zeros(report@);
    }
    utf8_lossy(&kept)
}

/// Whether `path` holds a null character, which no C string can.
pub fn contains_null(path: &str) -> (found: bool)
    ensures
        found == path@.contains('\0'),
{
    let n: usize = path.unicode_len();
    let mut i: usize = 0;
    while i < n
        invariant
            n == path@.len(),
            i <= n,
            forall|j: int| 0 <= j < i ==> path@[j] != '\0',
        decreases n - i,
    {
        if path.get_char(i) == '\0' {
            return true;
        }
        i = i + 1;
    }
    false
}

/// The digit of a value below sixteen, as text.
fn digit_text(digit: u8) -> (text: &'static str)
    requires
        digit < 16,
    ensures
        text@ == seq![digit_char(digit as nat)],
{
    proof {
        reveal_strlit("0");
        reveal_strlit("1");
        reveal_strlit("2");
        reveal_strlit("3");
        reveal_strlit("4");
        reveal_strlit("5");
        reveal_strlit("6");
        reveal_strlit("7");
        reveal_strlit("8");
        reveal_strlit("9");
        reveal_strlit("a");
        reveal_strlit("b");
        reveal_strlit("c");
        reveal_strlit("d");
        reveal_strlit("e");
        reveal_strlit("f");
    }
    match digit {
        0 => "0",
        1 => "1",
        2 => "2",
        3 => "3",
        4 => "4",
        5 => "5",
        6 => "6",
        7 => "7",
        8 => "8",
        9 => "9",
        10 => "a",
        11 => "b",
        12 => "c",
        13 => "d",
        14 => "e",
        _ => "f",
    }
}

/// Writes `n` in decimal.
pub fn decimal(n: usize) -> (text: String)
    ensures
        text@ == decimal_text(n as nat),
    decreases n,
{
    if n < 10 {
        digit_text(n as u8).to_owned()
    } else {
        let mut text = decimal(n / 10);
        text.append(digit_text((n % 10) as u8));
        text
    }
}

/// Writes `n` as `0x` and four hexadecimal digits.
pub fn hex(n: u16) -> (text: String)
    ensures
        text@ == hex_text(n),
{
    proof {
        reveal_strlit("0x");
    }
    let mut text = "0x".to_owned();
    text.append(digit_text((n / 4096) as u8));
    text.append(digit_text((n / 256 % 16) as u8));
    text.append(digit_text((n / 16 % 16) as u8));
    text.append(digit_text((n % 16) as u8));
    text
}

/// Zero bytes carry no text, wherever they stand: reports that differ in nothing else carry the
/// same text.
pub proof fn law_zeros_carry_no_text(a: Seq<u8>, b: Seq<u8>)
    requires
        without_zeros(a) == without_zeros(b),
    ensures
        report_text(a) == report_text(b),
{
}

/// Zero bytes before, within or after the text of a report can be left out of it.
pub proof fn law_padding_carries_no_text(before: Seq<u8>, padding: Seq<u8>, after: Seq<u8>)
    requires
        forall|i: int| 0 <= i < padding.len() ==> padding[i] == 0,
    ensures
        without_zeros(before + padding + after) == without_zeros(before + after),
        report_text(before + padding + after) == report_text(before + after),
{
    broadcast use Seq::filter_distributes_over_add;

    lemma_only_zeros(padding);
    assert(without_zeros(before) + without_zeros(padding) =~= without_zeros(before));
}

/// Nothing is left of zero bytes.
proof fn lemma_only_zeros(padding: Seq<u8>)
    requires
        forall|i: int| 0 <= i < padding.len() ==> padding[i] == 0,
    ensures
        without_zeros(padding).len() == 0,
    decreases padding.len(),
{
    reveal(Seq::filter);
    if padding.len() > 0 {
        lemma_only_zeros(padding.drop_last());
    }
}

/// Zero bytes are all that is dropped: a report without any is kept as it is, the parts of a
/// report are kept one after the other, and of zero bytes alone nothing is kept.
pub proof fn law_only_zeros_are_dropped(before: Seq<u8>, after: Seq<u8>)
    ensures
        without_zeros(before + after) == without_zeros(before) + without_zeros(after),
        !before.contains(0) ==> without_zeros(before) == before,
        (forall|i: int| 0 <= i < before.len() ==> before[i] == 0) ==> without_zeros(before).len()
            == 0,
{
    Seq::filter_distributes_over_add(before, after, |b: u8| b != 0);
    if !before.contains(0) {
        lemma_nothing_to_drop(before);
    }
    if forall|i: int| 0 <= i < before.len() ==> before[i] == 0 {
        lemma_only_zeros(before);
    }
}

/// Without zero bytes there is nothing to drop.
proof fn lemma_nothing_to_drop(bytes: Seq<u8>)
    requires
        !bytes.contains(0),
    ensures
        without_zeros(bytes) == bytes,
    decreases bytes.len(),
{
    reveal(Seq::filter);
    if bytes.len() > 0 {
        assert(bytes.contains(bytes.last()));
        assert forall|b: u8| bytes.drop_last().contains(b) implies bytes.contains(b) by {
            let i = choose|i: int| 0 <= i < bytes.drop_last().len() && bytes.drop_last()[i] == b;
            assert(bytes[i] == b);
        }
        lemma_nothing_to_drop(bytes.drop_last());
        assert(bytes.drop_last().push(bytes.last()) =~= bytes);
    }
}

/// `strip_zeros` keeps every byte that is not zero, in order, and no other: bytes without a zero
/// come back as they are, and what is kept of two parts is kept of the whole.
pub proof fn law_stripping_keeps_the_rest(
    whole: &Vec<u8>,
    before: &Vec<u8>,
    after: &Vec<u8>,
    kept: Vec<u8>,
    kept_before: Vec<u8>,
    kept_after: Vec<u8>,
)
    requires
        whole@ == before@ + after@,
        call_ensures(strip_zeros, (whole,), kept),
        call_ensures(strip_zeros, (before,), kept_before),
        call_ensures(strip_zeros, (after,), kept_after),
    ensures
        kept@ == kept_before@ + kept_after@,
        !kept@.contains(0),
        !whole@.contains(0) ==> kept@ == whole@,
{
    law_only_zeros_are_dropped(before@, after@);
    law_only_zeros_are_dropped(whole@, after@);
    lemma_without_zeros(whole@);
}

/// A report is decoded by the bytes that are left without its zeros: two that agree on those carry
/// the same text, valid UTF-8 is taken for what it spells, and where there is no zero byte that
/// is the report itself.
pub proof fn law_report_is_taken_for_what_it_spells(
    report: &Vec<u8>,
    other: &Vec<u8>,
    kept: Vec<u8>,
    other_kept: Vec<u8>,
    text: String,
    other_text: String,
)
    requires
        call_ensures(strip_zeros, (report,), kept),
        call_ensures(strip_zeros, (other,), other_kept),
        call_ensures(decode_report, (report,), text),
        call_ensures(decode_report, (other,), other_text),
    ensures
        kept@ == other_kept@ ==> text@ == other_text@,
        valid_utf8(kept@) ==> text@ == decode_utf8(kept@),
        !report@.contains(0) && valid_utf8(report@) ==> text@ == decode_utf8(report@),
{
    law_only_zeros_are_dropped(report@, report@);
}

/// The number that decimal digits stand for.
pub open spec fn decimal_value(digits: Seq<char>) -> nat
    decreases digits.len(),
{
    if digits.len() == 0 {
        0
    } else {
        decimal_value(digits.drop_last()) * 10 + (digits.last() as nat - '0' as nat) as nat
    }
}

/// Numbers are written so that they can be read back: `decimal` gives decimal digits that stand
/// for the number, without a zero in front unless it is the only digit.
pub proof fn law_decimal_can_be_read_back(n: usize, text: String)
    requires
        call_ensures(decimal, (n,), text),
    ensures
        text@.len() > 0,
        forall|i: int| 0 <= i < text@.len() ==> '0' as nat <= #[trigger] text@[i] as nat <= '9' as nat,
        decimal_value(text@) == n,
        text@[0] == '0' ==> text@.len() == 1,
{
    lemma_decimal(n as nat);
}

/// Decimal notation can be read back.
proof fn lemma_decimal(n: nat)
    ensures
        decimal_text(n).len() > 0,
        forall|i: int|
            0 <= i < decimal_text(n).len() ==> '0' as nat <= #[trigger] decimal_text(n)[i] as nat
                <= '9' as nat,
        decimal_value(decimal_text(n)) == n,
        decimal_text(n)[0] == '0' <==> n == 0,
        n == 0 ==> decimal_text(n).len() == 1,
    decreases n,
{
    if n < 10 {
        assert(decimal_text(n).drop_last() =~= Seq::empty());
        assert(decimal_value(decimal_text(n).drop_last()) == 0);
    } else {
        lemma_decimal(n / 10);
        assert(decimal_text(n).drop_last() =~= decimal_text(n / 10));
    }
}

/// The number that a lower-case hexadecimal digit stands for, if it is one.
pub open spec fn hex_digit(c: char) -> Option<nat> {
    if '0' as nat <= c as nat <= '9' as nat {
        Some((c as nat - '0' as nat) as nat)
    } else if 'a' as nat <= c as nat <= 'f' as nat {
        Some((c as nat - 'a' as nat + 10) as nat)
    } else {
        None
    }
}

/// Identifiers are written so that they can be read back: `hex` gives `0x` and four lower-case
/// hexadecimal digits that stand for the number.
pub proof fn law_hex_can_be_read_back(n: u16, text: String)
    requires
        call_ensures(hex, (n,), text),
    ensures
        text@.len() == 6,
        text@[0] == '0',
        text@[1] == 'x',
        forall|i: int| 2 <= i < 6 ==> hex_digit(#[trigger] text@[i]) is Some,
        n == hex_digit(text@[2])->0 * 4096 + hex_digit(text@[3])->0 * 256 + hex_digit(
            text@[4],
        )->0 * 16 + hex_digit(text@[5])->0,
{
    lemma_hex_digit((n / 4096) as nat);
    lemma_hex_digit((n / 256 % 16) as nat);
    lemma_hex_digit((n / 16 % 16) as nat);
    lemma_hex_digit((n % 16) as nat);
    assert(n == n / 4096 * 4096 + n / 256 % 16 * 256 + n / 16 % 16 * 16 + n % 16) by (bit_vector);
    assert forall|i: int| 2 <= i < 6 implies hex_digit(#[trigger] text@[i]) is Some by {
        assert(i == 2 || i == 3 || i == 4 || i == 5);
    }
}

/// A digit stands for its value.
proof fn lemma_hex_digit(digit: nat)
    requires
        digit < 16,
    ensures
        hex_digit(digit_char(digit)) == Some(digit),
{
}

} // verus!
