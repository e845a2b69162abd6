//! Texts: numbers in decimal, addresses, and the search for a phrase.

use vstd::prelude::*;

verus! {

/// The digit that stands for a number below ten.
pub open spec fn digit_char(digit: nat) -> char {
    ('0' as nat + digit) as char
}

/// A number in decimal, without leading zeros.
pub open spec fn decimal_text(n: nat) -> Seq<char>
    decreases n,
{
    if n < 10 {
        seq![digit_char(n)]
    } else {
        decimal_text(n / 10).push(digit_char(n % 10))
    }
}

/// The address made of a host and a port.
pub open spec fn address_text(host: Seq<char>, port: u32) -> Seq<char> {
    host.push(':') + decimal_text(port as nat)
}

/// Whether a phrase stands somewhere in a text.
pub open spec fn occurs_in(phrase: Seq<char>, text: Seq<char>) -> bool {
    exists|i: int| #[trigger] occurs_at(phrase, text, i)
}

/// Whether a phrase stands in a text at a given place.
pub open spec fn occurs_at(phrase: Seq<char>, text: Seq<char>, i: int) -> bool {
    0 <= i <= text.len() - phrase.len() && text.subrange(i, i + phrase.len()) == phrase
}

/// The text of a number below ten.
fn digit(n: u32) -> (r: &'static str)
    requires
        n < 10,
    ensures
        r@ == seq![digit_char(n as nat)],
{
    proof {
        reveal_strlit("0");
        reveal_strlit("1");
        reveal_strlit("2");
        reveal_strlit("3");
        reveal_strlit("4");
        reveal_strlit("5");
        reveal_strlit("6");
        reveal_strlit("7");
        reveal_strlit("8");
        reveal_strlit("9");
    }
    match n {
        0 => "0",
        1 => "1",
        2 => "2",
        3 => "3",
        4 => "4",
        5 => "5",
        6 => "6",
        7 => "7",
        8 => "8",
        _ => "9",
    }
}

/// A number in decimal.
pub fn decimal(n: u32) -> (r: String)
    ensures
        r@ == decimal_text(n as nat),
    decreases n,
{
    let mut text = if n < 10 {
        String::new()
    } else {
        decimal(n / 10)
    };
    text.append(digit(n % 10));
    text
}

/// The address made of a host and a port.
pub fn address(host: &str, port: u32) -> (r: String)
    ensures
        r@ == address_text(host@, port),
{
    proof {
        reveal_strlit(":");
    }
    let mut text = host.to_string();
    text.append(":");
    text.append(decimal(port).as_str());
    assert(text@ =~= address_text(host@, port));
    text
}

/// The characters of a text.
fn chars_of(text: &str) -> (r: Vec<char>)
    ensures
        r@ == text@,
{
    let mut chars: Vec<char> = Vec::new();
    for c in iter: text.chars()
        invariant
            iter.seq() == text@,
            chars@ =~= text@.take(iter.index() as int),
    {
        chars.push(c);
    }
    chars
}

/// Whether `phrase` stands in `text` at the place `at`.
fn stands_at(phrase: &Vec<char>, text: &Vec<char>, at: usize) -> (r: bool)
    requires
        at + phrase@.len() <= text@.len(),
    ensures
        r == occurs_at(phrase@, text@, at as int),
{
    let end: usize = text.len();
    let mut i: usize = 0;
    while i < phrase.len()
        invariant
            i <= phrase@.len(),
            at + phrase@.len() <= text@.len() == end,
            text@.subrange(at as int, at + i) =~= phrase@.take(i as int),
        decreases phrase@.len() - i,
    {
        if text[at + i] != phrase[i] {
            assert(text@.subrange(at as int, at + phrase@.len())[i as int] != phrase@[i as int]);
            return false;
        }
        i = i + 1;
    }
    assert(phrase@.take(i as int) =~= phrase@);
    true
}

/// Whether a phrase stands somewhere in a text.
pub fn contains(text: &str, phrase: &str) -> (r: bool)
    ensures
        r == occurs_in(phrase@, text@),
{
    let chars = chars_of(text);
    let wanted = chars_of(phrase);
    if chars.len() < wanted.len() {
        return false;
    }
    let last: usize = chars.len() - wanted.len();
    for i in 0..last
        invariant
            chars@ == text@,
            wanted@ == phrase@,
            last + wanted@.len() == chars@.len(),
            forall|k: int| 0 <= k < i ==> !#[trigger] occurs_at(phrase@, text@, k),
    {
        if stands_at(&wanted, &chars, i) {
            return true;
        }
    }
    stands_at(&wanted, &chars, last)
}

/// The number that a text of digits stands for.
pub open spec fn number_of(text: Seq<char>) -> int
    decreases text.len(),
{
    if text.len() == 0 {
        0
    } else {
        10 * number_of(text.drop_last()) + (text.last() as int - 48)
    }
}

/// Whether a text is made of the digits from 0 to 9.
pub open spec fn all_digits(text: Seq<char>) -> bool {
    forall|i: int| 0 <= i < text.len() ==> 48 <= #[trigger] text[i] as int <= 57
}

/// A number in decimal is made of digits, reads back as the number, and has no
/// zero in front but for the number zero itself, which is a single digit.
pub proof fn law_decimal_reads_back(n: nat)
    ensures
        decimal_text(n).len() > 0,
        all_digits(decimal_text(n)),
        number_of(decimal_text(n)) == n,
        n > 0 ==> decimal_text(n)[0] as int != 48,
        n < 10 ==> decimal_text(n).len() == 1,
    decreases n,
{
    reveal_with_fuel(number_of, 2);
    if n >= 10 {
        law_decimal_reads_back(n / 10);
        let text = decimal_text(n);
        assert(text.drop_last() =~= decimal_text(n / 10));
        assert(text.last() as int == 48 + n % 10);
    } else {
        let text = decimal_text(n);
        assert(text.drop_last() =~= Seq::empty());
        assert(text[0] as int == 48 + n);
    }
}

/// Whether a text is a host, a colon and the digits of a port, which read back as
/// the port and have no zero in front of another digit.
pub open spec fn names_address(text: Seq<char>, host: Seq<char>, port: u32) -> bool {
    let h = host.len() as int;
    &&& text.len() > h + 1
    &&& text.take(h) == host
    &&& text[h] == ':'
    &&& all_digits(text.skip(h + 1))
    &&& number_of(text.skip(h + 1)) == port
    &&& port > 0 ==> text[h + 1] as int != 48
    &&& port < 10 ==> text.len() == h + 2
}

/// An address names its host and its port.
pub proof fn law_address_reads_back(host: Seq<char>, port: u32)
    ensures
        names_address(address_text(host, port), host, port),
{
    law_decimal_reads_back(port as nat);
    let text = address_text(host, port);
    let h = host.len() as int;
    assert(text.take(h) =~= host);
    assert(text.skip(h + 1) =~= decimal_text(port as nat));
    assert(text[h + 1] == decimal_text(port as nat)[0]);
}

/// Two addresses are the same only if their hosts and their ports are, as long as
/// one of these agrees.
pub proof fn law_addresses_differ(host: Seq<char>, port: u32, other: Seq<char>, other_port: u32)
    requires
        host == other || port == other_port,
        address_text(host, port) == address_text(other, other_port),
    ensures
        host == other,
        port == other_port,
{
    law_address_reads_back(host, port);
    law_address_reads_back(other, other_port);
    if port == other_port {
        let text = address_text(host, port);
        let digits = decimal_text(port as nat);
        assert(text.len() == host.len() + 1 + digits.len());
        assert(text.len() == other.len() + 1 + digits.len());
    }
}

/// A phrase occurs in a text exactly if the text is something, the phrase, and
/// something more.
pub proof fn law_occurs_in(phrase: Seq<char>, text: Seq<char>)
    ensures
        occurs_in(phrase, text) <==> exists|before: Seq<char>, after: Seq<char>|
            #[trigger] (before + phrase + after) == text,
{
    if occurs_in(phrase, text) {
        let i = choose|i: int| #[trigger] occurs_at(phrase, text, i);
        let before = text.take(i);
        let after = text.skip(i + phrase.len());
        assert(before + phrase + after =~= text) by {
            assert forall|k: int| i <= k < i + phrase.len() implies text[k] == phrase[k - i] by {
                assert(text.subrange(i, i + phrase.len())[k - i] == text[k]);
            }
        }
    }
    if exists|before: Seq<char>, after: Seq<char>| #[trigger] (before + phrase + after) == text {
        let (before, after): (Seq<char>, Seq<char>) = choose|before: Seq<char>, after: Seq<char>|
            #[trigger] (before + phrase + after) == text;
        let i = before.len() as int;
        assert(text.subrange(i, i + phrase.len()) =~= phrase);
        assert(occurs_at(phrase, text, i));
    }
}

} // verus!
