//! Text helpers: whitespace classification, decimal and hexadecimal rendering.
use vstd::prelude::*;

verus! {

/// Whether `c` has the Unicode `White_Space` property, which is what
/// `char::is_whitespace` tests.
pub open spec fn is_white_space(c: char) -> bool {
    let n = c as u32;
    ||| 0x9 <= n <= 0xD
    ||| n == 0x20
    ||| n == 0x85
    ||| n == 0xA0
    ||| n == 0x1680
    ||| 0x2000 <= n <= 0x200A
    ||| n == 0x2028
    ||| n == 0x2029
    ||| n == 0x202F
    ||| n == 0x205F
    ||| n == 0x3000
}

/// Whether some character of `s` is white space.
pub open spec fn has_white_space(s: Seq<char>) -> bool {
    exists|i: int| 0 <= i < s.len() && is_white_space(#[trigger] s[i])
}

/// Tests a single character for the Unicode `White_Space` property.
pub fn char_is_whitespace(c: char) -> (b: bool)
    ensures
        b == is_white_space(c),
{
    let n = c as u32;
    (0x9 <= n && n <= 0xD) || n == 0x20 || n == 0x85 || n == 0xA0 || n == 0x1680 || (0x2000 <= n
        && n <= 0x200A) || n == 0x2028 || n == 0x2029 || n == 0x202F || n == 0x205F || n == 0x3000
}

/// Whether the string contains any white space character.
pub fn contains_whitespace(s: &str) -> (b: bool)
    ensures
        b == has_white_space(s@),
{
    let n = s.unicode_len();
    let mut i: usize = 0;
    while i < n
        invariant
            n == s@.len(),
            i <= n,
            forall|k: int| 0 <= k < i ==> !is_white_space(#[trigger] s@[k]),
        decreases n - i,
    {
        let c = s.get_char(i);
        if char_is_whitespace(c) {
            return true;
        }
        i = i + 1;
    }
    false
}

/// Whether two strings hold the same characters.
pub fn str_eq(a: &str, b: &str) -> (r: bool)
    ensures
        r == (a@ == b@),
{
    let n = a.unicode_len();
    if n != b.unicode_len() {
        return false;
    }
    let mut i: usize = 0;
    while i < n
        invariant
            n == a@.len(),
            n == b@.len(),
            i <= n,
            forall|k: int| 0 <= k < i ==> a@[k] == b@[k],
        decreases n - i,
    {
        if a.get_char(i) != b.get_char(i) {
            return false;
        }
        i = i + 1;
    }
    assert(a@ =~= b@);
    true
}

/// The character of a decimal digit `d < 10`.
pub open spec fn decimal_digit(d: nat) -> char {
    (d + 48) as char
}

/// The lowercase hexadecimal digit of `d < 16`.
pub open spec fn hex_digit(d: nat) -> char {
    if d < 10 {
        (d + 48) as char
    } else {
        (d + 87) as char
    }
}

/// The decimal rendering of `n`, without leading zeros (`format!("{}", n)`).
pub open spec fn decimal(n: nat) -> Seq<char>
    decreases n,
{
    if n < 10 {
        seq![decimal_digit(n)]
    } else {
        decimal(n / 10).push(decimal_digit(n % 10))
    }
}

/// Two lowercase hexadecimal digits of a byte, high nibble first.
pub open spec fn hex_byte(b: u8) -> Seq<char> {
    seq![hex_digit((b / 16) as nat), hex_digit((b % 16) as nat)]
}

/// The lowercase hexadecimal encoding of a byte sequence, two digits per byte.
pub open spec fn hex_encoding(bytes: Seq<u8>) -> Seq<char>
    decreases bytes.len(),
{
    if bytes.len() == 0 {
        Seq::empty()
    } else {
        hex_encoding(bytes.drop_last()) + hex_byte(bytes.last())
    }
}

/// The uppercase hexadecimal digit of `d < 16`.
pub open spec fn hex_digit_upper(d: nat) -> char {
    if d < 10 {
        (d + 48) as char
    } else {
        (d + 55) as char
    }
}

/// The uppercase hexadecimal rendering of `n`, without leading zeros
/// (`format!("{:X}", n)`).
pub open spec fn hex_upper(n: nat) -> Seq<char>
    decreases n,
{
    if n < 16 {
        seq![hex_digit_upper(n)]
    } else {
        hex_upper(n / 16).push(hex_digit_upper(n % 16))
    }
}

/// The items joined with ", " between them.
pub open spec fn comma_joined(items: Seq<Seq<char>>) -> Seq<char>
    decreases items.len(),
{
    if items.len() == 0 {
        Seq::empty()
    } else if items.len() == 1 {
        items[0]
    } else {
        comma_joined(items.drop_last()) + ", "@ + items.last()
    }
}

/// A list as `{:?}` prints it, given the printed items: `[a, b, c]`.
pub open spec fn debug_list(items: Seq<Seq<char>>) -> Seq<char> {
    "["@ + comma_joined(items) + "]"@
}

/// The decimal renderings of the bytes.
pub open spec fn decimal_items(bytes: Seq<u8>) -> Seq<Seq<char>> {
    bytes.map_values(|b: u8| decimal(b as nat))
}

/// The decimal renderings of the numbers.
pub open spec fn usize_items(xs: Seq<usize>) -> Seq<Seq<char>> {
    xs.map_values(|x: usize| decimal(x as nat))
}

/// Encoding one more byte appends its two digits.
pub proof fn lemma_hex_encoding_push(bytes: Seq<u8>, b: u8)
    ensures
        hex_encoding(bytes.push(b)) == hex_encoding(bytes) + hex_byte(b),
{
    assert(bytes.push(b).drop_last() =~= bytes);
}

/// Appends a character to a string (`String::push`).
#[verifier::external_body]
pub fn push_char(s: &mut String, c: char)
    ensures
        final(s)@ == old(s)@.push(c),
{
    s.push(c);
}

/// The character of the decimal digit `d`.
pub fn decimal_digit_char(d: u8) -> (c: char)
    requires
        d < 10,
    ensures
        c == decimal_digit(d as nat),
{
    (d + 48) as char
}

/// The character of the lowercase hexadecimal digit `d`.
pub fn hex_digit_char(d: u8) -> (c: char)
    requires
        d < 16,
    ensures
        c == hex_digit(d as nat),
{
    if d < 10 {
        (d + 48) as char
    } else {
        (d + 87) as char
    }
}

/// Appends the decimal rendering of `n` to `s`.
pub fn push_decimal(s: &mut String, n: u64)
    ensures
        final(s)@ == old(s)@ + decimal(n as nat),
    decreases n,
{
    if n >= 10 {
        push_decimal(s, n / 10);
    }
    let d = (n % 10) as u8;
    push_char(s, decimal_digit_char(d));
    assert(final(s)@ =~= old(s)@ + decimal(n as nat));
}

/// The decimal rendering of `n` as a new string.
pub fn decimal_string(n: u64) -> (s: String)
    ensures
        s@ == decimal(n as nat),
{
    let mut s = String::new();
    push_decimal(&mut s, n);
    assert(s@ =~= decimal(n as nat));
    s
}

/// The character of the uppercase hexadecimal digit `d`.
pub fn hex_digit_upper_char(d: u8) -> (c: char)
    requires
        d < 16,
    ensures
        c == hex_digit_upper(d as nat),
{
    if d < 10 {
        (d + 48) as char
    } else {
        (d + 55) as char
    }
}

/// Appends the uppercase hexadecimal rendering of `n` to `s`.
pub fn push_hex_upper(s: &mut String, n: u64)
    ensures
        final(s)@ == old(s)@ + hex_upper(n as nat),
    decreases n,
{
    if n >= 16 {
        push_hex_upper(s, n / 16);
    }
    let d = (n % 16) as u8;
    push_char(s, hex_digit_upper_char(d));
    assert(final(s)@ =~= old(s)@ + hex_upper(n as nat));
}

/// Appends a list of bytes as `{:?}` prints it, `[1, 2, 3]`, to `s`.
pub fn push_debug_bytes(s: &mut String, bytes: &Vec<u8>)
    ensures
        final(s)@ == old(s)@ + debug_list(decimal_items(bytes@)),
{
    let ghost start = s@;
    s.append("[");
    let mut i: usize = 0;
    while i < bytes.len()
        invariant
            i <= bytes@.len(),
            s@ == start + "["@ + comma_joined(decimal_items(bytes@.take(i as int))),
        decreases bytes@.len() - i,
    {
        let ghost before = s@;
        if i > 0 {
            s.append(", ");
        }
        push_decimal(s, bytes[i] as u64);
        proof {
            let items = decimal_items(bytes@.take(i + 1));
            assert(items.drop_last() =~= decimal_items(bytes@.take(i as int)));
            assert(items.last() == decimal(bytes@[i as int] as nat));
            if i == 0 {
                assert(decimal_items(bytes@.take(0)) =~= Seq::<Seq<char>>::empty());
            }
        }
        i = i + 1;
        proof {
            assert(s@ =~= start + "["@ + comma_joined(decimal_items(bytes@.take(i as int))));
        }
    }
    s.append("]");
    assert(bytes@.take(bytes@.len() as int) =~= bytes@);
    assert(s@ =~= old(s)@ + debug_list(decimal_items(bytes@)));
}

/// Appends a list of numbers as `{:?}` prints it, `[300, 600]`, to `s`.
pub fn push_debug_usizes(s: &mut String, xs: &[usize])
    ensures
        final(s)@ == old(s)@ + debug_list(usize_items(xs@)),
{
    let ghost start = s@;
    s.append("[");
    let mut i: usize = 0;
    while i < xs.len()
        invariant
            i <= xs@.len(),
            s@ == start + "["@ + comma_joined(usize_items(xs@.take(i as int))),
        decreases xs@.len() - i,
    {
        if i > 0 {
            s.append(", ");
        }
        push_decimal(s, xs[i] as u64);
        proof {
            let items = usize_items(xs@.take(i + 1));
            assert(items.drop_last() =~= usize_items(xs@.take(i as int)));
            assert(items.last() == decimal(xs@[i as int] as nat));
            if i == 0 {
                assert(usize_items(xs@.take(0)) =~= Seq::<Seq<char>>::empty());
            }
        }
        i = i + 1;
        proof {
            assert(s@ =~= start + "["@ + comma_joined(usize_items(xs@.take(i as int))));
        }
    }
    s.append("]");
    assert(xs@.take(xs@.len() as int) =~= xs@);
    assert(s@ =~= old(s)@ + debug_list(usize_items(xs@)));
}

/// Appends the two hexadecimal digits of a byte to `s`.
pub fn push_hex_byte(s: &mut String, b: u8)
    ensures
        final(s)@ == old(s)@ + hex_byte(b),
{
    push_char(s, hex_digit_char(b / 16));
    push_char(s, hex_digit_char(b % 16));
    assert(final(s)@ =~= old(s)@ + hex_byte(b));
}

/// Encodes bytes as lowercase hexadecimal (`hex::encode`): two digits per byte, high
/// nibble first.
#[verifier::external_body]
pub fn hex_encode(data: &[u8]) -> (s: String)
    ensures
        s@ == hex_encoding(data@),
{
    hex::encode(data)
}

/// A hexadecimal decoding error from the `hex` crate, carried through unchanged.
#[verifier::external_type_specification]
#[verifier::external_body]
pub struct ExFromHexError(hex::FromHexError);

/// Whether `c` is a hexadecimal digit, in either case.
pub open spec fn is_hex_digit(c: char) -> bool {
    ||| '0' <= c <= '9'
    ||| 'a' <= c <= 'f'
    ||| 'A' <= c <= 'F'
}

/// The value of a hexadecimal digit.
pub open spec fn hex_value(c: char) -> nat {
    if '0' <= c <= '9' {
        (c as nat - 48) as nat
    } else if 'a' <= c <= 'f' {
        (c as nat - 87) as nat
    } else {
        (c as nat - 55) as nat
    }
}

/// Whether the text is hexadecimal: an even number of hexadecimal digits.
pub open spec fn is_hex_text(s: Seq<char>) -> bool {
    &&& s.len() % 2 == 0
    &&& forall|i: int| 0 <= i < s.len() ==> is_hex_digit(#[trigger] s[i])
}

/// The byte that two hexadecimal digits encode, high nibble first.
pub open spec fn hex_pair_value(hi: char, lo: char) -> u8 {
    (hex_value(hi) * 16 + hex_value(lo)) as u8
}

/// The bytes that hexadecimal text encodes, two digits per byte.
pub open spec fn hex_decoding(s: Seq<char>) -> Seq<u8> {
    Seq::new(s.len() / 2, |i: int| hex_pair_value(s[2 * i], s[2 * i + 1]))
}

/// Decodes hexadecimal text (`hex::decode`). The `hex` crate accepts digits of either
/// case, two per byte, high nibble first, and refuses text of odd length or with any
/// other character. Only ASCII text is handed to it here, so that its bytes are its
/// characters.
#[verifier::external_body]
pub fn hex_decode(s: &str) -> (r: Result<Vec<u8>, hex::FromHexError>)
    requires
        s.is_ascii(),
    ensures
        match r {
            Ok(bytes) => is_hex_text(s@) && bytes@ == hex_decoding(s@),
            Err(_) => !is_hex_text(s@),
        },
{
    hex::decode(s)
}

/// Hexadecimal text is ASCII.
pub proof fn lemma_hex_text_is_ascii(s: Seq<char>)
    requires
        forall|i: int| 0 <= i < s.len() ==> is_hex_digit(#[trigger] s[i]),
    ensures
        vstd::utf8::is_ascii_chars(s),
{
    assert forall|i: int| 0 <= i < s.len() implies '\0' <= #[trigger] s[i] <= '\u{7f}' by {
        assert(is_hex_digit(s[i]));
    }
}

/// The hexadecimal encoding has two digits per byte: the high nibble's, then the
/// low nibble's.
pub proof fn lemma_hex_encoding_index(bytes: Seq<u8>)
    ensures
        hex_encoding(bytes).len() == 2 * bytes.len(),
        forall|i: int|
            #![trigger bytes[i]]
            0 <= i < bytes.len() ==> hex_encoding(bytes)[2 * i] == hex_digit(
                (bytes[i] / 16) as nat,
            ) && hex_encoding(bytes)[2 * i + 1] == hex_digit((bytes[i] % 16) as nat),
    decreases bytes.len(),
{
    if bytes.len() > 0 {
        let init = bytes.drop_last();
        lemma_hex_encoding_index(init);
        assert forall|i: int| 0 <= i < bytes.len() implies hex_encoding(bytes)[2 * i] == hex_digit(
            (#[trigger] bytes[i] / 16) as nat,
        ) && hex_encoding(bytes)[2 * i + 1] == hex_digit((bytes[i] % 16) as nat) by {
            if i < init.len() {
                assert(init[i] == bytes[i]);
            }
        }
    }
}

/// A lowercase hexadecimal digit is a hexadecimal digit, and has its value.
pub proof fn lemma_hex_digit_value(d: nat)
    requires
        d < 16,
    ensures
        is_hex_digit(hex_digit(d)),
        hex_value(hex_digit(d)) == d,
{
}

/// Decoding the hexadecimal encoding of bytes gives the bytes back.
pub proof fn lemma_hex_decode_encoding(bytes: Seq<u8>)
    ensures
        is_hex_text(hex_encoding(bytes)),
        hex_decoding(hex_encoding(bytes)) == bytes,
{
    let h = hex_encoding(bytes);
    lemma_hex_encoding_index(bytes);
    assert forall|j: int| 0 <= j < h.len() implies is_hex_digit(#[trigger] h[j]) by {
        let i = j / 2;
        assert(j == 2 * i || j == 2 * i + 1);
        assert(h[2 * i] == hex_digit((bytes[i] / 16) as nat));
        lemma_hex_digit_value((bytes[i] / 16) as nat);
        lemma_hex_digit_value((bytes[i] % 16) as nat);
    }
    assert forall|i: int| 0 <= i < bytes.len() implies #[trigger] hex_decoding(h)[i] == bytes[i] by {
        assert(h[2 * i] == hex_digit((bytes[i] / 16) as nat));
        lemma_hex_digit_value((bytes[i] / 16) as nat);
        lemma_hex_digit_value((bytes[i] % 16) as nat);
    }
    assert(hex_decoding(h) =~= bytes);
}

/// Encoding a concatenation encodes each part.
pub proof fn lemma_hex_encoding_concat(a: Seq<u8>, b: Seq<u8>)
    ensures
        hex_encoding(a + b) == hex_encoding(a) + hex_encoding(b),
    decreases b.len(),
{
    if b.len() == 0 {
        assert(a + b =~= a);
        assert(hex_encoding(b) =~= Seq::<char>::empty());
        assert(hex_encoding(a) + hex_encoding(b) =~= hex_encoding(a));
    } else {
        lemma_hex_encoding_concat(a, b.drop_last());
        assert((a + b).drop_last() =~= a + b.drop_last());
        assert((a + b).last() == b.last());
        assert(hex_encoding(a) + hex_encoding(b) =~= hex_encoding(a) + hex_encoding(b.drop_last())
            + hex_byte(b.last()));
    }
}

/// A single byte is encoded as its two digits.
pub proof fn lemma_hex_encoding_single(b: u8)
    ensures
        hex_encoding(seq![b]) == hex_byte(b),
{
    assert(seq![b].drop_last() =~= Seq::<u8>::empty());
    assert(hex_encoding(Seq::<u8>::empty()) =~= Seq::<char>::empty());
    assert(hex_encoding(seq![b]) =~= hex_byte(b));
}

} // verus!
