//! Base64, decoded by hand and strictly.
//!
//! The sending proof travels as standard base64 inside JSON. A lenient decoder
//! -- one that skips whatever it does not recognise -- would hand back
//! plausible bytes for an answer that was never a PDF, so this one refuses
//! anything outside the alphabet, data after the padding, a group of one
//! symbol, and padding that does not complete the last group. The one thing it
//! tolerates is ASCII whitespace, which a pretty printer may have wrapped in.

use vstd::prelude::*;

use vstd::string::StringSliceAdditionalSpecFns;

verus! {

/// ASCII whitespace as Rust's `u8::is_ascii_whitespace` reads it: space, tab,
/// line feed, form feed and carriage return.
pub open spec fn is_ascii_whitespace(b: u8) -> bool {
    b == 32 || b == 9 || b == 10 || b == 12 || b == 13
}

/// The six bits a symbol of the standard alphabet stands for.
pub open spec fn sextet(b: u8) -> Option<u8> {
    if 65 <= b <= 90 {
        Some((b - 65) as u8)
    } else if 97 <= b <= 122 {
        Some((b - 97 + 26) as u8)
    } else if 48 <= b <= 57 {
        Some((b - 48 + 52) as u8)
    } else if b == 43 {
        Some(62u8)
    } else if b == 47 {
        Some(63u8)
    } else {
        None
    }
}

/// What reading the text symbol by symbol gathers: the six-bit values of the
/// data symbols and the count of `=` signs. Whitespace is skipped; a data
/// symbol after a `=`, or a byte outside the alphabet, makes it `None`.
pub open spec fn scan(text: Seq<u8>) -> Option<(Seq<u8>, nat)>
    decreases text.len(),
{
    if text.len() == 0 {
        Some((Seq::empty(), 0))
    } else {
        match scan(text.drop_last()) {
            None => None,
            Some((values, padding)) => {
                let b = text.last();
                if is_ascii_whitespace(b) {
                    Some((values, padding))
                } else if b == 61 {
                    Some((values, padding + 1))
                } else if padding > 0 {
                    None
                } else {
                    match sextet(b) {
                        Some(v) => Some((values.push(v), padding)),
                        None => None,
                    }
                }
            },
        }
    }
}

/// The first byte of a group: all six bits of `a`, the top two of `b`.
pub open spec fn first_byte(a: u8, b: u8) -> u8 {
    (a * 4 + b / 16) as u8
}

/// The second byte of a group: the low four bits of `b`, the top four of `c`.
pub open spec fn second_byte(b: u8, c: u8) -> u8 {
    ((b % 16) * 16 + c / 4) as u8
}

/// The third byte of a group: the low two bits of `c`, all six of `d`.
pub open spec fn third_byte(c: u8, d: u8) -> u8 {
    ((c % 4) * 64 + d) as u8
}

/// The bytes a sequence of six-bit values carries, four values to three
/// bytes; a trailing group of three values carries two bytes, of two values
/// one byte.
pub open spec fn bytes_of_sextets(v: Seq<u8>) -> Seq<u8>
    decreases v.len(),
{
    if v.len() >= 4 {
        seq![first_byte(v[0], v[1]), second_byte(v[1], v[2]), third_byte(v[2], v[3])]
            + bytes_of_sextets(v.skip(4))
    } else if v.len() == 3 {
        seq![first_byte(v[0], v[1]), second_byte(v[1], v[2])]
    } else if v.len() == 2 {
        seq![first_byte(v[0], v[1])]
    } else {
        Seq::empty()
    }
}

/// Standard base64 decoding of a text, `None` when the text is not base64.
///
/// A group of one symbol encodes nothing, and padding only ever completes the
/// last group: at most two signs, and only where the group was short.
pub open spec fn base64_decode(text: Seq<u8>) -> Option<Seq<u8>> {
    match scan(text) {
        None => None,
        Some((values, padding)) => {
            if values.len() % 4 == 1 {
                None
            } else if padding > 0 && (padding > 2 || (values.len() + padding) % 4 != 0) {
                None
            } else {
                Some(bytes_of_sextets(values))
            }
        },
    }
}

/// The text with its ASCII whitespace taken out.
pub open spec fn without_whitespace(text: Seq<u8>) -> Seq<u8> {
    text.filter(|b: u8| !is_ascii_whitespace(b))
}

proof fn lemma_scan_ignores_whitespace(text: Seq<u8>)
    ensures
        scan(text) == scan(without_whitespace(text)),
    decreases text.len(),
{
    reveal_with_fuel(Seq::filter, 1);
    if text.len() > 0 {
        lemma_scan_ignores_whitespace(text.drop_last());
        let stripped = without_whitespace(text);
        let front = without_whitespace(text.drop_last());
        if !is_ascii_whitespace(text.last()) {
            assert(stripped == front.push(text.last()));
            assert(stripped.drop_last() =~= front);
        } else {
            assert(stripped == front);
        }
    }
}

/// Whitespace anywhere in the text changes nothing: a base64 field that
/// crossed a pretty printer and came back wrapped in newlines is still the
/// same PDF.
pub proof fn law_whitespace_is_ignored(text: Seq<u8>)
    ensures
        base64_decode(text) == base64_decode(without_whitespace(text)),
{
    lemma_scan_ignores_whitespace(text);
}

/// A byte outside the alphabet -- not whitespace, not `=`, not a symbol --
/// anywhere in the text makes the whole text invalid: no plausible-looking
/// bytes come back for an answer that was never base64.
pub proof fn law_foreign_byte_is_refused(text: Seq<u8>, i: int)
    requires
        0 <= i < text.len(),
        !is_ascii_whitespace(text[i]),
        text[i] != 61,
        sextet(text[i]) is None,
    ensures
        base64_decode(text) is None,
{
    let prefix = text.take(i + 1);
    assert(prefix.drop_last() =~= text.take(i));
    assert(prefix.last() == text[i]);
    lemma_scan_none_stays_none(text, i + 1);
}

/// Data after the padding means the text was cut and glued back together:
/// a `=` followed, anywhere later, by a symbol of the alphabet is refused.
pub proof fn law_data_after_padding_is_refused(text: Seq<u8>, i: int, j: int)
    requires
        0 <= i < j < text.len(),
        text[i] == 61,
        sextet(text[j]) is Some,
    ensures
        base64_decode(text) is None,
{
    lemma_padding_counted(text, i, j);
    let prefix = text.take(j + 1);
    assert(prefix.drop_last() =~= text.take(j));
    assert(prefix.last() == text[j]);
    assert(!is_ascii_whitespace(text[j]) && text[j] != 61);
    lemma_scan_none_stays_none(text, j + 1);
}

proof fn lemma_padding_counted(text: Seq<u8>, i: int, n: int)
    requires
        0 <= i < n <= text.len(),
        text[i] == 61,
    ensures
        scan(text.take(n)) matches Some((_, padding)) ==> padding > 0,
    decreases n - i,
{
    let prefix = text.take(n);
    assert(prefix.drop_last() =~= text.take(n - 1));
    if n - 1 > i {
        lemma_padding_counted(text, i, n - 1);
    } else {
        assert(prefix.last() == text[i]);
    }
}

/// The symbol of the standard alphabet for a six-bit value.
pub open spec fn symbol_of(v: u8) -> u8 {
    if v < 26 {
        (v + 65) as u8
    } else if v < 52 {
        (v - 26 + 97) as u8
    } else if v < 62 {
        (v - 52 + 48) as u8
    } else if v == 62 {
        43u8
    } else {
        47u8
    }
}

/// The six-bit values standard base64 writes for some bytes: four per group
/// of three bytes, three for a trailing pair, two for a trailing byte.
pub open spec fn sextets_of(bytes: Seq<u8>) -> Seq<u8>
    decreases bytes.len(),
{
    if bytes.len() >= 3 {
        seq![
            bytes[0] / 4,
            ((bytes[0] % 4) * 16 + bytes[1] / 16) as u8,
            ((bytes[1] % 16) * 4 + bytes[2] / 64) as u8,
            bytes[2] % 64,
        ] + sextets_of(bytes.skip(3))
    } else if bytes.len() == 2 {
        seq![
            bytes[0] / 4,
            ((bytes[0] % 4) * 16 + bytes[1] / 16) as u8,
            ((bytes[1] % 16) * 4) as u8,
        ]
    } else if bytes.len() == 1 {
        seq![bytes[0] / 4, ((bytes[0] % 4) * 16) as u8]
    } else {
        Seq::empty()
    }
}

/// The `=` signs that complete the last group of standard base64.
pub open spec fn padding_of(len: nat) -> Seq<u8> {
    if len % 3 == 1 {
        seq![61u8, 61u8]
    } else if len % 3 == 2 {
        seq![61u8]
    } else {
        Seq::empty()
    }
}

/// Standard base64 with its `=` padding left off: the symbols alone.
pub open spec fn base64_encode_unpadded(bytes: Seq<u8>) -> Seq<u8> {
    sextets_of(bytes).map_values(|v: u8| symbol_of(v))
}

/// Standard base64 with padding, as RFC 4648 writes it.
pub open spec fn base64_encode(bytes: Seq<u8>) -> Seq<u8> {
    base64_encode_unpadded(bytes) + padding_of(bytes.len())
}

proof fn lemma_symbol_round_trip(v: u8)
    requires
        v < 64,
    ensures
        sextet(symbol_of(v)) == Some(v),
        !is_ascii_whitespace(symbol_of(v)),
        symbol_of(v) != 61,
{
}

proof fn lemma_sextets_shape(bytes: Seq<u8>)
    ensures
        forall|k: int| 0 <= k < sextets_of(bytes).len() ==> #[trigger] sextets_of(bytes)[k] < 64,
        sextets_of(bytes).len() == 4 * (bytes.len() / 3) + if bytes.len() % 3 == 0 {
            0nat
        } else {
            (bytes.len() % 3) + 1
        },
        bytes_of_sextets(sextets_of(bytes)) == bytes,
    decreases bytes.len(),
{
    let v = sextets_of(bytes);
    if bytes.len() >= 3 {
        let x = bytes[0];
        let y = bytes[1];
        let z = bytes[2];
        lemma_sextets_shape(bytes.skip(3));
        let head = seq![
            x / 4,
            ((x % 4) * 16 + y / 16) as u8,
            ((y % 16) * 4 + z / 64) as u8,
            z % 64,
        ];
        assert(v == head + sextets_of(bytes.skip(3)));
        assert(v.skip(4) =~= sextets_of(bytes.skip(3)));
        assert(v[0] == head[0] && v[1] == head[1] && v[2] == head[2] && v[3] == head[3]);
        assert(first_byte(x / 4, ((x % 4) * 16 + y / 16) as u8) == x) by (nonlinear_arith)
            requires
                x < 256,
                y < 256,
        ;
        assert(second_byte(((x % 4) * 16 + y / 16) as u8, ((y % 16) * 4 + z / 64) as u8) == y)
            by (nonlinear_arith)
            requires
                x < 256,
                y < 256,
                z < 256,
        ;
        assert(third_byte(((y % 16) * 4 + z / 64) as u8, z % 64) == z) by (nonlinear_arith)
            requires
                y < 256,
                z < 256,
        ;
        assert(bytes_of_sextets(v) =~= seq![x, y, z] + bytes.skip(3));
        assert(seq![x, y, z] + bytes.skip(3) =~= bytes);
        assert forall|k: int| 0 <= k < v.len() implies #[trigger] v[k] < 64 by {
            if k >= 4 {
                assert(v[k] == sextets_of(bytes.skip(3))[k - 4]);
            }
        }
        assert(bytes.len() / 3 == bytes.skip(3).len() / 3 + 1);
        assert(bytes.len() % 3 == bytes.skip(3).len() % 3);
    } else if bytes.len() == 2 {
        let x = bytes[0];
        let y = bytes[1];
        assert(first_byte(x / 4, ((x % 4) * 16 + y / 16) as u8) == x) by (nonlinear_arith)
            requires
                x < 256,
                y < 256,
        ;
        assert(second_byte(((x % 4) * 16 + y / 16) as u8, ((y % 16) * 4) as u8) == y)
            by (nonlinear_arith)
            requires
                x < 256,
                y < 256,
        ;
        assert(bytes_of_sextets(v) =~= bytes);
    } else if bytes.len() == 1 {
        let x = bytes[0];
        assert(first_byte(x / 4, ((x % 4) * 16) as u8) == x) by (nonlinear_arith)
            requires
                x < 256,
        ;
        assert(bytes_of_sextets(v) =~= bytes);
    } else {
        assert(bytes_of_sextets(v) =~= bytes);
    }
}

proof fn lemma_scan_symbols(values: Seq<u8>)
    requires
        forall|k: int| 0 <= k < values.len() ==> #[trigger] values[k] < 64,
    ensures
        scan(values.map_values(|v: u8| symbol_of(v))) == Some((values, 0nat)),
    decreases values.len(),
{
    let text = values.map_values(|v: u8| symbol_of(v));
    if values.len() > 0 {
        let front = values.drop_last();
        assert forall|k: int| 0 <= k < front.len() implies #[trigger] front[k] < 64 by {
            assert(front[k] == values[k]);
        }
        lemma_scan_symbols(front);
        assert(text.drop_last() =~= front.map_values(|v: u8| symbol_of(v)));
        lemma_symbol_round_trip(values.last());
        assert(front.push(values.last()) =~= values);
    } else {
        assert(text =~= Seq::<u8>::empty());
    }
}

proof fn lemma_scan_padding(text: Seq<u8>, values: Seq<u8>, signs: nat)
    requires
        scan(text) == Some((values, 0nat)),
    ensures
        scan(text + Seq::new(signs, |k: int| 61u8)) == Some((values, signs)),
    decreases signs,
{
    let padded = text + Seq::new(signs, |k: int| 61u8);
    if signs == 0 {
        assert(padded =~= text);
    } else {
        lemma_scan_padding(text, values, (signs - 1) as nat);
        assert(padded.drop_last() =~= text + Seq::new((signs - 1) as nat, |k: int| 61u8));
    }
}

/// Standard base64 decodes back to the bytes it was written from: the
/// strictness refuses other people's text, never a genuine encoding.
pub proof fn law_decodes_what_base64_encodes(bytes: Seq<u8>)
    ensures
        base64_decode(base64_encode(bytes)) == Some(bytes),
{
    let values = sextets_of(bytes);
    lemma_sextets_shape(bytes);
    lemma_scan_symbols(values);
    let signs: nat = padding_of(bytes.len()).len();
    assert(padding_of(bytes.len()) =~= Seq::new(signs, |k: int| 61u8));
    lemma_scan_padding(values.map_values(|v: u8| symbol_of(v)), values, signs);
}

/// Standard base64 whose `=` signs were stripped decodes back too: the
/// padding is optional, and a short last group stands on its own.
pub proof fn law_decodes_unpadded_base64(bytes: Seq<u8>)
    ensures
        base64_decode(base64_encode_unpadded(bytes)) == Some(bytes),
{
    let values = sextets_of(bytes);
    lemma_sextets_shape(bytes);
    lemma_scan_symbols(values);
    let q = bytes.len() / 3;
    assert(values.len() % 4 != 1) by {
        assert((4 * q) % 4 == 0) by (nonlinear_arith);
        assert((4 * q + 2) % 4 == 2) by (nonlinear_arith);
        assert((4 * q + 3) % 4 == 3) by (nonlinear_arith);
    }
}

/// The value of one symbol of the standard alphabet.
pub fn value_of(symbol: u8) -> (v: Option<u8>)
    ensures
        v == sextet(symbol),
{
    if 65u8 <= symbol && symbol <= 90u8 {
        Some(symbol - 65u8)
    } else if 97u8 <= symbol && symbol <= 122u8 {
        Some(symbol - 97u8 + 26u8)
    } else if 48u8 <= symbol && symbol <= 57u8 {
        Some(symbol - 48u8 + 52u8)
    } else if symbol == 43u8 {
        Some(62u8)
    } else if symbol == 47u8 {
        Some(63u8)
    } else {
        None
    }
}

proof fn lemma_scan_values_are_sextets(text: Seq<u8>)
    requires
        scan(text) is Some,
    ensures
        forall|i: int|
            0 <= i < scan(text).unwrap().0.len() ==> #[trigger] scan(text).unwrap().0[i] < 64,
    decreases text.len(),
{
    if text.len() > 0 {
        lemma_scan_values_are_sextets(text.drop_last());
    }
}

proof fn lemma_bytes_of_sextets_push_group(v: Seq<u8>, a: u8, b: u8, c: u8, d: u8)
    requires
        v.len() % 4 == 0,
    ensures
        bytes_of_sextets(v + seq![a, b, c, d]) == bytes_of_sextets(v) + seq![
            first_byte(a, b),
            second_byte(b, c),
            third_byte(c, d),
        ],
        bytes_of_sextets(v + seq![a, b, c]) == bytes_of_sextets(v) + seq![
            first_byte(a, b),
            second_byte(b, c),
        ],
        bytes_of_sextets(v + seq![a, b]) == bytes_of_sextets(v) + seq![first_byte(a, b)],
    decreases v.len(),
{
    if v.len() == 0 {
        assert((v + seq![a, b, c, d]).skip(4) =~= Seq::<u8>::empty());
        assert(v + seq![a, b, c, d] =~= seq![a, b, c, d]);
        assert(v + seq![a, b, c] =~= seq![a, b, c]);
        assert(v + seq![a, b] =~= seq![a, b]);
        assert(bytes_of_sextets(Seq::<u8>::empty()) =~= Seq::<u8>::empty());
        assert(bytes_of_sextets(v) =~= Seq::<u8>::empty());
    } else {
        lemma_bytes_of_sextets_push_group(v.skip(4), a, b, c, d);
        assert((v + seq![a, b, c, d]).skip(4) =~= v.skip(4) + seq![a, b, c, d]);
        assert((v + seq![a, b, c]).skip(4) =~= v.skip(4) + seq![a, b, c]);
        assert((v + seq![a, b]).skip(4) =~= v.skip(4) + seq![a, b]);
        let head = seq![first_byte(v[0], v[1]), second_byte(v[1], v[2]), third_byte(v[2], v[3])];
        assert((v + seq![a, b, c, d])[0] == v[0] && (v + seq![a, b, c, d])[1] == v[1]);
        assert((v + seq![a, b, c, d])[2] == v[2] && (v + seq![a, b, c, d])[3] == v[3]);
        assert((v + seq![a, b, c])[0] == v[0] && (v + seq![a, b, c])[1] == v[1]);
        assert((v + seq![a, b, c])[2] == v[2] && (v + seq![a, b, c])[3] == v[3]);
        assert((v + seq![a, b])[0] == v[0] && (v + seq![a, b])[1] == v[1]);
        assert((v + seq![a, b])[2] == v[2] && (v + seq![a, b])[3] == v[3]);
        assert(bytes_of_sextets(v + seq![a, b, c, d]) =~= head + (bytes_of_sextets(v.skip(4))
            + seq![first_byte(a, b), second_byte(b, c), third_byte(c, d)]));
        assert(bytes_of_sextets(v + seq![a, b, c]) =~= head + (bytes_of_sextets(v.skip(4))
            + seq![first_byte(a, b), second_byte(b, c)]));
        assert(bytes_of_sextets(v + seq![a, b]) =~= head + (bytes_of_sextets(v.skip(4)) + seq![
            first_byte(a, b),
        ]));
    }
}

/// Reads the symbols: whitespace is skipped, `=` counted, and data after the
/// padding means the text was cut and glued back together.
fn scan_symbols(text: &[u8]) -> (scanned: Option<(Vec<u8>, usize)>)
    ensures
        scanned matches Some((values, padding)) ==> scan(text@) == Some(
            (values@, padding as nat),
        ),
        scanned is None ==> scan(text@) is None,
{
    let mut values: Vec<u8> = Vec::new();
    let mut padding: usize = 0;
    let mut i: usize = 0;
    while i < text.len()
        invariant
            i <= text@.len(),
            padding <= i,
            scan(text@.take(i as int)) == Some((values@, padding as nat)),
        decreases text@.len() - i,
    {
        let symbol = text[i];
        proof {
            assert(text@.take(i + 1).drop_last() =~= text@.take(i as int));
            assert(text@.take(i + 1).last() == symbol);
        }
        if symbol == 32u8 || symbol == 9u8 || symbol == 10u8 || symbol == 12u8 || symbol == 13u8 {
        } else if symbol == 61u8 {
            padding = padding + 1;
        } else if padding > 0 {
            proof {
                lemma_scan_none_stays_none(text@, i as int + 1);
            }
            return None;
        } else {
            match value_of(symbol) {
                Some(v) => values.push(v),
                None => {
                    proof {
                        lemma_scan_none_stays_none(text@, i as int + 1);
                    }
                    return None;
                },
            }
        }
        i = i + 1;
    }
    proof {
        assert(text@.take(text@.len() as int) =~= text@);
    }
    Some((values, padding))
}

/// Turns six-bit values back into bytes, three bytes per four values.
fn bytes_from_sextets(values: &Vec<u8>) -> (bytes: Vec<u8>)
    requires
        forall|k: int| 0 <= k < values@.len() ==> #[trigger] values@[k] < 64,
        values@.len() % 4 != 1,
    ensures
        bytes@ == bytes_of_sextets(values@),
{
    let mut bytes: Vec<u8> = Vec::new();
    let mut j: usize = 0;
    let ghost all = values@;
    while values.len() - j >= 4
        invariant
            j % 4 == 0,
            j <= values@.len(),
            values@ == all,
            forall|k: int| 0 <= k < all.len() ==> #[trigger] all[k] < 64,
            bytes@ == bytes_of_sextets(all.take(j as int)),
        decreases values@.len() - j,
    {
        let a = values[j];
        let b = values[j + 1];
        let c = values[j + 2];
        let d = values[j + 3];
        bytes.push(a * 4 + b / 16);
        bytes.push((b % 16) * 16 + c / 4);
        bytes.push((c % 4) * 64 + d);
        proof {
            lemma_bytes_of_sextets_push_group(all.take(j as int), a, b, c, d);
            assert(all.take(j + 4) =~= all.take(j as int) + seq![a, b, c, d]);
        }
        j = j + 4;
    }
    let rest = values.len() - j;
    if rest == 3 {
        let a = values[j];
        let b = values[j + 1];
        let c = values[j + 2];
        bytes.push(a * 4 + b / 16);
        bytes.push((b % 16) * 16 + c / 4);
        proof {
            lemma_bytes_of_sextets_push_group(all.take(j as int), a, b, c, 0);
            assert(all =~= all.take(j as int) + seq![a, b, c]);
        }
    } else if rest == 2 {
        let a = values[j];
        let b = values[j + 1];
        bytes.push(a * 4 + b / 16);
        proof {
            lemma_bytes_of_sextets_push_group(all.take(j as int), a, b, 0, 0);
            assert(all =~= all.take(j as int) + seq![a, b]);
        }
    } else {
        proof {
            assert(all.take(j as int) =~= all);
        }
    }
    bytes
}

/// Decodes standard base64. `None` when the text is not valid base64.
pub fn decode(content: &str) -> (decoded: Option<Vec<u8>>)
    ensures
        decoded matches Some(bytes) ==> base64_decode(content.spec_bytes()) == Some(bytes@),
        decoded is None ==> base64_decode(content.spec_bytes()) is None,
{
    let text = content.as_bytes();
    let (values, padding) = match scan_symbols(text) {
        Some(scanned) => scanned,
        None => return None,
    };
    proof {
        lemma_scan_values_are_sextets(text@);
    }
    // Six leftover bits is a group of one symbol, which encodes nothing.
    if values.len() % 4 == 1 {
        return None;
    }
    // Padding only ever completes the last group: at most two signs, and
    // only where the group was short.
    if padding > 0 && (padding > 2 || (values.len() % 4 + padding) % 4 != 0) {
        return None;
    }
    Some(bytes_from_sextets(&values))
}

proof fn lemma_scan_none_stays_none(text: Seq<u8>, n: int)
    requires
        0 <= n <= text.len(),
        scan(text.take(n)) is None,
    ensures
        scan(text) is None,
    decreases text.len() - n,
{
    if n < text.len() {
        assert(text.take(n + 1).drop_last() =~= text.take(n));
        lemma_scan_none_stays_none(text, n + 1);
    } else {
        assert(text.take(n) =~= text);
    }
}

} // verus!
