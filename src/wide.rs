//! UTF-16 text as the foreign interface passes it, and its conversion to owned strings.
use vstd::prelude::*;

verus! {

/// The UTF-16 code units of one character.
pub open spec fn utf16_of_char(c: char) -> Seq<u16> {
    let v = c as u32;
    if v < 0x10000 {
        seq![v as u16]
    } else {
        let w = (v - 0x10000) as u32;
        seq![(0xD800 + w / 0x400) as u16, (0xDC00 + w % 0x400) as u16]
    }
}

/// The UTF-16 encoding of a character sequence.
pub open spec fn utf16_encode(s: Seq<char>) -> Seq<u16>
    decreases s.len(),
{
    if s.len() == 0 {
        Seq::empty()
    } else {
        utf16_encode(s.drop_last()) + utf16_of_char(s.last())
    }
}

/// True when the code units are well-formed UTF-16.
pub open spec fn is_utf16(units: Seq<u16>) -> bool {
    exists|s: Seq<char>| utf16_encode(s) == units
}

/// The characters that well-formed code units encode; empty for ill-formed units.
pub open spec fn utf16_decode(units: Seq<u16>) -> Seq<char> {
    if is_utf16(units) {
        choose|s: Seq<char>| utf16_encode(s) == units
    } else {
        Seq::empty()
    }
}

proof fn lemma_char_units(c: char)
    ensures
        ({
            let u = utf16_of_char(c);
            let v = c as u32;
            &&& v < 0x10000 ==> u.len() == 1 && !(0xDC00 <= u[0] <= 0xDFFF)
            &&& v >= 0x10000 ==> u.len() == 2 && 0xD800 <= u[0] <= 0xDBFF && 0xDC00 <= u[1]
                <= 0xDFFF
        }),
{
    vstd::utf8::char_is_scalar(c);
}

proof fn lemma_char_units_injective(a: char, b: char)
    requires
        utf16_of_char(a) == utf16_of_char(b),
    ensures
        a == b,
{
    vstd::utf8::char_is_scalar(a);
    vstd::utf8::char_is_scalar(b);
    let va = a as u32;
    let vb = b as u32;
    if va >= 0x10000 && vb >= 0x10000 {
        let wa = (va - 0x10000) as u32;
        let wb = (vb - 0x10000) as u32;
        assert(wa / 0x400 == wb / 0x400 && wa % 0x400 == wb % 0x400);
        assert(wa == 0x400 * (wa / 0x400) + wa % 0x400) by (nonlinear_arith);
        assert(wb == 0x400 * (wb / 0x400) + wb % 0x400) by (nonlinear_arith);
    } else if va >= 0x10000 || vb >= 0x10000 {
        lemma_char_units(a);
        lemma_char_units(b);
    }
    vstd::utf8::char_u32_cast(a, va);
    vstd::utf8::char_u32_cast(b, vb);
}

/// Distinct character sequences have distinct UTF-16 encodings.
pub proof fn lemma_utf16_injective(a: Seq<char>, b: Seq<char>)
    requires
        utf16_encode(a) == utf16_encode(b),
    ensures
        a == b,
    decreases a.len(),
{
    if a.len() == 0 || b.len() == 0 {
        if a.len() > 0 {
            lemma_char_units(a.last());
            assert(utf16_encode(a).len() > 0);
        }
        if b.len() > 0 {
            lemma_char_units(b.last());
            assert(utf16_encode(b).len() > 0);
        }
        assert(a =~= b);
    } else {
        let e = utf16_encode(a);
        let ua = utf16_of_char(a.last());
        let ub = utf16_of_char(b.last());
        let pa = utf16_encode(a.drop_last());
        let pb = utf16_encode(b.drop_last());
        lemma_char_units(a.last());
        lemma_char_units(b.last());
        assert(e == pa + ua);
        assert(e == pb + ub);
        assert(e.last() == ua.last());
        assert(e.last() == ub.last());
        assert(ua.len() == ub.len());
        assert(ua =~= e.subrange(e.len() - ua.len(), e.len() as int));
        assert(ub =~= e.subrange(e.len() - ub.len(), e.len() as int));
        assert(pa =~= e.subrange(0, e.len() - ua.len()));
        assert(pb =~= e.subrange(0, e.len() - ub.len()));
        lemma_char_units_injective(a.last(), b.last());
        lemma_utf16_injective(a.drop_last(), b.drop_last());
        assert(a =~= a.drop_last().push(a.last()));
        assert(b =~= b.drop_last().push(b.last()));
    }
}

/// Decoding the encoding of a string gives that string back.
pub proof fn lemma_utf16_round_trip(s: Seq<char>)
    ensures
        is_utf16(utf16_encode(s)),
        utf16_decode(utf16_encode(s)) == s,
{
    let e = utf16_encode(s);
    assert(utf16_encode(s) == e);
    let t = choose|t: Seq<char>| utf16_encode(t) == e;
    lemma_utf16_injective(t, s);
}

/// Relies on String::from_utf16: it succeeds exactly on well-formed UTF-16 and then
/// holds the characters that the units encode.
#[verifier::external_body]
fn decode_utf16(units: &[u16]) -> (r: Option<String>)
    ensures
        match r {
            Some(s) => utf16_encode(s@) == units@,
            None => forall|s: Seq<char>| utf16_encode(s) != units@,
        },
{
    String::from_utf16(units).ok()
}

/// Encodes a string as UTF-16 code units, without a terminator.
pub fn to_utf16(value: &str) -> (r: Vec<u16>)
    ensures
        r@ == utf16_encode(value@),
{
    let mut r: Vec<u16> = Vec::new();
    for c in it: value.chars()
        invariant
            it.seq() == value@,
            r@ == utf16_encode(value@.take(it.index() as int)),
    {
        proof {
            vstd::utf8::char_is_scalar(c);
        }
        let v = c as u32;
        if v < 0x10000 {
            r.push(v as u16);
        } else {
            let w = v - 0x10000;
            r.push((0xD800 + w / 0x400) as u16);
            r.push((0xDC00 + w % 0x400) as u16);
        }
        assert(value@.take(it.index() + 1).drop_last() =~= value@.take(it.index() as int));
    }
    assert(value@.take(value@.len() as int) =~= value@);
    r
}

/// The code units before the first zero terminator, or all of them when none is zero.
pub open spec fn until_nul(units: Seq<u16>) -> Seq<u16>
    decreases units.len(),
{
    if units.len() == 0 || units[0] == 0 {
        Seq::empty()
    } else {
        seq![units[0]] + until_nul(units.drop_first())
    }
}

/// The text that a raw wide string stands for: none for a null pointer, else the
/// decoded units up to the terminator.
pub open spec fn wide_text(source: Option<Seq<u16>>) -> Seq<char> {
    match source {
        Some(units) => utf16_decode(until_nul(units)),
        None => Seq::empty(),
    }
}

proof fn lemma_until_nul_step(units: Seq<u16>, i: int)
    requires
        0 <= i < units.len(),
        forall|j: int| 0 <= j < i ==> units[j] != 0,
    ensures
        units[i] != 0 ==> until_nul(units.take(i + 1)) == until_nul(units.take(i)).push(units[i]),
        units[i] == 0 ==> until_nul(units) == until_nul(units.take(i)),
        until_nul(units.take(i)) == units.take(i),
    decreases i,
{
    if i > 0 {
        let t = units.drop_first();
        lemma_until_nul_step(t, i - 1);
        assert(units.take(i).drop_first() =~= t.take(i - 1));
        assert(units.take(i + 1).drop_first() =~= t.take(i));
        assert(until_nul(units.take(i)) =~= seq![units[0]] + until_nul(t.take(i - 1)));
    } else {
        assert(units.take(1).drop_first() =~= Seq::<u16>::empty());
        assert(until_nul(units.take(1).drop_first()) =~= Seq::<u16>::empty());
    }
}

proof fn lemma_until_nul_whole(units: Seq<u16>)
    requires
        forall|j: int| 0 <= j < units.len() ==> units[j] != 0,
    ensures
        until_nul(units) == units,
    decreases units.len(),
{
    if units.len() > 0 {
        lemma_until_nul_whole(units.drop_first());
        assert(units =~= seq![units[0]] + units.drop_first());
    }
}

/// Reads a raw wide string: the units up to the zero terminator, decoded. A null
/// pointer and ill-formed text both give the empty string.
pub fn string_from_pwstr(source: Option<&[u16]>) -> (r: String)
    ensures
        r@ == wide_text(
            match source {
                Some(s) => Some(s@),
                None => None,
            },
        ),
{
    match source {
        None => String::new(),
        Some(units) => {
            let mut buffer: Vec<u16> = Vec::new();
            let mut i: usize = 0;
            while i < units.len() && units[i] != 0
                invariant
                    i <= units@.len(),
                    forall|j: int| 0 <= j < i ==> units@[j] != 0,
                    buffer@ == units@.take(i as int),
                decreases units@.len() - i,
            {
                buffer.push(units[i]);
                i = i + 1;
                assert(buffer@ =~= units@.take(i as int));
            }
            proof {
                if i < units@.len() {
                    lemma_until_nul_step(units@, i as int);
                } else {
                    assert(units@.take(i as int) =~= units@);
                    lemma_until_nul_whole(units@);
                }
            }
            from_utf16(buffer.as_slice())
        },
    }
}

/// Reads a raw wide string whose buffer the reader must free, and frees it: the
/// buffer is taken over here and released once, after decoding, when there is one.
pub fn take_pwstr(source: Option<Vec<u16>>) -> (r: String)
    ensures
        r@ == wide_text(
            match source {
                Some(s) => Some(s@),
                None => None,
            },
        ),
{
    match source {
        Some(units) => string_from_pwstr(Some(units.as_slice())),
        None => string_from_pwstr(None),
    }
}

/// Decodes UTF-16 code units; ill-formed input gives the empty string.
pub fn from_utf16(value: &[u16]) -> (r: String)
    ensures
        r@ == utf16_decode(value@),
        is_utf16(value@) ==> utf16_encode(r@) == value@,
{
    match decode_utf16(value) {
        Some(s) => {
            proof {
                lemma_utf16_round_trip(s@);
            }
            s
        },
        None => String::new(),
    }
}

} // verus!
