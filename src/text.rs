use vstd::prelude::*;
use vstd::string::StringSliceAdditionalSpecFns;

verus! {

/// The bytes of `text` with `&`, `>` and `<` replaced by their HTML entities.
pub open spec fn escape_spec(text: Seq<u8>) -> Seq<u8>
    decreases text.len(),
{
    if text.len() == 0 {
        Seq::empty()
    } else {
        escape_spec(text.drop_last()) + escape_byte(text.last())
    }
}

/// What one byte becomes in escaped HTML text.
pub open spec fn escape_byte(b: u8) -> Seq<u8> {
    if b == 0x26 {
        seq![0x26u8, 0x61, 0x6d, 0x70, 0x3b]
    } else if b == 0x3e {
        seq![0x26u8, 0x67, 0x74, 0x3b]
    } else if b == 0x3c {
        seq![0x26u8, 0x6c, 0x74, 0x3b]
    } else {
        seq![b]
    }
}

/// `s` holds `&amp;`, `&lt;` or `&gt;` starting at `i`.
pub open spec fn entity_at(s: Seq<u8>, i: int) -> bool {
    ||| i + 5 <= s.len() && s.subrange(i, i + 5) == seq![0x26u8, 0x61, 0x6d, 0x70, 0x3b]
    ||| i + 4 <= s.len() && s.subrange(i, i + 4) == seq![0x26u8, 0x67, 0x74, 0x3b]
    ||| i + 4 <= s.len() && s.subrange(i, i + 4) == seq![0x26u8, 0x6c, 0x74, 0x3b]
}

/// Escaping text in pieces gives the same as escaping it whole.
pub proof fn escape_concat(a: Seq<u8>, b: Seq<u8>)
    ensures
        escape_spec(a + b) == escape_spec(a) + escape_spec(b),
    decreases b.len(),
{
    if b.len() == 0 {
        assert(a + b == a);
    } else {
        escape_concat(a, b.drop_last());
        assert((a + b).drop_last() == a + b.drop_last());
    }
}

/// Escaped text holds no raw `<` or `>`, and each `&` in it begins one of
/// the entities that escaping writes, so nothing is escaped twice.
pub proof fn escape_is_safe(text: Seq<u8>)
    ensures
        forall|i: int|
            0 <= i < escape_spec(text).len() ==> #[trigger] escape_spec(text)[i] != 0x3c
                && escape_spec(text)[i] != 0x3e,
        forall|i: int|
            0 <= i < escape_spec(text).len() && #[trigger] escape_spec(text)[i] == 0x26 ==> entity_at(
                escape_spec(text),
                i,
            ),
    decreases text.len(),
{
    if text.len() > 0 {
        let p = escape_spec(text.drop_last());
        let q = escape_byte(text.last());
        let e = escape_spec(text);
        escape_is_safe(text.drop_last());
        assert(e == p + q);
        assert forall|i: int| 0 <= i < e.len() && #[trigger] e[i] == 0x26 implies entity_at(e, i) by {
            if i < p.len() {
                assert(p[i] == 0x26);
                assert(entity_at(p, i));
                if i + 5 <= p.len() && p.subrange(i, i + 5) == seq![0x26u8, 0x61, 0x6d, 0x70, 0x3b] {
                    assert(e.subrange(i, i + 5) == p.subrange(i, i + 5));
                } else if i + 4 <= p.len() && p.subrange(i, i + 4) == seq![0x26u8, 0x67, 0x74, 0x3b] {
                    assert(e.subrange(i, i + 4) == p.subrange(i, i + 4));
                } else {
                    assert(e.subrange(i, i + 4) == p.subrange(i, i + 4));
                }
            } else {
                assert(q[i - p.len()] == 0x26);
                assert(i == p.len());
                assert(e.subrange(i, e.len() as int) == q);
            }
        }
        assert forall|i: int| 0 <= i < e.len() implies #[trigger] e[i] != 0x3c && e[i] != 0x3e by {
            if i < p.len() {
                assert(e[i] == p[i]);
            } else {
                assert(e[i] == q[i - p.len()]);
            }
        }
    }
}

/// Appends `src` to `dst`.
pub fn append_bytes(dst: &mut Vec<u8>, src: &[u8])
    ensures
        final(dst)@ == old(dst)@ + src@,
{
    let mut i: usize = 0;
    while i < src.len()
        invariant
            i <= src@.len(),
            dst@ == old(dst)@ + src@.subrange(0, i as int),
        decreases src@.len() - i,
    {
        dst.push(src[i]);
        i = i + 1;
        assert(src@.subrange(0, i as int) == src@.subrange(0, i - 1) + seq![src@[i - 1]]);
    }
    assert(src@.subrange(0, src@.len() as int) == src@);
}

/// Appends the UTF-8 bytes of `s` to `dst`.
pub fn append_str(dst: &mut Vec<u8>, s: &str)
    ensures
        final(dst)@ == old(dst)@ + s.spec_bytes(),
{
    append_bytes(dst, s.as_bytes());
}

/// Escapes `&`, `>` and `<` in `text` for use inside an HTML document.
pub fn escape_html(text: &[u8]) -> (r: Vec<u8>)
    ensures
        r@ == escape_spec(text@),
{
    let mut out: Vec<u8> = Vec::new();
    let mut i: usize = 0;
    while i < text.len()
        invariant
            i <= text@.len(),
            out@ == escape_spec(text@.subrange(0, i as int)),
        decreases text@.len() - i,
    {
        let b = text[i];
        if b == 0x26 {
            out.push(0x26u8);
            out.push(0x61u8);
            out.push(0x6du8);
            out.push(0x70u8);
            out.push(0x3bu8);
        } else if b == 0x3e {
            out.push(0x26u8);
            out.push(0x67u8);
            out.push(0x74u8);
            out.push(0x3bu8);
        } else if b == 0x3c {
            out.push(0x26u8);
            out.push(0x6cu8);
            out.push(0x74u8);
            out.push(0x3bu8);
        } else {
            out.push(b);
        }
        let ghost prefix = text@.subrange(0, i + 1);
        assert(prefix.drop_last() == text@.subrange(0, i as int));
        assert(prefix.last() == b);
        i = i + 1;
    }
    assert(text@.subrange(0, text@.len() as int) == text@);
    out
}

/// The decimal digits of `n`, most significant first, without leading zeros.
pub open spec fn digits_spec(n: nat) -> Seq<u8>
    decreases n,
{
    if n < 10 {
        seq![(0x30 + n) as u8]
    } else {
        digits_spec(n / 10).push((0x30 + n % 10) as u8)
    }
}

/// The decimal text of `n`, with a leading `-` when it is negative.
pub open spec fn decimal_spec(n: int) -> Seq<u8> {
    if n < 0 {
        seq![0x2du8] + digits_spec((-n) as nat)
    } else {
        digits_spec(n as nat)
    }
}

fn append_digits(dst: &mut Vec<u8>, n: u64)
    ensures
        final(dst)@ == old(dst)@ + digits_spec(n as nat),
    decreases n,
{
    if n >= 10 {
        append_digits(dst, n / 10);
    }
    dst.push((0x30 + n % 10) as u8);
}

/// Appends the decimal text of `n` to `dst`.
pub fn append_decimal(dst: &mut Vec<u8>, n: i64)
    requires
        n > i64::MIN,
    ensures
        final(dst)@ == old(dst)@ + decimal_spec(n as int),
{
    if n < 0 {
        dst.push(0x2du8);
        append_digits(dst, (-n) as u64);
    } else {
        append_digits(dst, n as u64);
    }
}

} // verus!
