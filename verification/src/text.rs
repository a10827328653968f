use vstd::prelude::*;

verus! {

/// All bytes of `s` are ASCII.
pub open spec fn ascii_seq(s: Seq<u8>) -> bool {
    forall|i: int| 0 <= i < s.len() ==> s[i] < 128
}

/// The characters that a sequence of ASCII bytes spells.
pub open spec fn chars_of(s: Seq<u8>) -> Seq<char> {
    Seq::new(s.len(), |i: int| s[i] as char)
}

/// Relies on String::from_utf8_lossy: ASCII bytes decode to exactly those
/// characters, and the call never fails.
#[verifier::external_body]
pub fn ascii_bytes_to_string(v: &Vec<u8>) -> (r: String)
    requires
        ascii_seq(v@),
    ensures
        r@ == chars_of(v@),
{
    String::from_utf8_lossy(v.as_slice()).into_owned()
}

/// The decimal digits of `n`, most significant first, no leading zeros
/// (a single `0` for zero).
pub open spec fn spec_dec(n: nat) -> Seq<u8>
    decreases n,
{
    if n < 10 {
        seq![(48 + n) as u8]
    } else {
        spec_dec(n / 10).push((48 + n % 10) as u8)
    }
}

/// Every digit byte is ASCII.
pub proof fn lemma_spec_dec_ascii(n: nat)
    ensures
        ascii_seq(spec_dec(n)),
        spec_dec(n).len() >= 1,
    decreases n,
{
    if n >= 10 {
        lemma_spec_dec_ascii(n / 10);
    }
}

/// Append the decimal rendering of `n` to `buf`.
pub fn push_dec_u16(buf: &mut Vec<u8>, n: u16)
    ensures
        final(buf)@ == old(buf)@ + spec_dec(n as nat),
    decreases n,
{
    if n >= 10 {
        push_dec_u16(buf, n / 10);
        buf.push(48 + (n % 10) as u8);
        proof {
            assert(buf@ =~= old(buf)@ + spec_dec(n as nat));
        }
    } else {
        buf.push(48 + n as u8);
        proof {
            assert(buf@ =~= old(buf)@ + spec_dec(n as nat));
        }
    }
}

/// Append the decimal rendering of `n` to `buf`.
pub fn push_dec_u64(buf: &mut Vec<u8>, n: u64)
    ensures
        final(buf)@ == old(buf)@ + spec_dec(n as nat),
    decreases n,
{
    if n >= 10 {
        push_dec_u64(buf, n / 10);
        buf.push(48 + (n % 10) as u8);
        proof {
            assert(buf@ =~= old(buf)@ + spec_dec(n as nat));
        }
    } else {
        buf.push(48 + n as u8);
        proof {
            assert(buf@ =~= old(buf)@ + spec_dec(n as nat));
        }
    }
}

/// The segments of `s` between occurrences of `sep`: splitting the empty
/// sequence gives one empty segment, and every separator ends a segment.
pub open spec fn spec_split(s: Seq<u8>, sep: u8) -> Seq<Seq<u8>>
    decreases s.len(),
{
    if s.len() == 0 {
        seq![Seq::<u8>::empty()]
    } else {
        let rest = spec_split(s.drop_last(), sep);
        if s.last() == sep {
            rest.push(Seq::empty())
        } else {
            rest.update(rest.len() - 1, rest.last().push(s.last()))
        }
    }
}

/// Splitting yields at least one segment.
pub proof fn lemma_split_len(s: Seq<u8>, sep: u8)
    ensures
        spec_split(s, sep).len() >= 1,
    decreases s.len(),
{
    if s.len() > 0 {
        lemma_split_len(s.drop_last(), sep);
    }
}

/// Segments of an ASCII sequence are ASCII.
pub proof fn lemma_split_ascii(s: Seq<u8>, sep: u8)
    requires
        ascii_seq(s),
    ensures
        forall|i: int|
            0 <= i < spec_split(s, sep).len() ==> ascii_seq(#[trigger] spec_split(s, sep)[i]),
    decreases s.len(),
{
    if s.len() == 0 {
    } else {
        assert(ascii_seq(s.drop_last()));
        lemma_split_ascii(s.drop_last(), sep);
        lemma_split_len(s.drop_last(), sep);
        let rest = spec_split(s.drop_last(), sep);
        if s.last() == sep {
            assert(ascii_seq(Seq::<u8>::empty()));
        } else {
            assert(s[s.len() - 1] < 128);
            assert(ascii_seq(rest.last().push(s.last())));
        }
    }
}

/// Split `s` at every occurrence of `sep`.
pub fn split_bytes(s: &Vec<u8>, sep: u8) -> (r: Vec<Vec<u8>>)
    ensures
        r@.map(|i: int, seg: Vec<u8>| seg@) == spec_split(s@, sep),
{
    let mut done: Vec<Vec<u8>> = Vec::new();
    let mut cur: Vec<u8> = Vec::new();
    let mut i: usize = 0;
    while i < s.len()
        invariant
            i <= s@.len(),
            spec_split(s@.take(i as int), sep) == done@.map(|k: int, seg: Vec<u8>| seg@).push(
                cur@,
            ),
        decreases s@.len() - i,
    {
        proof {
            assert(s@.take(i + 1).drop_last() =~= s@.take(i as int));
            lemma_split_len(s@.take(i as int), sep);
        }
        if s[i] == sep {
            done.push(cur);
            cur = Vec::new();
            proof {
                assert(done@.map(|k: int, seg: Vec<u8>| seg@) =~= spec_split(
                    s@.take(i as int),
                    sep,
                ));
                assert(spec_split(s@.take(i + 1), sep) =~= done@.map(
                    |k: int, seg: Vec<u8>| seg@,
                ).push(cur@));
            }
        } else {
            cur.push(s[i]);
            proof {
                let prev = spec_split(s@.take(i as int), sep);
                let m = done@.map(|k: int, seg: Vec<u8>| seg@);
                assert(prev.last() == cur@.drop_last());
                assert(spec_split(s@.take(i + 1), sep) =~= prev.update(
                    prev.len() - 1,
                    prev.last().push(s@[i as int]),
                ));
                assert(prev.update(prev.len() - 1, prev.last().push(s@[i as int])) =~= m.push(
                    cur@,
                ));
            }
        }
        i += 1;
    }
    done.push(cur);
    proof {
        assert(s@.take(s@.len() as int) =~= s@);
        assert(done@.map(|k: int, seg: Vec<u8>| seg@) =~= spec_split(s@, sep).update(
            spec_split(s@, sep).len() - 1,
            spec_split(s@, sep).last(),
        ));
        assert(spec_split(s@, sep).update(spec_split(s@, sep).len() - 1, spec_split(s@, sep).last())
            =~= spec_split(s@, sep));
    }
    done
}

/// The characters of the bytes of an ASCII string are that string.
pub proof fn lemma_chars_of_map(s: Seq<char>)
    requires
        vstd::utf8::is_ascii_chars(s),
    ensures
        chars_of(s.map(|i: int, c: char| c as u8)) == s,
{
    assert(chars_of(s.map(|i: int, c: char| c as u8)) =~= s);
}

/// Append a label when it is plain ASCII; a label is never anything else.
pub fn push_ascii_label(buf: &mut Vec<u8>, label: &str)
    requires
        ascii_seq(old(buf)@),
    ensures
        ascii_seq(final(buf)@),
        final(buf)@.len() >= old(buf)@.len(),
        vstd::string::is_ascii(label) ==> final(buf)@ == old(buf)@ + label@.map(
            |i: int, c: char| c as u8,
        ),
{
    if label.is_ascii() {
        push_str_bytes(buf, label);
        proof {
            assert forall|i: int| 0 <= i < buf@.len() implies buf@[i] < 128 by {
                if i >= old(buf)@.len() {
                    let c = label@[i - old(buf)@.len()];
                    assert(c <= '\u{7f}');
                }
            }
        }
    }
}

/// Append the decimal rendering of `n`, keeping the buffer ASCII.
pub fn push_dec_ascii(buf: &mut Vec<u8>, n: u16)
    requires
        ascii_seq(old(buf)@),
    ensures
        ascii_seq(final(buf)@),
        final(buf)@.len() > old(buf)@.len(),
        final(buf)@ == old(buf)@ + spec_dec(n as nat),
{
    push_dec_u16(buf, n);
    proof {
        lemma_spec_dec_ascii(n as nat);
        assert(ascii_seq(buf@));
    }
}

/// The decimal digits of `n`, zero padded to at least two, as clock fields
/// are written.
pub open spec fn spec_pad2(n: nat) -> Seq<u8> {
    if n < 10 {
        seq![48u8] + spec_dec(n)
    } else {
        spec_dec(n)
    }
}

/// Append `n` padded with zeros to at least two digits.
pub fn push_pad2(buf: &mut Vec<u8>, n: u16)
    requires
        ascii_seq(old(buf)@),
    ensures
        ascii_seq(final(buf)@),
        final(buf)@.len() > old(buf)@.len(),
        final(buf)@ == old(buf)@ + spec_pad2(n as nat),
{
    if n < 10 {
        buf.push(48);
        proof {
            assert(ascii_seq(buf@));
        }
    }
    push_dec_ascii(buf, n);
    proof {
        assert(buf@ =~= old(buf)@ + spec_pad2(n as nat));
    }
}

/// Character-wise equality of two strings.
pub fn str_eq(a: &str, b: &str) -> (r: bool)
    ensures
        r == (a@ == b@),
{
    let n = a.unicode_len();
    if n != b.unicode_len() {
        proof {
            assert(a@ != b@);
        }
        return false;
    }
    let mut i: usize = 0;
    while i < n
        invariant
            i <= n,
            n == a@.len(),
            n == b@.len(),
            forall|j: int| 0 <= j < i ==> a@[j] == b@[j],
        decreases n - i,
    {
        if a.get_char(i) != b.get_char(i) {
            return false;
        }
        i += 1;
    }
    proof {
        assert(a@ =~= b@);
    }
    true
}

/// Append every byte of `s` (an ASCII literal) to `buf`.
pub fn push_str_bytes(buf: &mut Vec<u8>, s: &str)
    requires
        s.is_ascii(),
    ensures
        final(buf)@ == old(buf)@ + s@.map(|i: int, c: char| c as u8),
{
    broadcast use vstd::string::is_ascii_spec_bytes;

    let bytes = s.as_bytes_vec();
    let mut i: usize = 0;
    proof {
        assert(bytes@ =~= s@.map(|i: int, c: char| c as u8));
    }
    while i < bytes.len()
        invariant
            i <= bytes@.len(),
            bytes@ == s@.map(|i: int, c: char| c as u8),
            buf@ == old(buf)@ + bytes@.subrange(0, i as int),
        decreases bytes@.len() - i,
    {
        buf.push(bytes[i]);
        i += 1;
        proof {
            assert(buf@ =~= old(buf)@ + bytes@.subrange(0, i as int));
        }
    }
    proof {
        assert(bytes@.subrange(0, bytes@.len() as int) =~= bytes@);
    }
}

} // verus!
