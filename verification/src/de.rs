//! Reading a framed request back from wire bytes: the length prefix, then
//! the payload split into NUL-separated byte fields.  Unlike the inbound
//! field codec, this split keeps every piece, the trailing empty one
//! included, so nothing of the payload is lost.

use vstd::prelude::*;

use crate::messages::be32;

verus! {

/// Index of the first zero byte, or the length if there is none.
pub open spec fn nul8_split(s: Seq<u8>) -> int
    decreases s.len(),
{
    if s.len() == 0 {
        0
    } else if s[0] == 0u8 {
        0
    } else {
        1 + nul8_split(s.skip(1))
    }
}

pub proof fn lemma_nul8_split_bounds(s: Seq<u8>)
    ensures
        0 <= nul8_split(s) <= s.len(),
    decreases s.len(),
{
    if s.len() > 0 && s[0] != 0u8 {
        lemma_nul8_split_bounds(s.skip(1));
    }
}

proof fn lemma_nul8_split_is(s: Seq<u8>, k: int)
    requires
        0 <= k <= s.len(),
        forall|j: int| 0 <= j < k ==> #[trigger] s[j] != 0u8,
        k < s.len() ==> s[k] == 0u8,
    ensures
        nul8_split(s) == k,
    decreases s.len(),
{
    if s.len() == 0 {
    } else if s[0] == 0u8 {
        assert(k == 0);
    } else {
        assert(k >= 1);
        let t = s.skip(1);
        assert forall|j: int| 0 <= j < k - 1 implies #[trigger] t[j] != 0u8 by {
            assert(t[j] == s[j + 1]);
        }
        if k - 1 < t.len() {
            assert(t[k - 1] == s[k]);
        }
        lemma_nul8_split_is(t, k - 1);
    }
}

/// Every NUL-separated piece of a byte string, the separators removed and
/// every piece kept.
pub open spec fn split_bytes(s: Seq<u8>) -> Seq<Seq<u8>>
    decreases s.len(),
    via split_bytes_decreases
{
    let i = nul8_split(s);
    if i == s.len() {
        seq![s]
    } else {
        seq![s.take(i)] + split_bytes(s.skip(i + 1))
    }
}

#[via_fn]
proof fn split_bytes_decreases(s: Seq<u8>) {
    lemma_nul8_split_bounds(s);
}

fn scan_nul8(buf: &[u8], from: usize, to: usize) -> (r: usize)
    requires
        from <= to,
        to <= buf@.len(),
    ensures
        from <= r <= to,
        r - from == nul8_split(buf@.subrange(from as int, to as int)),
        r < to ==> buf@[r as int] == 0u8,
{
    let mut i: usize = from;
    while i < to
        invariant
            from <= i <= to,
            to <= buf@.len(),
            forall|j: int| from <= j < i ==> #[trigger] buf@[j] != 0u8,
        decreases to - i,
    {
        if *vstd::slice::slice_index_get(buf, i) == 0u8 {
            proof {
                assert forall|j: int| 0 <= j < i - from implies #[trigger] buf@.subrange(
                    from as int,
                    to as int,
                )[j] != 0u8 by {
                    assert(buf@.subrange(from as int, to as int)[j] == buf@[from + j]);
                }
                assert(buf@.subrange(from as int, to as int)[i - from] == buf@[i as int]);
                lemma_nul8_split_is(buf@.subrange(from as int, to as int), i - from);
            }
            return i;
        }
        i = i + 1;
    }
    proof {
        assert forall|j: int| 0 <= j < to - from implies #[trigger] buf@.subrange(
            from as int,
            to as int,
        )[j] != 0u8 by {
            assert(buf@.subrange(from as int, to as int)[j] == buf@[from + j]);
        }
        lemma_nul8_split_is(buf@.subrange(from as int, to as int), to - from);
    }
    to
}

/// A framed request taken apart: the declared payload length and the
/// NUL-separated byte fields of everything after the length prefix.
pub struct Deserializer {
    pub payload_len: usize,
    pub fields: Vec<Vec<u8>>,
    pub pos: usize,
}

/// The byte fields as mathematical sequences.
pub open spec fn byte_fields_view(ss: Seq<Vec<u8>>) -> Seq<Seq<u8>> {
    ss.map_values(|v: Vec<u8>| v@)
}

impl Deserializer {
    /// Take a framed request apart.  The input must hold at least the
    /// 4-byte length prefix.
    pub fn from_bytes(input: &[u8]) -> (r: Deserializer)
        requires
            input@.len() >= 4,
        ensures
            r.payload_len == be32(input@.subrange(0, 4)),
            byte_fields_view(r.fields@) == split_bytes(
                input@.subrange(4, input@.len() as int),
            ),
            r.pos == 0,
    {
        let b0 = *vstd::slice::slice_index_get(input, 0) as u32;
        let b1 = *vstd::slice::slice_index_get(input, 1) as u32;
        let b2 = *vstd::slice::slice_index_get(input, 2) as u32;
        let b3 = *vstd::slice::slice_index_get(input, 3) as u32;
        let len32: u32 = ((b0 * 0x100 + b1) * 0x100 + b2) * 0x100 + b3;
        let payload_len = len32 as usize;
        let n = input.len();
        let mut fields: Vec<Vec<u8>> = Vec::new();
        let mut pos: usize = 4;
        proof {
            assert(input@.subrange(4, n as int) =~= input@.subrange(4, n as int));
            assert(byte_fields_view(fields@) + split_bytes(input@.subrange(4, n as int))
                =~~= split_bytes(input@.subrange(4, n as int)));
        }
        while pos <= n
            invariant
                4 <= pos <= n,
                n == input@.len(),
                payload_len == be32(input@.subrange(0, 4)),
                split_bytes(input@.subrange(4, n as int)) =~~= byte_fields_view(fields@)
                    + split_bytes(input@.subrange(pos as int, n as int)),
            decreases n - pos,
        {
            let k = scan_nul8(input, pos, n);
            let ghost rest = input@.subrange(pos as int, n as int);
            let piece = vstd::slice::slice_to_vec(vstd::slice::slice_subrange(input, pos, k));
            fields.push(piece);
            if k == n {
                proof {
                    assert(split_bytes(rest) =~~= seq![rest]);
                    assert(byte_fields_view(fields@) =~~= byte_fields_view(
                        fields@.drop_last(),
                    ).push(rest));
                    assert(byte_fields_view(fields@) =~~= split_bytes(
                        input@.subrange(4, n as int),
                    ));
                }
                return Deserializer { payload_len, fields, pos: 0 };
            }
            proof {
                assert(rest.take(k - pos) =~= input@.subrange(pos as int, k as int));
                assert(rest.skip(k - pos + 1) =~= input@.subrange(k + 1, n as int));
                assert(split_bytes(rest) =~~= seq![input@.subrange(pos as int, k as int)]
                    + split_bytes(input@.subrange(k + 1, n as int)));
                assert(byte_fields_view(fields@) =~~= byte_fields_view(fields@.drop_last()).push(
                    input@.subrange(pos as int, k as int),
                ));
            }
            pos = k + 1;
        }
        proof {
            assert(false);
        }
        Deserializer { payload_len, fields, pos: 0 }
    }

    /// How many byte fields the payload split into.
    pub fn field_count(&self) -> (r: usize)
        ensures
            r == self.fields@.len(),
    {
        self.fields.len()
    }

    /// Read the next byte field, advancing the cursor; none is left once
    /// every field was read.
    pub fn next_field(&mut self) -> (r: Option<Vec<u8>>)
        ensures
            old(self).pos < old(self).fields@.len() ==> (r matches Some(v) && v@ == byte_fields_view(
                old(self).fields@,
            )[old(self).pos as int] && final(self).pos == old(self).pos + 1),
            old(self).pos >= old(self).fields@.len() ==> r is None && final(self).pos == old(
                self,
            ).pos,
            final(self).fields == old(self).fields,
            final(self).payload_len == old(self).payload_len,
    {
        if self.pos < self.fields.len() {
            let v = self.fields[self.pos].clone();
            self.pos = self.pos + 1;
            Some(v)
        } else {
            None
        }
    }
}

} // verus!
