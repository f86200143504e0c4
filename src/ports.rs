use vstd::prelude::*;
use vstd::utf8::encode_utf8;

verus! {

broadcast use vstd::seq_lib::to_multiset_insert;

/// `a` comes no later than `b` in lexicographic order of bytes.
pub open spec fn bytes_le(a: Seq<u8>, b: Seq<u8>) -> bool
    decreases a.len(),
{
    if a.len() == 0 {
        true
    } else if b.len() == 0 {
        false
    } else if a[0] != b[0] {
        a[0] < b[0]
    } else {
        bytes_le(a.drop_first(), b.drop_first())
    }
}

/// The order in which port names are listed: by their UTF-8 bytes, as strings compare.
pub open spec fn name_le(a: String, b: String) -> bool {
    bytes_le(encode_utf8(a@), encode_utf8(b@))
}

pub open spec fn names_sorted(s: Seq<String>) -> bool {
    forall|i: int, j: int| 0 <= i < j < s.len() ==> name_le(#[trigger] s[i], #[trigger] s[j])
}

proof fn lemma_bytes_le_total(a: Seq<u8>, b: Seq<u8>)
    ensures
        bytes_le(a, b) || bytes_le(b, a),
    decreases a.len(),
{
    if a.len() > 0 && b.len() > 0 && a[0] == b[0] {
        lemma_bytes_le_total(a.drop_first(), b.drop_first());
    }
}

proof fn lemma_bytes_le_trans(a: Seq<u8>, b: Seq<u8>, c: Seq<u8>)
    requires
        bytes_le(a, b),
        bytes_le(b, c),
    ensures
        bytes_le(a, c),
    decreases a.len(),
{
    if a.len() > 0 && b.len() > 0 && c.len() > 0 && a[0] == b[0] && b[0] == c[0] {
        lemma_bytes_le_trans(a.drop_first(), b.drop_first(), c.drop_first());
    }
}

fn slice_le(a: &[u8], b: &[u8]) -> (r: bool)
    ensures
        r == bytes_le(a@, b@),
{
    let mut i: usize = 0;
    assert(a@.skip(0) =~= a@);
    assert(b@.skip(0) =~= b@);
    while i < a.len() && i < b.len()
        invariant
            i <= a@.len(),
            i <= b@.len(),
            bytes_le(a@, b@) == bytes_le(a@.skip(i as int), b@.skip(i as int)),
        decreases a@.len() - i,
    {
        if a[i] != b[i] {
            return a[i] < b[i];
        }
        assert(a@.skip(i as int).drop_first() =~= a@.skip(i + 1));
        assert(b@.skip(i as int).drop_first() =~= b@.skip(i + 1));
        i = i + 1;
    }
    a.len() <= b.len()
}

fn string_le(a: &String, b: &String) -> (r: bool)
    ensures
        r == name_le(*a, *b),
{
    slice_le(a.as_str().as_bytes(), b.as_str().as_bytes())
}

/// The names in order, each kept as often as it occurs.
pub fn sort_port_names(names: Vec<String>) -> (r: Vec<String>)
    ensures
        names_sorted(r@),
        r@.to_multiset() == names@.to_multiset(),
{
    let mut out: Vec<String> = Vec::new();
    let mut i: usize = 0;
    assert(out@ =~= names@.take(0));
    while i < names.len()
        invariant
            i <= names@.len(),
            names_sorted(out@),
            out@.to_multiset() == names@.take(i as int).to_multiset(),
        decreases names@.len() - i,
    {
        let x = names[i].clone();
        let mut p: usize = 0;
        while p < out.len() && string_le(&out[p], &x)
            invariant
                p <= out@.len(),
                forall|k: int| 0 <= k < p ==> name_le(#[trigger] out@[k], x),
            decreases out@.len() - p,
        {
            p = p + 1;
        }
        let ghost before = out@;
        proof {
            assert forall|k: int| p <= k < before.len() implies name_le(x, #[trigger] before[k]) by {
                lemma_bytes_le_total(encode_utf8(x@), encode_utf8(before[p as int]@));
                if k > p {
                    lemma_bytes_le_trans(
                        encode_utf8(x@),
                        encode_utf8(before[p as int]@),
                        encode_utf8(before[k]@),
                    );
                }
            }
        }
        out.insert(p, x);
        proof {
            assert forall|a: int, b: int| 0 <= a < b < out@.len() implies name_le(#[trigger] out@[a], #[trigger] out@[b]) by {
                if b <= p {
                } else if a < p {
                    lemma_bytes_le_trans(
                        encode_utf8(out@[a]@),
                        encode_utf8(x@),
                        encode_utf8(out@[b]@),
                    );
                } else if a == p {
                } else {
                    assert(name_le(before[a - 1], before[b - 1]));
                }
            }
            assert(names@.take(i + 1) =~= names@.take(i as int).push(names@[i as int]));
            vstd::seq_lib::to_multiset_build(names@.take(i as int), names@[i as int]);
        }
        i = i + 1;
    }
    assert(names@.take(names@.len() as int) =~= names@);
    out
}

/// The names of the serial ports that the system listed, in order; none
/// when the system could not list them (`listed` is `None`). Never fails.
pub fn available_ports(listed: Option<Vec<String>>) -> (r: Vec<String>)
    ensures
        names_sorted(r@),
        match listed {
            Some(names) => r@.to_multiset() == names@.to_multiset(),
            None => r@.len() == 0,
        },
{
    match listed {
        Some(names) => sort_port_names(names),
        None => Vec::new(),
    }
}

} // verus!
