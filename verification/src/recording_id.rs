//! The composite recording identifier `<open_id>.<recording_id>`.
//!
//! The first part names the generation of the storage engine's write
//! ownership, the second the recording within its stream. A client that
//! reconnects compares the first part to learn of a recorder restart.

use crate::decimal::{
    decimal, decimal_nat, is_digit, lemma_decimal_injective, lemma_decimal_nat_canonical,
    lemma_decimal_nat_injective, parse_decimal_i32, parse_decimal_nat, push_decimal_i64,
    push_decimal_u64,
};
use vstd::prelude::*;

verus! {

pub const DOT: u8 = 46;

/// The text of the identifier of recording `recording_id` under generation `open_id`.
pub open spec fn composite_id(open_id: u32, recording_id: i32) -> Seq<u8> {
    decimal_nat(open_id as nat) + seq![DOT] + decimal(recording_id as int)
}

/// The pair that a text identifies: the one whose identifier the text is, if
/// there is one.
pub open spec fn parse_composite_id_spec(s: Seq<u8>) -> Option<(u32, i32)> {
    if exists|p: (u32, i32)| s == #[trigger] composite_id(p.0, p.1) {
        Some(choose|p: (u32, i32)| s == #[trigger] composite_id(p.0, p.1))
    } else {
        None
    }
}

/// Where an identifier splits: its first dot ends the generation, and the
/// recording follows it.
pub proof fn lemma_composite_id_split(open_id: u32, recording_id: i32)
    ensures
        ({
            let s = composite_id(open_id, recording_id);
            let k = decimal_nat(open_id as nat).len() as int;
            &&& 1 <= k < s.len()
            &&& s[k] == DOT
            &&& forall|j: int| 0 <= j < k ==> #[trigger] s[j] != DOT
            &&& s.subrange(0, k) == decimal_nat(open_id as nat)
            &&& s.subrange(k + 1, s.len() as int) == decimal(recording_id as int)
        }),
{
    let a = decimal_nat(open_id as nat);
    let b = decimal(recording_id as int);
    let s = composite_id(open_id, recording_id);
    let k = a.len() as int;
    lemma_decimal_nat_canonical(open_id as nat);
    assert forall|j: int| 0 <= j < k implies #[trigger] s[j] != DOT by {
        assert(s[j] == a[j]);
        assert(is_digit(a[j]));
    }
    assert(s.subrange(0, k) =~= a);
    assert(s.subrange(k + 1, s.len() as int) =~= b);
}

/// Two pairs with the same identifier are the same pair.
pub proof fn lemma_composite_id_injective(o1: u32, r1: i32, o2: u32, r2: i32)
    requires
        composite_id(o1, r1) == composite_id(o2, r2),
    ensures
        o1 == o2,
        r1 == r2,
{
    lemma_composite_id_split(o1, r1);
    lemma_composite_id_split(o2, r2);
    let s = composite_id(o1, r1);
    let k1 = decimal_nat(o1 as nat).len() as int;
    let k2 = decimal_nat(o2 as nat).len() as int;
    if k1 < k2 {
        assert(s[k1] == DOT);
    } else if k2 < k1 {
        assert(s[k2] == DOT);
    }
    lemma_decimal_nat_injective(o1 as nat, o2 as nat);
    lemma_decimal_injective(r1 as int, r2 as int);
}

/// An identifier reads back as the pair it was written from.
pub proof fn lemma_composite_id_round_trip(open_id: u32, recording_id: i32)
    ensures
        parse_composite_id_spec(composite_id(open_id, recording_id)) == Some(
            (open_id, recording_id),
        ),
{
    let s = composite_id(open_id, recording_id);
    let p = (open_id, recording_id);
    assert(s == composite_id(p.0, p.1));
    let q = choose|q: (u32, i32)| s == #[trigger] composite_id(q.0, q.1);
    lemma_composite_id_injective(open_id, recording_id, q.0, q.1);
}

/// Appends the identifier of the pair to `buf`.
pub fn push_composite_id(buf: &mut Vec<u8>, open_id: u32, recording_id: i32)
    ensures
        final(buf)@ == old(buf)@ + composite_id(open_id, recording_id),
{
    push_decimal_u64(buf, open_id as u64);
    buf.push(DOT);
    push_decimal_i64(buf, recording_id as i64);
    assert(buf@ =~= old(buf)@ + composite_id(open_id, recording_id));
}

/// The identifier of the pair.
pub fn format_composite_id(open_id: u32, recording_id: i32) -> (id: Vec<u8>)
    ensures
        id@ == composite_id(open_id, recording_id),
{
    let mut id: Vec<u8> = Vec::new();
    push_composite_id(&mut id, open_id, recording_id);
    assert(id@ =~= composite_id(open_id, recording_id));
    id
}

/// Reads an identifier back into its pair. Only the text that
/// `format_composite_id` writes is accepted: anything else gives `None`.
pub fn parse_composite_id(s: &[u8]) -> (r: Option<(u32, i32)>)
    ensures
        r == parse_composite_id_spec(s@),
        r matches Some(p) ==> s@ == composite_id(p.0, p.1),
        r is None ==> forall|o: u32, i: i32| s@ != #[trigger] composite_id(o, i),
{
    let len = s.len();
    let mut k: usize = 0;
    while k < len && s[k] != DOT
        invariant
            k <= len,
            len == s.len(),
            forall|j: int| 0 <= j < k ==> #[trigger] s@[j] != DOT,
        decreases len - k,
    {
        k = k + 1;
    }
    let parsed: Option<(u32, i32)> = if k == len {
        None
    } else {
        match parse_decimal_nat(s, 0, k, 0xffff_ffffu64) {
            None => None,
            Some(open_id) => match parse_decimal_i32(s, k + 1, len) {
                None => None,
                Some(recording_id) => {
                    assert(s@ =~= s@.subrange(0, k as int) + seq![DOT] + s@.subrange(
                        k + 1,
                        len as int,
                    ));
                    Some((open_id as u32, recording_id))
                },
            },
        }
    };
    proof {
        match parsed {
            Some(p) => {
                assert(s@ == composite_id(p.0, p.1));
                let q = choose|q: (u32, i32)| s@ == #[trigger] composite_id(q.0, q.1);
                lemma_composite_id_injective(p.0, p.1, q.0, q.1);
            },
            None => {
                assert forall|p: (u32, i32)| s@ != #[trigger] composite_id(p.0, p.1) by {
                    if s@ == composite_id(p.0, p.1) {
                        lemma_composite_id_split(p.0, p.1);
                        let a = decimal_nat(p.0 as nat).len() as int;
                        assert(s@[a] == DOT);
                        if k < len {
                            assert(s@[k as int] == DOT);
                            assert(k == a);
                        }
                    }
                }
                assert forall|o: u32, i: i32| s@ != #[trigger] composite_id(o, i) by {
                    let p = (o, i);
                    assert(s@ != composite_id(p.0, p.1));
                }
            },
        }
    }
    parsed
}

} // verus!
