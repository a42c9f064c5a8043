//! Deleting a camera: when the operator has to confirm it, and which
//! retention limits go to zero before it.

use std::collections::BTreeMap;
use vstd::laws_cmp::{group_laws_cmp, obeys_cmp};
use vstd::prelude::*;
use vstd::std_specs::btree::group_btree_axioms;

verus! {

/// What deleting a camera needs to know of a stream.
#[derive(Clone, Copy, Debug, PartialEq, Eq, Structural)]
pub struct StreamInfo {
    pub stream_id: i32,
    pub camera_id: i32,
    pub sample_file_dir_id: Option<i32>,
}

/// A new retention limit for a stream, in bytes.
#[derive(Clone, Copy, Debug, PartialEq, Eq, Structural)]
pub struct NewLimit {
    pub stream_id: i32,
    pub limit: i64,
}

/// The sum of the amounts.
pub open spec fn total_bytes(amounts: Seq<i64>) -> int
    decreases amounts.len(),
{
    if amounts.len() == 0 {
        0
    } else {
        total_bytes(amounts.drop_last()) + amounts.last()
    }
}

/// The amount to delete with a camera: the sum of the bytes recorded for
/// each of its streams, or `None` where the sum is beyond what 64 bits hold.
pub fn bytes_to_delete(sample_file_bytes: &[i64]) -> (to_delete: Option<i64>)
    ensures
        to_delete == (if i64::MIN <= total_bytes(sample_file_bytes@) <= i64::MAX {
            Some(total_bytes(sample_file_bytes@) as i64)
        } else {
            None
        }),
{
    let mut sum: i128 = 0;
    let mut n: usize = 0;
    while n < sample_file_bytes.len()
        invariant
            n <= sample_file_bytes.len(),
            sum == total_bytes(sample_file_bytes@.take(n as int)),
            -(n * 0x8000_0000_0000_0000) <= sum <= n * 0x8000_0000_0000_0000,
        decreases sample_file_bytes.len() - n,
    {
        assert(sample_file_bytes@.take(n + 1).drop_last() =~= sample_file_bytes@.take(n as int));
        assert((n + 1) * 0x8000_0000_0000_0000 == n * 0x8000_0000_0000_0000
            + 0x8000_0000_0000_0000 && (n + 1) * 0x8000_0000_0000_0000
            <= 0x7fff_ffff_ffff_ffff_8000_0000_0000_0000) by (nonlinear_arith)
            requires
                0 <= n < 0xffff_ffff_ffff_ffff,
        ;
        sum = sum + sample_file_bytes[n] as i128;
        n = n + 1;
    }
    assert(sample_file_bytes@.take(n as int) =~= sample_file_bytes@);
    if sum < i64::MIN as i128 || sum > i64::MAX as i128 {
        None
    } else {
        Some(sum as i64)
    }
}

/// Whether deleting a camera with `to_delete` bytes of recordings has to be
/// confirmed by typing the amount back: it has, as soon as there is anything
/// to delete.
pub open spec fn needs_confirmation_spec(to_delete: i64) -> bool {
    to_delete > 0
}

/// Whether deleting a camera with `to_delete` bytes of recordings has to be
/// confirmed by typing the amount back.
#[verifier::when_used_as_spec(needs_confirmation_spec)]
pub fn needs_confirmation(to_delete: i64) -> (needed: bool)
    ensures
        needed == needs_confirmation_spec(to_delete),
{
    to_delete > 0
}

/// Whether what the operator typed confirms the deletion: it does when it
/// reads as an amount, and the amount is the one to delete.
pub open spec fn is_confirmed_spec(typed: Option<i64>, to_delete: i64) -> bool {
    typed == Some(to_delete)
}

/// Whether what the operator typed confirms the deletion. `typed` is the
/// amount that the text reads as, `None` where it reads as none.
#[verifier::when_used_as_spec(is_confirmed_spec)]
pub fn is_confirmed(typed: Option<i64>, to_delete: i64) -> (confirmed: bool)
    ensures
        confirmed == is_confirmed_spec(typed, to_delete),
{
    match typed {
        Some(amount) => amount == to_delete,
        None => false,
    }
}

/// Whether a stream belongs to the camera and keeps its files in the directory.
pub open spec fn stream_in_dir(stream: StreamInfo, camera_id: i32, dir_id: i32) -> bool {
    stream.camera_id == camera_id && stream.sample_file_dir_id == Some(dir_id)
}

/// Whether any stream of the camera keeps its files in the directory.
pub open spec fn uses_dir(streams: Seq<StreamInfo>, camera_id: i32, dir_id: i32) -> bool {
    exists|k: int| 0 <= k < streams.len() && stream_in_dir(#[trigger] streams[k], camera_id, dir_id)
}

/// A limit of zero for each stream of the camera in the directory, in the
/// order of the streams.
pub open spec fn limits_of_dir(streams: Seq<StreamInfo>, camera_id: i32, dir_id: i32) -> Seq<
    NewLimit,
>
    decreases streams.len(),
{
    if streams.len() == 0 {
        Seq::empty()
    } else {
        let before = limits_of_dir(streams.drop_last(), camera_id, dir_id);
        if stream_in_dir(streams.last(), camera_id, dir_id) {
            before.push(NewLimit { stream_id: streams.last().stream_id, limit: 0 })
        } else {
            before
        }
    }
}

/// Whether `limits` are the limits to set before the camera is deleted: an
/// entry for each directory that a stream of the camera uses, and for no
/// other, with a limit of zero for each such stream.
pub open spec fn is_zero_limits(
    limits: Map<i32, Vec<NewLimit>>,
    streams: Seq<StreamInfo>,
    camera_id: i32,
) -> bool {
    &&& forall|d: i32| #[trigger] limits.contains_key(d) <==> uses_dir(streams, camera_id, d)
    &&& forall|d: i32| #[trigger]
        limits.contains_key(d) ==> limits[d]@ == limits_of_dir(streams, camera_id, d)
}

/// A directory that no stream of the camera uses has no limits.
proof fn lemma_unused_dir_has_no_limits(streams: Seq<StreamInfo>, camera_id: i32, dir_id: i32)
    requires
        !uses_dir(streams, camera_id, dir_id),
    ensures
        limits_of_dir(streams, camera_id, dir_id) == Seq::<NewLimit>::empty(),
    decreases streams.len(),
{
    if streams.len() > 0 {
        let head = streams.drop_last();
        assert(!stream_in_dir(streams[streams.len() - 1], camera_id, dir_id));
        assert(!uses_dir(head, camera_id, dir_id)) by {
            if uses_dir(head, camera_id, dir_id) {
                let k = choose|k: int|
                    0 <= k < head.len() && stream_in_dir(#[trigger] head[k], camera_id, dir_id);
                assert(stream_in_dir(streams[k], camera_id, dir_id));
            }
        }
        lemma_unused_dir_has_no_limits(head, camera_id, dir_id);
    }
}

/// What one more stream adds to the directories in use.
proof fn lemma_uses_dir_push(streams: Seq<StreamInfo>, n: int, camera_id: i32, dir_id: i32)
    requires
        0 <= n < streams.len(),
    ensures
        uses_dir(streams.take(n + 1), camera_id, dir_id) <==> uses_dir(
            streams.take(n),
            camera_id,
            dir_id,
        ) || stream_in_dir(streams[n], camera_id, dir_id),
{
    let seen = streams.take(n);
    let next = streams.take(n + 1);
    if uses_dir(seen, camera_id, dir_id) {
        let k = choose|k: int|
            0 <= k < seen.len() && stream_in_dir(#[trigger] seen[k], camera_id, dir_id);
        assert(stream_in_dir(next[k], camera_id, dir_id));
    }
    if stream_in_dir(streams[n], camera_id, dir_id) {
        assert(stream_in_dir(next[n], camera_id, dir_id));
    }
    if uses_dir(next, camera_id, dir_id) {
        let k = choose|k: int|
            0 <= k < next.len() && stream_in_dir(#[trigger] next[k], camera_id, dir_id);
        if k < n {
            assert(stream_in_dir(seen[k], camera_id, dir_id));
        }
    }
}

/// Directory ids are ordered as the map needs its keys to be.
proof fn lemma_keys_ordered()
    ensures
        obeys_cmp::<i32>(),
{
    broadcast use group_laws_cmp;

}

/// The limits to set before a camera is deleted: zero for each of its
/// streams that keeps files, by directory.
pub fn zero_limits(streams: &[StreamInfo], camera_id: i32) -> (limits: BTreeMap<
    i32,
    Vec<NewLimit>,
>)
    ensures
        is_zero_limits(limits@, streams@, camera_id),
{
    broadcast use group_btree_axioms;

    let mut limits: BTreeMap<i32, Vec<NewLimit>> = BTreeMap::new();
    let mut n: usize = 0;
    while n < streams.len()
        invariant
            n <= streams.len(),
            is_zero_limits(limits@, streams@.take(n as int), camera_id),
        decreases streams.len() - n,
    {
        let stream = streams[n];
        let ghost seen = streams@.take(n as int);
        let ghost next = streams@.take(n + 1);
        let ghost before = limits@;
        assert(next.drop_last() =~= seen);
        proof {
            lemma_keys_ordered();
            assert forall|d: i32|
                uses_dir(next, camera_id, d) <==> #[trigger] uses_dir(seen, camera_id, d)
                    || stream_in_dir(stream, camera_id, d) by {
                lemma_uses_dir_push(streams@, n as int, camera_id, d);
            }
        }
        if stream.camera_id == camera_id {
            if let Some(dir_id) = stream.sample_file_dir_id {
                let mut of_dir = match limits.remove(&dir_id) {
                    Some(l) => l,
                    None => {
                        proof {
                            lemma_unused_dir_has_no_limits(seen, camera_id, dir_id);
                        }
                        Vec::new()
                    },
                };
                assert(of_dir@ == limits_of_dir(seen, camera_id, dir_id));
                of_dir.push(NewLimit { stream_id: stream.stream_id, limit: 0 });
                limits.insert(dir_id, of_dir);
                assert(limits@ == before.insert(dir_id, of_dir));
                assert(stream_in_dir(stream, camera_id, dir_id));
            }
        }
        n = n + 1;
    }
    assert(streams@.take(n as int) =~= streams@);
    limits
}

} // verus!
