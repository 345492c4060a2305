use vstd::prelude::*;

use crate::session::{
    all_tags_known, compare_start, decoded, encoded, finalized, kind_of_tag, missing,
    record_start, run, step, tag_of, written, RegType, SessionState, Verdict,
};

verus! {

/// The other rendering kind.
pub open spec fn flipped(k: RegType) -> RegType {
    match k {
        RegType::Display => RegType::Debug,
        RegType::Debug => RegType::Display,
    }
}

/// Recording a sequence of entries buffers exactly that sequence.
pub proof fn lemma_record_buffers(entries: Seq<(RegType, Seq<char>)>)
    ensures
        run(record_start(), entries).0 == (SessionState { buffer: entries, ..record_start() }),
        forall|k: int| 0 <= k < entries.len() ==> run(record_start(), entries).1[k] == Verdict::Pass,
        run(record_start(), entries).1.len() == entries.len(),
    decreases entries.len(),
{
    if entries.len() > 0 {
        lemma_record_buffers(entries.drop_last());
        assert(entries.drop_last().push(entries.last()) =~= entries);
    } else {
        assert(entries =~= Seq::<(RegType, Seq<char>)>::empty());
    }
}

/// Replaying the first `k` stored entries of a baseline, in order, passes
/// every submission and leaves the cursor at `k`.
pub proof fn lemma_replay_prefix(baseline: Seq<(RegType, Seq<char>)>, k: nat)
    requires
        k <= baseline.len(),
    ensures
        run(compare_start(baseline), baseline.take(k as int)).0 == (SessionState { cursor: k, ..compare_start(baseline) }),
        run(compare_start(baseline), baseline.take(k as int)).1.len() == k,
        forall|j: int| 0 <= j < k ==> run(compare_start(baseline), baseline.take(k as int)).1[j] == Verdict::Pass,
    decreases k,
{
    if k > 0 {
        lemma_replay_prefix(baseline, (k - 1) as nat);
        assert(baseline.take(k as int).drop_last() =~= baseline.take(k - 1));
    }
}

/// Every entry survives the persisted form: each kind has a known tag, and
/// decoding gives back the entries in order.
pub proof fn lemma_codec_round_trip(entries: Seq<(RegType, Seq<char>)>)
    ensures
        all_tags_known(encoded(entries)),
        decoded(encoded(entries)) == entries,
{
    assert(tag_of(RegType::Display) != tag_of(RegType::Debug));
    assert forall|i: int| 0 <= i < encoded(entries).len() implies (#[trigger] kind_of_tag(encoded(entries)[i].0)) == Some(entries[i].0) by {
        assert(tag_of(RegType::Display) != tag_of(RegType::Debug));
    }
    assert(decoded(encoded(entries)) =~= entries);
}

/// Round trip: what one recording session writes, read back by a comparing
/// session that sees the same submissions, passes every submission and ends
/// with no stored entry left over.
pub proof fn lemma_round_trip(entries: Seq<(RegType, Seq<char>)>)
    ensures
        written(run(record_start(), entries).0) == Some(encoded(entries)),
        all_tags_known(encoded(entries)),
        forall|k: int| 0 <= k < entries.len()
            ==> run(compare_start(decoded(encoded(entries))), entries).1[k] == Verdict::Pass,
        !missing(run(compare_start(decoded(encoded(entries))), entries).0),
{
    lemma_record_buffers(entries);
    lemma_codec_round_trip(entries);
    lemma_replay_prefix(entries, entries.len());
    assert(entries.take(entries.len() as int) =~= entries);
}

/// Order sensitivity: replaying a baseline with two distinct entries swapped
/// passes up to the first of them and fails there on kind or content.
pub proof fn lemma_swap_detected(baseline: Seq<(RegType, Seq<char>)>, i: int, j: int)
    requires
        0 <= i < j < baseline.len(),
        baseline[i] != baseline[j],
    ensures
        ({
            let swapped = baseline.update(i, baseline[j]).update(j, baseline[i]);
            let verdicts = run(compare_start(baseline), swapped).1;
            &&& forall|k: int| 0 <= k < i ==> verdicts[k] == Verdict::Pass
            &&& (verdicts[i] == Verdict::Kind || verdicts[i] == Verdict::Content)
        }),
{
    let swapped = baseline.update(i, baseline[j]).update(j, baseline[i]);
    lemma_replay_prefix(baseline, i as nat);
    lemma_run_prefix(compare_start(baseline), swapped, i + 1);
    assert(swapped.take(i + 1).drop_last() =~= baseline.take(i));
    assert(swapped.take(i + 1).last() == baseline[j]);
}

/// The verdicts of a run on a prefix are the first verdicts of the whole run.
pub proof fn lemma_run_prefix(s: SessionState, entries: Seq<(RegType, Seq<char>)>, k: int)
    requires
        0 <= k <= entries.len(),
    ensures
        run(s, entries).1.len() == entries.len(),
        forall|m: int| 0 <= m < k ==> run(s, entries).1[m] == run(s, entries.take(k)).1[m],
    decreases entries.len(),
{
    if entries.len() > 0 {
        if k == entries.len() {
            assert(entries.take(k) =~= entries);
            lemma_run_prefix(s, entries.drop_last(), 0);
        } else {
            lemma_run_prefix(s, entries.drop_last(), k);
            assert(entries.drop_last().take(k) =~= entries.take(k));
        }
    }
}

/// Kind sensitivity: replaying a baseline up to entry `i` and submitting that
/// entry's text under the other rendering kind fails on kind.
pub proof fn lemma_kind_detected(baseline: Seq<(RegType, Seq<char>)>, i: int)
    requires
        0 <= i < baseline.len(),
    ensures
        run(compare_start(baseline), baseline.take(i).push((flipped(baseline[i].0), baseline[i].1))).1.last()
            == Verdict::Kind,
{
    lemma_replay_prefix(baseline, i as nat);
    let subs = baseline.take(i).push((flipped(baseline[i].0), baseline[i].1));
    assert(subs.drop_last() =~= baseline.take(i));
}

/// Extra-entry detection: replaying a whole baseline and one more entry passes
/// every stored entry and fails on the extra one only.
pub proof fn lemma_extra_detected(baseline: Seq<(RegType, Seq<char>)>, extra: (RegType, Seq<char>))
    ensures
        forall|k: int| 0 <= k < baseline.len() ==> run(compare_start(baseline), baseline.push(extra)).1[k] == Verdict::Pass,
        run(compare_start(baseline), baseline.push(extra)).1.len() == baseline.len() + 1,
        run(compare_start(baseline), baseline.push(extra)).1.last() == Verdict::Extra,
{
    lemma_replay_prefix(baseline, baseline.len());
    assert(baseline.push(extra).drop_last() =~= baseline);
    assert(baseline.take(baseline.len() as int) =~= baseline);
}

/// Idempotent finalize: a second finalize changes nothing, hands over nothing
/// to write and reports no missing entries.
pub proof fn lemma_finalize_once(s: SessionState)
    ensures
        finalized(finalized(s)) == finalized(s),
        written(finalized(s)) is None,
        !missing(finalized(s)),
{
}

} // verus!
