//! What it means to merge the contributions of several providers into one
//! index, and what holds of every such merge.

use super::{records, Emote, EmoteRecord, ProviderError};
use vstd::prelude::*;

verus! {

/// The last position of `listed` that holds `code`, or `-1` when none does.
pub open spec fn last_position(listed: Seq<EmoteRecord>, code: Seq<char>) -> int
    decreases listed.len(),
{
    if listed.len() == 0 {
        -1
    } else if listed.last().code == code {
        listed.len() - 1
    } else {
        last_position(listed.drop_last(), code)
    }
}

/// The index of a list of records: every code of the list maps to the last
/// record that holds it. A later record takes precedence over an earlier one
/// with the same code.
pub open spec fn merged(listed: Seq<EmoteRecord>) -> Map<Seq<char>, EmoteRecord> {
    Map::new(
        |code: Seq<char>| last_position(listed, code) >= 0,
        |code: Seq<char>| listed[last_position(listed, code)],
    )
}

/// The records that a list of replies contributes: those of the successful
/// replies, in the order of the replies. A failed reply contributes none.
pub open spec fn contributed(replies: Seq<Result<Vec<Emote>, ProviderError>>) -> Seq<EmoteRecord>
    decreases replies.len(),
{
    if replies.len() == 0 {
        Seq::empty()
    } else {
        contributed(replies.drop_last()) + match replies.last() {
            Ok(emotes) => records(emotes@),
            Err(_) => Seq::empty(),
        }
    }
}

/// The failures among a list of replies, in the order of the replies.
pub open spec fn failed(replies: Seq<Result<Vec<Emote>, ProviderError>>) -> Seq<
    super::ProviderFailure,
>
    decreases replies.len(),
{
    if replies.len() == 0 {
        Seq::empty()
    } else {
        failed(replies.drop_last()) + match replies.last() {
            Ok(_) => Seq::empty(),
            Err(error) => seq![error@],
        }
    }
}

/// No code occurs twice in `listed`.
pub open spec fn distinct_codes(listed: Seq<EmoteRecord>) -> bool {
    forall|i: int, j: int|
        0 <= i < j < listed.len() ==> (#[trigger] listed[i]).code != (#[trigger] listed[j]).code
}

/// No code of `first` occurs in `second`.
pub open spec fn disjoint_codes(first: Seq<EmoteRecord>, second: Seq<EmoteRecord>) -> bool {
    forall|i: int, j: int|
        0 <= i < first.len() && 0 <= j < second.len() ==> (#[trigger] first[i]).code != (
        #[trigger] second[j]).code
}

/// `last_position` names a position that holds the code and is followed by
/// no other that does; it is `-1` exactly when no position holds the code.
pub proof fn lemma_last_position(listed: Seq<EmoteRecord>, code: Seq<char>)
    ensures
        -1 <= last_position(listed, code) < listed.len(),
        last_position(listed, code) >= 0 ==> listed[last_position(listed, code)].code == code,
        forall|j: int|
            last_position(listed, code) < j < listed.len() ==> (#[trigger] listed[j]).code != code,
    decreases listed.len(),
{
    if listed.len() > 0 && listed.last().code != code {
        lemma_last_position(listed.drop_last(), code);
        assert forall|j: int| last_position(listed, code) < j < listed.len() implies (
        #[trigger] listed[j]).code != code by {
            if j < listed.len() - 1 {
                assert(listed.drop_last()[j] == listed[j]);
            }
        }
    }
}

/// Every record of the index is filed under its own code.
pub proof fn lemma_merged_keyed_by_code(listed: Seq<EmoteRecord>, code: Seq<char>)
    requires
        merged(listed).contains_key(code),
    ensures
        merged(listed)[code].code == code,
{
    lemma_last_position(listed, code);
}

/// Adding one record to the end of a list puts it into the index under its
/// code, in place of whatever stood there.
pub proof fn lemma_merged_push(listed: Seq<EmoteRecord>, record: EmoteRecord)
    ensures
        merged(listed.push(record)) == merged(listed).insert(record.code, record),
{
    let longer = listed.push(record);
    assert(longer.drop_last() =~= listed);
    assert forall|code: Seq<char>| #[trigger]
        merged(longer).dom().contains(code) == merged(listed).insert(
            record.code,
            record,
        ).dom().contains(code) by {
        lemma_last_position(listed, code);
    }
    assert forall|code: Seq<char>| #[trigger] merged(longer).dom().contains(code) implies merged(
        longer,
    )[code] == merged(listed).insert(record.code, record)[code] by {
        lemma_last_position(listed, code);
    }
    assert(merged(longer) =~= merged(listed).insert(record.code, record));
}

/// The index of no records is empty.
pub proof fn lemma_merged_empty()
    ensures
        merged(Seq::<EmoteRecord>::empty()) == Map::<Seq<char>, EmoteRecord>::empty(),
{
    assert(merged(Seq::<EmoteRecord>::empty()) =~= Map::<Seq<char>, EmoteRecord>::empty());
}

/// The index is finite, and it holds exactly the codes of the list.
pub proof fn lemma_merged_domain(listed: Seq<EmoteRecord>)
    ensures
        merged(listed).dom().finite(),
        merged(listed).len() <= listed.len(),
        forall|i: int| 0 <= i < listed.len() ==> merged(listed).contains_key((#[trigger] listed[i]).code),
        forall|code: Seq<char>| #[trigger]
            merged(listed).contains_key(code) ==> exists|i: int|
                0 <= i < listed.len() && (#[trigger] listed[i]).code == code,
    decreases listed.len(),
{
    if listed.len() == 0 {
        lemma_merged_empty();
        assert(listed =~= Seq::<EmoteRecord>::empty());
    } else {
        let shorter = listed.drop_last();
        let record = listed.last();
        lemma_merged_domain(shorter);
        lemma_merged_push(shorter, record);
        assert(listed =~= shorter.push(record));
        assert forall|i: int| 0 <= i < listed.len() implies merged(listed).contains_key(
            (#[trigger] listed[i]).code,
        ) by {
            if i < shorter.len() {
                assert(shorter[i] == listed[i]);
            }
        }
        assert forall|code: Seq<char>| #[trigger] merged(listed).contains_key(code) implies exists|
            i: int,
        |
            0 <= i < listed.len() && (#[trigger] listed[i]).code == code by {
            if code == record.code {
                assert(listed[listed.len() - 1].code == code);
            } else {
                assert(merged(shorter).contains_key(code));
                let i = choose|i: int| 0 <= i < shorter.len() && (#[trigger] shorter[i]).code == code;
                assert(listed[i].code == code);
            }
        }
    }
}

/// Where no code occurs twice, the index has one entry for each record.
pub proof fn lemma_merged_distinct(listed: Seq<EmoteRecord>)
    requires
        distinct_codes(listed),
    ensures
        merged(listed).dom().finite(),
        merged(listed).len() == listed.len(),
        forall|i: int| 0 <= i < listed.len() ==> merged(listed)[(#[trigger] listed[i]).code] == listed[i],
    decreases listed.len(),
{
    if listed.len() == 0 {
        lemma_merged_empty();
        assert(listed =~= Seq::<EmoteRecord>::empty());
    } else {
        let shorter = listed.drop_last();
        let record = listed.last();
        assert(distinct_codes(shorter)) by {
            assert forall|i: int, j: int| 0 <= i < j < shorter.len() implies (
            #[trigger] shorter[i]).code != (#[trigger] shorter[j]).code by {
                assert(shorter[i] == listed[i] && shorter[j] == listed[j]);
            }
        }
        lemma_merged_distinct(shorter);
        lemma_merged_domain(shorter);
        lemma_merged_push(shorter, record);
        assert(listed =~= shorter.push(record));
        assert(!merged(shorter).contains_key(record.code)) by {
            if merged(shorter).contains_key(record.code) {
                let i = choose|i: int|
                    0 <= i < shorter.len() && (#[trigger] shorter[i]).code == record.code;
                assert(listed[i].code == listed[listed.len() - 1].code);
            }
        }
        assert forall|i: int| 0 <= i < listed.len() implies merged(listed)[(
        #[trigger] listed[i]).code] == listed[i] by {
            if i < shorter.len() {
                assert(shorter[i] == listed[i]);
                assert(listed[i].code != listed[listed.len() - 1].code);
            }
        }
    }
}

/// The index of two lists in a row is the index of the first, overlaid with
/// the index of the second: on a code that both hold, the second wins.
pub proof fn lemma_merged_concat(first: Seq<EmoteRecord>, second: Seq<EmoteRecord>)
    ensures
        merged(first + second) == merged(first).union_prefer_right(merged(second)),
    decreases second.len(),
{
    if second.len() == 0 {
        assert(first + second =~= first);
        lemma_merged_empty();
        assert(second =~= Seq::<EmoteRecord>::empty());
        assert(merged(first).union_prefer_right(merged(second)) =~= merged(first));
    } else {
        let shorter = second.drop_last();
        let record = second.last();
        lemma_merged_concat(first, shorter);
        assert(second =~= shorter.push(record));
        assert(first + second =~= (first + shorter).push(record));
        lemma_merged_push(first + shorter, record);
        lemma_merged_push(shorter, record);
        assert(merged(first + second) =~= merged(first).union_prefer_right(merged(second)));
    }
}

/// Two lists that share no code, neither of which holds a code twice, give
/// an index as large as both together.
pub proof fn lemma_merged_disjoint_size(first: Seq<EmoteRecord>, second: Seq<EmoteRecord>)
    requires
        distinct_codes(first),
        distinct_codes(second),
        disjoint_codes(first, second),
    ensures
        merged(first + second).dom().finite(),
        merged(first + second).len() == first.len() + second.len(),
{
    let both = first + second;
    assert(distinct_codes(both)) by {
        assert forall|i: int, j: int| 0 <= i < j < both.len() implies (#[trigger] both[i]).code != (
        #[trigger] both[j]).code by {
            if j < first.len() {
                assert(both[i] == first[i] && both[j] == first[j]);
            } else if i < first.len() {
                assert(both[i] == first[i] && both[j] == second[j - first.len()]);
            } else {
                assert(both[i] == second[i - first.len()] && both[j] == second[j - first.len()]);
            }
        }
    }
    lemma_merged_distinct(both);
}

/// Replies that all failed contribute no record.
pub proof fn lemma_all_failed(replies: Seq<Result<Vec<Emote>, ProviderError>>)
    requires
        forall|i: int| 0 <= i < replies.len() ==> (#[trigger] replies[i]) is Err,
    ensures
        contributed(replies) == Seq::<EmoteRecord>::empty(),
        merged(contributed(replies)) == Map::<Seq<char>, EmoteRecord>::empty(),
    decreases replies.len(),
{
    if replies.len() > 0 {
        assert(replies.last() is Err);
        assert forall|i: int| 0 <= i < replies.drop_last().len() implies (
        #[trigger] replies.drop_last()[i]) is Err by {
            assert(replies.drop_last()[i] == replies[i]);
        }
        lemma_all_failed(replies.drop_last());
        assert(contributed(replies) =~= Seq::<EmoteRecord>::empty());
    }
    lemma_merged_empty();
}

} // verus!
