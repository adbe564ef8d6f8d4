//! The listing of the keys of a namespace: the merge of the descriptors
//! that the legacy importer and the persistent store report, and the cut
//! that keeps a response within the limit of a transaction.

use vstd::prelude::*;
use vstd::utf8::encode_utf8;
use crate::key_descriptor::{
    bytes_less, bytes_lt, descriptor_less, descriptor_views, lemma_descriptor_less_transitive,
    lemma_descriptor_less_trichotomy, lemma_strictly_sorted_is_unique, strictly_sorted,
    KeyDescriptor, KeyDescriptorView,
};

verus! {

/// The view of the alias past which a listing starts.
pub open spec fn past_alias_view(start_past_alias: Option<&str>) -> Option<Seq<u8>> {
    match start_past_alias {
        Some(past_alias) => Some(encode_utf8(past_alias@)),
        None => None,
    }
}

/// Whether a descriptor of the legacy importer belongs in a listing that
/// starts past the given alias: its alias comes after that alias. A
/// descriptor without an alias belongs only in a listing from the start.
pub open spec fn is_past_alias(d: KeyDescriptorView, start_past_alias: Option<Seq<u8>>) -> bool {
    match start_past_alias {
        Some(past_alias) => d.alias matches Some(alias) && bytes_less(past_alias, alias),
        None => true,
    }
}

/// `merged` holds each descriptor of the store, and each descriptor of the
/// legacy importer whose alias is past the start, and nothing else.
pub open spec fn holds_both(
    merged: Seq<KeyDescriptorView>,
    legacy_descriptors: Seq<KeyDescriptorView>,
    db_descriptors: Seq<KeyDescriptorView>,
    start_past_alias: Option<Seq<u8>>,
) -> bool {
    forall|d: KeyDescriptorView|
        #![trigger merged.contains(d)]
        merged.contains(d) <==> (db_descriptors.contains(d) || (legacy_descriptors.contains(d)
            && is_past_alias(d, start_past_alias)))
}

/// `merged` is the merge of the two lists: in strictly ascending order,
/// it holds each descriptor of the store, and each descriptor of the
/// legacy importer whose alias is past the start, once, and nothing else.
pub open spec fn is_merge_of(
    merged: Seq<KeyDescriptorView>,
    legacy_descriptors: Seq<KeyDescriptorView>,
    db_descriptors: Seq<KeyDescriptorView>,
    start_past_alias: Option<Seq<u8>>,
) -> bool {
    &&& strictly_sorted(merged)
    &&& holds_both(merged, legacy_descriptors, db_descriptors, start_past_alias)
}

/// The merge is determined by what is merged: two merges of the same
/// lists from the same start are the same.
pub proof fn lemma_merge_is_unique(
    first: Seq<KeyDescriptorView>,
    second: Seq<KeyDescriptorView>,
    legacy_descriptors: Seq<KeyDescriptorView>,
    db_descriptors: Seq<KeyDescriptorView>,
    start_past_alias: Option<Seq<u8>>,
)
    requires
        is_merge_of(first, legacy_descriptors, db_descriptors, start_past_alias),
        is_merge_of(second, legacy_descriptors, db_descriptors, start_past_alias),
    ensures
        first == second,
{
    assert forall|d: KeyDescriptorView| first.contains(d) <==> second.contains(d) by {
        assert(first.contains(d) <==> (db_descriptors.contains(d) || (
        legacy_descriptors.contains(d) && is_past_alias(d, start_past_alias))));
        assert(second.contains(d) <==> (db_descriptors.contains(d) || (
        legacy_descriptors.contains(d) && is_past_alias(d, start_past_alias))));
    }
    lemma_strictly_sorted_is_unique(first, second);
}

/// Whether a descriptor belongs in a listing that starts past the given
/// alias.
fn past_alias(descriptor: &KeyDescriptor, start_past_alias: Option<&str>) -> (r: bool)
    ensures
        r == is_past_alias(descriptor@, past_alias_view(start_past_alias)),
{
    match start_past_alias {
        Some(past_alias) => match descriptor.alias_bytes() {
            Some(alias) => bytes_lt(past_alias.as_bytes(), alias),
            None => false,
        },
        None => true,
    }
}

/// Puts a descriptor in its place in a strictly ascending list, unless
/// the list holds it already.
fn insert_sorted(result: &mut Vec<KeyDescriptor>, descriptor: &KeyDescriptor)
    requires
        strictly_sorted(descriptor_views(old(result)@)),
    ensures
        strictly_sorted(descriptor_views(final(result)@)),
        forall|d: KeyDescriptorView|
            descriptor_views(final(result)@).contains(d) <==> (descriptor_views(
                old(result)@,
            ).contains(d) || d == descriptor@),
{
    let ghost before = descriptor_views(result@);
    let mut position: usize = 0;
    while position < result.len() && result[position].less_than(descriptor)
        invariant
            position <= result.len(),
            result@ == old(result)@,
            before == descriptor_views(result@),
            forall|j: int| 0 <= j < position ==> descriptor_less(#[trigger] before[j], descriptor@),
        decreases result.len() - position,
    {
        position += 1;
    }
    if position < result.len() && !descriptor.less_than(&result[position]) {
        proof {
            lemma_descriptor_less_trichotomy(before[position as int], descriptor@);
            assert(before.contains(descriptor@));
        }
        return ;
    }
    result.insert(position, descriptor.clone());
    proof {
        let p = position as int;
        let after = descriptor_views(result@);
        assert(after =~= before.insert(p, descriptor@));
        assert forall|i: int, j: int| 0 <= i < j < after.len() implies descriptor_less(
            #[trigger] after[i],
            #[trigger] after[j],
        ) by {
            if i < p && j > p {
                assert(descriptor_less(before[i], before[j - 1]));
            } else if i == p {
                assert(descriptor_less(descriptor@, before[p]));
                if j - 1 > p {
                    assert(descriptor_less(before[p], before[j - 1]));
                    lemma_descriptor_less_transitive(descriptor@, before[p], before[j - 1]);
                }
            } else if i > p {
                assert(descriptor_less(before[i - 1], before[j - 1]));
            } else if j < p {
                assert(descriptor_less(before[i], before[j]));
            }
        }
        assert forall|d: KeyDescriptorView| after.contains(d) <==> (before.contains(d) || d
            == descriptor@) by {
            if after.contains(d) {
                let k = choose|k: int| 0 <= k < after.len() && after[k] == d;
                if k < p {
                    assert(before[k] == d);
                } else if k > p {
                    assert(before[k - 1] == d);
                }
            }
            if before.contains(d) {
                let k = choose|k: int| 0 <= k < before.len() && before[k] == d;
                if k < p {
                    assert(after[k] == d);
                } else {
                    assert(after[k + 1] == d);
                }
            }
            if d == descriptor@ {
                assert(after[p] == d);
            }
        }
    }
}

/// The descriptors among the first `n` of `descriptors`.
proof fn lemma_take_one_more(descriptors: Seq<KeyDescriptorView>, n: int, d: KeyDescriptorView)
    requires
        0 <= n < descriptors.len(),
    ensures
        descriptors.take(n + 1).contains(d) <==> (descriptors.take(n).contains(d) || d
            == descriptors[n]),
{
    let shorter = descriptors.take(n);
    let longer = descriptors.take(n + 1);
    if longer.contains(d) {
        let k = choose|k: int| 0 <= k < longer.len() && longer[k] == d;
        if k < n {
            assert(shorter[k] == d);
        }
    }
    if shorter.contains(d) {
        let k = choose|k: int| 0 <= k < shorter.len() && shorter[k] == d;
        assert(longer[k] == d);
    }
    if d == descriptors[n] {
        assert(longer[n] == d);
    }
}

/// Merges and filters two lists of key descriptors. The list of the
/// legacy importer is neither sorted nor filtered: of it, only the
/// descriptors whose alias comes after `start_past_alias` are taken,
/// where one is given. The list of the store is taken as it is. The
/// result holds what was taken from both, sorted and without duplicates.
pub fn merge_and_filter_key_entry_lists(
    legacy_descriptors: &[KeyDescriptor],
    db_descriptors: &[KeyDescriptor],
    start_past_alias: Option<&str>,
) -> (result: Vec<KeyDescriptor>)
    ensures
        is_merge_of(
            descriptor_views(result@),
            descriptor_views(legacy_descriptors@),
            descriptor_views(db_descriptors@),
            past_alias_view(start_past_alias),
        ),
{
    let ghost legacy = descriptor_views(legacy_descriptors@);
    let ghost db = descriptor_views(db_descriptors@);
    let ghost past = past_alias_view(start_past_alias);
    let ghost none = Seq::<KeyDescriptorView>::empty();
    let mut result: Vec<KeyDescriptor> = Vec::new();
    let mut i: usize = 0;
    assert(holds_both(descriptor_views(result@), legacy.take(0), none, past)) by {
        assert(legacy.take(0) =~= none);
        assert(descriptor_views(result@) =~= none);
    }
    while i < legacy_descriptors.len()
        invariant
            i <= legacy_descriptors.len(),
            legacy == descriptor_views(legacy_descriptors@),
            past == past_alias_view(start_past_alias),
            none == Seq::<KeyDescriptorView>::empty(),
            strictly_sorted(descriptor_views(result@)),
            holds_both(descriptor_views(result@), legacy.take(i as int), none, past),
        decreases legacy_descriptors.len() - i,
    {
        let ghost taken = descriptor_views(result@);
        let ghost inserted = is_past_alias(legacy[i as int], past);
        if past_alias(&legacy_descriptors[i], start_past_alias) {
            insert_sorted(&mut result, &legacy_descriptors[i]);
        }
        assert(holds_both(descriptor_views(result@), legacy.take(i + 1), none, past)) by {
            let merged = descriptor_views(result@);
            assert forall|d: KeyDescriptorView| #![trigger merged.contains(d)]
                merged.contains(d) <==> (none.contains(d) || (legacy.take(i + 1).contains(d)
                    && is_past_alias(d, past))) by {
                lemma_take_one_more(legacy, i as int, d);
                assert(merged.contains(d) <==> (taken.contains(d) || (inserted && d
                    == legacy[i as int])));
            }
        }
        i += 1;
    }
    assert(legacy.take(legacy.len() as int) =~= legacy);
    assert(db.take(0) =~= none);
    let mut k: usize = 0;
    while k < db_descriptors.len()
        invariant
            k <= db_descriptors.len(),
            db == descriptor_views(db_descriptors@),
            strictly_sorted(descriptor_views(result@)),
            holds_both(descriptor_views(result@), legacy, db.take(k as int), past),
        decreases db_descriptors.len() - k,
    {
        let ghost taken = descriptor_views(result@);
        insert_sorted(&mut result, &db_descriptors[k]);
        assert(holds_both(descriptor_views(result@), legacy, db.take(k + 1), past)) by {
            let merged = descriptor_views(result@);
            assert forall|d: KeyDescriptorView| #![trigger merged.contains(d)]
                merged.contains(d) <==> (db.take(k + 1).contains(d) || (legacy.contains(d)
                    && is_past_alias(d, past))) by {
                lemma_take_one_more(db, k as int, d);
                assert(merged.contains(d) <==> (taken.contains(d) || d == db[k as int]));
            }
        }
        k += 1;
    }
    assert(db.take(db.len() as int) =~= db);
    result
}

/// The number of bytes that a descriptor takes in a response: four for
/// the domain, eight for the namespace, and for the alias and the blob,
/// where present, their length and four bytes that encode it.
pub open spec fn descriptor_size(d: KeyDescriptorView) -> nat {
    let alias_size = match d.alias {
        Some(alias) => 4 + alias.len(),
        None => 0,
    };
    let blob_size = match d.blob {
        Some(blob) => 4 + blob.len(),
        None => 0,
    };
    (12 + alias_size + blob_size) as nat
}

/// The number of bytes that a list of descriptors takes in a response.
pub open spec fn total_size(descriptors: Seq<KeyDescriptorView>) -> nat
    decreases descriptors.len(),
{
    if descriptors.len() == 0 {
        0
    } else {
        total_size(descriptors.drop_last()) + descriptor_size(descriptors.last())
    }
}

/// `amount` is the number of descriptors that fit in a response: the
/// first `amount` descriptors stay within the limit, and one more would
/// exceed it.
pub open spec fn is_safe_amount(
    descriptors: Seq<KeyDescriptorView>,
    response_size_limit: usize,
    amount: nat,
) -> bool {
    &&& amount <= descriptors.len()
    &&& total_size(descriptors.take(amount as int)) <= response_size_limit
    &&& amount < descriptors.len() ==> total_size(descriptors.take(amount as int + 1))
        > response_size_limit
}

/// A longer prefix of a list takes no fewer bytes than a shorter one.
pub proof fn lemma_total_size_grows(descriptors: Seq<KeyDescriptorView>, shorter: int, longer: int)
    requires
        0 <= shorter <= longer <= descriptors.len(),
    ensures
        total_size(descriptors.take(shorter)) <= total_size(descriptors.take(longer)),
    decreases longer - shorter,
{
    if shorter < longer {
        lemma_total_size_grows(descriptors, shorter, longer - 1);
        assert(descriptors.take(longer).drop_last() =~= descriptors.take(longer - 1));
    }
}

/// The safe amount is determined by the list and the limit.
pub proof fn lemma_safe_amount_is_unique(
    descriptors: Seq<KeyDescriptorView>,
    response_size_limit: usize,
    first: nat,
    second: nat,
)
    requires
        is_safe_amount(descriptors, response_size_limit, first),
        is_safe_amount(descriptors, response_size_limit, second),
    ensures
        first == second,
{
    if first < second {
        lemma_total_size_grows(descriptors, first as int + 1, second as int);
    } else if second < first {
        lemma_total_size_grows(descriptors, second as int + 1, first as int);
    }
}

/// Estimates how many of the descriptors, from the first on, fit in a
/// response of the given size.
pub fn estimate_safe_amount_to_return(
    key_descriptors: &[KeyDescriptor],
    response_size_limit: usize,
) -> (items_to_return: usize)
    ensures
        is_safe_amount(
            descriptor_views(key_descriptors@),
            response_size_limit,
            items_to_return as nat,
        ),
{
    let ghost descriptors = descriptor_views(key_descriptors@);
    let mut items_to_return: usize = 0;
    let mut returned_bytes: u128 = 0;
    let mut full = false;
    assert(descriptors.take(0) =~= Seq::empty());
    while !full && items_to_return < key_descriptors.len()
        invariant
            items_to_return <= key_descriptors.len(),
            descriptors == descriptor_views(key_descriptors@),
            returned_bytes == total_size(descriptors.take(items_to_return as int)),
            returned_bytes <= response_size_limit,
            full ==> items_to_return < key_descriptors.len() && total_size(
                descriptors.take(items_to_return + 1),
            ) > response_size_limit,
        decreases key_descriptors.len() - items_to_return + if full { 0int } else { 1int },
    {
        let kd = &key_descriptors[items_to_return];
        // 4 bytes for the domain, 8 bytes for the namespace.
        let mut size: u128 = 4 + 8;
        // The alias, with 4 bytes that encode its length.
        if let Some(alias) = kd.alias_bytes() {
            size = size + 4 + alias.len() as u128;
        }
        // The blob, with 4 bytes that encode its length.
        if let Some(blob) = kd.blob_bytes() {
            size = size + 4 + blob.len() as u128;
        }
        proof {
            let longer = descriptors.take(items_to_return + 1);
            assert(longer.drop_last() =~= descriptors.take(items_to_return as int));
            assert(longer.last() == kd@);
            assert(size == descriptor_size(kd@));
        }
        if returned_bytes + size > response_size_limit as u128 {
            full = true;
        } else {
            returned_bytes = returned_bytes + size;
            items_to_return += 1;
        }
    }
    items_to_return
}

/// The size of a response that is sure to fit in a transaction: the limit
/// of a transaction is one megabyte, of which the transport may take well
/// over half.
pub const RESPONSE_SIZE_LIMIT: usize = 358400;

/// `listed` is a listing of the keys that the two sources report: the
/// merge of both, cut to what fits in a response.
pub open spec fn is_listing_of(
    listed: Seq<KeyDescriptorView>,
    legacy_descriptors: Seq<KeyDescriptorView>,
    db_descriptors: Seq<KeyDescriptorView>,
    start_past_alias: Option<Seq<u8>>,
) -> bool {
    exists|merged: Seq<KeyDescriptorView>| #[trigger]
        is_merge_of(merged, legacy_descriptors, db_descriptors, start_past_alias)
            && is_safe_amount(merged, RESPONSE_SIZE_LIMIT, listed.len()) && listed == merged.take(
            listed.len() as int,
        )
}

/// Lists the keys that the legacy importer and the store report for a
/// namespace, past `start_past_alias` where one is given: sorted, without
/// duplicates, and no more than fit in a response.
pub fn list_key_entries(
    legacy_key_descriptors: &[KeyDescriptor],
    db_key_descriptors: &[KeyDescriptor],
    start_past_alias: Option<&str>,
) -> (listed: Vec<KeyDescriptor>)
    ensures
        is_listing_of(
            descriptor_views(listed@),
            descriptor_views(legacy_key_descriptors@),
            descriptor_views(db_key_descriptors@),
            past_alias_view(start_past_alias),
        ),
{
    let mut merged_key_entries = merge_and_filter_key_entry_lists(
        legacy_key_descriptors,
        db_key_descriptors,
        start_past_alias,
    );
    let ghost merged = descriptor_views(merged_key_entries@);
    let safe_amount_to_return = estimate_safe_amount_to_return(
        merged_key_entries.as_slice(),
        RESPONSE_SIZE_LIMIT,
    );
    merged_key_entries.truncate(safe_amount_to_return);
    assert(descriptor_views(merged_key_entries@) =~= merged.take(safe_amount_to_return as int));
    merged_key_entries
}

/// Counts the keys that the legacy importer and the store report for a
/// namespace. A count that does not fit the result is cut to its low 32
/// bits.
pub fn count_key_entries(legacy_keys: &[KeyDescriptor], num_keys_in_db: usize) -> (count: i32)
    ensures
        legacy_keys.len() + num_keys_in_db <= i32::MAX ==> count == legacy_keys.len()
            + num_keys_in_db,
{
    let total: u128 = legacy_keys.len() as u128 + num_keys_in_db as u128;
    #[verifier::truncate]
    (total as i32)
}

} // verus!
