//! The descriptor of a key, and the order in which descriptors are listed.

use vstd::prelude::*;
use vstd::utf8::encode_utf8;
use crate::database::Domain;

verus! {

/// What addresses a key: a domain, a namespace within it, and an alias or
/// a blob.
#[derive(Debug, PartialEq, Eq)]
pub struct KeyDescriptor {
    pub domain: Domain,
    pub nspace: i64,
    pub alias: Option<String>,
    pub blob: Option<Vec<u8>>,
}

/// The mathematical value of a `KeyDescriptor`. The alias is taken as the
/// bytes of its UTF-8 encoding, by which aliases are ordered.
pub struct KeyDescriptorView {
    pub domain: Domain,
    pub nspace: i64,
    pub alias: Option<Seq<u8>>,
    pub blob: Option<Seq<u8>>,
}

impl View for KeyDescriptor {
    type V = KeyDescriptorView;

    open spec fn view(&self) -> KeyDescriptorView {
        KeyDescriptorView {
            domain: self.domain,
            nspace: self.nspace,
            alias: match self.alias {
                Some(alias) => Some(encode_utf8(alias@)),
                None => None,
            },
            blob: match self.blob {
                Some(blob) => Some(blob@),
                None => None,
            },
        }
    }
}

impl Clone for KeyDescriptor {
    fn clone(&self) -> (copy: Self)
        ensures
            copy@ == self@,
    {
        KeyDescriptor {
            domain: self.domain,
            nspace: self.nspace,
            alias: match &self.alias {
                Some(alias) => Some(alias.clone()),
                None => None,
            },
            blob: match &self.blob {
                Some(blob) => Some(blob.clone()),
                None => None,
            },
        }
    }
}

/// The views of a sequence of descriptors.
pub open spec fn descriptor_views(descriptors: Seq<KeyDescriptor>) -> Seq<KeyDescriptorView> {
    Seq::new(descriptors.len(), |i: int| descriptors[i]@)
}

/// The lexicographic order of byte strings: the first byte in which two
/// strings differ decides, and a proper prefix comes first.
pub open spec fn bytes_less(a: Seq<u8>, b: Seq<u8>) -> bool
    decreases a.len(),
{
    if b.len() == 0 {
        false
    } else if a.len() == 0 {
        true
    } else if a[0] != b[0] {
        a[0] < b[0]
    } else {
        bytes_less(a.drop_first(), b.drop_first())
    }
}

/// The order of optional byte strings: an absent one comes before any
/// present one.
pub open spec fn optional_bytes_less(a: Option<Seq<u8>>, b: Option<Seq<u8>>) -> bool {
    match (a, b) {
        (None, Some(_)) => true,
        (Some(x), Some(y)) => bytes_less(x, y),
        _ => false,
    }
}

/// The place of a domain in the order of the domains.
pub open spec fn domain_rank(domain: Domain) -> int {
    match domain {
        Domain::App => 0,
        Domain::Grant => 1,
        Domain::Selinux => 2,
        Domain::Blob => 3,
        Domain::KeyId => 4,
    }
}

/// The order of descriptors: by domain, then by namespace, then by alias,
/// then by blob.
pub open spec fn descriptor_less(a: KeyDescriptorView, b: KeyDescriptorView) -> bool {
    if a.domain != b.domain {
        domain_rank(a.domain) < domain_rank(b.domain)
    } else if a.nspace != b.nspace {
        a.nspace < b.nspace
    } else if a.alias != b.alias {
        optional_bytes_less(a.alias, b.alias)
    } else {
        optional_bytes_less(a.blob, b.blob)
    }
}

/// A sequence of descriptors in strictly ascending order: sorted, and
/// without duplicates.
pub open spec fn strictly_sorted(descriptors: Seq<KeyDescriptorView>) -> bool {
    forall|i: int, j: int|
        0 <= i < j < descriptors.len() ==> descriptor_less(
            #[trigger] descriptors[i],
            #[trigger] descriptors[j],
        )
}

/// The order of byte strings is transitive.
pub proof fn lemma_bytes_less_transitive(a: Seq<u8>, b: Seq<u8>, c: Seq<u8>)
    requires
        bytes_less(a, b),
        bytes_less(b, c),
    ensures
        bytes_less(a, c),
    decreases a.len(),
{
    if a.len() > 0 && a[0] == b[0] && b[0] == c[0] {
        lemma_bytes_less_transitive(a.drop_first(), b.drop_first(), c.drop_first());
    }
}

/// The order of byte strings is total and strict: of two strings, exactly
/// one comes first, unless they are equal.
pub proof fn lemma_bytes_less_trichotomy(a: Seq<u8>, b: Seq<u8>)
    ensures
        bytes_less(a, b) || bytes_less(b, a) || a == b,
        !(bytes_less(a, b) && bytes_less(b, a)),
        !bytes_less(a, a),
    decreases a.len(),
{
    if a.len() > 0 && b.len() > 0 && a[0] == b[0] {
        lemma_bytes_less_trichotomy(a.drop_first(), b.drop_first());
        if a.drop_first() == b.drop_first() {
            assert(a =~= seq![a[0]] + a.drop_first());
            assert(b =~= seq![b[0]] + b.drop_first());
        }
    } else if a.len() == 0 && b.len() == 0 {
        assert(a =~= b);
    }
    if a.len() > 0 {
        lemma_bytes_less_irreflexive(a);
    }
}

/// No byte string comes before itself.
pub proof fn lemma_bytes_less_irreflexive(a: Seq<u8>)
    ensures
        !bytes_less(a, a),
    decreases a.len(),
{
    if a.len() > 0 {
        lemma_bytes_less_irreflexive(a.drop_first());
    }
}

/// The order of descriptors is transitive.
pub proof fn lemma_descriptor_less_transitive(
    a: KeyDescriptorView,
    b: KeyDescriptorView,
    c: KeyDescriptorView,
)
    requires
        descriptor_less(a, b),
        descriptor_less(b, c),
    ensures
        descriptor_less(a, c),
{
    if a.domain == b.domain && b.domain == c.domain && a.nspace == b.nspace && b.nspace
        == c.nspace {
        if a.alias != b.alias && b.alias != c.alias {
            if a.alias is Some {
                lemma_bytes_less_transitive(a.alias->0, b.alias->0, c.alias->0);
                lemma_bytes_less_irreflexive(a.alias->0);
            }
        } else if a.alias == b.alias && b.alias == c.alias {
            if a.blob is Some && c.blob is Some {
                lemma_bytes_less_transitive(a.blob->0, b.blob->0, c.blob->0);
            }
        }
    }
}

/// The order of descriptors is total and strict: of two descriptors,
/// exactly one comes first, unless they are equal.
pub proof fn lemma_descriptor_less_trichotomy(a: KeyDescriptorView, b: KeyDescriptorView)
    ensures
        descriptor_less(a, b) || descriptor_less(b, a) || a == b,
        !(descriptor_less(a, b) && descriptor_less(b, a)),
        !descriptor_less(a, a),
{
    if a.alias is Some && b.alias is Some {
        lemma_bytes_less_trichotomy(a.alias->0, b.alias->0);
    }
    if a.blob is Some && b.blob is Some {
        lemma_bytes_less_trichotomy(a.blob->0, b.blob->0);
    }
    if a.blob is Some {
        lemma_bytes_less_irreflexive(a.blob->0);
    }
}

/// A sequence in strictly ascending order is determined by the
/// descriptors that occur in it.
pub proof fn lemma_strictly_sorted_is_unique(
    first: Seq<KeyDescriptorView>,
    second: Seq<KeyDescriptorView>,
)
    requires
        strictly_sorted(first),
        strictly_sorted(second),
        forall|d: KeyDescriptorView| first.contains(d) <==> second.contains(d),
    ensures
        first == second,
    decreases first.len(),
{
    if first.len() == 0 {
        if second.len() > 0 {
            assert(second.contains(second[0]));
        }
        assert(first =~= second);
    } else {
        assert(first.contains(first[0]));
        assert(second.len() > 0);
        assert(second.contains(second[0]));
        // The two least descriptors are the same.
        let i = choose|i: int| 0 <= i < second.len() && second[i] == first[0];
        let j = choose|j: int| 0 <= j < first.len() && first[j] == second[0];
        lemma_descriptor_less_trichotomy(first[0], second[0]);
        assert(first[0] == second[0]) by {
            if i > 0 {
                assert(descriptor_less(second[0], second[i]));
            }
            if j > 0 {
                assert(descriptor_less(first[0], first[j]));
            }
        }
        let first_rest = first.drop_first();
        let second_rest = second.drop_first();
        assert forall|d: KeyDescriptorView| first_rest.contains(d) <==> second_rest.contains(
            d,
        ) by {
            lemma_descriptor_less_trichotomy(first[0], d);
            if first_rest.contains(d) {
                let k = choose|k: int| 0 <= k < first_rest.len() && first_rest[k] == d;
                assert(first[k + 1] == d);
                assert(descriptor_less(first[0], first[k + 1]));
                assert(first.contains(d));
                let m = choose|m: int| 0 <= m < second.len() && second[m] == d;
                assert(m > 0);
                assert(second_rest[m - 1] == d);
            }
            if second_rest.contains(d) {
                let k = choose|k: int| 0 <= k < second_rest.len() && second_rest[k] == d;
                assert(second[k + 1] == d);
                assert(descriptor_less(second[0], second[k + 1]));
                assert(second.contains(d));
                let m = choose|m: int| 0 <= m < first.len() && first[m] == d;
                assert(m > 0);
                assert(first_rest[m - 1] == d);
            }
        }
        assert(strictly_sorted(first_rest)) by {
            assert forall|i: int, j: int| 0 <= i < j < first_rest.len() implies descriptor_less(
                #[trigger] first_rest[i],
                #[trigger] first_rest[j],
            ) by {
                assert(descriptor_less(first[i + 1], first[j + 1]));
            }
        }
        assert(strictly_sorted(second_rest)) by {
            assert forall|i: int, j: int| 0 <= i < j < second_rest.len() implies descriptor_less(
                #[trigger] second_rest[i],
                #[trigger] second_rest[j],
            ) by {
                assert(descriptor_less(second[i + 1], second[j + 1]));
            }
        }
        lemma_strictly_sorted_is_unique(first_rest, second_rest);
        assert(first =~= seq![first[0]] + first_rest);
        assert(second =~= seq![second[0]] + second_rest);
    }
}

/// Whether `a` comes before `b` in the order of byte strings.
pub fn bytes_lt(a: &[u8], b: &[u8]) -> (r: bool)
    ensures
        r == bytes_less(a@, b@),
{
    let mut i: usize = 0;
    assert(a@.skip(0) =~= a@ && b@.skip(0) =~= b@);
    while i < a.len() && i < b.len()
        invariant
            i <= a.len(),
            i <= b.len(),
            bytes_less(a@, b@) == bytes_less(a@.skip(i as int), b@.skip(i as int)),
        decreases a.len() - i,
    {
        proof {
            assert(a@.skip(i as int)[0] == a@[i as int]);
            assert(b@.skip(i as int)[0] == b@[i as int]);
            assert(a@.skip(i as int).drop_first() =~= a@.skip(i + 1));
            assert(b@.skip(i as int).drop_first() =~= b@.skip(i + 1));
        }
        if a[i] != b[i] {
            return a[i] < b[i];
        }
        i += 1;
    }
    i < b.len()
}

/// Whether two byte strings are the same.
pub fn bytes_equal(a: &[u8], b: &[u8]) -> (r: bool)
    ensures
        r == (a@ == b@),
{
    if a.len() != b.len() {
        return false;
    }
    let mut i: usize = 0;
    while i < a.len()
        invariant
            i <= a.len(),
            a.len() == b.len(),
            a@.take(i as int) == b@.take(i as int),
        decreases a.len() - i,
    {
        if a[i] != b[i] {
            return false;
        }
        assert(a@.take(i + 1) =~= a@.take(i as int).push(a@[i as int]));
        assert(b@.take(i + 1) =~= b@.take(i as int).push(b@[i as int]));
        i += 1;
    }
    assert(a@.take(a.len() as int) =~= a@);
    assert(b@.take(b.len() as int) =~= b@);
    true
}

/// The view of optional bytes.
pub open spec fn optional_slice_view(bytes: Option<&[u8]>) -> Option<Seq<u8>> {
    match bytes {
        Some(b) => Some(b@),
        None => None,
    }
}

/// Whether `a` comes before `b` in the order of optional byte strings.
pub fn optional_bytes_lt(a: Option<&[u8]>, b: Option<&[u8]>) -> (r: bool)
    ensures
        r == optional_bytes_less(optional_slice_view(a), optional_slice_view(b)),
{
    match (a, b) {
        (None, Some(_)) => true,
        (Some(x), Some(y)) => bytes_lt(x, y),
        _ => false,
    }
}

/// Whether two optional byte strings are the same.
pub fn optional_bytes_equal(a: Option<&[u8]>, b: Option<&[u8]>) -> (r: bool)
    ensures
        r == (optional_slice_view(a) == optional_slice_view(b)),
{
    match (a, b) {
        (None, None) => true,
        (Some(x), Some(y)) => bytes_equal(x, y),
        _ => false,
    }
}

/// The place of a domain in the order of the domains.
pub fn domain_number(domain: Domain) -> (n: u8)
    ensures
        n == domain_rank(domain),
{
    match domain {
        Domain::App => 0,
        Domain::Grant => 1,
        Domain::Selinux => 2,
        Domain::Blob => 3,
        Domain::KeyId => 4,
    }
}

impl KeyDescriptor {
    /// The bytes of the alias, if the descriptor has one.
    pub fn alias_bytes(&self) -> (bytes: Option<&[u8]>)
        ensures
            optional_slice_view(bytes) == self@.alias,
    {
        match &self.alias {
            Some(alias) => Some(alias.as_str().as_bytes()),
            None => None,
        }
    }

    /// The bytes of the blob, if the descriptor has one.
    pub fn blob_bytes(&self) -> (bytes: Option<&[u8]>)
        ensures
            optional_slice_view(bytes) == self@.blob,
    {
        match &self.blob {
            Some(blob) => Some(blob.as_slice()),
            None => None,
        }
    }

    /// Whether this descriptor comes before the other in the order of
    /// descriptors.
    pub fn less_than(&self, other: &KeyDescriptor) -> (r: bool)
        ensures
            r == descriptor_less(self@, other@),
    {
        let own_domain = domain_number(self.domain);
        let other_domain = domain_number(other.domain);
        if own_domain != other_domain {
            own_domain < other_domain
        } else if self.nspace != other.nspace {
            self.nspace < other.nspace
        } else if !optional_bytes_equal(self.alias_bytes(), other.alias_bytes()) {
            optional_bytes_lt(self.alias_bytes(), other.alias_bytes())
        } else {
            optional_bytes_lt(self.blob_bytes(), other.blob_bytes())
        }
    }
}

} // verus!
