//! A hashed set of scalars, told apart by type and value.

use vstd::prelude::*;
use crate::native::{Datum, CANONICAL_NAN_32, CANONICAL_NAN_64};
use crate::scalar::{ScalarData, ScalarValue};

verus! {

/// One step of the string hash: a rotation of the hash so far, and the next
/// character.
pub open spec fn mix(h: u64, c: u64) -> u64 {
    ((h << 5u64) ^ (h >> 59u64)) ^ c
}

/// The hash of a string.
pub open spec fn hash_chars(s: Seq<char>) -> u64
    decreases s.len(),
{
    if s.len() == 0 {
        0
    } else {
        mix(hash_chars(s.drop_last()), s.last() as u64)
    }
}

/// The hash of an integer that fits in 64 bits, signed or unsigned.
pub open spec fn hash_int(i: int) -> u64 {
    if 0 <= i <= u64::MAX {
        i as u64
    } else if i64::MIN <= i < 0 {
        (i + 0x1_0000_0000_0000_0000) as u64
    } else {
        0
    }
}

/// The hash of a key. It is taken of keys only, so that scalars that are the
/// same member have the same hash.
pub open spec fn hash_key(key: ScalarData) -> u64 {
    match key.value {
        Some(Datum::Boolean(b)) => if b {
            1
        } else {
            0
        },
        Some(Datum::Int(i)) => hash_int(i),
        Some(Datum::Float32(bits)) => bits as u64,
        Some(Datum::Float64(bits)) => bits,
        Some(Datum::Utf8(s)) => hash_chars(s),
        None => 0,
    }
}

/// The bucket of a key in a table of `buckets` buckets.
pub open spec fn slot(key: ScalarData, buckets: nat) -> int {
    (hash_key(key) % (buckets as u64)) as int
}

fn hash_str(s: &str) -> (r: u64)
    ensures
        r == hash_chars(s@),
{
    let mut h: u64 = 0;
    for c in it: s.chars()
        invariant
            it.seq() == s@,
            h == hash_chars(s@.take(it.index() as int)),
    {
        proof {
            let i = it.index() as int;
            assert(s@.take(i + 1).drop_last() =~= s@.take(i));
            assert(s@.take(i + 1).last() == c);
        }
        h = ((h << 5u64) ^ (h >> 59u64)) ^ (c as u64);
    }
    proof {
        assert(s@.take(s@.len() as int) =~= s@);
    }
    h
}

fn hash_signed(v: i64) -> (r: u64)
    ensures
        r == hash_int(v as int),
{
    if v >= 0 {
        v as u64
    } else {
        (v as i128 + 0x1_0000_0000_0000_0000i128) as u64
    }
}

fn hash_option_str(v: &Option<String>) -> (r: u64)
    ensures
        r == match *v {
            Some(s) => hash_chars(s@),
            None => 0,
        },
{
    match v {
        Some(s) => hash_str(s.as_str()),
        None => 0,
    }
}

/// The hash of the key of a scalar.
pub fn hash(value: &ScalarValue) -> (r: u64)
    ensures
        r == hash_key(value@.key()),
{
    match value {
        ScalarValue::Null => 0,
        ScalarValue::Boolean(Some(b)) => if *b {
            1
        } else {
            0
        },
        ScalarValue::Float32(Some(f)) => if f.is_nan() {
            CANONICAL_NAN_32 as u64
        } else if f.is_zero() {
            0
        } else {
            f.bits as u64
        },
        ScalarValue::Float64(Some(f)) => if f.is_nan() {
            CANONICAL_NAN_64
        } else if f.is_zero() {
            0
        } else {
            f.bits
        },
        ScalarValue::Int8(Some(v)) => hash_signed(*v as i64),
        ScalarValue::Int16(Some(v)) => hash_signed(*v as i64),
        ScalarValue::Int32(Some(v)) => hash_signed(*v as i64),
        ScalarValue::Int64(Some(v)) => hash_signed(*v),
        ScalarValue::UInt8(Some(v)) => *v as u64,
        ScalarValue::UInt16(Some(v)) => *v as u64,
        ScalarValue::UInt32(Some(v)) => *v as u64,
        ScalarValue::UInt64(Some(v)) => *v,
        ScalarValue::Utf8(v) => hash_option_str(v),
        ScalarValue::LargeUtf8(v) => hash_option_str(v),
        ScalarValue::Date32(Some(v)) => hash_signed(*v as i64),
        ScalarValue::Date64(Some(v)) => hash_signed(*v),
        _ => 0,
    }
}

/// A set of scalars. Two scalars are the same member when they have the same
/// type and are both null or hold totally equal values; a scalar is filed
/// under its key, which is one scalar for all that are the same member.
///
/// The members stand in the order in which they came. Each bucket lists the
/// positions of the members whose key hashes to it; the number of buckets is
/// settled when the set is made.
#[derive(Debug)]
pub struct ScalarSet {
    members: Vec<ScalarValue>,
    buckets: Vec<Vec<usize>>,
}

/// The keys of the scalars in `members`.
pub open spec fn keys_of(members: Seq<ScalarValue>) -> Set<ScalarData> {
    Set::new(|k: ScalarData| exists|i: int| 0 <= i < members.len() && members[i]@.key() == k)
}

/// No two scalars in `members` have the same key.
pub open spec fn distinct_keys(members: Seq<ScalarValue>) -> bool {
    forall|i: int, j: int|
        0 <= i < j < members.len() ==> members[i]@.key() != members[j]@.key()
}

/// The bucket lists the position `i`.
pub open spec fn lists(bucket: Seq<usize>, i: int) -> bool {
    exists|j: int| 0 <= j < bucket.len() && #[trigger] bucket[j] == i
}

/// Every position that a bucket lists is that of a member whose key hashes
/// to the bucket, and every member is listed in the bucket of its key.
pub open spec fn indexed(members: Seq<ScalarValue>, buckets: Seq<Vec<usize>>) -> bool {
    &&& buckets.len() > 0
    &&& forall|b: int, j: int|
        0 <= b < buckets.len() && 0 <= j < buckets[b]@.len() ==> {
            let i = #[trigger] buckets[b]@[j];
            i < members.len() && slot(members[i as int]@.key(), buckets.len()) == b
        }
    &&& forall|i: int|
        0 <= i < members.len() ==> lists(
            #[trigger] buckets[slot(members[i]@.key(), buckets.len())]@,
            i,
        )
}

impl View for ScalarSet {
    type V = Set<ScalarData>;

    closed spec fn view(&self) -> Set<ScalarData> {
        keys_of(self.members@)
    }
}

impl ScalarSet {
    /// Each member is held once and can be found from its hash.
    #[verifier::type_invariant]
    closed spec fn well_formed(&self) -> bool {
        distinct_keys(self.members@) && indexed(self.members@, self.buckets@)
    }

    /// The members, once each, in the order in which they came.
    pub closed spec fn members_spec(&self) -> Seq<ScalarValue> {
        self.members@
    }

    /// The number of buckets over which the members are spread.
    pub closed spec fn buckets_spec(&self) -> nat {
        self.buckets@.len()
    }

    /// The set with no member, with 16 buckets.
    pub fn new() -> (r: ScalarSet)
        ensures
            r@ == Set::<ScalarData>::empty(),
            r.members_spec().len() == 0,
            r.buckets_spec() == 16,
    {
        ScalarSet::with_capacity(16)
    }

    /// The set with no member, with a bucket for each of `capacity` members
    /// and at least one.
    pub fn with_capacity(capacity: usize) -> (r: ScalarSet)
        ensures
            r@ == Set::<ScalarData>::empty(),
            r.members_spec().len() == 0,
            r.buckets_spec() == if capacity == 0 {
                1
            } else {
                capacity as nat
            },
    {
        let mut buckets: Vec<Vec<usize>> = Vec::new();
        buckets.push(Vec::new());
        let mut i: usize = 1;
        while i < capacity
            invariant
                buckets@.len() == i,
                1 <= i,
                i == 1 || i <= capacity,
                forall|b: int| 0 <= b < buckets@.len() ==> (#[trigger] buckets@[b])@.len() == 0,
            decreases capacity - i,
        {
            buckets.push(Vec::new());
            i += 1;
        }
        let r = ScalarSet { members: Vec::new(), buckets };
        assert(r@ =~= Set::<ScalarData>::empty());
        r
    }

    /// The number of buckets over which the members are spread. It is
    /// settled when the set is made.
    pub fn num_buckets(&self) -> (r: usize)
        ensures
            r == self.buckets_spec(),
    {
        self.buckets.len()
    }

    /// The bucket of the key of `value`.
    fn bucket_of(&self, value: &ScalarValue) -> (r: usize)
        ensures
            r == slot(value@.key(), self.buckets@.len()),
            r < self.buckets@.len(),
    {
        proof {
            use_type_invariant(self);
        }
        (hash(value) % (self.buckets.len() as u64)) as usize
    }

    /// Whether a scalar with the key of `value` is a member.
    pub fn contains(&self, value: &ScalarValue) -> (r: bool)
        ensures
            r == self@.contains(value@.key()),
    {
        proof {
            use_type_invariant(self);
        }
        let b = self.bucket_of(value);
        let bucket = &self.buckets[b];
        let mut j: usize = 0;
        while j < bucket.len()
            invariant
                j <= bucket.len(),
                b < self.buckets@.len(),
                *bucket == self.buckets@[b as int],
                indexed(self.members@, self.buckets@),
                forall|k: int|
                    0 <= k < j ==> self.members@[(#[trigger] bucket@[k]) as int]@.key()
                        != value@.key(),
            decreases bucket.len() - j,
        {
            let i = bucket[j];
            assert(i == self.buckets@[b as int]@[j as int]);
            proof {
                self.members@[i as int]@.lemma_same_key(value@);
            }
            if self.members[i].same_key(value) {
                return true;
            }
            j += 1;
        }
        assert(!self@.contains(value@.key())) by {
            if self@.contains(value@.key()) {
                let i = choose|i: int|
                    0 <= i < self.members@.len() && self.members@[i]@.key() == value@.key();
                assert(lists(
                    self.buckets@[slot(self.members@[i]@.key(), self.buckets@.len())]@,
                    i,
                ));
                let k = choose|k: int| 0 <= k < bucket@.len() && #[trigger] bucket@[k] == i;
                assert(self.members@[bucket@[k] as int]@.key() != value@.key());
            }
        }
        false
    }

    /// The set with `value` added, unless a scalar with its key is a member
    /// already: then the set as it was.
    pub fn insert(self, value: ScalarValue) -> (r: ScalarSet)
        ensures
            r@ == self@.insert(value@.key()),
            r.members_spec() == if self@.contains(value@.key()) {
                self.members_spec()
            } else {
                self.members_spec().push(value)
            },
            r.buckets_spec() == self.buckets_spec(),
    {
        proof {
            use_type_invariant(&self);
        }
        if self.contains(&value) {
            assert(self@ =~= self@.insert(value@.key()));
            self
        } else {
            let b = self.bucket_of(&value);
            let ghost before = self.members@;
            let ghost old_buckets = self.buckets@;
            let ghost key = value@.key();
            assert(old_buckets.len() == self.buckets.len());
            let mut members = self.members;
            let mut buckets = self.buckets;
            let position = members.len();
            members.push(value);
            buckets[b].push(position);
            proof {
                let n = old_buckets.len();
                assert(buckets@.len() == n);
                assert forall|c: int| 0 <= c < n && c != b implies buckets@[c] == old_buckets[c] by {}
                assert(buckets@[b as int]@ == old_buckets[b as int]@.push(position));
                assert(keys_of(members@) =~= keys_of(before).insert(key)) by {
                    assert forall|k: ScalarData| keys_of(before).insert(key).contains(k)
                        implies keys_of(members@).contains(k) by {
                        if k == key {
                            assert(members@[before.len() as int]@.key() == k);
                        } else {
                            let i = choose|i: int| 0 <= i < before.len() && before[i]@.key() == k;
                            assert(members@[i]@.key() == k);
                        }
                    }
                }
                assert(distinct_keys(members@)) by {
                    assert forall|i: int, j: int| 0 <= i < j < members@.len() implies members@[i]@.key()
                        != members@[j]@.key() by {
                        if j == before.len() {
                            assert(before[i]@.key() == members@[i]@.key());
                            assert(!keys_of(before).contains(key));
                        }
                    }
                }
                assert(indexed(members@, buckets@)) by {
                    assert forall|c: int, j: int|
                        0 <= c < buckets@.len() && 0 <= j < buckets@[c]@.len() implies {
                        let i = #[trigger] buckets@[c]@[j];
                        i < members@.len() && slot(members@[i as int]@.key(), buckets@.len()) == c
                    } by {
                        if c == b && j == old_buckets[b as int]@.len() {
                        } else {
                            assert(buckets@[c]@[j] == old_buckets[c]@[j]);
                        }
                    }
                    assert forall|i: int| 0 <= i < members@.len() implies lists(
                        #[trigger] buckets@[slot(members@[i]@.key(), buckets@.len())]@,
                        i,
                    ) by {
                        let c = slot(members@[i]@.key(), buckets@.len());
                        assert(0 <= c < n);
                        if i == before.len() {
                            assert(c == b);
                            assert(buckets@[c]@[old_buckets[b as int]@.len() as int] == i);
                        } else {
                            assert(members@[i] == before[i]);
                            assert(lists(old_buckets[c]@, i));
                            let j = choose|j: int|
                                0 <= j < old_buckets[c]@.len() && #[trigger] old_buckets[c]@[j] == i;
                            assert(buckets@[c]@[j] == old_buckets[c]@[j]);
                        }
                    }
                }
            }
            ScalarSet { members, buckets }
        }
    }

    /// The number of members.
    pub fn len(&self) -> (r: usize)
        ensures
            r == self.members_spec().len(),
    {
        self.members.len()
    }

    /// The members, once each, in the order in which they came.
    pub fn members(&self) -> (r: &Vec<ScalarValue>)
        ensures
            r@ == self.members_spec(),
            keys_of(r@) == self@,
            distinct_keys(r@),
    {
        proof {
            use_type_invariant(self);
        }
        &self.members
    }
}

} // verus!
