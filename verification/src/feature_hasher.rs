//! Feature hasher: a deterministic, order-independent mapping from nullable
//! strings to a bounded set of integer bucket ids, with bucket 0 reserved for
//! missing values (the "hashing trick").

use vstd::prelude::*;

use crate::errors::KernelError;

verus! {

/// What the 128-bit fixed-seed hash returns for a given string. The hash is a
/// pure function of the string's bytes, so the same string yields the same
/// value in every call, process and machine; nothing more is assumed of it.
pub uninterp spec fn murmur3_128_of(s: Seq<char>) -> u128;

/// Relies on fastmurmur3::hash: a 128-bit MurmurHash3 (x64 variant) of the
/// string's UTF-8 bytes, with a fixed zero seed and no process-randomized
/// state — a pure function of the bytes, hence of the string, alone.
#[verifier::external_body]
fn murmur3_128(s: &str) -> (r: u128)
    ensures
        r == murmur3_128_of(s@),
{
    fastmurmur3::hash(s.as_bytes())
}

/// The hash parameter record: the number of buckets, at least 2.
#[derive(Clone, Copy, Debug, PartialEq, Eq, Structural)]
pub struct FeatureHasherKwargs {
    pub num_buckets: i64,
}

/// The bucket a present string maps to: the wide hash reduced modulo
/// `num_buckets - 1`, shifted up by one so that bucket 0 stays reserved for
/// missing values.
pub open spec fn bucket_of(s: Seq<char>, num_buckets: int) -> int
    recommends
        num_buckets > 1,
{
    (murmur3_128_of(s) as int) % (num_buckets - 1) + 1
}

/// The bucket for one input position: 0 for a null, `bucket_of` for a string.
pub open spec fn hash_element(v: Option<Seq<char>>, num_buckets: int) -> int {
    match v {
        Option::None => 0,
        Option::Some(s) => bucket_of(s, num_buckets),
    }
}

/// Hash determinism: the bucket depends on nothing but the element and the
/// bucket count, so equal elements — at any two positions of any two columns,
/// in any two calls — get equal buckets.
pub proof fn lemma_hash_deterministic(
    a: Seq<Option<Seq<char>>>,
    b: Seq<Option<Seq<char>>>,
    i: int,
    j: int,
    num_buckets: int,
)
    requires
        0 <= i < a.len(),
        0 <= j < b.len(),
        a[i] == b[j],
    ensures
        hash_element(a[i], num_buckets) == hash_element(b[j], num_buckets),
{
}

/// Hash range: a present string lands in [1, num_buckets - 1]; a null lands
/// on the reserved bucket 0 — so an output is 0 exactly on the nulls.
pub proof fn lemma_hash_range(v: Option<Seq<char>>, num_buckets: int)
    requires
        num_buckets > 1,
    ensures
        v is Some ==> 1 <= hash_element(v, num_buckets) <= num_buckets - 1,
        v is None ==> hash_element(v, num_buckets) == 0,
{
    if v is Some {
        let h = murmur3_128_of(v->0) as int;
        let d = num_buckets - 1;
        assert(0 <= h % d < d) by (nonlinear_arith)
            requires
                h >= 0,
                d >= 1,
        ;
    }
}

/// With exactly two buckets every present string maps to bucket 1: the
/// reduction is modulo 1, which is always 0, plus 1.
pub proof fn lemma_two_buckets(s: Seq<char>)
    ensures
        bucket_of(s, 2) == 1,
{
    let h = murmur3_128_of(s) as int;
    assert(h % 1 == 0) by (nonlinear_arith)
        requires
            h >= 0,
    ;
}

/// The full hash call: validates the bucket count, then maps every element
/// independently.
///
/// Fails with `InvalidParameter`, before hashing any element, exactly when
/// `num_buckets` is less than 2. On success the output has the input's
/// length and no nulls: a null input position yields the reserved bucket 0,
/// a present string its `bucket_of` value in [1, num_buckets - 1].
pub fn feature_hasher(values: &Vec<Option<String>>, kwargs: FeatureHasherKwargs) -> (r: Result<
    Vec<u64>,
    KernelError,
>)
    ensures
        r is Err <==> kwargs.num_buckets <= 1,
        r is Err ==> r->Err_0 == KernelError::InvalidParameter,
        r is Ok ==> r->Ok_0@.len() == values@.len(),
        r is Ok ==> forall|i: int|
            0 <= i < values@.len() ==> (#[trigger] r->Ok_0@[i]) as int == hash_element(
                values.deep_view()[i],
                kwargs.num_buckets as int,
            ),
{
    let num_buckets = kwargs.num_buckets;
    if num_buckets <= 1 {
        return Err(KernelError::InvalidParameter);
    }
    let divisor: u128 = (num_buckets - 1) as u128;
    let mut out: Vec<u64> = Vec::new();
    let mut i: usize = 0;
    while i < values.len()
        invariant
            num_buckets > 1,
            divisor == num_buckets - 1,
            i <= values@.len(),
            out@.len() == i,
            forall|k: int|
                0 <= k < i ==> (#[trigger] out@[k]) as int == hash_element(
                    values.deep_view()[k],
                    num_buckets as int,
                ),
        decreases values@.len() - i,
    {
        proof {
            assert(values.deep_view()[i as int] == match values@[i as int] {
                Option::None => Option::<Seq<char>>::None,
                Option::Some(s) => Option::Some(s@),
            });
        }
        match &values[i] {
            Some(s) => {
                let h: u128 = murmur3_128(s.as_str());
                proof {
                    assert(0 <= h % divisor < divisor) by (nonlinear_arith)
                        requires
                            divisor >= 1,
                    ;
                }
                let index: u128 = h % divisor + 1;
                out.push(index as u64);
            },
            None => {
                out.push(0u64);
            },
        }
        i += 1;
    }
    Ok(out)
}

} // verus!
