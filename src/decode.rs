use crate::address::Address;
use vstd::prelude::*;

verus! {

/// Width of the type tag that opens every stored record.
pub const TAG_LEN: usize = 8;

/// Why a fetched record could not be decoded.
#[derive(Clone, Copy, Debug, PartialEq, Eq, Structural)]
pub enum DecodeError {
    /// The data is too short to hold a type tag.
    DiscriminatorNotFound,
    /// The data opens with another type's tag.
    DiscriminatorMismatch,
    /// The payload after the tag does not decode as the record type.
    DidNotDeserialize,
}

/// What checking the type tag of `data` against `tag` gives: the payload after
/// the tag, or the reason it is refused.
pub open spec fn strip_discriminator_spec(data: Seq<u8>, tag: Seq<u8>) -> Result<
    Seq<u8>,
    DecodeError,
> {
    if data.len() < TAG_LEN {
        Err(DecodeError::DiscriminatorNotFound)
    } else if data.subrange(0, TAG_LEN as int) != tag {
        Err(DecodeError::DiscriminatorMismatch)
    } else {
        Ok(data.subrange(TAG_LEN as int, data.len() as int))
    }
}

/// Checks that `data` opens with the type tag `tag` and returns the payload
/// that follows it.
pub fn strip_discriminator<'a>(data: &'a [u8], tag: &[u8; 8]) -> (r: Result<&'a [u8], DecodeError>)
    ensures
        r matches Ok(p) ==> strip_discriminator_spec(data@, tag@) == Ok::<_, DecodeError>(p@),
        r matches Err(e) ==> strip_discriminator_spec(data@, tag@) == Err::<Seq<u8>, _>(e),
{
    if data.len() < TAG_LEN {
        return Err(DecodeError::DiscriminatorNotFound);
    }
    let mut i: usize = 0;
    while i < TAG_LEN
        invariant
            i <= TAG_LEN,
            data@.len() >= TAG_LEN,
            tag@.len() == TAG_LEN,
            data@.subrange(0, i as int) == tag@.subrange(0, i as int),
        decreases TAG_LEN - i,
    {
        if data[i] != tag[i] {
            proof {
                assert(data@.subrange(0, TAG_LEN as int)[i as int] != tag@[i as int]);
            }
            return Err(DecodeError::DiscriminatorMismatch);
        }
        proof {
            assert(data@.subrange(0, i + 1) =~= data@.subrange(0, i as int).push(data@[i as int]));
            assert(tag@.subrange(0, i + 1) =~= tag@.subrange(0, i as int).push(tag@[i as int]));
        }
        i = i + 1;
    }
    proof {
        assert(tag@.subrange(0, TAG_LEN as int) =~= tag@);
    }
    Ok(&data[TAG_LEN..data.len()])
}

/// The bytes of a fixed-layout record's value: what follows its type tag.
/// The length must be exactly the tag width plus the layout's size.
pub fn fixed_payload(data: &[u8], payload_size: usize) -> (r: &[u8])
    requires
        data@.len() == TAG_LEN + payload_size,
    ensures
        r@ == data@.subrange(TAG_LEN as int, data@.len() as int),
        r@.len() == payload_size,
{
    &data[TAG_LEN..data.len()]
}

/// Keeps the address of an entry and the value it decoded to.
pub open spec fn decoded_entry<T>(e: (Address, Result<T, DecodeError>)) -> (Address, T) {
    (e.0, e.1->Ok_0)
}

/// Collects a batch of decoded records. The batch succeeds only if every
/// record decoded; then each address keeps its value and the order is kept.
/// Otherwise the error of the first record that failed is returned and the
/// rest is dropped.
pub fn collect_decoded<T>(decoded: Vec<(Address, Result<T, DecodeError>)>) -> (r: Result<
    Vec<(Address, T)>,
    DecodeError,
>)
    ensures
        r is Ok <==> forall|i: int| 0 <= i < decoded@.len() ==> (#[trigger] decoded@[i]).1 is Ok,
        r matches Ok(v) ==> v@.len() == decoded@.len() && forall|i: int|
            0 <= i < decoded@.len() ==> #[trigger] v@[i] == decoded_entry(decoded@[i]),
        r matches Err(e) ==> exists|i: int|
            0 <= i < decoded@.len() && (#[trigger] decoded@[i]).1 == Err::<T, _>(e) && forall|
                j: int,
            |
                0 <= j < i ==> (#[trigger] decoded@[j]).1 is Ok,
{
    let ghost orig = decoded@;
    let ghost n = decoded@.len();
    let mut rest = decoded;
    let mut reversed: Vec<(Address, T)> = Vec::new();
    let mut first_err: Option<DecodeError> = None;
    while rest.len() > 0
        invariant
            n == orig.len(),
            rest@ == orig.subrange(0, rest@.len() as int),
            first_err is None ==> forall|j: int| rest@.len() <= j < n ==> (#[trigger] orig[j]).1 is Ok,
            first_err is None ==> reversed@.len() == n - rest@.len(),
            first_err is None ==> forall|t: int|
                0 <= t < reversed@.len() ==> #[trigger] reversed@[t] == decoded_entry(orig[n - 1 - t]),
            first_err matches Some(e) ==> exists|j: int|
                rest@.len() <= j < n && (#[trigger] orig[j]).1 == Err::<T, _>(e) && forall|k: int|
                    rest@.len() <= k < j ==> (#[trigger] orig[k]).1 is Ok,
        decreases rest@.len(),
    {
        let ghost k = rest@.len() - 1;
        let entry = rest.pop().unwrap();
        proof {
            assert(entry == orig[k]);
            assert(rest@ =~= orig.subrange(0, k));
        }
        let (address, result) = entry;
        match result {
            Ok(value) => {
                if first_err.is_none() {
                    reversed.push((address, value));
                }
                proof {
                    if let Some(e) = first_err {
                        let j = choose|j: int|
                            k + 1 <= j < n && (#[trigger] orig[j]).1 == Err::<T, _>(e) && forall|
                                q: int,
                            |
                                k + 1 <= q < j ==> (#[trigger] orig[q]).1 is Ok;
                        assert(k <= j < n && orig[j].1 == Err::<T, _>(e) && forall|q: int|
                            k <= q < j ==> (#[trigger] orig[q]).1 is Ok);
                    }
                }
            },
            Err(e) => {
                first_err = Some(e);
                proof {
                    assert(orig[k].1 == Err::<T, _>(e));
                }
            },
        }
    }
    if let Some(e) = first_err {
        return Err(e);
    }
    let mut out: Vec<(Address, T)> = Vec::new();
    while reversed.len() > 0
        invariant
            n == orig.len(),
            reversed@.len() + out@.len() == n,
            forall|t: int|
                0 <= t < reversed@.len() ==> #[trigger] reversed@[t] == decoded_entry(orig[n - 1 - t]),
            forall|t: int| 0 <= t < out@.len() ==> #[trigger] out@[t] == decoded_entry(orig[t]),
        decreases reversed@.len(),
    {
        let entry = reversed.pop().unwrap();
        out.push(entry);
    }
    Ok(out)
}

/// A record written as its type tag followed by a payload passes the tag
/// check, and the check hands back exactly that payload.
pub proof fn lemma_tagged_payload_round_trip(tag: Seq<u8>, payload: Seq<u8>)
    requires
        tag.len() == TAG_LEN,
    ensures
        strip_discriminator_spec(tag + payload, tag) == Ok::<_, DecodeError>(payload),
{
    assert((tag + payload).subrange(0, TAG_LEN as int) =~= tag);
    assert((tag + payload).subrange(TAG_LEN as int, (tag + payload).len() as int) =~= payload);
}

} // verus!
