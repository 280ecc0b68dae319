use crate::decode::TAG_LEN;
use vstd::prelude::*;

verus! {

/// How the expected bytes of a [`Memcmp`] predicate are written.
#[derive(Clone, Debug)]
pub enum MemcmpEncodedBytes {
    Binary(String),
    Base58(String),
    Base64(String),
    Bytes(Vec<u8>),
}

/// How the node should read the account data a predicate is matched against.
#[derive(Clone, Copy, Debug, PartialEq, Eq, Structural)]
pub enum MemcmpEncoding {
    Binary,
}

/// A predicate matching `bytes` against an account's data at `offset`.
#[derive(Clone, Debug)]
pub struct Memcmp {
    pub offset: usize,
    pub bytes: MemcmpEncodedBytes,
    pub encoding: Option<MemcmpEncoding>,
}

/// One server-side condition of an account query; all of a query's
/// conditions must hold.
#[derive(Clone, Debug)]
pub enum RpcFilterType {
    /// The account data is exactly this many bytes long.
    DataSize(u64),
    Memcmp(Memcmp),
}

/// The contents of [`MemcmpEncodedBytes`].
pub enum EncodedBytesView {
    Binary(Seq<char>),
    Base58(Seq<char>),
    Base64(Seq<char>),
    Bytes(Seq<u8>),
}

/// The contents of a [`Memcmp`].
pub struct MemcmpView {
    pub offset: usize,
    pub bytes: EncodedBytesView,
    pub encoding: Option<MemcmpEncoding>,
}

/// The contents of an [`RpcFilterType`].
pub enum FilterView {
    DataSize(u64),
    Memcmp(MemcmpView),
}

impl View for MemcmpEncodedBytes {
    type V = EncodedBytesView;

    open spec fn view(&self) -> EncodedBytesView {
        match self {
            MemcmpEncodedBytes::Binary(s) => EncodedBytesView::Binary(s@),
            MemcmpEncodedBytes::Base58(s) => EncodedBytesView::Base58(s@),
            MemcmpEncodedBytes::Base64(s) => EncodedBytesView::Base64(s@),
            MemcmpEncodedBytes::Bytes(b) => EncodedBytesView::Bytes(b@),
        }
    }
}

impl View for Memcmp {
    type V = MemcmpView;

    open spec fn view(&self) -> MemcmpView {
        MemcmpView { offset: self.offset, bytes: self.bytes@, encoding: self.encoding }
    }
}

impl View for RpcFilterType {
    type V = FilterView;

    open spec fn view(&self) -> FilterView {
        match self {
            RpcFilterType::DataSize(n) => FilterView::DataSize(*n),
            RpcFilterType::Memcmp(m) => FilterView::Memcmp(m@),
        }
    }
}

impl MemcmpEncodedBytes {
    /// A copy with the same contents.
    pub fn copied(&self) -> (r: MemcmpEncodedBytes)
        ensures
            r@ == self@,
    {
        match self {
            MemcmpEncodedBytes::Binary(s) => MemcmpEncodedBytes::Binary(s.clone()),
            MemcmpEncodedBytes::Base58(s) => MemcmpEncodedBytes::Base58(s.clone()),
            MemcmpEncodedBytes::Base64(s) => MemcmpEncodedBytes::Base64(s.clone()),
            MemcmpEncodedBytes::Bytes(b) => {
                let mut out: Vec<u8> = Vec::new();
                let mut i: usize = 0;
                while i < b.len()
                    invariant
                        i <= b@.len(),
                        out@ == b@.subrange(0, i as int),
                    decreases b@.len() - i,
                {
                    out.push(b[i]);
                    proof {
                        assert(b@.subrange(0, i + 1) =~= b@.subrange(0, i as int).push(b@[i as int]));
                    }
                    i = i + 1;
                }
                proof {
                    assert(b@.subrange(0, b@.len() as int) =~= b@);
                }
                MemcmpEncodedBytes::Bytes(out)
            },
        }
    }
}

impl Memcmp {
    /// A copy with the same contents.
    pub fn copied(&self) -> (r: Memcmp)
        ensures
            r@ == self@,
    {
        Memcmp { offset: self.offset, bytes: self.bytes.copied(), encoding: self.encoding }
    }
}

/// Why the filter set of a query could not be built.
#[derive(Clone, Copy, Debug, PartialEq, Eq, Structural)]
pub enum FilterError {
    /// The tag and the payload together are longer than a `u64` can count.
    SizeOverflow,
}

/// The base58 text of a byte string.
pub uninterp spec fn base58_of(bytes: Seq<u8>) -> Seq<char>;

/// Relies on `bs58::encode(..).into_string()`: the base58 text of the bytes,
/// in the Bitcoin alphabet.
#[verifier::external_body]
fn base58(bytes: &[u8]) -> (r: String)
    ensures
        r@ == base58_of(bytes@),
{
    bs58::encode(bytes).into_string()
}

/// The predicate that a record's type tag opens its data.
pub open spec fn tag_filter(tag: Seq<u8>) -> FilterView {
    FilterView::Memcmp(
        MemcmpView {
            offset: 0,
            bytes: EncodedBytesView::Base58(base58_of(tag)),
            encoding: Some(MemcmpEncoding::Binary),
        },
    )
}

/// The full filter set of a query for records with type tag `tag` and a
/// payload of `payload_size` bytes: the exact size, the tag at offset 0, then
/// the caller's predicates in their order.
pub open spec fn account_filters_spec(
    tag: Seq<u8>,
    payload_size: u64,
    callers: Seq<MemcmpView>,
) -> Seq<FilterView> {
    seq![
        FilterView::DataSize(((TAG_LEN as u64) + payload_size) as u64),
        tag_filter(tag),
    ] + callers.map_values(|m: MemcmpView| FilterView::Memcmp(m))
}

/// The contents of each predicate, in order.
pub open spec fn memcmp_views(filters: Seq<Memcmp>) -> Seq<MemcmpView> {
    filters.map_values(|m: Memcmp| m@)
}

/// The contents of each filter, in order.
pub open spec fn filter_views(filters: Seq<RpcFilterType>) -> Seq<FilterView> {
    filters.map_values(|f: RpcFilterType| f@)
}

/// Builds the filter set of a query for records tagged `discriminator` whose
/// payload is `payload_size` bytes long, with the caller's predicates appended.
pub fn account_filters(discriminator: &[u8; 8], payload_size: u64, filters: &[Memcmp]) -> (r:
    Result<Vec<RpcFilterType>, FilterError>)
    ensures
        r is Err <==> payload_size > u64::MAX - (TAG_LEN as u64),
        r matches Ok(v) ==> filter_views(v@) == account_filters_spec(
            discriminator@,
            payload_size,
            memcmp_views(filters@),
        ),
{
    if payload_size > u64::MAX - (TAG_LEN as u64) {
        return Err(FilterError::SizeOverflow);
    }
    let tag = base58(discriminator.as_slice());
    let mut out: Vec<RpcFilterType> = Vec::new();
    out.push(RpcFilterType::DataSize((TAG_LEN as u64) + payload_size));
    out.push(
        RpcFilterType::Memcmp(
            Memcmp {
                offset: 0,
                bytes: MemcmpEncodedBytes::Base58(tag),
                encoding: Some(MemcmpEncoding::Binary),
            },
        ),
    );
    let ghost head = seq![
        FilterView::DataSize(((TAG_LEN as u64) + payload_size) as u64),
        tag_filter(discriminator@),
    ];
    let ghost callers = memcmp_views(filters@).map_values(|m: MemcmpView| FilterView::Memcmp(m));
    proof {
        assert(filter_views(out@) =~= head);
    }
    let mut i: usize = 0;
    while i < filters.len()
        invariant
            i <= filters@.len(),
            callers == memcmp_views(filters@).map_values(|m: MemcmpView| FilterView::Memcmp(m)),
            filter_views(out@) == head + callers.subrange(0, i as int),
        decreases filters@.len() - i,
    {
        let f = filters[i].copied();
        let ghost before = out@;
        out.push(RpcFilterType::Memcmp(f));
        proof {
            assert(memcmp_views(filters@)[i as int] == filters@[i as int]@);
            assert(callers[i as int] == FilterView::Memcmp(filters@[i as int]@));
            assert(filter_views(out@) =~= filter_views(before).push(FilterView::Memcmp(f@)));
            assert(callers.subrange(0, i + 1) =~= callers.subrange(0, i as int).push(callers[i as int]));
            assert(filter_views(out@) =~= head + callers.subrange(0, i + 1));
        }
        i = i + 1;
    }
    proof {
        assert(callers.subrange(0, filters@.len() as int) =~= callers);
    }
    Ok(out)
}

/// Whatever predicates the caller adds, the filter set holds exactly one size
/// condition, in first place, equal to the tag width plus the payload size; in
/// second place the tag condition at offset 0; after them the caller's
/// predicates in their order. A later entry is the tag condition only where
/// the caller supplied that very predicate.
pub proof fn lemma_filter_set_shape(tag: Seq<u8>, payload_size: u64, callers: Seq<MemcmpView>)
    requires
        payload_size <= u64::MAX - (TAG_LEN as u64),
    ensures
        account_filters_spec(tag, payload_size, callers).len() == callers.len() + 2,
        account_filters_spec(tag, payload_size, callers)[0] == FilterView::DataSize(
            ((TAG_LEN as u64) + payload_size) as u64,
        ),
        forall|i: int|
            1 <= i < callers.len() + 2 ==> !(#[trigger] account_filters_spec(
                tag,
                payload_size,
                callers,
            )[i] is DataSize),
        account_filters_spec(tag, payload_size, callers)[1] == tag_filter(tag),
        forall|i: int|
            2 <= i < callers.len() + 2 ==> #[trigger] account_filters_spec(
                tag,
                payload_size,
                callers,
            )[i] == FilterView::Memcmp(callers[i - 2]),
        forall|i: int|
            2 <= i < callers.len() + 2 && #[trigger] account_filters_spec(tag, payload_size, callers)[i]
                == tag_filter(tag) ==> FilterView::Memcmp(callers[i - 2]) == tag_filter(tag),
{
    let f = account_filters_spec(tag, payload_size, callers);
    assert forall|i: int| 2 <= i < callers.len() + 2 implies f[i] == FilterView::Memcmp(
        callers[i - 2],
    ) by {}
}

} // verus!
