//! Reader of the Token-2022 `TokenMetadata` TLV entry payload. The strings
//! and the additional metadata are borrowed from the data; the two addresses
//! are copied.
//!
//! On-chain data layout (inside the Token-2022 TLV entry):
//! - `[0..32]:   update_authority (Address)`
//! - `[32..64]:  mint (Address)`
//! - `[64..68]:  name_len (u32 LE)`, then `name` (UTF-8)
//! - `symbol_len (u32 LE)`, then `symbol` (UTF-8)
//! - `uri_len (u32 LE)`, then `uri` (UTF-8)
//! - `pair_count (u32 LE)`, the number of key-value pairs
//! - for each pair: `key_len (u32 LE) + key`, then `value_len (u32 LE) + value`
use crate::codec::{le_u32_bytes, length_prefixed, lemma_le_u32_roundtrip, read_le_u32, read_u32_le};
use crate::error::TokenError;
use vstd::prelude::*;
use vstd::slice::slice_subrange;
use vstd::string::StringSliceAdditionalSpecFns;
use vstd::utf8::valid_utf8;

verus! {

/// Byte offset of the first variable-length field (`name`).
pub const FIRST_VARLEN_OFFSET: usize = 64;

/// Number of length-prefixed string fields (`name`, `symbol`, `uri`).
pub const STRING_FIELDS: usize = 3;

/// End of the length-prefixed field whose `u32` length starts at `off`.
pub open spec fn field_end(s: Seq<u8>, off: int) -> int {
    off + 4 + read_le_u32(s, off)
}

/// Start (of the length prefix) of the `k`-th string field: `0` is `name`,
/// `1` is `symbol`, `2` is `uri`, and `3` is where `pair_count` begins.
pub open spec fn field_offset(s: Seq<u8>, k: nat) -> int
    decreases k,
{
    if k == 0 {
        FIRST_VARLEN_OFFSET as int
    } else {
        field_end(s, field_offset(s, (k - 1) as nat))
    }
}

/// The length prefix at `off` and the bytes it announces lie inside `s`.
pub open spec fn field_fits(s: Seq<u8>, off: int) -> bool {
    &&& off + 4 <= s.len()
    &&& field_end(s, off) <= s.len()
}

/// The bytes of the length-prefixed field at `off`.
pub open spec fn field_bytes(s: Seq<u8>, off: int) -> Seq<u8> {
    s.subrange(off + 4, field_end(s, off))
}

/// `s` holds a complete metadata layout: at least `MIN_LEN` bytes, the three
/// string fields inside the data, and room for the `pair_count` prefix.
pub open spec fn is_valid_metadata(s: Seq<u8>) -> bool {
    &&& s.len() >= Metadata::MIN_LEN
    &&& forall|k: nat| k < STRING_FIELDS ==> #[trigger] field_fits(s, field_offset(s, k))
    &&& field_offset(s, STRING_FIELDS as nat) + 4 <= s.len()
}

/// The fields of a metadata payload, as byte sequences.
pub struct MetadataView {
    pub update_authority: Seq<u8>,
    pub mint: Seq<u8>,
    pub name: Seq<u8>,
    pub symbol: Seq<u8>,
    pub uri: Seq<u8>,
    /// Key-value pair bytes, after the `pair_count` prefix, up to the end of the data.
    pub additional_metadata: Seq<u8>,
}

/// What a metadata payload `s` holds, read by the documented layout.
pub open spec fn parse_metadata(s: Seq<u8>) -> MetadataView {
    MetadataView {
        update_authority: s.subrange(0, 32),
        mint: s.subrange(32, 64),
        name: field_bytes(s, field_offset(s, 0)),
        symbol: field_bytes(s, field_offset(s, 1)),
        uri: field_bytes(s, field_offset(s, 2)),
        additional_metadata: s.subrange(field_offset(s, 3) + 4, s.len() as int),
    }
}

/// The key and value bounds `(key_start, key_end, value_start, value_end)` of
/// the pair encoded at `off`, or `None` when the bytes left cannot hold a
/// complete pair.
pub open spec fn next_pair(s: Seq<u8>, off: int) -> Option<(int, int, int, int)> {
    if s.len() - off < 8 {
        None
    } else {
        let key_start = off + 4;
        let key_end = key_start + read_le_u32(s, off);
        if key_end + 4 > s.len() {
            None
        } else {
            let value_start = key_end + 4;
            let value_end = value_start + read_le_u32(s, key_end);
            if value_end > s.len() {
                None
            } else {
                Some((key_start, key_end, value_start, value_end))
            }
        }
    }
}

/// The key-value pairs encoded in `s` from `off` on, up to the first
/// incomplete pair.
pub open spec fn pairs_from(s: Seq<u8>, off: int) -> Seq<(Seq<u8>, Seq<u8>)>
    decreases s.len() - off,
{
    match next_pair(s, off) {
        None => Seq::empty(),
        Some((ks, ke, vs, ve)) => seq![(s.subrange(ks, ke), s.subrange(vs, ve))] + pairs_from(s, ve),
    }
}

/// View into token metadata account data.
///
/// This struct represents the TLV entry payload of Token-2022's
/// `TokenMetadata` extension. Callers first extract the TLV entry data from
/// the account, then pass it to [`Metadata::from_bytes`]. The strings and the
/// additional metadata borrow the data; the two addresses are copied.
pub struct Metadata<'a> {
    /// Authority that can update the metadata.
    update_authority: [u8; 32],
    /// Mint associated with this metadata.
    mint: [u8; 32],
    /// Token name (raw bytes, UTF-8 guaranteed by the Token-2022 program).
    name: &'a [u8],
    /// Token symbol (raw bytes).
    symbol: &'a [u8],
    /// Token URI (raw bytes).
    uri: &'a [u8],
    /// Additional metadata (raw key-value pairs, without the pair count).
    additional_metadata: &'a [u8],
}

impl<'a> View for Metadata<'a> {
    type V = MetadataView;

    closed spec fn view(&self) -> MetadataView {
        MetadataView {
            update_authority: self.update_authority@,
            mint: self.mint@,
            name: self.name@,
            symbol: self.symbol@,
            uri: self.uri@,
            additional_metadata: self.additional_metadata@,
        }
    }
}

/// The string whose UTF-8 encoding is `bytes`, from `core::str::from_utf8`,
/// which succeeds exactly when `bytes` is valid UTF-8 and then borrows
/// `bytes` as the string.
#[verifier::external_body]
fn str_from_utf8<'a>(bytes: &'a [u8]) -> (r: Option<&'a str>)
    ensures
        r is Some <==> valid_utf8(bytes@),
        r matches Some(s) ==> s.spec_bytes() == bytes@,
{
    core::str::from_utf8(bytes).ok()
}

/// The string `bytes` encodes; the caller provides valid UTF-8.
fn utf8_str<'a>(bytes: &'a [u8]) -> (r: &'a str)
    requires
        valid_utf8(bytes@),
    ensures
        r.spec_bytes() == bytes@,
{
    match str_from_utf8(bytes) {
        Some(s) => s,
        None => {
            proof {
                assert(false);
            }
            ""
        },
    }
}

/// Copies `data[start..start + 32]` into an array.
fn read_address(data: &[u8], start: usize) -> (r: [u8; 32])
    requires
        start + 32 <= data@.len(),
    ensures
        r@ == data@.subrange(start as int, start + 32),
{
    let mut r = [0u8; 32];
    let n = data.len();
    let mut i: usize = 0;
    while i < 32
        invariant
            i <= 32,
            n == data@.len(),
            start + 32 <= data@.len(),
            r@.len() == 32,
            forall|j: int| 0 <= j < i ==> r@[j] == data@[start + j],
        decreases 32 - i,
    {
        r[i] = data[start + i];
        i = i + 1;
    }
    assert(r@ =~= data@.subrange(start as int, start + 32));
    r
}

impl<'a> Metadata<'a> {
    /// Minimum data size: `32 (update_authority) + 32 (mint) + 4 (name_len) +
    /// 4 (symbol_len) + 4 (uri_len) + 4 (pair_count) = 80` bytes.
    pub const MIN_LEN: usize = 80;

    /// Reads the length-prefixed field whose `u32` length starts at `offset`.
    ///
    /// Returns the field bytes and the offset just past them.
    fn read_field(data: &'a [u8], offset: usize) -> (r: (&'a [u8], usize))
        requires
            field_fits(data@, offset as int),
        ensures
            r.0@ == field_bytes(data@, offset as int),
            r.1 == field_end(data@, offset as int),
    {
        // The slice's length fits in `usize`, and so does every offset within it.
        assert(data@.len() == data.len());
        let len = read_u32_le(data, offset) as usize;
        let start = offset + 4;
        (slice_subrange(data, start, start + len), start + len)
    }

    /// Creates a validated `Metadata` view from raw bytes.
    ///
    /// Validates the minimum length and that all declared variable-length
    /// field sizes fit within the data. Does not validate UTF-8. Bytes after
    /// the `pair_count` prefix, trailing data included, become the additional
    /// metadata.
    pub fn from_bytes(data: &'a [u8]) -> (r: Result<Metadata<'a>, TokenError>)
        ensures
            r is Ok <==> is_valid_metadata(data@),
            r matches Ok(m) ==> m@ == parse_metadata(data@),
            r matches Err(e) ==> e == TokenError::InvalidAccountData,
    {
        if data.len() < Self::MIN_LEN {
            return Err(TokenError::InvalidAccountData);
        }
        let mut offset: usize = FIRST_VARLEN_OFFSET;
        let mut k: usize = 0;
        while k < STRING_FIELDS
            invariant
                k <= STRING_FIELDS,
                data@.len() >= Self::MIN_LEN,
                offset <= data@.len(),
                offset == field_offset(data@, k as nat),
                forall|j: nat| j < k ==> #[trigger] field_fits(data@, field_offset(data@, j)),
            decreases STRING_FIELDS - k,
        {
            if offset > data.len() - 4 {
                assert(!field_fits(data@, field_offset(data@, k as nat)));
                return Err(TokenError::InvalidAccountData);
            }
            let field_len = read_u32_le(data, offset) as usize;
            let start = offset + 4;
            if field_len > data.len() - start {
                assert(!field_fits(data@, field_offset(data@, k as nat)));
                return Err(TokenError::InvalidAccountData);
            }
            offset = start + field_len;
            k = k + 1;
        }
        if offset > data.len() - 4 {
            return Err(TokenError::InvalidAccountData);
        }
        Ok(Self::from_bytes_unchecked(data))
    }

    /// Creates a `Metadata` view without validating the layout; the caller
    /// provides data that [`Metadata::from_bytes`] accepts.
    pub fn from_bytes_unchecked(data: &'a [u8]) -> (m: Metadata<'a>)
        requires
            is_valid_metadata(data@),
        ensures
            m@ == parse_metadata(data@),
    {
        let ghost s = data@;
        assert(field_fits(s, field_offset(s, 0)));
        assert(field_fits(s, field_offset(s, 1)));
        assert(field_fits(s, field_offset(s, 2)));
        let (name, offset) = Self::read_field(data, FIRST_VARLEN_OFFSET);
        let (symbol, offset) = Self::read_field(data, offset);
        let (uri, offset) = Self::read_field(data, offset);
        assert(data@.len() == data.len());
        let additional_metadata = slice_subrange(data, offset + 4, data.len());
        Metadata {
            update_authority: read_address(data, 0),
            mint: read_address(data, 32),
            name,
            symbol,
            uri,
            additional_metadata,
        }
    }

    /// The authority that can update the metadata.
    pub fn update_authority(&self) -> (r: &[u8; 32])
        ensures
            r@ == self@.update_authority,
    {
        &self.update_authority
    }

    /// The mint associated with this metadata.
    pub fn mint(&self) -> (r: &[u8; 32])
        ensures
            r@ == self@.mint,
    {
        &self.mint
    }

    /// Token name as raw bytes.
    pub fn name(&self) -> (r: &'a [u8])
        ensures
            r@ == self@.name,
    {
        self.name
    }

    /// Token symbol as raw bytes.
    pub fn symbol(&self) -> (r: &'a [u8])
        ensures
            r@ == self@.symbol,
    {
        self.symbol
    }

    /// Token URI as raw bytes.
    pub fn uri(&self) -> (r: &'a [u8])
        ensures
            r@ == self@.uri,
    {
        self.uri
    }

    /// Raw additional metadata bytes (key-value pairs without the pair count
    /// prefix).
    pub fn additional_metadata(&self) -> (r: &'a [u8])
        ensures
            r@ == self@.additional_metadata,
    {
        self.additional_metadata
    }

    /// Return the token name as a UTF-8 string; the name bytes are valid
    /// UTF-8, as the Token-2022 program writes them.
    pub fn name_as_str_unchecked(&self) -> (r: &'a str)
        requires
            valid_utf8(self@.name),
        ensures
            r.spec_bytes() == self@.name,
    {
        utf8_str(self.name)
    }

    /// Return the token symbol as a UTF-8 string; the symbol bytes are valid
    /// UTF-8, as the Token-2022 program writes them.
    pub fn symbol_as_str_unchecked(&self) -> (r: &'a str)
        requires
            valid_utf8(self@.symbol),
        ensures
            r.spec_bytes() == self@.symbol,
    {
        utf8_str(self.symbol)
    }

    /// Return the token URI as a UTF-8 string; the URI bytes are valid
    /// UTF-8, as the Token-2022 program writes them.
    pub fn uri_as_str_unchecked(&self) -> (r: &'a str)
        requires
            valid_utf8(self@.uri),
        ensures
            r.spec_bytes() == self@.uri,
    {
        utf8_str(self.uri)
    }

    /// An iterator over the additional metadata key-value pairs; it stops
    /// when the remaining data is too short to contain another complete pair.
    pub fn additional_metadata_iter(&self) -> (it: AdditionalMetadataIterator<'a>)
        ensures
            it@ == pairs_from(self@.additional_metadata, 0),
            it.rest() == self@.additional_metadata,
    {
        let it = AdditionalMetadataIterator { data: self.additional_metadata, offset: 0 };
        assert(it.rest() =~= self@.additional_metadata);
        it
    }
}

/// Zero-copy iterator over additional metadata key-value pairs.
///
/// Yields `(key, value)` byte slices. Stops when the remaining bytes cannot
/// form a complete pair.
pub struct AdditionalMetadataIterator<'a> {
    data: &'a [u8],
    offset: usize,
}

impl<'a> View for AdditionalMetadataIterator<'a> {
    /// The pairs that are still to be yielded.
    type V = Seq<(Seq<u8>, Seq<u8>)>;

    closed spec fn view(&self) -> Seq<(Seq<u8>, Seq<u8>)> {
        pairs_from(self.rest(), 0)
    }
}

impl<'a> AdditionalMetadataIterator<'a> {
    #[verifier::type_invariant]
    closed spec fn offset_in_bounds(self) -> bool {
        self.offset <= self.data@.len()
    }

    /// The bytes not yet consumed.
    pub closed spec fn rest(&self) -> Seq<u8> {
        self.data@.subrange(self.offset as int, self.data@.len() as int)
    }

    /// Yields the next key-value pair, or `None` once the remaining bytes
    /// cannot hold a complete pair (and from then on).
    ///
    /// With `r` the bytes not yet consumed, `kl` the `u32` at `r[0..4]` and
    /// `vl` the `u32` at `r[4 + kl..8 + kl]`: when `r` holds at least 8 bytes,
    /// `8 + kl <= r.len()` and `8 + kl + vl <= r.len()`, the pair is
    /// `(r[4..4 + kl], r[8 + kl..8 + kl + vl])` and the bytes after it are
    /// left; otherwise the result is `None` and nothing is consumed.
    pub fn next(&mut self) -> (r: Option<(&'a [u8], &'a [u8])>)
        ensures
            match next_pair(old(self).rest(), 0) {
                None => r is None && final(self).rest() == old(self).rest(),
                Some((ks, ke, vs, ve)) => {
                    &&& r matches Some(p)
                    &&& p.0@ == old(self).rest().subrange(ks, ke)
                    &&& p.1@ == old(self).rest().subrange(vs, ve)
                    &&& final(self).rest() == old(self).rest().subrange(
                        ve,
                        old(self).rest().len() as int,
                    )
                },
            },
            old(self)@.len() == 0 <==> r is None,
            r is None ==> final(self)@ == old(self)@,
            r matches Some(p) ==> (p.0@, p.1@) == old(self)@[0] && final(self)@ == old(
                self,
            )@.drop_first(),
    {
        proof {
            use_type_invariant(&*self);
        }
        let ghost s = self.data@;
        let ghost off = self.offset as int;
        proof {
            lemma_next_pair_suffix(s, off);
        }
        let remaining = self.data.len() - self.offset;
        if remaining < 8 {
            return None;
        }
        let key_len = read_u32_le(self.data, self.offset) as usize;
        let key_start = self.offset + 4;
        if key_len > self.data.len() - key_start || self.data.len() - key_start - key_len < 4 {
            return None;
        }
        let key_end = key_start + key_len;
        let value_len = read_u32_le(self.data, key_end) as usize;
        let value_start = key_end + 4;
        if value_len > self.data.len() - value_start {
            return None;
        }
        let value_end = value_start + value_len;
        let key = slice_subrange(self.data, key_start, key_end);
        let value = slice_subrange(self.data, value_start, value_end);
        self.offset = value_end;
        assert(next_pair(s, off) == Some((key_start as int, key_end as int, value_start as int, value_end as int)));
        assert(pairs_from(s, off) =~= seq![(key@, value@)] + pairs_from(s, value_end as int));
        proof {
            lemma_next_pair_suffix(s, value_end as int);
        }
        let ghost t = s.subrange(off, s.len() as int);
        assert(t.subrange(key_start - off, key_end - off) =~= key@);
        assert(t.subrange(value_start - off, value_end - off) =~= value@);
        assert(t.subrange(value_end - off, t.len() as int) =~= s.subrange(
            value_end as int,
            s.len() as int,
        ));
        Some((key, value))
    }

    /// Yields all remaining pairs, in order.
    pub fn collect_pairs(self) -> (r: Vec<(&'a [u8], &'a [u8])>)
        ensures
            r@.len() == self@.len(),
            forall|i: int| 0 <= i < r@.len() ==> (#[trigger] r@[i].0@, r@[i].1@) == self@[i],
    {
        let mut it = self;
        let mut out: Vec<(&'a [u8], &'a [u8])> = Vec::new();
        let ghost all = self@;
        loop
            invariant
                all == self@,
                out@.len() + it@.len() == all.len(),
                it@ == all.subrange(out@.len() as int, all.len() as int),
                forall|i: int| 0 <= i < out@.len() ==> (#[trigger] out@[i].0@, out@[i].1@) == all[i],
            decreases it@.len(),
        {
            match it.next() {
                None => {
                    return out;
                },
                Some(p) => {
                    out.push(p);
                },
            }
        }
    }

    /// The number of remaining pairs.
    pub fn count(self) -> (r: usize)
        ensures
            r == self@.len(),
    {
        self.collect_pairs().len()
    }
}


/// The bytes of `pairs`, each written as `key_len | key | value_len | value`.
pub open spec fn encode_pairs(pairs: Seq<(Seq<u8>, Seq<u8>)>) -> Seq<u8>
    decreases pairs.len(),
{
    if pairs.len() == 0 {
        Seq::empty()
    } else {
        length_prefixed(pairs[0].0) + length_prefixed(pairs[0].1) + encode_pairs(pairs.drop_first())
    }
}

/// Every key and value of `pairs` has a length that fits in a `u32`.
pub open spec fn pairs_encodable(pairs: Seq<(Seq<u8>, Seq<u8>)>) -> bool {
    forall|i: int|
        0 <= i < pairs.len() ==> #[trigger] pairs[i].0.len() <= u32::MAX && pairs[i].1.len()
            <= u32::MAX
}

/// The metadata payload that the Token-2022 program writes for these fields.
pub open spec fn encode_metadata(
    update_authority: Seq<u8>,
    mint: Seq<u8>,
    name: Seq<u8>,
    symbol: Seq<u8>,
    uri: Seq<u8>,
    pairs: Seq<(Seq<u8>, Seq<u8>)>,
) -> Seq<u8> {
    update_authority + mint + length_prefixed(name) + length_prefixed(symbol) + length_prefixed(uri)
        + le_u32_bytes(pairs.len()) + encode_pairs(pairs)
}

/// A `u32` read inside `s` is not changed by bytes appended after `s`.
proof fn lemma_read_le_u32_prefix(s: Seq<u8>, t: Seq<u8>, off: int)
    requires
        0 <= off,
        off + 4 <= s.len(),
    ensures
        read_le_u32(s + t, off) == read_le_u32(s, off),
{
    assert((s + t)[off] == s[off]);
    assert((s + t)[off + 1] == s[off + 1]);
    assert((s + t)[off + 2] == s[off + 2]);
    assert((s + t)[off + 3] == s[off + 3]);
}

/// The field offsets of a valid payload are not changed by appended bytes.
proof fn lemma_field_offset_prefix(s: Seq<u8>, t: Seq<u8>, k: nat)
    requires
        is_valid_metadata(s),
        k <= STRING_FIELDS,
    ensures
        field_offset(s + t, k) == field_offset(s, k),
    decreases k,
{
    if k > 0 {
        let j = (k - 1) as nat;
        lemma_field_offset_prefix(s, t, j);
        assert(field_fits(s, field_offset(s, j)));
        assert(field_offset(s, j) >= FIRST_VARLEN_OFFSET) by {
            lemma_field_offset_grows(s, j);
        }
        lemma_read_le_u32_prefix(s, t, field_offset(s, j));
    }
}

/// Field offsets never fall below the first variable-length field.
proof fn lemma_field_offset_grows(s: Seq<u8>, k: nat)
    ensures
        field_offset(s, k) >= FIRST_VARLEN_OFFSET,
    decreases k,
{
    if k > 0 {
        lemma_field_offset_grows(s, (k - 1) as nat);
    }
}

/// Data that follows a valid metadata payload (other TLV entries, padding)
/// keeps the payload valid, leaves every field in place, and is read as part
/// of the additional metadata.
pub proof fn lemma_trailing_data(s: Seq<u8>, t: Seq<u8>)
    requires
        is_valid_metadata(s),
    ensures
        is_valid_metadata(s + t),
        parse_metadata(s + t) == (MetadataView {
            additional_metadata: parse_metadata(s).additional_metadata + t,
            ..parse_metadata(s)
        }),
{
    let st = s + t;
    lemma_field_offset_prefix(s, t, 0);
    lemma_field_offset_prefix(s, t, 1);
    lemma_field_offset_prefix(s, t, 2);
    lemma_field_offset_prefix(s, t, 3);
    assert forall|k: nat| k < STRING_FIELDS implies #[trigger] field_fits(st, field_offset(st, k)) by {
        lemma_field_offset_prefix(s, t, k);
        assert(field_fits(s, field_offset(s, k)));
        lemma_field_offset_grows(s, k);
        lemma_read_le_u32_prefix(s, t, field_offset(s, k));
    }
    assert(field_fits(s, field_offset(s, 0)));
    assert(field_fits(s, field_offset(s, 1)));
    assert(field_fits(s, field_offset(s, 2)));
    lemma_field_offset_grows(s, 0);
    lemma_field_offset_grows(s, 1);
    lemma_field_offset_grows(s, 2);
    lemma_read_le_u32_prefix(s, t, field_offset(s, 0));
    lemma_read_le_u32_prefix(s, t, field_offset(s, 1));
    lemma_read_le_u32_prefix(s, t, field_offset(s, 2));
    assert(parse_metadata(st).update_authority =~= parse_metadata(s).update_authority);
    assert(parse_metadata(st).mint =~= parse_metadata(s).mint);
    assert(parse_metadata(st).name =~= parse_metadata(s).name);
    assert(parse_metadata(st).symbol =~= parse_metadata(s).symbol);
    assert(parse_metadata(st).uri =~= parse_metadata(s).uri);
    assert(parse_metadata(st).additional_metadata =~= parse_metadata(s).additional_metadata + t);
}

/// The pairs read from `a + t` starting at `a.len() + off` are those read
/// from `t` starting at `off`: what precedes the pairs does not matter.
pub proof fn lemma_pairs_from_shift(a: Seq<u8>, t: Seq<u8>, off: int)
    requires
        0 <= off <= t.len(),
    ensures
        pairs_from(a + t, a.len() + off) == pairs_from(t, off),
    decreases t.len() - off,
{
    let s = a + t;
    let o = a.len() + off;
    if t.len() - off >= 8 {
        lemma_read_le_u32_suffix(a, t, off);
        let key_end = off + 4 + read_le_u32(t, off);
        if key_end + 4 <= t.len() {
            lemma_read_le_u32_suffix(a, t, key_end);
            let value_end = key_end + 4 + read_le_u32(t, key_end);
            if value_end <= t.len() {
                lemma_pairs_from_shift(a, t, value_end);
                assert(s.subrange(o + 4, a.len() + key_end) =~= t.subrange(off + 4, key_end));
                assert(s.subrange(a.len() + key_end + 4, a.len() + value_end) =~= t.subrange(
                    key_end + 4,
                    value_end,
                ));
            }
        }
    }
}

/// Reading pairs from the bytes of `s` after `off` gives what reading `s`
/// from `off` gives, with the bounds moved back by `off`.
pub proof fn lemma_next_pair_suffix(s: Seq<u8>, off: int)
    requires
        0 <= off <= s.len(),
    ensures
        next_pair(s.subrange(off, s.len() as int), 0) == match next_pair(s, off) {
            None => None,
            Some((ks, ke, vs, ve)) => Some((ks - off, ke - off, vs - off, ve - off)),
        },
        pairs_from(s.subrange(off, s.len() as int), 0) == pairs_from(s, off),
{
    let a = s.subrange(0, off);
    let t = s.subrange(off, s.len() as int);
    assert(s =~= a + t);
    if t.len() >= 8 {
        lemma_read_le_u32_suffix(a, t, 0);
        let key_end = 4 + read_le_u32(t, 0) as int;
        if key_end + 4 <= t.len() {
            lemma_read_le_u32_suffix(a, t, key_end);
        }
    }
    lemma_pairs_from_shift(a, t, 0);
}

/// A `u32` read inside `t` is not changed by bytes prepended before `t`.
proof fn lemma_read_le_u32_suffix(a: Seq<u8>, t: Seq<u8>, off: int)
    requires
        0 <= off,
        off + 4 <= t.len(),
    ensures
        read_le_u32(a + t, a.len() + off) == read_le_u32(t, off),
{
    assert((a + t)[a.len() + off] == t[off]);
    assert((a + t)[a.len() + off + 1] == t[off + 1]);
    assert((a + t)[a.len() + off + 2] == t[off + 2]);
    assert((a + t)[a.len() + off + 3] == t[off + 3]);
}

/// One encoded pair followed by `tail` is read as that pair, then as the
/// pairs of `tail`.
proof fn lemma_pair_head(k: Seq<u8>, v: Seq<u8>, tail: Seq<u8>)
    requires
        k.len() <= u32::MAX,
        v.len() <= u32::MAX,
    ensures
        pairs_from(length_prefixed(k) + length_prefixed(v) + tail, 0) == seq![(k, v)] + pairs_from(
            tail,
            0,
        ),
{
    let lk = length_prefixed(k);
    let head = lk + length_prefixed(v);
    let s = head + tail;
    lemma_subrange_prefix(lk, length_prefixed(v), 0, lk.len() as int);
    lemma_subrange_prefix(head, tail, 0, lk.len() as int);
    assert(lk.subrange(0, lk.len() as int) =~= lk);
    lemma_field_at(s, 0, k);
    lemma_subrange_prefix(head, tail, lk.len() as int, head.len() as int);
    assert(head.subrange(lk.len() as int, head.len() as int) =~= length_prefixed(v));
    lemma_field_at(s, lk.len() as int, v);
    lemma_pairs_from_shift(head, tail, 0);
}

/// Reading encoded pairs gives them back, followed by whatever complete
/// pairs the bytes after them hold; the reader stops at the first incomplete
/// pair.
pub proof fn lemma_pairs_roundtrip(pairs: Seq<(Seq<u8>, Seq<u8>)>, t: Seq<u8>)
    requires
        pairs_encodable(pairs),
    ensures
        pairs_from(encode_pairs(pairs) + t, 0) == pairs + pairs_from(t, 0),
    decreases pairs.len(),
{
    if pairs.len() == 0 {
        assert(encode_pairs(pairs) + t =~= t);
        assert(pairs + pairs_from(t, 0) =~= pairs_from(t, 0));
    } else {
        let k = pairs[0].0;
        let v = pairs[0].1;
        let rest = pairs.drop_first();
        assert(pairs_encodable(rest)) by {
            assert forall|i: int| 0 <= i < rest.len() implies #[trigger] rest[i].0.len()
                <= u32::MAX && rest[i].1.len() <= u32::MAX by {
                assert(rest[i] == pairs[i + 1]);
            }
        }
        assert(k.len() <= u32::MAX && v.len() <= u32::MAX) by {
            assert(pairs[0].0.len() <= u32::MAX);
        }
        lemma_pairs_roundtrip(rest, t);
        let tail = encode_pairs(rest) + t;
        let s = encode_pairs(pairs) + t;
        let head = length_prefixed(k) + length_prefixed(v);
        assert(s =~= head + tail);
        lemma_pair_head(k, v, tail);
        assert(pairs_from(s, 0) == seq![(k, v)] + pairs_from(tail, 0));
        assert(pairs =~= seq![(k, v)] + rest);
    }
}

/// A field written as `length | bytes` at `p` is read back from there.
pub proof fn lemma_field_at(s: Seq<u8>, p: int, b: Seq<u8>)
    requires
        0 <= p,
        p + 4 + b.len() <= s.len(),
        b.len() <= u32::MAX,
        s.subrange(p, p + 4 + b.len()) == length_prefixed(b),
    ensures
        field_fits(s, p),
        field_end(s, p) == p + 4 + b.len(),
        field_bytes(s, p) == b,
{
    let q = s.subrange(p, p + 4 + b.len());
    assert(s =~= s.subrange(0, p) + le_u32_bytes(b.len()) + (b + s.subrange(
        p + 4 + b.len(),
        s.len() as int,
    ))) by {
        assert forall|i: int| p <= i < p + 4 + b.len() implies s[i] == q[i - p] by {}
    }
    lemma_le_u32_roundtrip(
        b.len(),
        s.subrange(0, p),
        b + s.subrange(p + 4 + b.len(), s.len() as int),
    );
    assert forall|i: int| 0 <= i < b.len() implies #[trigger] s.subrange(p + 4, p + 4 + b.len())[i]
        == b[i] by {
        assert(s[p + 4 + i] == q[4 + i]);
    }
    assert(s.subrange(p + 4, p + 4 + b.len()) =~= b);
}

/// A range inside `q` reads the same in `q + t`.
pub proof fn lemma_subrange_prefix(q: Seq<u8>, t: Seq<u8>, i: int, j: int)
    requires
        0 <= i <= j <= q.len(),
    ensures
        (q + t).subrange(i, j) == q.subrange(i, j),
{
    assert((q + t).subrange(i, j) =~= q.subrange(i, j));
}

/// Reading a payload that the Token-2022 program wrote gives back every
/// field, and iterating its additional metadata gives back every pair.
#[verifier::rlimit(40)]
pub proof fn lemma_metadata_roundtrip(
    update_authority: Seq<u8>,
    mint: Seq<u8>,
    name: Seq<u8>,
    symbol: Seq<u8>,
    uri: Seq<u8>,
    pairs: Seq<(Seq<u8>, Seq<u8>)>,
)
    requires
        update_authority.len() == 32,
        mint.len() == 32,
        name.len() <= u32::MAX,
        symbol.len() <= u32::MAX,
        uri.len() <= u32::MAX,
        pairs.len() <= u32::MAX,
        pairs_encodable(pairs),
    ensures
        is_valid_metadata(encode_metadata(update_authority, mint, name, symbol, uri, pairs)),
        parse_metadata(encode_metadata(update_authority, mint, name, symbol, uri, pairs))
            == (MetadataView {
            update_authority,
            mint,
            name,
            symbol,
            uri,
            additional_metadata: encode_pairs(pairs),
        }),
        pairs_from(encode_pairs(pairs), 0) == pairs,
{
    let p = encode_pairs(pairs);
    let s = encode_metadata(update_authority, mint, name, symbol, uri, pairs);
    let p0 = update_authority + mint;
    let p1 = p0 + length_prefixed(name);
    let p2 = p1 + length_prefixed(symbol);
    let p3 = p2 + length_prefixed(uri);
    let p4 = p3 + le_u32_bytes(pairs.len());
    assert(s == p4 + p);
    // Each field, read inside the prefix that ends with it.
    lemma_subrange_prefix(p1, length_prefixed(symbol), p0.len() as int, p1.len() as int);
    lemma_subrange_prefix(p2, length_prefixed(uri), p0.len() as int, p1.len() as int);
    lemma_subrange_prefix(p3, le_u32_bytes(pairs.len()), p0.len() as int, p1.len() as int);
    lemma_subrange_prefix(p4, p, p0.len() as int, p1.len() as int);
    assert(p1.subrange(p0.len() as int, p1.len() as int) =~= length_prefixed(name));
    lemma_field_at(s, p0.len() as int, name);
    lemma_subrange_prefix(p2, length_prefixed(uri), p1.len() as int, p2.len() as int);
    lemma_subrange_prefix(p3, le_u32_bytes(pairs.len()), p1.len() as int, p2.len() as int);
    lemma_subrange_prefix(p4, p, p1.len() as int, p2.len() as int);
    assert(p2.subrange(p1.len() as int, p2.len() as int) =~= length_prefixed(symbol));
    lemma_field_at(s, p1.len() as int, symbol);
    lemma_subrange_prefix(p3, le_u32_bytes(pairs.len()), p2.len() as int, p3.len() as int);
    lemma_subrange_prefix(p4, p, p2.len() as int, p3.len() as int);
    assert(p3.subrange(p2.len() as int, p3.len() as int) =~= length_prefixed(uri));
    lemma_field_at(s, p2.len() as int, uri);
    assert(field_offset(s, 0) == p0.len());
    assert(field_offset(s, 1) == p1.len());
    assert(field_offset(s, 2) == p2.len());
    assert(field_offset(s, 3) == p3.len());
    assert forall|k: nat| k < STRING_FIELDS implies #[trigger] field_fits(s, field_offset(s, k)) by {
        if k == 0 {
        } else if k == 1 {
        } else {
        }
    }
    lemma_subrange_prefix(p1, length_prefixed(symbol), 0, 64);
    lemma_subrange_prefix(p2, length_prefixed(uri), 0, 64);
    lemma_subrange_prefix(p3, le_u32_bytes(pairs.len()), 0, 64);
    lemma_subrange_prefix(p4, p, 0, 64);
    lemma_subrange_prefix(p0, length_prefixed(name), 0, 64);
    assert(p0.subrange(0, 32) =~= update_authority);
    assert(p0.subrange(32, 64) =~= mint);
    assert(s.subrange(0, 32) =~= update_authority);
    assert(s.subrange(32, 64) =~= mint);
    assert(s.subrange(p4.len() as int, s.len() as int) =~= p);
    lemma_pairs_roundtrip(pairs, Seq::empty());
    assert(p + Seq::<u8>::empty() =~= p);
    assert(pairs_from(Seq::<u8>::empty(), 0) =~= Seq::empty());
    assert(pairs + Seq::<(Seq<u8>, Seq<u8>)>::empty() =~= pairs);
}

} // verus!
