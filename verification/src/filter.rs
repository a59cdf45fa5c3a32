//! Declarative attestation filters and their compilation to ledger queries.
//!
//! A filter holds optional hex-spelled addresses (20 bytes), hashes (32
//! bytes), and an optional block range.  Compilation is pure validation plus
//! hex decoding: it fails exactly when a present field is malformed or the
//! block range is inverted, and performs no I/O.

use vstd::prelude::*;

use crate::hex::{hex_bytes_of, is_hex_str, parse_hex_fixed};

verus! {

/// View of an optional string as an optional character sequence.
pub open spec fn opt_str_view(o: Option<String>) -> Option<Seq<char>> {
    match o {
        Some(s) => Some(s@),
        None => None,
    }
}

/// View of an optional byte vector as an optional byte sequence.
pub open spec fn opt_bytes_view(o: Option<Vec<u8>>) -> Option<Seq<u8>> {
    match o {
        Some(v) => Some(v@),
        None => None,
    }
}

/// A declarative filter over attestation logs, as handed in by a caller.
#[derive(Clone, Debug, PartialEq, Eq)]
pub struct PyAttestationFilter {
    pub attester: Option<String>,
    pub recipient: Option<String>,
    pub schema_uid: Option<String>,
    pub uid: Option<String>,
    pub ref_uid: Option<String>,
    pub from_block: Option<u64>,
    pub to_block: Option<u64>,
}

/// Mathematical view of a filter.
pub ghost struct FilterV {
    pub attester: Option<Seq<char>>,
    pub recipient: Option<Seq<char>>,
    pub schema_uid: Option<Seq<char>>,
    pub uid: Option<Seq<char>>,
    pub ref_uid: Option<Seq<char>>,
    pub from_block: Option<u64>,
    pub to_block: Option<u64>,
}

impl View for PyAttestationFilter {
    type V = FilterV;

    open spec fn view(&self) -> FilterV {
        FilterV {
            attester: opt_str_view(self.attester),
            recipient: opt_str_view(self.recipient),
            schema_uid: opt_str_view(self.schema_uid),
            uid: opt_str_view(self.uid),
            ref_uid: opt_str_view(self.ref_uid),
            from_block: self.from_block,
            to_block: self.to_block,
        }
    }
}

impl PyAttestationFilter {
    /// Build a filter from its parts.
    pub fn __new__(
        attester: Option<String>,
        recipient: Option<String>,
        schema_uid: Option<String>,
        uid: Option<String>,
        ref_uid: Option<String>,
        from_block: Option<u64>,
        to_block: Option<u64>,
    ) -> (r: Self)
        ensures
            r@ == (FilterV {
                attester: opt_str_view(attester),
                recipient: opt_str_view(recipient),
                schema_uid: opt_str_view(schema_uid),
                uid: opt_str_view(uid),
                ref_uid: opt_str_view(ref_uid),
                from_block,
                to_block,
            }),
    {
        PyAttestationFilter { attester, recipient, schema_uid, uid, ref_uid, from_block, to_block }
    }
}

/// The filter field a compilation error points at.
#[derive(Clone, Copy, Debug, PartialEq, Eq, Structural)]
pub enum FilterField {
    Attester,
    Recipient,
    SchemaUid,
    Uid,
    RefUid,
}

/// Why a filter failed to compile.
#[derive(Clone, Copy, Debug, PartialEq, Eq, Structural)]
pub enum FilterError {
    /// `from_block` and `to_block` are both present and inverted.
    InvalidBlockRange,
    /// A present hash or address field is not hex of the expected byte length.
    MalformedField(FilterField),
}

/// A compiled, validated ledger log query.
#[derive(Clone, Debug, PartialEq, Eq)]
pub struct LogQuery {
    pub attester: Option<Vec<u8>>,
    pub recipient: Option<Vec<u8>>,
    pub schema_uid: Option<Vec<u8>>,
    pub uid: Option<Vec<u8>>,
    pub ref_uid: Option<Vec<u8>>,
    pub from_block: Option<u64>,
    pub to_block: Option<u64>,
}

/// Mathematical view of a compiled query.
pub ghost struct QueryV {
    pub attester: Option<Seq<u8>>,
    pub recipient: Option<Seq<u8>>,
    pub schema_uid: Option<Seq<u8>>,
    pub uid: Option<Seq<u8>>,
    pub ref_uid: Option<Seq<u8>>,
    pub from_block: Option<u64>,
    pub to_block: Option<u64>,
}

impl View for LogQuery {
    type V = QueryV;

    open spec fn view(&self) -> QueryV {
        QueryV {
            attester: opt_bytes_view(self.attester),
            recipient: opt_bytes_view(self.recipient),
            schema_uid: opt_bytes_view(self.schema_uid),
            uid: opt_bytes_view(self.uid),
            ref_uid: opt_bytes_view(self.ref_uid),
            from_block: self.from_block,
            to_block: self.to_block,
        }
    }
}

/// Is an optional field absent or well-formed hex of `n` bytes?
pub open spec fn opt_hex_ok(f: Option<Seq<char>>, n: nat) -> bool {
    match f {
        None => true,
        Some(s) => is_hex_str(s, n),
    }
}

/// Bytes of an optional hex field.
pub open spec fn opt_hex_bytes(f: Option<Seq<char>>) -> Option<Seq<u8>> {
    match f {
        None => None,
        Some(s) => Some(hex_bytes_of(s)),
    }
}

/// Is the block range absent, half-open, or correctly ordered?
pub open spec fn block_range_ok(f: FilterV) -> bool {
    !(f.from_block is Some && f.to_block is Some) || f.from_block->0 <= f.to_block->0
}

/// What compiling a filter yields: the first failure in checking order, or
/// the decoded query.  The block range is checked first, then each hash and
/// address field in declaration order.
pub open spec fn compile_spec(f: FilterV) -> Result<QueryV, FilterError> {
    if !block_range_ok(f) {
        Err(FilterError::InvalidBlockRange)
    } else if !opt_hex_ok(f.attester, 20) {
        Err(FilterError::MalformedField(FilterField::Attester))
    } else if !opt_hex_ok(f.recipient, 20) {
        Err(FilterError::MalformedField(FilterField::Recipient))
    } else if !opt_hex_ok(f.schema_uid, 32) {
        Err(FilterError::MalformedField(FilterField::SchemaUid))
    } else if !opt_hex_ok(f.uid, 32) {
        Err(FilterError::MalformedField(FilterField::Uid))
    } else if !opt_hex_ok(f.ref_uid, 32) {
        Err(FilterError::MalformedField(FilterField::RefUid))
    } else {
        Ok(QueryV {
            attester: opt_hex_bytes(f.attester),
            recipient: opt_hex_bytes(f.recipient),
            schema_uid: opt_hex_bytes(f.schema_uid),
            uid: opt_hex_bytes(f.uid),
            ref_uid: opt_hex_bytes(f.ref_uid),
            from_block: f.from_block,
            to_block: f.to_block,
        })
    }
}

/// The compiled query with the back-reference constraint dropped, for
/// escrow-style matching that correlates by demand data instead.
pub open spec fn compile_without_ref_uid_spec(f: FilterV) -> Result<QueryV, FilterError> {
    match compile_spec(f) {
        Ok(q) => Ok(QueryV { ref_uid: None, ..q }),
        Err(e) => Err(e),
    }
}

/// Decode one optional hex field of `n` bytes.
fn compile_field(f: &Option<String>, n: usize, which: FilterField) -> (r: Result<
    Option<Vec<u8>>,
    FilterError,
>)
    requires
        n <= usize::MAX / 2,
    ensures
        match r {
            Ok(o) => opt_hex_ok(opt_str_view(*f), n as nat) && opt_bytes_view(o) == opt_hex_bytes(
                opt_str_view(*f),
            ) && (o is Some ==> o->0@.len() == n),
            Err(e) => !opt_hex_ok(opt_str_view(*f), n as nat) && e == FilterError::MalformedField(
                which,
            ),
        },
{
    match f {
        None => Ok(None),
        Some(s) => match parse_hex_fixed(s.as_str(), n) {
            Some(v) => Ok(Some(v)),
            None => Err(FilterError::MalformedField(which)),
        },
    }
}

/// Compile a filter into a ledger log query.
///
/// Pure validation and transformation: fails exactly when the block range is
/// inverted or a present field is not hex of the expected length; an entirely
/// empty filter compiles to an unbounded query.
pub fn compile_filter(f: &PyAttestationFilter) -> (r: Result<LogQuery, FilterError>)
    ensures
        match r {
            Ok(q) => compile_spec(f@) == Ok::<QueryV, FilterError>(q@),
            Err(e) => compile_spec(f@) == Err::<QueryV, FilterError>(e),
        },
{
    if let (Some(from), Some(to)) = (&f.from_block, &f.to_block) {
        if *from > *to {
            return Err(FilterError::InvalidBlockRange);
        }
    }
    let attester = compile_field(&f.attester, 20, FilterField::Attester)?;
    let recipient = compile_field(&f.recipient, 20, FilterField::Recipient)?;
    let schema_uid = compile_field(&f.schema_uid, 32, FilterField::SchemaUid)?;
    let uid = compile_field(&f.uid, 32, FilterField::Uid)?;
    let ref_uid = compile_field(&f.ref_uid, 32, FilterField::RefUid)?;
    Ok(LogQuery {
        attester,
        recipient,
        schema_uid,
        uid,
        ref_uid,
        from_block: f.from_block,
        to_block: f.to_block,
    })
}

/// Compile a filter, dropping the back-reference constraint from the query.
pub fn compile_filter_without_ref_uid(f: &PyAttestationFilter) -> (r: Result<
    LogQuery,
    FilterError,
>)
    ensures
        match r {
            Ok(q) => compile_without_ref_uid_spec(f@) == Ok::<QueryV, FilterError>(q@),
            Err(e) => compile_without_ref_uid_spec(f@) == Err::<QueryV, FilterError>(e),
        },
{
    let mut q = compile_filter(f)?;
    q.ref_uid = None;
    Ok(q)
}

} // verus!
