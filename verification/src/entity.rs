//! The entities lump: free text holding `{ "key" "value" ... }` blocks.
//!
//! Block extraction walks successive brace pairs; a malformed or
//! unterminated block simply ends the sequence.  Property extraction
//! walks successive pairs of quoted strings inside one block.  Both are
//! restartable: a fresh walk is derived from the text each time.

use vstd::prelude::*;
use vstd::slice::slice_subrange;
use crate::bytes::{bytes_eq, find_byte, find_byte_spec, lemma_find_byte_spec};
use crate::error::EntityParseError;
use crate::data::Vector;

verus! {

/// The whole entities lump, one contiguous text blob.
#[derive(Clone, Debug)]
pub struct Entities {
    pub entities: Vec<u8>,
}

/// The entity blocks of the text from `from` on: the spans between each
/// successive `{`/`}` pair.  A missing brace ends the sequence.
pub open spec fn blocks_of(s: Seq<u8>, from: int) -> Seq<Seq<u8>>
    decreases s.len() - from when 0 <= from <= s.len() via blocks_of_dec
{
    match find_byte_spec(s, from, 123u8) {
        Option::None => Seq::empty(),
        Option::Some(i) => match find_byte_spec(s, i + 1, 125u8) {
            Option::None => Seq::empty(),
            Option::Some(j) => seq![s.subrange(i + 1, j)] + blocks_of(s, j + 1),
        },
    }
}

#[via_fn]
proof fn blocks_of_dec(s: Seq<u8>, from: int) {
    lemma_find_byte_spec(s, from, 123u8);
    if let Option::Some(i) = find_byte_spec(s, from, 123u8) {
        lemma_find_byte_spec(s, i + 1, 125u8);
    }
}

/// One raw entity: a borrowed text span over the inside of one block.
#[derive(Debug, Clone)]
pub struct RawEntity<'a> {
    buf: &'a [u8],
}

impl<'a> View for RawEntity<'a> {
    type V = Seq<u8>;

    closed spec fn view(&self) -> Seq<u8> {
        self.buf@
    }
}

impl Entities {
    /// All entity blocks of the lump, in file order.
    pub fn iter(&self) -> (r: Vec<RawEntity<'_>>)
        ensures
            r@.map_values(|e: RawEntity| e@) == blocks_of(self.entities@, 0),
    {
        let s = self.entities.as_slice();
        let n = s.len();
        let mut out: Vec<RawEntity<'_>> = Vec::new();
        let mut cur: usize = 0;
        loop
            invariant
                0 <= cur <= n,
                n == s@.len(),
                s@ == self.entities@,
                blocks_of(self.entities@, 0) == out@.map_values(|e: RawEntity| e@) + blocks_of(
                    s@,
                    cur as int,
                ),
            ensures
                out@.map_values(|e: RawEntity| e@) == blocks_of(self.entities@, 0),
            decreases n - cur,
        {
            let i = match find_byte(s, cur, 123) {
                Some(i) => i,
                None => {
                    proof {
                        assert(blocks_of(s@, cur as int) =~= Seq::<Seq<u8>>::empty());
                        assert(out@.map_values(|e: RawEntity| e@) =~= out@.map_values(
                            |e: RawEntity| e@,
                        ) + blocks_of(s@, cur as int));
                    }
                    break;
                },
            };
            let j = match find_byte(s, i + 1, 125) {
                Some(j) => j,
                None => {
                    proof {
                        assert(blocks_of(s@, cur as int) =~= Seq::<Seq<u8>>::empty());
                        assert(out@.map_values(|e: RawEntity| e@) =~= out@.map_values(
                            |e: RawEntity| e@,
                        ) + blocks_of(s@, cur as int));
                    }
                    break;
                },
            };
            let entity = RawEntity { buf: slice_subrange(s, i + 1, j) };
            let ghost old_out = out@;
            out.push(entity);
            proof {
                assert(blocks_of(s@, cur as int) == seq![s@.subrange(i + 1, j as int)]
                    + blocks_of(s@, j + 1));
                assert(out@.map_values(|e: RawEntity| e@) =~= old_out.map_values(
                    |e: RawEntity| e@,
                ).push(s@.subrange(i + 1, j as int)));
                assert(out@.map_values(|e: RawEntity| e@) + blocks_of(s@, j + 1) =~= old_out
                    .map_values(|e: RawEntity| e@) + blocks_of(s@, cur as int));
            }
            cur = j + 1;
        }
        proof {
            assert(out@.map_values(|e: RawEntity| e@) =~= blocks_of(self.entities@, 0));
        }
        out
    }
}

/// The `(key, value)` pairs of a block from `from` on: each is the
/// spans of two successive quoted strings.  A missing quote ends the
/// sequence.
pub open spec fn props_of(s: Seq<u8>, from: int) -> Seq<(Seq<u8>, Seq<u8>)>
    decreases s.len() - from when 0 <= from <= s.len() via props_of_dec
{
    match find_byte_spec(s, from, 34u8) {
        Option::None => Seq::empty(),
        Option::Some(k1) => match find_byte_spec(s, k1 + 1, 34u8) {
            Option::None => Seq::empty(),
            Option::Some(k2) => match find_byte_spec(s, k2 + 1, 34u8) {
                Option::None => Seq::empty(),
                Option::Some(v1) => match find_byte_spec(s, v1 + 1, 34u8) {
                    Option::None => Seq::empty(),
                    Option::Some(v2) => seq![(s.subrange(k1 + 1, k2), s.subrange(v1 + 1, v2))]
                        + props_of(s, v2 + 1),
                },
            },
        },
    }
}

#[via_fn]
proof fn props_of_dec(s: Seq<u8>, from: int) {
    lemma_find_byte_spec(s, from, 34u8);
    if let Option::Some(k1) = find_byte_spec(s, from, 34u8) {
        lemma_find_byte_spec(s, k1 + 1, 34u8);
        if let Option::Some(k2) = find_byte_spec(s, k1 + 1, 34u8) {
            lemma_find_byte_spec(s, k2 + 1, 34u8);
            if let Option::Some(v1) = find_byte_spec(s, k2 + 1, 34u8) {
                lemma_find_byte_spec(s, v1 + 1, 34u8);
            }
        }
    }
}

/// The value of the first property named `key`, if any: the first
/// occurrence wins, duplicates are never merged.
pub open spec fn lookup_from(props: Seq<(Seq<u8>, Seq<u8>)>, key: Seq<u8>, from: int) -> Option<
    Seq<u8>,
>
    decreases props.len() - from when 0 <= from <= props.len()
{
    if from >= props.len() {
        None
    } else if props[from].0 == key {
        Some(props[from].1)
    } else {
        lookup_from(props, key, from + 1)
    }
}

/// The value of the first property named `key`, if any.
pub open spec fn lookup(props: Seq<(Seq<u8>, Seq<u8>)>, key: Seq<u8>) -> Option<Seq<u8>> {
    lookup_from(props, key, 0)
}

impl<'a> RawEntity<'a> {
    /// All `(key, value)` pairs of the block, in textual order.
    pub fn properties(&self) -> (r: Vec<(&'a [u8], &'a [u8])>)
        ensures
            r@.map_values(|p: (&[u8], &[u8])| (p.0@, p.1@)) == props_of(self@, 0),
    {
        let s = self.buf;
        let n = s.len();
        let mut out: Vec<(&'a [u8], &'a [u8])> = Vec::new();
        let mut cur: usize = 0;
        loop
            invariant
                0 <= cur <= n,
                n == s@.len(),
                s@ == self@,
                props_of(self@, 0) == out@.map_values(|p: (&[u8], &[u8])| (p.0@, p.1@))
                    + props_of(s@, cur as int),
            ensures
                out@.map_values(|p: (&[u8], &[u8])| (p.0@, p.1@)) == props_of(self@, 0),
            decreases n - cur,
        {
            let k1 = match find_byte(s, cur, 34) {
                Some(i) => i,
                None => {
                    proof {
                        assert(props_of(s@, cur as int) =~= Seq::<(Seq<u8>, Seq<u8>)>::empty());
                        assert(out@.map_values(|p: (&[u8], &[u8])| (p.0@, p.1@)) =~= out@
                            .map_values(|p: (&[u8], &[u8])| (p.0@, p.1@)) + props_of(
                            s@,
                            cur as int,
                        ));
                    }
                    break;
                },
            };
            let k2 = match find_byte(s, k1 + 1, 34) {
                Some(i) => i,
                None => {
                    proof {
                        assert(props_of(s@, cur as int) =~= Seq::<(Seq<u8>, Seq<u8>)>::empty());
                        assert(out@.map_values(|p: (&[u8], &[u8])| (p.0@, p.1@)) =~= out@
                            .map_values(|p: (&[u8], &[u8])| (p.0@, p.1@)) + props_of(
                            s@,
                            cur as int,
                        ));
                    }
                    break;
                },
            };
            let v1 = match find_byte(s, k2 + 1, 34) {
                Some(i) => i,
                None => {
                    proof {
                        assert(props_of(s@, cur as int) =~= Seq::<(Seq<u8>, Seq<u8>)>::empty());
                        assert(out@.map_values(|p: (&[u8], &[u8])| (p.0@, p.1@)) =~= out@
                            .map_values(|p: (&[u8], &[u8])| (p.0@, p.1@)) + props_of(
                            s@,
                            cur as int,
                        ));
                    }
                    break;
                },
            };
            let v2 = match find_byte(s, v1 + 1, 34) {
                Some(i) => i,
                None => {
                    proof {
                        assert(props_of(s@, cur as int) =~= Seq::<(Seq<u8>, Seq<u8>)>::empty());
                        assert(out@.map_values(|p: (&[u8], &[u8])| (p.0@, p.1@)) =~= out@
                            .map_values(|p: (&[u8], &[u8])| (p.0@, p.1@)) + props_of(
                            s@,
                            cur as int,
                        ));
                    }
                    break;
                },
            };
            let key = slice_subrange(s, k1 + 1, k2);
            let value = slice_subrange(s, v1 + 1, v2);
            let ghost old_out = out@;
            out.push((key, value));
            proof {
                assert(props_of(s@, cur as int) == seq![
                    (s@.subrange(k1 + 1, k2 as int), s@.subrange(v1 + 1, v2 as int)),
                ] + props_of(s@, v2 + 1));
                assert(out@.map_values(|p: (&[u8], &[u8])| (p.0@, p.1@)) =~= old_out.map_values(
                    |p: (&[u8], &[u8])| (p.0@, p.1@),
                ).push((s@.subrange(k1 + 1, k2 as int), s@.subrange(v1 + 1, v2 as int))));
                assert(out@.map_values(|p: (&[u8], &[u8])| (p.0@, p.1@)) + props_of(s@, v2 + 1)
                    =~= old_out.map_values(|p: (&[u8], &[u8])| (p.0@, p.1@)) + props_of(
                    s@,
                    cur as int,
                ));
            }
            cur = v2 + 1;
        }
        proof {
            assert(out@.map_values(|p: (&[u8], &[u8])| (p.0@, p.1@)) =~= props_of(self@, 0));
        }
        out
    }

    /// The value of the first property named `key`; absence is the
    /// missing-property error carrying the name.
    pub fn prop(&self, key: &[u8]) -> (r: Result<&'a [u8], EntityParseError>)
        ensures
            match lookup(props_of(self@, 0), key@) {
                Some(v) => r matches Ok(rv) && rv@ == v,
                None => r matches Err(e) && (e matches EntityParseError::NoSuchProperty(k)
                    && k@ == key@),
            },
    {
        let props = self.properties();
        let ghost pview = props@.map_values(|p: (&[u8], &[u8])| (p.0@, p.1@));
        let n = props.len();
        let mut i: usize = 0;
        while i < n
            invariant
                0 <= i <= n,
                n == props@.len(),
                pview == props@.map_values(|p: (&[u8], &[u8])| (p.0@, p.1@)),
                pview == props_of(self@, 0),
                lookup(props_of(self@, 0), key@) == lookup_from(pview, key@, i as int),
            decreases n - i,
        {
            let (k, v) = props[i];
            if bytes_eq(k, key) {
                return Ok(v);
            }
            i = i + 1;
        }
        let mut name: Vec<u8> = Vec::new();
        let mut j: usize = 0;
        while j < key.len()
            invariant
                0 <= j <= key@.len(),
                name@ == key@.subrange(0, j as int),
            decreases key@.len() - j,
        {
            name.push(key[j]);
            proof {
                assert(name@ =~= key@.subrange(0, j + 1));
            }
            j = j + 1;
        }
        proof {
            assert(name@ =~= key@);
        }
        Err(EntityParseError::NoSuchProperty(name))
    }
}


/// A decimal digit byte.
pub open spec fn is_digit(b: u8) -> bool {
    48 <= b <= 57
}

/// Every byte of the span is a decimal digit.
pub open spec fn all_digits(s: Seq<u8>) -> bool {
    forall|i: int| 0 <= i < s.len() ==> is_digit(#[trigger] s[i])
}

/// A non-empty span of decimal digits.
pub open spec fn digits_ok(s: Seq<u8>) -> bool {
    s.len() > 0 && all_digits(s)
}

/// The number a span of decimal digits denotes.
pub open spec fn dec_value(s: Seq<u8>) -> int
    decreases s.len(),
{
    if s.len() == 0 {
        0
    } else {
        dec_value(s.drop_last()) * 10 + (s.last() - 48)
    }
}

/// A digit span denotes a non-negative number.
pub proof fn lemma_dec_value_nonneg(s: Seq<u8>)
    requires
        all_digits(s),
    ensures
        dec_value(s) >= 0,
    decreases s.len(),
{
    if s.len() > 0 {
        assert(all_digits(s.drop_last())) by {
            assert(forall|i: int| 0 <= i < s.len() - 1 ==> s.drop_last()[i] == s[i]);
        }
        lemma_dec_value_nonneg(s.drop_last());
    }
}

/// A prefix of a digit span denotes no more than the whole span.
pub proof fn lemma_dec_value_prefix_le(s: Seq<u8>, i: int)
    requires
        all_digits(s),
        0 <= i <= s.len(),
    ensures
        dec_value(s.subrange(0, i)) <= dec_value(s),
    decreases s.len() - i,
{
    if i == s.len() {
        assert(s.subrange(0, i) =~= s);
    } else {
        assert(s.subrange(0, i + 1).drop_last() =~= s.subrange(0, i));
        assert(s.subrange(0, i + 1).last() == s[i]);
        assert(all_digits(s.subrange(0, i))) by {
            assert(forall|k: int| 0 <= k < i ==> s.subrange(0, i)[k] == s[k]);
        }
        lemma_dec_value_nonneg(s.subrange(0, i));
        assert(dec_value(s.subrange(0, i)) <= dec_value(s.subrange(0, i + 1)));
        lemma_dec_value_prefix_le(s, i + 1);
    }
}

/// The digits of an unsigned number: one optional leading plus sign is
/// accepted and skipped.
pub open spec fn unsigned_body(s: Seq<u8>) -> Seq<u8> {
    if s.len() > 0 && s[0] == 43 {
        s.subrange(1, s.len() as int)
    } else {
        s
    }
}

/// The unsigned number a span denotes, where it is well-formed and
/// within `max`.
pub open spec fn parse_uint_spec(s: Seq<u8>, max: int) -> Option<int> {
    let b = unsigned_body(s);
    if digits_ok(b) && dec_value(b) <= max {
        Some(dec_value(b))
    } else {
        None
    }
}

/// The 8-bit unsigned number a property value denotes, if any.
pub open spec fn parse_u8_spec(s: Seq<u8>) -> Option<u8> {
    match parse_uint_spec(s, 255) {
        Option::Some(v) => Option::Some(v as u8),
        Option::None => Option::None,
    }
}

/// The 32-bit unsigned number a property value denotes, if any.
pub open spec fn parse_u32_spec(s: Seq<u8>) -> Option<u32> {
    match parse_uint_spec(s, 0xffff_ffff) {
        Option::Some(v) => Option::Some(v as u32),
        Option::None => Option::None,
    }
}

/// The 32-bit signed number a property value denotes, if any: one
/// optional sign, then digits, within the signed range.
pub open spec fn parse_i32_spec(s: Seq<u8>) -> Option<i32> {
    if s.len() > 0 && s[0] == 45 {
        let b = s.subrange(1, s.len() as int);
        if digits_ok(b) && dec_value(b) <= 0x8000_0000 {
            Option::Some((-dec_value(b)) as i32)
        } else {
            Option::None
        }
    } else {
        match parse_uint_spec(s, 0x7fff_ffff) {
            Option::Some(v) => Option::Some(v as i32),
            Option::None => Option::None,
        }
    }
}

/// Accumulates a span of decimal digits into a number, failing on a
/// non-digit, an empty span, or a value over `limit`.
fn parse_digits(body: &[u8], limit: u64) -> (r: Option<u64>)
    requires
        limit <= 0xffff_ffff,
    ensures
        match r {
            Some(v) => digits_ok(body@) && dec_value(body@) == v && v <= limit,
            None => !(digits_ok(body@) && dec_value(body@) <= limit),
        },
{
    let n = body.len();
    if n == 0 {
        return None;
    }
    let mut acc: u64 = 0;
    let mut i: usize = 0;
    while i < n
        invariant
            0 <= i <= n,
            0 < n == body@.len(),
            limit <= 0xffff_ffff,
            all_digits(body@.subrange(0, i as int)),
            acc == dec_value(body@.subrange(0, i as int)),
            acc <= limit,
        decreases n - i,
    {
        let b = body[i];
        if b < 48 || b > 57 {
            proof {
                assert(!is_digit(body@[i as int]));
            }
            return None;
        }
        let d = (b - 48) as u64;
        proof {
            assert(body@.subrange(0, i + 1).drop_last() =~= body@.subrange(0, i as int));
            assert(body@.subrange(0, i + 1).last() == body@[i as int]);
            assert(all_digits(body@.subrange(0, i + 1))) by {
                assert(forall|k: int| 0 <= k < i + 1 ==> body@.subrange(0, i + 1)[k] == body@[k]);
                assert(forall|k: int| 0 <= k < i ==> body@.subrange(0, i as int)[k] == body@[k]);
            }
        }
        let next = acc * 10 + d;
        if next > limit {
            proof {
                if all_digits(body@) {
                    lemma_dec_value_prefix_le(body@, i + 1);
                }
            }
            return None;
        }
        acc = next;
        i = i + 1;
    }
    proof {
        assert(body@.subrange(0, n as int) =~= body@);
    }
    Some(acc)
}

/// Parses an unsigned 32-bit property value.
pub fn parse_u32(raw: &[u8]) -> (r: Result<u32, EntityParseError>)
    ensures
        match parse_u32_spec(raw@) {
            Some(v) => r == Ok::<u32, EntityParseError>(v),
            None => r == Err::<u32, EntityParseError>(EntityParseError::ParseInt),
        },
{
    let body: &[u8] = if raw.len() > 0 && raw[0] == 43 {
        slice_subrange(raw, 1, raw.len())
    } else {
        raw
    };
    proof {
        assert(body@ == unsigned_body(raw@));
    }
    match parse_digits(body, 0xffff_ffff) {
        Some(v) => Ok(v as u32),
        None => Err(EntityParseError::ParseInt),
    }
}

/// Parses an unsigned 8-bit property value.
pub fn parse_u8(raw: &[u8]) -> (r: Result<u8, EntityParseError>)
    ensures
        match parse_u8_spec(raw@) {
            Some(v) => r == Ok::<u8, EntityParseError>(v),
            None => r == Err::<u8, EntityParseError>(EntityParseError::ParseInt),
        },
{
    let body: &[u8] = if raw.len() > 0 && raw[0] == 43 {
        slice_subrange(raw, 1, raw.len())
    } else {
        raw
    };
    proof {
        assert(body@ == unsigned_body(raw@));
    }
    match parse_digits(body, 255) {
        Some(v) => Ok(v as u8),
        None => Err(EntityParseError::ParseInt),
    }
}

/// Parses a signed 32-bit property value.
pub fn parse_i32(raw: &[u8]) -> (r: Result<i32, EntityParseError>)
    ensures
        match parse_i32_spec(raw@) {
            Some(v) => r == Ok::<i32, EntityParseError>(v),
            None => r == Err::<i32, EntityParseError>(EntityParseError::ParseInt),
        },
{
    if raw.len() > 0 && raw[0] == 45 {
        let body = slice_subrange(raw, 1, raw.len());
        match parse_digits(body, 0x8000_0000) {
            Some(v) => {
                let neg: i64 = -(v as i64);
                Ok(neg as i32)
            },
            None => Err(EntityParseError::ParseInt),
        }
    } else {
        let body: &[u8] = if raw.len() > 0 && raw[0] == 43 {
            slice_subrange(raw, 1, raw.len())
        } else {
            raw
        };
        proof {
            assert(body@ == unsigned_body(raw@));
        }
        match parse_digits(body, 0x7fff_ffff) {
            Some(v) => Ok(v as i32),
            None => Err(EntityParseError::ParseInt),
        }
    }
}

/// A boolean property value: anything but the literal `0` is true.
pub fn parse_bool(raw: &[u8]) -> (r: bool)
    ensures
        r <==> raw@ != seq![48u8],
{
    if raw.len() == 1 && raw[0] == 48 {
        proof {
            assert(raw@ =~= seq![48u8]);
        }
        false
    } else {
        proof {
            if raw@.len() == 1 {
                assert(raw@[0] != 48);
            }
        }
        true
    }
}

/// The spans between single spaces, in order; consecutive spaces give
/// empty tokens.
pub open spec fn split_tokens(s: Seq<u8>, from: int) -> Seq<Seq<u8>>
    decreases s.len() - from when 0 <= from <= s.len() via split_tokens_dec
{
    match find_byte_spec(s, from, 32u8) {
        Option::None => seq![s.subrange(from, s.len() as int)],
        Option::Some(i) => seq![s.subrange(from, i)] + split_tokens(s, i + 1),
    }
}

#[via_fn]
proof fn split_tokens_dec(s: Seq<u8>, from: int) {
    lemma_find_byte_spec(s, from, 32u8);
}

/// Splits a property value on single spaces.
pub fn split_sp(raw: &[u8]) -> (r: Vec<&[u8]>)
    ensures
        r@.map_values(|t: &[u8]| t@) == split_tokens(raw@, 0),
{
    let n = raw.len();
    let mut out: Vec<&[u8]> = Vec::new();
    let mut cur: usize = 0;
    loop
        invariant_except_break
            split_tokens(raw@, 0) == out@.map_values(|t: &[u8]| t@) + split_tokens(
                raw@,
                cur as int,
            ),
        invariant
            0 <= cur <= n,
            n == raw@.len(),
        ensures
            out@.map_values(|t: &[u8]| t@) == split_tokens(raw@, 0),
        decreases n - cur,
    {
        let ghost old_out = out@;
        match find_byte(raw, cur, 32) {
            Some(i) => {
                out.push(slice_subrange(raw, cur, i));
                proof {
                    assert(split_tokens(raw@, cur as int) == seq![raw@.subrange(cur as int, i as int)]
                        + split_tokens(raw@, i + 1));
                    assert(out@.map_values(|t: &[u8]| t@) =~= old_out.map_values(
                        |t: &[u8]| t@,
                    ).push(raw@.subrange(cur as int, i as int)));
                    assert(out@.map_values(|t: &[u8]| t@) + split_tokens(raw@, i + 1) =~= old_out
                        .map_values(|t: &[u8]| t@) + split_tokens(raw@, cur as int));
                }
                cur = i + 1;
            },
            None => {
                out.push(slice_subrange(raw, cur, n));
                proof {
                    assert(split_tokens(raw@, cur as int) == seq![
                        raw@.subrange(cur as int, n as int),
                    ]);
                    assert(out@.map_values(|t: &[u8]| t@) =~= old_out.map_values(
                        |t: &[u8]| t@,
                    ).push(raw@.subrange(cur as int, n as int)));
                    assert(out@.map_values(|t: &[u8]| t@) =~= old_out.map_values(|t: &[u8]| t@)
                        + split_tokens(raw@, cur as int));
                }
                break;
            },
        }
    }
    out
}

/// The first failure when taking `n` positional tokens: a missing token
/// is an element-count error, an unconvertible one a number error, in
/// positional order.
pub open spec fn array_err(
    toks: Seq<Seq<u8>>,
    n: int,
    k: int,
    ok: spec_fn(Seq<u8>) -> bool,
) -> Option<EntityParseError>
    decreases n - k when k <= n
{
    if k >= n {
        None
    } else if k >= toks.len() {
        Some(EntityParseError::ElementCount)
    } else if !ok(toks[k]) {
        Some(EntityParseError::ParseInt)
    } else {
        array_err(toks, n, k + 1, ok)
    }
}

/// A value with fewer tokens than the declared arity never converts:
/// positional extraction fails rather than zero-padding.
pub proof fn lemma_short_array_fails(
    toks: Seq<Seq<u8>>,
    n: int,
    k: int,
    ok: spec_fn(Seq<u8>) -> bool,
)
    requires
        0 <= k <= toks.len(),
        toks.len() < n,
    ensures
        array_err(toks, n, k, ok) is Some,
    decreases n - k,
{
    if k < n && k < toks.len() && ok(toks[k]) {
        lemma_short_array_fails(toks, n, k + 1, ok);
    }
}

/// Parses a three-component vector property: exactly three
/// space-separated signed integers are consumed.
pub fn parse_vector(raw: &[u8]) -> (r: Result<crate::data::Vector, EntityParseError>)
    ensures
        ({
            let toks = split_tokens(raw@, 0);
            match array_err(toks, 3, 0, i32_ok_fn()) {
                Some(e) => r == Err::<crate::data::Vector, EntityParseError>(e),
                None => r matches Ok(v) && Some(v.x) == parse_i32_spec(toks[0]) && Some(v.y)
                    == parse_i32_spec(toks[1]) && Some(v.z) == parse_i32_spec(toks[2]),
            }
        }),
{
    let ghost ok = i32_ok_fn();
    let toks = split_sp(raw);
    let ghost tv = split_tokens(raw@, 0);
    if toks.len() < 1 {
        return Err(EntityParseError::ElementCount);
    }
    let x = match parse_i32(toks[0]) {
        Ok(v) => v,
        Err(e) => {
            proof {
                assert(array_err(tv, 3, 0, ok) == Some(EntityParseError::ParseInt));
            }
            return Err(EntityParseError::ParseInt);
        },
    };
    proof {
        assert(array_err(tv, 3, 0, ok) == array_err(tv, 3, 1, ok));
    }
    if toks.len() < 2 {
        return Err(EntityParseError::ElementCount);
    }
    let y = match parse_i32(toks[1]) {
        Ok(v) => v,
        Err(e) => {
            return Err(EntityParseError::ParseInt);
        },
    };
    proof {
        assert(array_err(tv, 3, 1, ok) == array_err(tv, 3, 2, ok));
    }
    if toks.len() < 3 {
        return Err(EntityParseError::ElementCount);
    }
    let z = match parse_i32(toks[2]) {
        Ok(v) => v,
        Err(e) => {
            return Err(EntityParseError::ParseInt);
        },
    };
    proof {
        assert(array_err(tv, 3, 2, ok) == array_err(tv, 3, 3, ok));
    }
    Ok(crate::data::Vector { x, y, z })
}

/// Parses a four-component unsigned array property: exactly four
/// space-separated unsigned integers are consumed.
pub fn parse_u32_array4(raw: &[u8]) -> (r: Result<[u32; 4], EntityParseError>)
    ensures
        ({
            let toks = split_tokens(raw@, 0);
            match array_err(toks, 4, 0, u32_ok_fn()) {
                Some(e) => r == Err::<[u32; 4], EntityParseError>(e),
                None => r matches Ok(v) && Some(v[0]) == parse_u32_spec(toks[0]) && Some(v[1])
                    == parse_u32_spec(toks[1]) && Some(v[2]) == parse_u32_spec(toks[2])
                    && Some(v[3]) == parse_u32_spec(toks[3]),
            }
        }),
{
    let ghost ok = u32_ok_fn();
    let toks = split_sp(raw);
    let ghost tv = split_tokens(raw@, 0);
    if toks.len() < 1 {
        return Err(EntityParseError::ElementCount);
    }
    let a = match parse_u32(toks[0]) {
        Ok(v) => v,
        Err(e) => { return Err(EntityParseError::ParseInt); },
    };
    proof {
        assert(array_err(tv, 4, 0, ok) == array_err(tv, 4, 1, ok));
    }
    if toks.len() < 2 {
        return Err(EntityParseError::ElementCount);
    }
    let b = match parse_u32(toks[1]) {
        Ok(v) => v,
        Err(e) => { return Err(EntityParseError::ParseInt); },
    };
    proof {
        assert(array_err(tv, 4, 1, ok) == array_err(tv, 4, 2, ok));
    }
    if toks.len() < 3 {
        return Err(EntityParseError::ElementCount);
    }
    let c = match parse_u32(toks[2]) {
        Ok(v) => v,
        Err(e) => { return Err(EntityParseError::ParseInt); },
    };
    proof {
        assert(array_err(tv, 4, 2, ok) == array_err(tv, 4, 3, ok));
    }
    if toks.len() < 4 {
        return Err(EntityParseError::ElementCount);
    }
    let d = match parse_u32(toks[3]) {
        Ok(v) => v,
        Err(e) => { return Err(EntityParseError::ParseInt); },
    };
    proof {
        assert(array_err(tv, 4, 3, ok) == array_err(tv, 4, 4, ok));
    }
    Ok([a, b, c, d])
}

/// The property name `"classname"`, as bytes.
pub open spec fn key_classname() -> Seq<u8> {
    seq![99u8, 108u8, 97u8, 115u8, 115u8, 110u8, 97u8, 109u8, 101u8]
}

/// Executable form of `key_classname`.
fn kb_classname() -> (r: Vec<u8>)
    ensures
        r@ == key_classname(),
{
    let mut v: Vec<u8> = Vec::new();
    v.push(99);
    v.push(108);
    v.push(97);
    v.push(115);
    v.push(115);
    v.push(110);
    v.push(97);
    v.push(109);
    v.push(101);
    proof {
        assert(v@ =~= key_classname());
    }
    v
}

/// The property name `"origin"`, as bytes.
pub open spec fn key_origin() -> Seq<u8> {
    seq![111u8, 114u8, 105u8, 103u8, 105u8, 110u8]
}

/// Executable form of `key_origin`.
fn kb_origin() -> (r: Vec<u8>)
    ensures
        r@ == key_origin(),
{
    let mut v: Vec<u8> = Vec::new();
    v.push(111);
    v.push(114);
    v.push(105);
    v.push(103);
    v.push(105);
    v.push(110);
    proof {
        assert(v@ =~= key_origin());
    }
    v
}

/// The property name `"_light"`, as bytes.
pub open spec fn key_light_val() -> Seq<u8> {
    seq![95u8, 108u8, 105u8, 103u8, 104u8, 116u8]
}

/// Executable form of `key_light_val`.
fn kb_light_val() -> (r: Vec<u8>)
    ensures
        r@ == key_light_val(),
{
    let mut v: Vec<u8> = Vec::new();
    v.push(95);
    v.push(108);
    v.push(105);
    v.push(103);
    v.push(104);
    v.push(116);
    proof {
        assert(v@ =~= key_light_val());
    }
    v
}

/// The property name `"targetname"`, as bytes.
pub open spec fn key_targetname() -> Seq<u8> {
    seq![116u8, 97u8, 114u8, 103u8, 101u8, 116u8, 110u8, 97u8, 109u8, 101u8]
}

/// Executable form of `key_targetname`.
fn kb_targetname() -> (r: Vec<u8>)
    ensures
        r@ == key_targetname(),
{
    let mut v: Vec<u8> = Vec::new();
    v.push(116);
    v.push(97);
    v.push(114);
    v.push(103);
    v.push(101);
    v.push(116);
    v.push(110);
    v.push(97);
    v.push(109);
    v.push(101);
    proof {
        assert(v@ =~= key_targetname());
    }
    v
}

/// The property name `"model"`, as bytes.
pub open spec fn key_model() -> Seq<u8> {
    seq![109u8, 111u8, 100u8, 101u8, 108u8]
}

/// Executable form of `key_model`.
fn kb_model() -> (r: Vec<u8>)
    ensures
        r@ == key_model(),
{
    let mut v: Vec<u8> = Vec::new();
    v.push(109);
    v.push(111);
    v.push(100);
    v.push(101);
    v.push(108);
    proof {
        assert(v@ =~= key_model());
    }
    v
}

/// The property name `"StartDisabled"`, as bytes.
pub open spec fn key_start_disabled() -> Seq<u8> {
    seq![83u8, 116u8, 97u8, 114u8, 116u8, 68u8, 105u8, 115u8, 97u8, 98u8, 108u8, 101u8, 100u8]
}

/// Executable form of `key_start_disabled`.
fn kb_start_disabled() -> (r: Vec<u8>)
    ensures
        r@ == key_start_disabled(),
{
    let mut v: Vec<u8> = Vec::new();
    v.push(83);
    v.push(116);
    v.push(97);
    v.push(114);
    v.push(116);
    v.push(68);
    v.push(105);
    v.push(115);
    v.push(97);
    v.push(98);
    v.push(108);
    v.push(101);
    v.push(100);
    proof {
        assert(v@ =~= key_start_disabled());
    }
    v
}

/// The property name `"TeamNum"`, as bytes.
pub open spec fn key_teamnum() -> Seq<u8> {
    seq![84u8, 101u8, 97u8, 109u8, 78u8, 117u8, 109u8]
}

/// Executable form of `key_teamnum`.
fn kb_teamnum() -> (r: Vec<u8>)
    ensures
        r@ == key_teamnum(),
{
    let mut v: Vec<u8> = Vec::new();
    v.push(84);
    v.push(101);
    v.push(97);
    v.push(109);
    v.push(78);
    v.push(117);
    v.push(109);
    proof {
        assert(v@ =~= key_teamnum());
    }
    v
}

/// The property name `"associatedmodel"`, as bytes.
pub open spec fn key_associatedmodel() -> Seq<u8> {
    seq![97u8, 115u8, 115u8, 111u8, 99u8, 105u8, 97u8, 116u8, 101u8, 100u8, 109u8, 111u8, 100u8, 101u8, 108u8]
}

/// Executable form of `key_associatedmodel`.
fn kb_associatedmodel() -> (r: Vec<u8>)
    ensures
        r@ == key_associatedmodel(),
{
    let mut v: Vec<u8> = Vec::new();
    v.push(97);
    v.push(115);
    v.push(115);
    v.push(111);
    v.push(99);
    v.push(105);
    v.push(97);
    v.push(116);
    v.push(101);
    v.push(100);
    v.push(109);
    v.push(111);
    v.push(100);
    v.push(101);
    v.push(108);
    proof {
        assert(v@ =~= key_associatedmodel());
    }
    v
}

/// The property name `"world_mins"`, as bytes.
pub open spec fn key_world_mins() -> Seq<u8> {
    seq![119u8, 111u8, 114u8, 108u8, 100u8, 95u8, 109u8, 105u8, 110u8, 115u8]
}

/// Executable form of `key_world_mins`.
fn kb_world_mins() -> (r: Vec<u8>)
    ensures
        r@ == key_world_mins(),
{
    let mut v: Vec<u8> = Vec::new();
    v.push(119);
    v.push(111);
    v.push(114);
    v.push(108);
    v.push(100);
    v.push(95);
    v.push(109);
    v.push(105);
    v.push(110);
    v.push(115);
    proof {
        assert(v@ =~= key_world_mins());
    }
    v
}

/// The property name `"detailvbsp"`, as bytes.
pub open spec fn key_detailvbsp() -> Seq<u8> {
    seq![100u8, 101u8, 116u8, 97u8, 105u8, 108u8, 118u8, 98u8, 115u8, 112u8]
}

/// Executable form of `key_detailvbsp`.
fn kb_detailvbsp() -> (r: Vec<u8>)
    ensures
        r@ == key_detailvbsp(),
{
    let mut v: Vec<u8> = Vec::new();
    v.push(100);
    v.push(101);
    v.push(116);
    v.push(97);
    v.push(105);
    v.push(108);
    v.push(118);
    v.push(98);
    v.push(115);
    v.push(112);
    proof {
        assert(v@ =~= key_detailvbsp());
    }
    v
}

/// The property name `"detailmaterial"`, as bytes.
pub open spec fn key_detailmaterial() -> Seq<u8> {
    seq![100u8, 101u8, 116u8, 97u8, 105u8, 108u8, 109u8, 97u8, 116u8, 101u8, 114u8, 105u8, 97u8, 108u8]
}

/// Executable form of `key_detailmaterial`.
fn kb_detailmaterial() -> (r: Vec<u8>)
    ensures
        r@ == key_detailmaterial(),
{
    let mut v: Vec<u8> = Vec::new();
    v.push(100);
    v.push(101);
    v.push(116);
    v.push(97);
    v.push(105);
    v.push(108);
    v.push(109);
    v.push(97);
    v.push(116);
    v.push(101);
    v.push(114);
    v.push(105);
    v.push(97);
    v.push(108);
    proof {
        assert(v@ =~= key_detailmaterial());
    }
    v
}

/// The property name `"comment"`, as bytes.
pub open spec fn key_comment() -> Seq<u8> {
    seq![99u8, 111u8, 109u8, 109u8, 101u8, 110u8, 116u8]
}

/// Executable form of `key_comment`.
fn kb_comment() -> (r: Vec<u8>)
    ensures
        r@ == key_comment(),
{
    let mut v: Vec<u8> = Vec::new();
    v.push(99);
    v.push(111);
    v.push(109);
    v.push(109);
    v.push(101);
    v.push(110);
    v.push(116);
    proof {
        assert(v@ =~= key_comment());
    }
    v
}

/// The property name `"skyname"`, as bytes.
pub open spec fn key_skyname() -> Seq<u8> {
    seq![115u8, 107u8, 121u8, 110u8, 97u8, 109u8, 101u8]
}

/// Executable form of `key_skyname`.
fn kb_skyname() -> (r: Vec<u8>)
    ensures
        r@ == key_skyname(),
{
    let mut v: Vec<u8> = Vec::new();
    v.push(115);
    v.push(107);
    v.push(121);
    v.push(110);
    v.push(97);
    v.push(109);
    v.push(101);
    proof {
        assert(v@ =~= key_skyname());
    }
    v
}

/// The property name `"mapversion"`, as bytes.
pub open spec fn key_mapversion() -> Seq<u8> {
    seq![109u8, 97u8, 112u8, 118u8, 101u8, 114u8, 115u8, 105u8, 111u8, 110u8]
}

/// Executable form of `key_mapversion`.
fn kb_mapversion() -> (r: Vec<u8>)
    ensures
        r@ == key_mapversion(),
{
    let mut v: Vec<u8> = Vec::new();
    v.push(109);
    v.push(97);
    v.push(112);
    v.push(118);
    v.push(101);
    v.push(114);
    v.push(115);
    v.push(105);
    v.push(111);
    v.push(110);
    proof {
        assert(v@ =~= key_mapversion());
    }
    v
}

/// The property name `"wait"`, as bytes.
pub open spec fn key_wait() -> Seq<u8> {
    seq![119u8, 97u8, 105u8, 116u8]
}

/// Executable form of `key_wait`.
fn kb_wait() -> (r: Vec<u8>)
    ensures
        r@ == key_wait(),
{
    let mut v: Vec<u8> = Vec::new();
    v.push(119);
    v.push(97);
    v.push(105);
    v.push(116);
    proof {
        assert(v@ =~= key_wait());
    }
    v
}

/// The property name `"filtername"`, as bytes.
pub open spec fn key_filtername() -> Seq<u8> {
    seq![102u8, 105u8, 108u8, 116u8, 101u8, 114u8, 110u8, 97u8, 109u8, 101u8]
}

/// Executable form of `key_filtername`.
fn kb_filtername() -> (r: Vec<u8>)
    ensures
        r@ == key_filtername(),
{
    let mut v: Vec<u8> = Vec::new();
    v.push(102);
    v.push(105);
    v.push(108);
    v.push(116);
    v.push(101);
    v.push(114);
    v.push(110);
    v.push(97);
    v.push(109);
    v.push(101);
    proof {
        assert(v@ =~= key_filtername());
    }
    v
}

/// The property name `"negated"`, as bytes.
pub open spec fn key_negated() -> Seq<u8> {
    seq![110u8, 101u8, 103u8, 97u8, 116u8, 101u8, 100u8]
}

/// Executable form of `key_negated`.
fn kb_negated() -> (r: Vec<u8>)
    ensures
        r@ == key_negated(),
{
    let mut v: Vec<u8> = Vec::new();
    v.push(110);
    v.push(101);
    v.push(103);
    v.push(97);
    v.push(116);
    v.push(101);
    v.push(100);
    proof {
        assert(v@ =~= key_negated());
    }
    v
}

/// The property name `"OnStartTouch"`, as bytes.
pub open spec fn key_on_start_touch() -> Seq<u8> {
    seq![79u8, 110u8, 83u8, 116u8, 97u8, 114u8, 116u8, 84u8, 111u8, 117u8, 99u8, 104u8]
}

/// Executable form of `key_on_start_touch`.
fn kb_on_start_touch() -> (r: Vec<u8>)
    ensures
        r@ == key_on_start_touch(),
{
    let mut v: Vec<u8> = Vec::new();
    v.push(79);
    v.push(110);
    v.push(83);
    v.push(116);
    v.push(97);
    v.push(114);
    v.push(116);
    v.push(84);
    v.push(111);
    v.push(117);
    v.push(99);
    v.push(104);
    proof {
        assert(v@ =~= key_on_start_touch());
    }
    v
}

/// The property name `"OnStartTouchAll"`, as bytes.
pub open spec fn key_on_start_touch_all() -> Seq<u8> {
    seq![79u8, 110u8, 83u8, 116u8, 97u8, 114u8, 116u8, 84u8, 111u8, 117u8, 99u8, 104u8, 65u8, 108u8, 108u8]
}

/// Executable form of `key_on_start_touch_all`.
fn kb_on_start_touch_all() -> (r: Vec<u8>)
    ensures
        r@ == key_on_start_touch_all(),
{
    let mut v: Vec<u8> = Vec::new();
    v.push(79);
    v.push(110);
    v.push(83);
    v.push(116);
    v.push(97);
    v.push(114);
    v.push(116);
    v.push(84);
    v.push(111);
    v.push(117);
    v.push(99);
    v.push(104);
    v.push(65);
    v.push(108);
    v.push(108);
    proof {
        assert(v@ =~= key_on_start_touch_all());
    }
    v
}

/// The property name `"OnEndTouch"`, as bytes.
pub open spec fn key_on_end_touch() -> Seq<u8> {
    seq![79u8, 110u8, 69u8, 110u8, 100u8, 84u8, 111u8, 117u8, 99u8, 104u8]
}

/// Executable form of `key_on_end_touch`.
fn kb_on_end_touch() -> (r: Vec<u8>)
    ensures
        r@ == key_on_end_touch(),
{
    let mut v: Vec<u8> = Vec::new();
    v.push(79);
    v.push(110);
    v.push(69);
    v.push(110);
    v.push(100);
    v.push(84);
    v.push(111);
    v.push(117);
    v.push(99);
    v.push(104);
    proof {
        assert(v@ =~= key_on_end_touch());
    }
    v
}

/// The property name `"OnEndTouchAll"`, as bytes.
pub open spec fn key_on_end_touch_all() -> Seq<u8> {
    seq![79u8, 110u8, 69u8, 110u8, 100u8, 84u8, 111u8, 117u8, 99u8, 104u8, 65u8, 108u8, 108u8]
}

/// Executable form of `key_on_end_touch_all`.
fn kb_on_end_touch_all() -> (r: Vec<u8>)
    ensures
        r@ == key_on_end_touch_all(),
{
    let mut v: Vec<u8> = Vec::new();
    v.push(79);
    v.push(110);
    v.push(69);
    v.push(110);
    v.push(100);
    v.push(84);
    v.push(111);
    v.push(117);
    v.push(99);
    v.push(104);
    v.push(65);
    v.push(108);
    v.push(108);
    proof {
        assert(v@ =~= key_on_end_touch_all());
    }
    v
}

/// The property name `"OnNotTouching"`, as bytes.
pub open spec fn key_on_not_touching() -> Seq<u8> {
    seq![79u8, 110u8, 78u8, 111u8, 116u8, 84u8, 111u8, 117u8, 99u8, 104u8, 105u8, 110u8, 103u8]
}

/// Executable form of `key_on_not_touching`.
fn kb_on_not_touching() -> (r: Vec<u8>)
    ensures
        r@ == key_on_not_touching(),
{
    let mut v: Vec<u8> = Vec::new();
    v.push(79);
    v.push(110);
    v.push(78);
    v.push(111);
    v.push(116);
    v.push(84);
    v.push(111);
    v.push(117);
    v.push(99);
    v.push(104);
    v.push(105);
    v.push(110);
    v.push(103);
    proof {
        assert(v@ =~= key_on_not_touching());
    }
    v
}

/// The property name `"OnTrigger"`, as bytes.
pub open spec fn key_on_trigger() -> Seq<u8> {
    seq![79u8, 110u8, 84u8, 114u8, 105u8, 103u8, 103u8, 101u8, 114u8]
}

/// Executable form of `key_on_trigger`.
fn kb_on_trigger() -> (r: Vec<u8>)
    ensures
        r@ == key_on_trigger(),
{
    let mut v: Vec<u8> = Vec::new();
    v.push(79);
    v.push(110);
    v.push(84);
    v.push(114);
    v.push(105);
    v.push(103);
    v.push(103);
    v.push(101);
    v.push(114);
    proof {
        assert(v@ =~= key_on_trigger());
    }
    v
}

/// The property name `"OnMapSpawn"`, as bytes.
pub open spec fn key_on_map_spawn() -> Seq<u8> {
    seq![79u8, 110u8, 77u8, 97u8, 112u8, 83u8, 112u8, 97u8, 119u8, 110u8]
}

/// Executable form of `key_on_map_spawn`.
fn kb_on_map_spawn() -> (r: Vec<u8>)
    ensures
        r@ == key_on_map_spawn(),
{
    let mut v: Vec<u8> = Vec::new();
    v.push(79);
    v.push(110);
    v.push(77);
    v.push(97);
    v.push(112);
    v.push(83);
    v.push(112);
    v.push(97);
    v.push(119);
    v.push(110);
    proof {
        assert(v@ =~= key_on_map_spawn());
    }
    v
}

/// The property name `"ctf_overtime"`, as bytes.
pub open spec fn key_ctf_overtime() -> Seq<u8> {
    seq![99u8, 116u8, 102u8, 95u8, 111u8, 118u8, 101u8, 114u8, 116u8, 105u8, 109u8, 101u8]
}

/// Executable form of `key_ctf_overtime`.
fn kb_ctf_overtime() -> (r: Vec<u8>)
    ensures
        r@ == key_ctf_overtime(),
{
    let mut v: Vec<u8> = Vec::new();
    v.push(99);
    v.push(116);
    v.push(102);
    v.push(95);
    v.push(111);
    v.push(118);
    v.push(101);
    v.push(114);
    v.push(116);
    v.push(105);
    v.push(109);
    v.push(101);
    proof {
        assert(v@ =~= key_ctf_overtime());
    }
    v
}

/// The property name `"hud_type"`, as bytes.
pub open spec fn key_hud_type() -> Seq<u8> {
    seq![104u8, 117u8, 100u8, 95u8, 116u8, 121u8, 112u8, 101u8]
}

/// Executable form of `key_hud_type`.
fn kb_hud_type() -> (r: Vec<u8>)
    ensures
        r@ == key_hud_type(),
{
    let mut v: Vec<u8> = Vec::new();
    v.push(104);
    v.push(117);
    v.push(100);
    v.push(95);
    v.push(116);
    v.push(121);
    v.push(112);
    v.push(101);
    proof {
        assert(v@ =~= key_hud_type());
    }
    v
}

/// The property name `"unlock_point"`, as bytes.
pub open spec fn key_unlock_point() -> Seq<u8> {
    seq![117u8, 110u8, 108u8, 111u8, 99u8, 107u8, 95u8, 112u8, 111u8, 105u8, 110u8, 116u8]
}

/// Executable form of `key_unlock_point`.
fn kb_unlock_point() -> (r: Vec<u8>)
    ensures
        r@ == key_unlock_point(),
{
    let mut v: Vec<u8> = Vec::new();
    v.push(117);
    v.push(110);
    v.push(108);
    v.push(111);
    v.push(99);
    v.push(107);
    v.push(95);
    v.push(112);
    v.push(111);
    v.push(105);
    v.push(110);
    v.push(116);
    proof {
        assert(v@ =~= key_unlock_point());
    }
    v
}

/// The property name `"timer_length"`, as bytes.
pub open spec fn key_timer_length() -> Seq<u8> {
    seq![116u8, 105u8, 109u8, 101u8, 114u8, 95u8, 108u8, 101u8, 110u8, 103u8, 116u8, 104u8]
}

/// Executable form of `key_timer_length`.
fn kb_timer_length() -> (r: Vec<u8>)
    ensures
        r@ == key_timer_length(),
{
    let mut v: Vec<u8> = Vec::new();
    v.push(116);
    v.push(105);
    v.push(109);
    v.push(101);
    v.push(114);
    v.push(95);
    v.push(108);
    v.push(101);
    v.push(110);
    v.push(103);
    v.push(116);
    v.push(104);
    proof {
        assert(v@ =~= key_timer_length());
    }
    v
}

/// The property name `"PortalVersion"`, as bytes.
pub open spec fn key_portal_version() -> Seq<u8> {
    seq![80u8, 111u8, 114u8, 116u8, 97u8, 108u8, 86u8, 101u8, 114u8, 115u8, 105u8, 111u8, 110u8]
}

/// Executable form of `key_portal_version`.
fn kb_portal_version() -> (r: Vec<u8>)
    ensures
        r@ == key_portal_version(),
{
    let mut v: Vec<u8> = Vec::new();
    v.push(80);
    v.push(111);
    v.push(114);
    v.push(116);
    v.push(97);
    v.push(108);
    v.push(86);
    v.push(101);
    v.push(114);
    v.push(115);
    v.push(105);
    v.push(111);
    v.push(110);
    proof {
        assert(v@ =~= key_portal_version());
    }
    v
}

/// The property name `"portalnumber"`, as bytes.
pub open spec fn key_portalnumber() -> Seq<u8> {
    seq![112u8, 111u8, 114u8, 116u8, 97u8, 108u8, 110u8, 117u8, 109u8, 98u8, 101u8, 114u8]
}

/// Executable form of `key_portalnumber`.
fn kb_portalnumber() -> (r: Vec<u8>)
    ensures
        r@ == key_portalnumber(),
{
    let mut v: Vec<u8> = Vec::new();
    v.push(112);
    v.push(111);
    v.push(114);
    v.push(116);
    v.push(97);
    v.push(108);
    v.push(110);
    v.push(117);
    v.push(109);
    v.push(98);
    v.push(101);
    v.push(114);
    proof {
        assert(v@ =~= key_portalnumber());
    }
    v
}

/// The property name `"StartOpen"`, as bytes.
pub open spec fn key_start_open() -> Seq<u8> {
    seq![83u8, 116u8, 97u8, 114u8, 116u8, 79u8, 112u8, 101u8, 110u8]
}

/// Executable form of `key_start_open`.
fn kb_start_open() -> (r: Vec<u8>)
    ensures
        r@ == key_start_open(),
{
    let mut v: Vec<u8> = Vec::new();
    v.push(83);
    v.push(116);
    v.push(97);
    v.push(114);
    v.push(116);
    v.push(79);
    v.push(112);
    v.push(101);
    v.push(110);
    proof {
        assert(v@ =~= key_start_open());
    }
    v
}

/// The class name `"light"`, as bytes.
pub open spec fn name_light() -> Seq<u8> {
    seq![108u8, 105u8, 103u8, 104u8, 116u8]
}

/// Executable form of `name_light`.
fn nb_light() -> (r: Vec<u8>)
    ensures
        r@ == name_light(),
{
    let mut v: Vec<u8> = Vec::new();
    v.push(108);
    v.push(105);
    v.push(103);
    v.push(104);
    v.push(116);
    proof {
        assert(v@ =~= name_light());
    }
    v
}

/// The class name `"func_respawnroom"`, as bytes.
pub open spec fn name_func_respawnroom() -> Seq<u8> {
    seq![102u8, 117u8, 110u8, 99u8, 95u8, 114u8, 101u8, 115u8, 112u8, 97u8, 119u8, 110u8, 114u8, 111u8, 111u8, 109u8]
}

/// Executable form of `name_func_respawnroom`.
fn nb_func_respawnroom() -> (r: Vec<u8>)
    ensures
        r@ == name_func_respawnroom(),
{
    let mut v: Vec<u8> = Vec::new();
    v.push(102);
    v.push(117);
    v.push(110);
    v.push(99);
    v.push(95);
    v.push(114);
    v.push(101);
    v.push(115);
    v.push(112);
    v.push(97);
    v.push(119);
    v.push(110);
    v.push(114);
    v.push(111);
    v.push(111);
    v.push(109);
    proof {
        assert(v@ =~= name_func_respawnroom());
    }
    v
}

/// The class name `"func_regenerate"`, as bytes.
pub open spec fn name_func_regenerate() -> Seq<u8> {
    seq![102u8, 117u8, 110u8, 99u8, 95u8, 114u8, 101u8, 103u8, 101u8, 110u8, 101u8, 114u8, 97u8, 116u8, 101u8]
}

/// Executable form of `name_func_regenerate`.
fn nb_func_regenerate() -> (r: Vec<u8>)
    ensures
        r@ == name_func_regenerate(),
{
    let mut v: Vec<u8> = Vec::new();
    v.push(102);
    v.push(117);
    v.push(110);
    v.push(99);
    v.push(95);
    v.push(114);
    v.push(101);
    v.push(103);
    v.push(101);
    v.push(110);
    v.push(101);
    v.push(114);
    v.push(97);
    v.push(116);
    v.push(101);
    proof {
        assert(v@ =~= name_func_regenerate());
    }
    v
}

/// The class name `"worldspawn"`, as bytes.
pub open spec fn name_worldspawn() -> Seq<u8> {
    seq![119u8, 111u8, 114u8, 108u8, 100u8, 115u8, 112u8, 97u8, 119u8, 110u8]
}

/// Executable form of `name_worldspawn`.
fn nb_worldspawn() -> (r: Vec<u8>)
    ensures
        r@ == name_worldspawn(),
{
    let mut v: Vec<u8> = Vec::new();
    v.push(119);
    v.push(111);
    v.push(114);
    v.push(108);
    v.push(100);
    v.push(115);
    v.push(112);
    v.push(97);
    v.push(119);
    v.push(110);
    proof {
        assert(v@ =~= name_worldspawn());
    }
    v
}

/// The class name `"item_ammopack_small"`, as bytes.
pub open spec fn name_item_ammopack_small() -> Seq<u8> {
    seq![105u8, 116u8, 101u8, 109u8, 95u8, 97u8, 109u8, 109u8, 111u8, 112u8, 97u8, 99u8, 107u8, 95u8, 115u8, 109u8, 97u8, 108u8, 108u8]
}

/// Executable form of `name_item_ammopack_small`.
fn nb_item_ammopack_small() -> (r: Vec<u8>)
    ensures
        r@ == name_item_ammopack_small(),
{
    let mut v: Vec<u8> = Vec::new();
    v.push(105);
    v.push(116);
    v.push(101);
    v.push(109);
    v.push(95);
    v.push(97);
    v.push(109);
    v.push(109);
    v.push(111);
    v.push(112);
    v.push(97);
    v.push(99);
    v.push(107);
    v.push(95);
    v.push(115);
    v.push(109);
    v.push(97);
    v.push(108);
    v.push(108);
    proof {
        assert(v@ =~= name_item_ammopack_small());
    }
    v
}

/// The class name `"item_ammopack_medium"`, as bytes.
pub open spec fn name_item_ammopack_medium() -> Seq<u8> {
    seq![105u8, 116u8, 101u8, 109u8, 95u8, 97u8, 109u8, 109u8, 111u8, 112u8, 97u8, 99u8, 107u8, 95u8, 109u8, 101u8, 100u8, 105u8, 117u8, 109u8]
}

/// Executable form of `name_item_ammopack_medium`.
fn nb_item_ammopack_medium() -> (r: Vec<u8>)
    ensures
        r@ == name_item_ammopack_medium(),
{
    let mut v: Vec<u8> = Vec::new();
    v.push(105);
    v.push(116);
    v.push(101);
    v.push(109);
    v.push(95);
    v.push(97);
    v.push(109);
    v.push(109);
    v.push(111);
    v.push(112);
    v.push(97);
    v.push(99);
    v.push(107);
    v.push(95);
    v.push(109);
    v.push(101);
    v.push(100);
    v.push(105);
    v.push(117);
    v.push(109);
    proof {
        assert(v@ =~= name_item_ammopack_medium());
    }
    v
}

/// The class name `"item_ammopack_full"`, as bytes.
pub open spec fn name_item_ammopack_full() -> Seq<u8> {
    seq![105u8, 116u8, 101u8, 109u8, 95u8, 97u8, 109u8, 109u8, 111u8, 112u8, 97u8, 99u8, 107u8, 95u8, 102u8, 117u8, 108u8, 108u8]
}

/// Executable form of `name_item_ammopack_full`.
fn nb_item_ammopack_full() -> (r: Vec<u8>)
    ensures
        r@ == name_item_ammopack_full(),
{
    let mut v: Vec<u8> = Vec::new();
    v.push(105);
    v.push(116);
    v.push(101);
    v.push(109);
    v.push(95);
    v.push(97);
    v.push(109);
    v.push(109);
    v.push(111);
    v.push(112);
    v.push(97);
    v.push(99);
    v.push(107);
    v.push(95);
    v.push(102);
    v.push(117);
    v.push(108);
    v.push(108);
    proof {
        assert(v@ =~= name_item_ammopack_full());
    }
    v
}

/// The class name `"item_healthkit_small"`, as bytes.
pub open spec fn name_item_healthkit_small() -> Seq<u8> {
    seq![105u8, 116u8, 101u8, 109u8, 95u8, 104u8, 101u8, 97u8, 108u8, 116u8, 104u8, 107u8, 105u8, 116u8, 95u8, 115u8, 109u8, 97u8, 108u8, 108u8]
}

/// Executable form of `name_item_healthkit_small`.
fn nb_item_healthkit_small() -> (r: Vec<u8>)
    ensures
        r@ == name_item_healthkit_small(),
{
    let mut v: Vec<u8> = Vec::new();
    v.push(105);
    v.push(116);
    v.push(101);
    v.push(109);
    v.push(95);
    v.push(104);
    v.push(101);
    v.push(97);
    v.push(108);
    v.push(116);
    v.push(104);
    v.push(107);
    v.push(105);
    v.push(116);
    v.push(95);
    v.push(115);
    v.push(109);
    v.push(97);
    v.push(108);
    v.push(108);
    proof {
        assert(v@ =~= name_item_healthkit_small());
    }
    v
}

/// The class name `"item_healthkit_medium"`, as bytes.
pub open spec fn name_item_healthkit_medium() -> Seq<u8> {
    seq![105u8, 116u8, 101u8, 109u8, 95u8, 104u8, 101u8, 97u8, 108u8, 116u8, 104u8, 107u8, 105u8, 116u8, 95u8, 109u8, 101u8, 100u8, 105u8, 117u8, 109u8]
}

/// Executable form of `name_item_healthkit_medium`.
fn nb_item_healthkit_medium() -> (r: Vec<u8>)
    ensures
        r@ == name_item_healthkit_medium(),
{
    let mut v: Vec<u8> = Vec::new();
    v.push(105);
    v.push(116);
    v.push(101);
    v.push(109);
    v.push(95);
    v.push(104);
    v.push(101);
    v.push(97);
    v.push(108);
    v.push(116);
    v.push(104);
    v.push(107);
    v.push(105);
    v.push(116);
    v.push(95);
    v.push(109);
    v.push(101);
    v.push(100);
    v.push(105);
    v.push(117);
    v.push(109);
    proof {
        assert(v@ =~= name_item_healthkit_medium());
    }
    v
}

/// The class name `"item_healthkit_full"`, as bytes.
pub open spec fn name_item_healthkit_full() -> Seq<u8> {
    seq![105u8, 116u8, 101u8, 109u8, 95u8, 104u8, 101u8, 97u8, 108u8, 116u8, 104u8, 107u8, 105u8, 116u8, 95u8, 102u8, 117u8, 108u8, 108u8]
}

/// Executable form of `name_item_healthkit_full`.
fn nb_item_healthkit_full() -> (r: Vec<u8>)
    ensures
        r@ == name_item_healthkit_full(),
{
    let mut v: Vec<u8> = Vec::new();
    v.push(105);
    v.push(116);
    v.push(101);
    v.push(109);
    v.push(95);
    v.push(104);
    v.push(101);
    v.push(97);
    v.push(108);
    v.push(116);
    v.push(104);
    v.push(107);
    v.push(105);
    v.push(116);
    v.push(95);
    v.push(102);
    v.push(117);
    v.push(108);
    v.push(108);
    proof {
        assert(v@ =~= name_item_healthkit_full());
    }
    v
}

/// The class name `"trigger_multiple"`, as bytes.
pub open spec fn name_trigger_multiple() -> Seq<u8> {
    seq![116u8, 114u8, 105u8, 103u8, 103u8, 101u8, 114u8, 95u8, 109u8, 117u8, 108u8, 116u8, 105u8, 112u8, 108u8, 101u8]
}

/// Executable form of `name_trigger_multiple`.
fn nb_trigger_multiple() -> (r: Vec<u8>)
    ensures
        r@ == name_trigger_multiple(),
{
    let mut v: Vec<u8> = Vec::new();
    v.push(116);
    v.push(114);
    v.push(105);
    v.push(103);
    v.push(103);
    v.push(101);
    v.push(114);
    v.push(95);
    v.push(109);
    v.push(117);
    v.push(108);
    v.push(116);
    v.push(105);
    v.push(112);
    v.push(108);
    v.push(101);
    proof {
        assert(v@ =~= name_trigger_multiple());
    }
    v
}

/// The class name `"logic_relay"`, as bytes.
pub open spec fn name_logic_relay() -> Seq<u8> {
    seq![108u8, 111u8, 103u8, 105u8, 99u8, 95u8, 114u8, 101u8, 108u8, 97u8, 121u8]
}

/// Executable form of `name_logic_relay`.
fn nb_logic_relay() -> (r: Vec<u8>)
    ensures
        r@ == name_logic_relay(),
{
    let mut v: Vec<u8> = Vec::new();
    v.push(108);
    v.push(111);
    v.push(103);
    v.push(105);
    v.push(99);
    v.push(95);
    v.push(114);
    v.push(101);
    v.push(108);
    v.push(97);
    v.push(121);
    proof {
        assert(v@ =~= name_logic_relay());
    }
    v
}

/// The class name `"filter_activator_tfteam"`, as bytes.
pub open spec fn name_filter_activator_tfteam() -> Seq<u8> {
    seq![102u8, 105u8, 108u8, 116u8, 101u8, 114u8, 95u8, 97u8, 99u8, 116u8, 105u8, 118u8, 97u8, 116u8, 111u8, 114u8, 95u8, 116u8, 102u8, 116u8, 101u8, 97u8, 109u8]
}

/// Executable form of `name_filter_activator_tfteam`.
fn nb_filter_activator_tfteam() -> (r: Vec<u8>)
    ensures
        r@ == name_filter_activator_tfteam(),
{
    let mut v: Vec<u8> = Vec::new();
    v.push(102);
    v.push(105);
    v.push(108);
    v.push(116);
    v.push(101);
    v.push(114);
    v.push(95);
    v.push(97);
    v.push(99);
    v.push(116);
    v.push(105);
    v.push(118);
    v.push(97);
    v.push(116);
    v.push(111);
    v.push(114);
    v.push(95);
    v.push(116);
    v.push(102);
    v.push(116);
    v.push(101);
    v.push(97);
    v.push(109);
    proof {
        assert(v@ =~= name_filter_activator_tfteam());
    }
    v
}

/// The class name `"logic_auto"`, as bytes.
pub open spec fn name_logic_auto() -> Seq<u8> {
    seq![108u8, 111u8, 103u8, 105u8, 99u8, 95u8, 97u8, 117u8, 116u8, 111u8]
}

/// Executable form of `name_logic_auto`.
fn nb_logic_auto() -> (r: Vec<u8>)
    ensures
        r@ == name_logic_auto(),
{
    let mut v: Vec<u8> = Vec::new();
    v.push(108);
    v.push(111);
    v.push(103);
    v.push(105);
    v.push(99);
    v.push(95);
    v.push(97);
    v.push(117);
    v.push(116);
    v.push(111);
    proof {
        assert(v@ =~= name_logic_auto());
    }
    v
}

/// The class name `"tf_gamerules"`, as bytes.
pub open spec fn name_tf_gamerules() -> Seq<u8> {
    seq![116u8, 102u8, 95u8, 103u8, 97u8, 109u8, 101u8, 114u8, 117u8, 108u8, 101u8, 115u8]
}

/// Executable form of `name_tf_gamerules`.
fn nb_tf_gamerules() -> (r: Vec<u8>)
    ensures
        r@ == name_tf_gamerules(),
{
    let mut v: Vec<u8> = Vec::new();
    v.push(116);
    v.push(102);
    v.push(95);
    v.push(103);
    v.push(97);
    v.push(109);
    v.push(101);
    v.push(114);
    v.push(117);
    v.push(108);
    v.push(101);
    v.push(115);
    proof {
        assert(v@ =~= name_tf_gamerules());
    }
    v
}

/// The class name `"tf_logic_koth"`, as bytes.
pub open spec fn name_tf_logic_koth() -> Seq<u8> {
    seq![116u8, 102u8, 95u8, 108u8, 111u8, 103u8, 105u8, 99u8, 95u8, 107u8, 111u8, 116u8, 104u8]
}

/// Executable form of `name_tf_logic_koth`.
fn nb_tf_logic_koth() -> (r: Vec<u8>)
    ensures
        r@ == name_tf_logic_koth(),
{
    let mut v: Vec<u8> = Vec::new();
    v.push(116);
    v.push(102);
    v.push(95);
    v.push(108);
    v.push(111);
    v.push(103);
    v.push(105);
    v.push(99);
    v.push(95);
    v.push(107);
    v.push(111);
    v.push(116);
    v.push(104);
    proof {
        assert(v@ =~= name_tf_logic_koth());
    }
    v
}

/// The class name `"func_areaportal"`, as bytes.
pub open spec fn name_func_areaportal() -> Seq<u8> {
    seq![102u8, 117u8, 110u8, 99u8, 95u8, 97u8, 114u8, 101u8, 97u8, 112u8, 111u8, 114u8, 116u8, 97u8, 108u8]
}

/// Executable form of `name_func_areaportal`.
fn nb_func_areaportal() -> (r: Vec<u8>)
    ensures
        r@ == name_func_areaportal(),
{
    let mut v: Vec<u8> = Vec::new();
    v.push(102);
    v.push(117);
    v.push(110);
    v.push(99);
    v.push(95);
    v.push(97);
    v.push(114);
    v.push(101);
    v.push(97);
    v.push(112);
    v.push(111);
    v.push(114);
    v.push(116);
    v.push(97);
    v.push(108);
    proof {
        assert(v@ =~= name_func_areaportal());
    }
    v
}


/// The failure of one field's extraction, carried at specification
/// level: a missing required property (with its name), a token shortage
/// in an array value, a malformed number, or a value outside a closed
/// enumeration (with the enumeration's name).
pub enum PropError {
    Missing(Seq<u8>),
    ElementCount,
    ParseInt,
    InvalidEnum(Seq<char>),
}

/// How an executable extraction error realises a specification-level one.
pub open spec fn err_corresponds(e: EntityParseError, pe: PropError) -> bool {
    match pe {
        PropError::Missing(k) => e matches EntityParseError::NoSuchProperty(ek) && ek@ == k,
        PropError::ElementCount => e == EntityParseError::ElementCount,
        PropError::ParseInt => e == EntityParseError::ParseInt,
        PropError::InvalidEnum(n) => e matches EntityParseError::InvalidEnumValue(en) && en@ == n,
    }
}

/// The token-shape test for signed vector components.
pub open spec fn i32_ok_fn() -> spec_fn(Seq<u8>) -> bool {
    |t: Seq<u8>| parse_i32_spec(t) is Some
}

/// The token-shape test for unsigned array components.
pub open spec fn u32_ok_fn() -> spec_fn(Seq<u8>) -> bool {
    |t: Seq<u8>| parse_u32_spec(t) is Some
}

/// The failure, if any, of reading a value as a three-component vector.
pub open spec fn vector_err(val: Seq<u8>) -> Option<PropError> {
    match array_err(split_tokens(val, 0), 3, 0, i32_ok_fn()) {
        Option::Some(EntityParseError::ElementCount) => Option::Some(PropError::ElementCount),
        Option::Some(_) => Option::Some(PropError::ParseInt),
        Option::None => Option::None,
    }
}

/// The vector a well-formed value denotes.
pub open spec fn vector_val(val: Seq<u8>) -> crate::data::Vector {
    let toks = split_tokens(val, 0);
    crate::data::Vector {
        x: parse_i32_spec(toks[0])->Some_0,
        y: parse_i32_spec(toks[1])->Some_0,
        z: parse_i32_spec(toks[2])->Some_0,
    }
}

/// The failure, if any, of reading a value as four unsigned components.
pub open spec fn u32x4_err(val: Seq<u8>) -> Option<PropError> {
    match array_err(split_tokens(val, 0), 4, 0, u32_ok_fn()) {
        Option::Some(EntityParseError::ElementCount) => Option::Some(PropError::ElementCount),
        Option::Some(_) => Option::Some(PropError::ParseInt),
        Option::None => Option::None,
    }
}

/// The four unsigned components a well-formed value denotes.
pub open spec fn u32x4_val(val: Seq<u8>) -> [u32; 4] {
    let toks = split_tokens(val, 0);
    [
        parse_u32_spec(toks[0])->Some_0,
        parse_u32_spec(toks[1])->Some_0,
        parse_u32_spec(toks[2])->Some_0,
        parse_u32_spec(toks[3])->Some_0,
    ]
}

/// The failure of a required field, given the per-value failure rule.
pub open spec fn req_err(
    props: Seq<(Seq<u8>, Seq<u8>)>,
    key: Seq<u8>,
    val_err: spec_fn(Seq<u8>) -> Option<PropError>,
) -> Option<PropError> {
    match lookup(props, key) {
        Option::None => Option::Some(PropError::Missing(key)),
        Option::Some(val) => val_err(val),
    }
}

/// The failure of an optional-with-default field: only a present but
/// malformed value fails.
pub open spec fn dflt_err(
    props: Seq<(Seq<u8>, Seq<u8>)>,
    key: Seq<u8>,
    val_err: spec_fn(Seq<u8>) -> Option<PropError>,
) -> Option<PropError> {
    match lookup(props, key) {
        Option::None => Option::None,
        Option::Some(val) => val_err(val),
    }
}

/// The per-value failure rule of a plain string field (never fails).
pub open spec fn bytes_val_err() -> spec_fn(Seq<u8>) -> Option<PropError> {
    |val: Seq<u8>| Option::<PropError>::None
}

/// The per-value failure rule of an 8-bit unsigned field.
pub open spec fn u8_val_err() -> spec_fn(Seq<u8>) -> Option<PropError> {
    |val: Seq<u8>| if parse_u8_spec(val) is Some {
        Option::<PropError>::None
    } else {
        Option::Some(PropError::ParseInt)
    }
}

/// The per-value failure rule of a 32-bit unsigned field.
pub open spec fn u32_val_err() -> spec_fn(Seq<u8>) -> Option<PropError> {
    |val: Seq<u8>| if parse_u32_spec(val) is Some {
        Option::<PropError>::None
    } else {
        Option::Some(PropError::ParseInt)
    }
}

/// The per-value failure rule of a vector field.
pub open spec fn vector_val_err() -> spec_fn(Seq<u8>) -> Option<PropError> {
    |val: Seq<u8>| vector_err(val)
}

/// The per-value failure rule of a four-component unsigned field.
pub open spec fn u32x4_val_err() -> spec_fn(Seq<u8>) -> Option<PropError> {
    |val: Seq<u8>| u32x4_err(val)
}

/// An optional borrowed field realises the looked-up value.
pub open spec fn opt_bytes_matches(o: Option<&[u8]>, l: Option<Seq<u8>>) -> bool {
    match l {
        Option::Some(v) => o matches Some(b) && b@ == v,
        Option::None => o is None,
    }
}

/// The boolean a present value denotes, or false where absent.
pub open spec fn bool_or_false(l: Option<Seq<u8>>) -> bool {
    match l {
        Option::Some(v) => v != seq![48u8],
        Option::None => false,
    }
}

/// The 8-bit number a present value denotes, or zero where absent.
pub open spec fn u8_or_zero(l: Option<Seq<u8>>) -> u8 {
    match l {
        Option::Some(v) => parse_u8_spec(v)->Some_0,
        Option::None => 0,
    }
}

/// The 32-bit number a present value denotes, or zero where absent.
pub open spec fn u32_or_zero(l: Option<Seq<u8>>) -> u32 {
    match l {
        Option::Some(v) => parse_u32_spec(v)->Some_0,
        Option::None => 0,
    }
}


/// Positional extraction fails only for a missing token or a malformed
/// number.
pub proof fn lemma_array_err_values(
    toks: Seq<Seq<u8>>,
    n: int,
    k: int,
    ok: spec_fn(Seq<u8>) -> bool,
)
    requires
        k <= n,
    ensures
        array_err(toks, n, k, ok) matches Some(e) ==> e == EntityParseError::ElementCount || e
            == EntityParseError::ParseInt,
    decreases n - k,
{
    if k < n && k < toks.len() && ok(toks[k]) {
        lemma_array_err_values(toks, n, k + 1, ok);
    }
}

/// Looks an optional property up.
fn opt_raw<'a>(raw: &RawEntity<'a>, key: &[u8]) -> (r: Option<&'a [u8]>)
    ensures
        opt_bytes_matches(r, lookup(props_of(raw@, 0), key@)),
{
    match raw.prop(key) {
        Ok(v) => Some(v),
        Err(_) => None,
    }
}

/// Reads a required string field.
fn get_raw<'a>(raw: &RawEntity<'a>, key: &[u8]) -> (r: Result<&'a [u8], EntityParseError>)
    ensures
        match req_err(props_of(raw@, 0), key@, bytes_val_err()) {
            Some(pe) => r matches Err(e) && err_corresponds(e, pe),
            None => r matches Ok(v) && v@ == lookup(props_of(raw@, 0), key@)->Some_0,
        },
{
    raw.prop(key)
}

/// Reads a required 8-bit unsigned field.
fn get_u8<'a>(raw: &RawEntity<'a>, key: &[u8]) -> (r: Result<u8, EntityParseError>)
    ensures
        match req_err(props_of(raw@, 0), key@, u8_val_err()) {
            Some(pe) => r matches Err(e) && err_corresponds(e, pe),
            None => r matches Ok(v) && Some(v) == parse_u8_spec(
                lookup(props_of(raw@, 0), key@)->Some_0,
            ),
        },
{
    match raw.prop(key) {
        Ok(v) => parse_u8(v),
        Err(e) => Err(e),
    }
}

/// Reads a required 32-bit unsigned field.
fn get_u32<'a>(raw: &RawEntity<'a>, key: &[u8]) -> (r: Result<u32, EntityParseError>)
    ensures
        match req_err(props_of(raw@, 0), key@, u32_val_err()) {
            Some(pe) => r matches Err(e) && err_corresponds(e, pe),
            None => r matches Ok(v) && Some(v) == parse_u32_spec(
                lookup(props_of(raw@, 0), key@)->Some_0,
            ),
        },
{
    match raw.prop(key) {
        Ok(v) => parse_u32(v),
        Err(e) => Err(e),
    }
}

/// Reads an 8-bit unsigned field that defaults to zero where absent.
fn get_u8_or_zero<'a>(raw: &RawEntity<'a>, key: &[u8]) -> (r: Result<u8, EntityParseError>)
    ensures
        match dflt_err(props_of(raw@, 0), key@, u8_val_err()) {
            Some(pe) => r matches Err(e) && err_corresponds(e, pe),
            None => r matches Ok(v) && v == u8_or_zero(lookup(props_of(raw@, 0), key@)),
        },
{
    match raw.prop(key) {
        Ok(v) => parse_u8(v),
        Err(_) => Ok(0),
    }
}

/// Reads a 32-bit unsigned field that defaults to zero where absent.
fn get_u32_or_zero<'a>(raw: &RawEntity<'a>, key: &[u8]) -> (r: Result<u32, EntityParseError>)
    ensures
        match dflt_err(props_of(raw@, 0), key@, u32_val_err()) {
            Some(pe) => r matches Err(e) && err_corresponds(e, pe),
            None => r matches Ok(v) && v == u32_or_zero(lookup(props_of(raw@, 0), key@)),
        },
{
    match raw.prop(key) {
        Ok(v) => parse_u32(v),
        Err(_) => Ok(0),
    }
}

/// Reads a required boolean field.
fn get_bool<'a>(raw: &RawEntity<'a>, key: &[u8]) -> (r: Result<bool, EntityParseError>)
    ensures
        match req_err(props_of(raw@, 0), key@, bytes_val_err()) {
            Some(pe) => r matches Err(e) && err_corresponds(e, pe),
            None => r matches Ok(v) && v == (lookup(props_of(raw@, 0), key@)->Some_0
                != seq![48u8]),
        },
{
    match raw.prop(key) {
        Ok(v) => Ok(parse_bool(v)),
        Err(e) => Err(e),
    }
}

/// Reads a boolean field that defaults to false where absent.
fn get_bool_or_false<'a>(raw: &RawEntity<'a>, key: &[u8]) -> (r: bool)
    ensures
        r == bool_or_false(lookup(props_of(raw@, 0), key@)),
{
    match raw.prop(key) {
        Ok(v) => parse_bool(v),
        Err(_) => false,
    }
}

/// Reads a required vector field.
fn get_vector<'a>(raw: &RawEntity<'a>, key: &[u8]) -> (r: Result<crate::data::Vector, EntityParseError>)
    ensures
        match req_err(props_of(raw@, 0), key@, vector_val_err()) {
            Some(pe) => r matches Err(e) && err_corresponds(e, pe),
            None => r matches Ok(v) && v == vector_val(lookup(props_of(raw@, 0), key@)->Some_0),
        },
{
    match raw.prop(key) {
        Ok(v) => {
            proof {
                lemma_array_err_values(split_tokens(v@, 0), 3, 0, i32_ok_fn());
            }
            parse_vector(v)
        },
        Err(e) => Err(e),
    }
}

/// Reads a required four-component unsigned field.
fn get_u32x4<'a>(raw: &RawEntity<'a>, key: &[u8]) -> (r: Result<[u32; 4], EntityParseError>)
    ensures
        match req_err(props_of(raw@, 0), key@, u32x4_val_err()) {
            Some(pe) => r matches Err(e) && err_corresponds(e, pe),
            None => r matches Ok(v) && v == u32x4_val(lookup(props_of(raw@, 0), key@)->Some_0),
        },
{
    match raw.prop(key) {
        Ok(v) => {
            proof {
                lemma_array_err_values(split_tokens(v@, 0), 4, 0, u32_ok_fn());
            }
            parse_u32_array4(v)
        },
        Err(e) => Err(e),
    }
}

/// One decoded `light`-style record of the entity text.
#[derive(Debug, Clone, Copy)]
pub struct Light {
    pub origin: Vector,
    pub light: [u32; 4],
}

/// The first field-extraction failure of a `Light` record, if any.
pub open spec fn light_err(props: Seq<(Seq<u8>, Seq<u8>)>) -> Option<PropError> {
    match req_err(props, key_origin(), vector_val_err()) {
        Option::Some(pe) => Option::Some(pe),
        Option::None => match req_err(props, key_light_val(), u32x4_val_err()) {
        Option::Some(pe) => Option::Some(pe),
        Option::None => Option::<PropError>::None,
    },
    }
}

/// The fields a well-formed `Light` record must carry.
pub open spec fn light_fields_ok(v: Light, props: Seq<(Seq<u8>, Seq<u8>)>) -> bool {
    &&& v.origin == vector_val(lookup(props, key_origin())->Some_0)
    &&& v.light == u32x4_val(lookup(props, key_light_val())->Some_0)
}

impl Light {
    /// Extracts one `Light` record from an entity's property bag.
    pub fn parse(raw: &RawEntity<'_>) -> (r: Result<Light, EntityParseError>)
        ensures
            match light_err(props_of(raw@, 0)) {
                Some(pe) => r matches Err(e) && err_corresponds(e, pe),
                None => r matches Ok(v) && light_fields_ok(v, props_of(raw@, 0)),
            },
    {
        let kv_origin = kb_origin();
        let origin = match get_vector(raw, kv_origin.as_slice()) {
            Ok(v) => v,
            Err(e) => { return Err(e); },
        };
        let kv_light = kb_light_val();
        let light = match get_u32x4(raw, kv_light.as_slice()) {
            Ok(v) => v,
            Err(e) => { return Err(e); },
        };
        Ok(Light { origin, light })
    }
}

/// One decoded `respawn_room`-style record of the entity text.
#[derive(Debug, Clone, Copy)]
pub struct RespawnRoom<'a> {
    pub target: Option<&'a [u8]>,
    pub model: &'a [u8],
    pub start_disabled: bool,
    pub team: u8,
}

/// The first field-extraction failure of a `RespawnRoom` record, if any.
pub open spec fn respawn_room_err(props: Seq<(Seq<u8>, Seq<u8>)>) -> Option<PropError> {
    match req_err(props, key_model(), bytes_val_err()) {
        Option::Some(pe) => Option::Some(pe),
        Option::None => match req_err(props, key_teamnum(), u8_val_err()) {
        Option::Some(pe) => Option::Some(pe),
        Option::None => Option::<PropError>::None,
    },
    }
}

/// The fields a well-formed `RespawnRoom` record must carry.
pub open spec fn respawn_room_fields_ok<'a>(v: RespawnRoom<'a>, props: Seq<(Seq<u8>, Seq<u8>)>) -> bool {
    &&& opt_bytes_matches(v.target, lookup(props, key_targetname()))
    &&& v.model@ == lookup(props, key_model())->Some_0
    &&& v.start_disabled == bool_or_false(lookup(props, key_start_disabled()))
    &&& Some(v.team) == parse_u8_spec(lookup(props, key_teamnum())->Some_0)
}

impl<'a> RespawnRoom<'a> {
    /// Extracts one `RespawnRoom` record from an entity's property bag.
    pub fn parse(raw: &RawEntity<'a>) -> (r: Result<RespawnRoom<'a>, EntityParseError>)
        ensures
            match respawn_room_err(props_of(raw@, 0)) {
                Some(pe) => r matches Err(e) && err_corresponds(e, pe),
                None => r matches Ok(v) && respawn_room_fields_ok(v, props_of(raw@, 0)),
            },
    {
        let kv_target = kb_targetname();
        let target = opt_raw(raw, kv_target.as_slice());
        let kv_model = kb_model();
        let model = match get_raw(raw, kv_model.as_slice()) {
            Ok(v) => v,
            Err(e) => { return Err(e); },
        };
        let kv_start_disabled = kb_start_disabled();
        let start_disabled = get_bool_or_false(raw, kv_start_disabled.as_slice());
        let kv_team = kb_teamnum();
        let team = match get_u8(raw, kv_team.as_slice()) {
            Ok(v) => v,
            Err(e) => { return Err(e); },
        };
        Ok(RespawnRoom { target, model, start_disabled, team })
    }
}

/// One decoded `regenerate`-style record of the entity text.
#[derive(Debug, Clone, Copy)]
pub struct Regenerate<'a> {
    pub associated_model: &'a [u8],
    pub model: &'a [u8],
    pub team: u8,
}

/// The first field-extraction failure of a `Regenerate` record, if any.
pub open spec fn regenerate_err(props: Seq<(Seq<u8>, Seq<u8>)>) -> Option<PropError> {
    match req_err(props, key_associatedmodel(), bytes_val_err()) {
        Option::Some(pe) => Option::Some(pe),
        Option::None => match req_err(props, key_model(), bytes_val_err()) {
        Option::Some(pe) => Option::Some(pe),
        Option::None => match req_err(props, key_teamnum(), u8_val_err()) {
        Option::Some(pe) => Option::Some(pe),
        Option::None => Option::<PropError>::None,
    },
    },
    }
}

/// The fields a well-formed `Regenerate` record must carry.
pub open spec fn regenerate_fields_ok<'a>(v: Regenerate<'a>, props: Seq<(Seq<u8>, Seq<u8>)>) -> bool {
    &&& v.associated_model@ == lookup(props, key_associatedmodel())->Some_0
    &&& v.model@ == lookup(props, key_model())->Some_0
    &&& Some(v.team) == parse_u8_spec(lookup(props, key_teamnum())->Some_0)
}

impl<'a> Regenerate<'a> {
    /// Extracts one `Regenerate` record from an entity's property bag.
    pub fn parse(raw: &RawEntity<'a>) -> (r: Result<Regenerate<'a>, EntityParseError>)
        ensures
            match regenerate_err(props_of(raw@, 0)) {
                Some(pe) => r matches Err(e) && err_corresponds(e, pe),
                None => r matches Ok(v) && regenerate_fields_ok(v, props_of(raw@, 0)),
            },
    {
        let kv_associated_model = kb_associatedmodel();
        let associated_model = match get_raw(raw, kv_associated_model.as_slice()) {
            Ok(v) => v,
            Err(e) => { return Err(e); },
        };
        let kv_model = kb_model();
        let model = match get_raw(raw, kv_model.as_slice()) {
            Ok(v) => v,
            Err(e) => { return Err(e); },
        };
        let kv_team = kb_teamnum();
        let team = match get_u8(raw, kv_team.as_slice()) {
            Ok(v) => v,
            Err(e) => { return Err(e); },
        };
        Ok(Regenerate { associated_model, model, team })
    }
}

/// One decoded `ammo_pack`-style record of the entity text.
#[derive(Debug, Clone, Copy)]
pub struct AmmoPack {
    pub origin: Vector,
}

/// The first field-extraction failure of a `AmmoPack` record, if any.
pub open spec fn ammo_pack_err(props: Seq<(Seq<u8>, Seq<u8>)>) -> Option<PropError> {
    match req_err(props, key_origin(), vector_val_err()) {
        Option::Some(pe) => Option::Some(pe),
        Option::None => Option::<PropError>::None,
    }
}

/// The fields a well-formed `AmmoPack` record must carry.
pub open spec fn ammo_pack_fields_ok(v: AmmoPack, props: Seq<(Seq<u8>, Seq<u8>)>) -> bool {
    &&& v.origin == vector_val(lookup(props, key_origin())->Some_0)
}

impl AmmoPack {
    /// Extracts one `AmmoPack` record from an entity's property bag.
    pub fn parse(raw: &RawEntity<'_>) -> (r: Result<AmmoPack, EntityParseError>)
        ensures
            match ammo_pack_err(props_of(raw@, 0)) {
                Some(pe) => r matches Err(e) && err_corresponds(e, pe),
                None => r matches Ok(v) && ammo_pack_fields_ok(v, props_of(raw@, 0)),
            },
    {
        let kv_origin = kb_origin();
        let origin = match get_vector(raw, kv_origin.as_slice()) {
            Ok(v) => v,
            Err(e) => { return Err(e); },
        };
        Ok(AmmoPack { origin })
    }
}

/// One decoded `health_pack`-style record of the entity text.
#[derive(Debug, Clone, Copy)]
pub struct HealthPack {
    pub origin: Vector,
}

/// The first field-extraction failure of a `HealthPack` record, if any.
pub open spec fn health_pack_err(props: Seq<(Seq<u8>, Seq<u8>)>) -> Option<PropError> {
    match req_err(props, key_origin(), vector_val_err()) {
        Option::Some(pe) => Option::Some(pe),
        Option::None => Option::<PropError>::None,
    }
}

/// The fields a well-formed `HealthPack` record must carry.
pub open spec fn health_pack_fields_ok(v: HealthPack, props: Seq<(Seq<u8>, Seq<u8>)>) -> bool {
    &&& v.origin == vector_val(lookup(props, key_origin())->Some_0)
}

impl HealthPack {
    /// Extracts one `HealthPack` record from an entity's property bag.
    pub fn parse(raw: &RawEntity<'_>) -> (r: Result<HealthPack, EntityParseError>)
        ensures
            match health_pack_err(props_of(raw@, 0)) {
                Some(pe) => r matches Err(e) && err_corresponds(e, pe),
                None => r matches Ok(v) && health_pack_fields_ok(v, props_of(raw@, 0)),
            },
    {
        let kv_origin = kb_origin();
        let origin = match get_vector(raw, kv_origin.as_slice()) {
            Ok(v) => v,
            Err(e) => { return Err(e); },
        };
        Ok(HealthPack { origin })
    }
}

/// One decoded `world_spawn`-style record of the entity text.
#[derive(Debug, Clone, Copy)]
pub struct WorldSpawn<'a> {
    pub min: Vector,
    pub max: Vector,
    pub detail_vbsp: &'a [u8],
    pub detail_material: &'a [u8],
    pub comment: Option<&'a [u8]>,
    pub skybox: &'a [u8],
    pub version: u32,
}

/// The first field-extraction failure of a `WorldSpawn` record, if any.
pub open spec fn world_spawn_err(props: Seq<(Seq<u8>, Seq<u8>)>) -> Option<PropError> {
    match req_err(props, key_world_mins(), vector_val_err()) {
        Option::Some(pe) => Option::Some(pe),
        Option::None => match req_err(props, key_world_mins(), vector_val_err()) {
        Option::Some(pe) => Option::Some(pe),
        Option::None => match req_err(props, key_detailvbsp(), bytes_val_err()) {
        Option::Some(pe) => Option::Some(pe),
        Option::None => match req_err(props, key_detailmaterial(), bytes_val_err()) {
        Option::Some(pe) => Option::Some(pe),
        Option::None => match req_err(props, key_skyname(), bytes_val_err()) {
        Option::Some(pe) => Option::Some(pe),
        Option::None => match req_err(props, key_mapversion(), u32_val_err()) {
        Option::Some(pe) => Option::Some(pe),
        Option::None => Option::<PropError>::None,
    },
    },
    },
    },
    },
    }
}

/// The fields a well-formed `WorldSpawn` record must carry.
pub open spec fn world_spawn_fields_ok<'a>(v: WorldSpawn<'a>, props: Seq<(Seq<u8>, Seq<u8>)>) -> bool {
    &&& v.min == vector_val(lookup(props, key_world_mins())->Some_0)
    &&& v.max == vector_val(lookup(props, key_world_mins())->Some_0)
    &&& v.detail_vbsp@ == lookup(props, key_detailvbsp())->Some_0
    &&& v.detail_material@ == lookup(props, key_detailmaterial())->Some_0
    &&& opt_bytes_matches(v.comment, lookup(props, key_comment()))
    &&& v.skybox@ == lookup(props, key_skyname())->Some_0
    &&& Some(v.version) == parse_u32_spec(lookup(props, key_mapversion())->Some_0)
}

impl<'a> WorldSpawn<'a> {
    /// Extracts one `WorldSpawn` record from an entity's property bag.
    pub fn parse(raw: &RawEntity<'a>) -> (r: Result<WorldSpawn<'a>, EntityParseError>)
        ensures
            match world_spawn_err(props_of(raw@, 0)) {
                Some(pe) => r matches Err(e) && err_corresponds(e, pe),
                None => r matches Ok(v) && world_spawn_fields_ok(v, props_of(raw@, 0)),
            },
    {
        let kv_min = kb_world_mins();
        let min = match get_vector(raw, kv_min.as_slice()) {
            Ok(v) => v,
            Err(e) => { return Err(e); },
        };
        let kv_max = kb_world_mins();
        let max = match get_vector(raw, kv_max.as_slice()) {
            Ok(v) => v,
            Err(e) => { return Err(e); },
        };
        let kv_detail_vbsp = kb_detailvbsp();
        let detail_vbsp = match get_raw(raw, kv_detail_vbsp.as_slice()) {
            Ok(v) => v,
            Err(e) => { return Err(e); },
        };
        let kv_detail_material = kb_detailmaterial();
        let detail_material = match get_raw(raw, kv_detail_material.as_slice()) {
            Ok(v) => v,
            Err(e) => { return Err(e); },
        };
        let kv_comment = kb_comment();
        let comment = opt_raw(raw, kv_comment.as_slice());
        let kv_skybox = kb_skyname();
        let skybox = match get_raw(raw, kv_skybox.as_slice()) {
            Ok(v) => v,
            Err(e) => { return Err(e); },
        };
        let kv_version = kb_mapversion();
        let version = match get_u32(raw, kv_version.as_slice()) {
            Ok(v) => v,
            Err(e) => { return Err(e); },
        };
        Ok(WorldSpawn { min, max, detail_vbsp, detail_material, comment, skybox, version })
    }
}

/// One decoded `trigger_multiple`-style record of the entity text.
#[derive(Debug, Clone, Copy)]
pub struct TriggerMultiple<'a> {
    pub model: &'a [u8],
    pub origin: Vector,
    pub start_touch: Option<&'a [u8]>,
    pub start_touch_all: Option<&'a [u8]>,
    pub end_touch: Option<&'a [u8]>,
    pub end_touch_all: Option<&'a [u8]>,
    pub not_touching: Option<&'a [u8]>,
    pub target_name: Option<&'a [u8]>,
    pub filter: Option<&'a [u8]>,
    pub wait: Option<u32>,
    pub start_disabled: bool,
}

/// The first field-extraction failure of a `TriggerMultiple` record, if any.
pub open spec fn trigger_multiple_err(props: Seq<(Seq<u8>, Seq<u8>)>) -> Option<PropError> {
    match req_err(props, key_model(), bytes_val_err()) {
        Option::Some(pe) => Option::Some(pe),
        Option::None => match req_err(props, key_origin(), vector_val_err()) {
        Option::Some(pe) => Option::Some(pe),
        Option::None => match req_err(props, key_wait(), u32_val_err()) {
        Option::Some(pe) => Option::Some(pe),
        Option::None => Option::<PropError>::None,
    },
    },
    }
}

/// The fields a well-formed `TriggerMultiple` record must carry.
pub open spec fn trigger_multiple_fields_ok<'a>(v: TriggerMultiple<'a>, props: Seq<(Seq<u8>, Seq<u8>)>) -> bool {
    &&& v.model@ == lookup(props, key_model())->Some_0
    &&& v.origin == vector_val(lookup(props, key_origin())->Some_0)
    &&& opt_bytes_matches(v.start_touch, lookup(props, key_on_start_touch()))
    &&& opt_bytes_matches(v.start_touch_all, lookup(props, key_on_start_touch_all()))
    &&& opt_bytes_matches(v.end_touch, lookup(props, key_on_end_touch()))
    &&& opt_bytes_matches(v.end_touch_all, lookup(props, key_on_end_touch_all()))
    &&& opt_bytes_matches(v.not_touching, lookup(props, key_on_not_touching()))
    &&& opt_bytes_matches(v.target_name, lookup(props, key_targetname()))
    &&& opt_bytes_matches(v.filter, lookup(props, key_filtername()))
    &&& v.wait matches Some(w) && Some(w) == parse_u32_spec(lookup(props, key_wait())->Some_0)
    &&& v.start_disabled == bool_or_false(lookup(props, key_start_disabled()))
}

impl<'a> TriggerMultiple<'a> {
    /// Extracts one `TriggerMultiple` record from an entity's property bag.
    pub fn parse(raw: &RawEntity<'a>) -> (r: Result<TriggerMultiple<'a>, EntityParseError>)
        ensures
            match trigger_multiple_err(props_of(raw@, 0)) {
                Some(pe) => r matches Err(e) && err_corresponds(e, pe),
                None => r matches Ok(v) && trigger_multiple_fields_ok(v, props_of(raw@, 0)),
            },
    {
        let kv_model = kb_model();
        let model = match get_raw(raw, kv_model.as_slice()) {
            Ok(v) => v,
            Err(e) => { return Err(e); },
        };
        let kv_origin = kb_origin();
        let origin = match get_vector(raw, kv_origin.as_slice()) {
            Ok(v) => v,
            Err(e) => { return Err(e); },
        };
        let kv_start_touch = kb_on_start_touch();
        let start_touch = opt_raw(raw, kv_start_touch.as_slice());
        let kv_start_touch_all = kb_on_start_touch_all();
        let start_touch_all = opt_raw(raw, kv_start_touch_all.as_slice());
        let kv_end_touch = kb_on_end_touch();
        let end_touch = opt_raw(raw, kv_end_touch.as_slice());
        let kv_end_touch_all = kb_on_end_touch_all();
        let end_touch_all = opt_raw(raw, kv_end_touch_all.as_slice());
        let kv_not_touching = kb_on_not_touching();
        let not_touching = opt_raw(raw, kv_not_touching.as_slice());
        let kv_target_name = kb_targetname();
        let target_name = opt_raw(raw, kv_target_name.as_slice());
        let kv_filter = kb_filtername();
        let filter = opt_raw(raw, kv_filter.as_slice());
        let kv_wait = kb_wait();
        let wait = match get_u32(raw, kv_wait.as_slice()) {
            Ok(v) => Some(v),
            Err(e) => { return Err(e); },
        };
        let kv_start_disabled = kb_start_disabled();
        let start_disabled = get_bool_or_false(raw, kv_start_disabled.as_slice());
        Ok(TriggerMultiple { model, origin, start_touch, start_touch_all, end_touch, end_touch_all, not_touching, target_name, filter, wait, start_disabled })
    }
}

/// One decoded `filter_activator_team`-style record of the entity text.
#[derive(Debug, Clone, Copy)]
pub struct FilterActivatorTeam<'a> {
    pub origin: Vector,
    pub target_name: Option<&'a [u8]>,
    pub negated: Option<&'a [u8]>,
    pub team: u8,
}

/// The first field-extraction failure of a `FilterActivatorTeam` record, if any.
pub open spec fn filter_activator_team_err(props: Seq<(Seq<u8>, Seq<u8>)>) -> Option<PropError> {
    match req_err(props, key_origin(), vector_val_err()) {
        Option::Some(pe) => Option::Some(pe),
        Option::None => match dflt_err(props, key_teamnum(), u8_val_err()) {
        Option::Some(pe) => Option::Some(pe),
        Option::None => Option::<PropError>::None,
    },
    }
}

/// The fields a well-formed `FilterActivatorTeam` record must carry.
pub open spec fn filter_activator_team_fields_ok<'a>(v: FilterActivatorTeam<'a>, props: Seq<(Seq<u8>, Seq<u8>)>) -> bool {
    &&& v.origin == vector_val(lookup(props, key_origin())->Some_0)
    &&& opt_bytes_matches(v.target_name, lookup(props, key_targetname()))
    &&& opt_bytes_matches(v.negated, lookup(props, key_negated()))
    &&& v.team == u8_or_zero(lookup(props, key_teamnum()))
}

impl<'a> FilterActivatorTeam<'a> {
    /// Extracts one `FilterActivatorTeam` record from an entity's property bag.
    pub fn parse(raw: &RawEntity<'a>) -> (r: Result<FilterActivatorTeam<'a>, EntityParseError>)
        ensures
            match filter_activator_team_err(props_of(raw@, 0)) {
                Some(pe) => r matches Err(e) && err_corresponds(e, pe),
                None => r matches Ok(v) && filter_activator_team_fields_ok(v, props_of(raw@, 0)),
            },
    {
        let kv_origin = kb_origin();
        let origin = match get_vector(raw, kv_origin.as_slice()) {
            Ok(v) => v,
            Err(e) => { return Err(e); },
        };
        let kv_target_name = kb_targetname();
        let target_name = opt_raw(raw, kv_target_name.as_slice());
        let kv_negated = kb_negated();
        let negated = opt_raw(raw, kv_negated.as_slice());
        let kv_team = kb_teamnum();
        let team = match get_u8_or_zero(raw, kv_team.as_slice()) {
            Ok(v) => v,
            Err(e) => { return Err(e); },
        };
        Ok(FilterActivatorTeam { origin, target_name, negated, team })
    }
}

/// One decoded `logic_relay`-style record of the entity text.
#[derive(Debug, Clone, Copy)]
pub struct LogicRelay<'a> {
    pub origin: Vector,
    pub target_name: Option<&'a [u8]>,
    pub on_trigger: Option<&'a [u8]>,
}

/// The first field-extraction failure of a `LogicRelay` record, if any.
pub open spec fn logic_relay_err(props: Seq<(Seq<u8>, Seq<u8>)>) -> Option<PropError> {
    match req_err(props, key_origin(), vector_val_err()) {
        Option::Some(pe) => Option::Some(pe),
        Option::None => Option::<PropError>::None,
    }
}

/// The fields a well-formed `LogicRelay` record must carry.
pub open spec fn logic_relay_fields_ok<'a>(v: LogicRelay<'a>, props: Seq<(Seq<u8>, Seq<u8>)>) -> bool {
    &&& v.origin == vector_val(lookup(props, key_origin())->Some_0)
    &&& opt_bytes_matches(v.target_name, lookup(props, key_targetname()))
    &&& opt_bytes_matches(v.on_trigger, lookup(props, key_on_trigger()))
}

impl<'a> LogicRelay<'a> {
    /// Extracts one `LogicRelay` record from an entity's property bag.
    pub fn parse(raw: &RawEntity<'a>) -> (r: Result<LogicRelay<'a>, EntityParseError>)
        ensures
            match logic_relay_err(props_of(raw@, 0)) {
                Some(pe) => r matches Err(e) && err_corresponds(e, pe),
                None => r matches Ok(v) && logic_relay_fields_ok(v, props_of(raw@, 0)),
            },
    {
        let kv_origin = kb_origin();
        let origin = match get_vector(raw, kv_origin.as_slice()) {
            Ok(v) => v,
            Err(e) => { return Err(e); },
        };
        let kv_target_name = kb_targetname();
        let target_name = opt_raw(raw, kv_target_name.as_slice());
        let kv_on_trigger = kb_on_trigger();
        let on_trigger = opt_raw(raw, kv_on_trigger.as_slice());
        Ok(LogicRelay { origin, target_name, on_trigger })
    }
}

/// One decoded `logic_auto`-style record of the entity text.
#[derive(Debug, Clone, Copy)]
pub struct LogicAuto<'a> {
    pub origin: Vector,
    pub on_map_spawn: Option<&'a [u8]>,
}

/// The first field-extraction failure of a `LogicAuto` record, if any.
pub open spec fn logic_auto_err(props: Seq<(Seq<u8>, Seq<u8>)>) -> Option<PropError> {
    match req_err(props, key_origin(), vector_val_err()) {
        Option::Some(pe) => Option::Some(pe),
        Option::None => Option::<PropError>::None,
    }
}

/// The fields a well-formed `LogicAuto` record must carry.
pub open spec fn logic_auto_fields_ok<'a>(v: LogicAuto<'a>, props: Seq<(Seq<u8>, Seq<u8>)>) -> bool {
    &&& v.origin == vector_val(lookup(props, key_origin())->Some_0)
    &&& opt_bytes_matches(v.on_map_spawn, lookup(props, key_on_map_spawn()))
}

impl<'a> LogicAuto<'a> {
    /// Extracts one `LogicAuto` record from an entity's property bag.
    pub fn parse(raw: &RawEntity<'a>) -> (r: Result<LogicAuto<'a>, EntityParseError>)
        ensures
            match logic_auto_err(props_of(raw@, 0)) {
                Some(pe) => r matches Err(e) && err_corresponds(e, pe),
                None => r matches Ok(v) && logic_auto_fields_ok(v, props_of(raw@, 0)),
            },
    {
        let kv_origin = kb_origin();
        let origin = match get_vector(raw, kv_origin.as_slice()) {
            Ok(v) => v,
            Err(e) => { return Err(e); },
        };
        let kv_on_map_spawn = kb_on_map_spawn();
        let on_map_spawn = opt_raw(raw, kv_on_map_spawn.as_slice());
        Ok(LogicAuto { origin, on_map_spawn })
    }
}

/// One decoded `game_rules`-style record of the entity text.
#[derive(Debug, Clone, Copy)]
pub struct GameRules<'a> {
    pub origin: Vector,
    pub target_name: Option<&'a [u8]>,
    pub ctf_overtime: bool,
    pub hud_type: u32,
}

/// The first field-extraction failure of a `GameRules` record, if any.
pub open spec fn game_rules_err(props: Seq<(Seq<u8>, Seq<u8>)>) -> Option<PropError> {
    match req_err(props, key_origin(), vector_val_err()) {
        Option::Some(pe) => Option::Some(pe),
        Option::None => match dflt_err(props, key_hud_type(), u32_val_err()) {
        Option::Some(pe) => Option::Some(pe),
        Option::None => Option::<PropError>::None,
    },
    }
}

/// The fields a well-formed `GameRules` record must carry.
pub open spec fn game_rules_fields_ok<'a>(v: GameRules<'a>, props: Seq<(Seq<u8>, Seq<u8>)>) -> bool {
    &&& v.origin == vector_val(lookup(props, key_origin())->Some_0)
    &&& opt_bytes_matches(v.target_name, lookup(props, key_targetname()))
    &&& v.ctf_overtime == bool_or_false(lookup(props, key_ctf_overtime()))
    &&& v.hud_type == u32_or_zero(lookup(props, key_hud_type()))
}

impl<'a> GameRules<'a> {
    /// Extracts one `GameRules` record from an entity's property bag.
    pub fn parse(raw: &RawEntity<'a>) -> (r: Result<GameRules<'a>, EntityParseError>)
        ensures
            match game_rules_err(props_of(raw@, 0)) {
                Some(pe) => r matches Err(e) && err_corresponds(e, pe),
                None => r matches Ok(v) && game_rules_fields_ok(v, props_of(raw@, 0)),
            },
    {
        let kv_origin = kb_origin();
        let origin = match get_vector(raw, kv_origin.as_slice()) {
            Ok(v) => v,
            Err(e) => { return Err(e); },
        };
        let kv_target_name = kb_targetname();
        let target_name = opt_raw(raw, kv_target_name.as_slice());
        let kv_ctf_overtime = kb_ctf_overtime();
        let ctf_overtime = get_bool_or_false(raw, kv_ctf_overtime.as_slice());
        let kv_hud_type = kb_hud_type();
        let hud_type = match get_u32_or_zero(raw, kv_hud_type.as_slice()) {
            Ok(v) => v,
            Err(e) => { return Err(e); },
        };
        Ok(GameRules { origin, target_name, ctf_overtime, hud_type })
    }
}

/// One decoded `koth_logic`-style record of the entity text.
#[derive(Debug, Clone, Copy)]
pub struct KothLogic {
    pub origin: Vector,
    pub unlock_point: u32,
    pub timer_length: u32,
}

/// The first field-extraction failure of a `KothLogic` record, if any.
pub open spec fn koth_logic_err(props: Seq<(Seq<u8>, Seq<u8>)>) -> Option<PropError> {
    match req_err(props, key_origin(), vector_val_err()) {
        Option::Some(pe) => Option::Some(pe),
        Option::None => match req_err(props, key_unlock_point(), u32_val_err()) {
        Option::Some(pe) => Option::Some(pe),
        Option::None => match req_err(props, key_timer_length(), u32_val_err()) {
        Option::Some(pe) => Option::Some(pe),
        Option::None => Option::<PropError>::None,
    },
    },
    }
}

/// The fields a well-formed `KothLogic` record must carry.
pub open spec fn koth_logic_fields_ok(v: KothLogic, props: Seq<(Seq<u8>, Seq<u8>)>) -> bool {
    &&& v.origin == vector_val(lookup(props, key_origin())->Some_0)
    &&& Some(v.unlock_point) == parse_u32_spec(lookup(props, key_unlock_point())->Some_0)
    &&& Some(v.timer_length) == parse_u32_spec(lookup(props, key_timer_length())->Some_0)
}

impl KothLogic {
    /// Extracts one `KothLogic` record from an entity's property bag.
    pub fn parse(raw: &RawEntity<'_>) -> (r: Result<KothLogic, EntityParseError>)
        ensures
            match koth_logic_err(props_of(raw@, 0)) {
                Some(pe) => r matches Err(e) && err_corresponds(e, pe),
                None => r matches Ok(v) && koth_logic_fields_ok(v, props_of(raw@, 0)),
            },
    {
        let kv_origin = kb_origin();
        let origin = match get_vector(raw, kv_origin.as_slice()) {
            Ok(v) => v,
            Err(e) => { return Err(e); },
        };
        let kv_unlock_point = kb_unlock_point();
        let unlock_point = match get_u32(raw, kv_unlock_point.as_slice()) {
            Ok(v) => v,
            Err(e) => { return Err(e); },
        };
        let kv_timer_length = kb_timer_length();
        let timer_length = match get_u32(raw, kv_timer_length.as_slice()) {
            Ok(v) => v,
            Err(e) => { return Err(e); },
        };
        Ok(KothLogic { origin, unlock_point, timer_length })
    }
}

/// One decoded `area_portal`-style record of the entity text.
#[derive(Debug, Clone, Copy)]
pub struct AreaPortal {
    pub version: u8,
    pub number: u8,
    pub start_open: bool,
}

/// The first field-extraction failure of a `AreaPortal` record, if any.
pub open spec fn area_portal_err(props: Seq<(Seq<u8>, Seq<u8>)>) -> Option<PropError> {
    match req_err(props, key_portal_version(), u8_val_err()) {
        Option::Some(pe) => Option::Some(pe),
        Option::None => match req_err(props, key_portalnumber(), u8_val_err()) {
        Option::Some(pe) => Option::Some(pe),
        Option::None => match req_err(props, key_start_open(), bytes_val_err()) {
        Option::Some(pe) => Option::Some(pe),
        Option::None => Option::<PropError>::None,
    },
    },
    }
}

/// The fields a well-formed `AreaPortal` record must carry.
pub open spec fn area_portal_fields_ok(v: AreaPortal, props: Seq<(Seq<u8>, Seq<u8>)>) -> bool {
    &&& Some(v.version) == parse_u8_spec(lookup(props, key_portal_version())->Some_0)
    &&& Some(v.number) == parse_u8_spec(lookup(props, key_portalnumber())->Some_0)
    &&& v.start_open == (lookup(props, key_start_open())->Some_0 != seq![48u8])
}

impl AreaPortal {
    /// Extracts one `AreaPortal` record from an entity's property bag.
    pub fn parse(raw: &RawEntity<'_>) -> (r: Result<AreaPortal, EntityParseError>)
        ensures
            match area_portal_err(props_of(raw@, 0)) {
                Some(pe) => r matches Err(e) && err_corresponds(e, pe),
                None => r matches Ok(v) && area_portal_fields_ok(v, props_of(raw@, 0)),
            },
    {
        let kv_version = kb_portal_version();
        let version = match get_u8(raw, kv_version.as_slice()) {
            Ok(v) => v,
            Err(e) => { return Err(e); },
        };
        let kv_number = kb_portalnumber();
        let number = match get_u8(raw, kv_number.as_slice()) {
            Ok(v) => v,
            Err(e) => { return Err(e); },
        };
        let kv_start_open = kb_start_open();
        let start_open = match get_bool(raw, kv_start_open.as_slice()) {
            Ok(v) => v,
            Err(e) => { return Err(e); },
        };
        Ok(AreaPortal { version, number, start_open })
    }
}

/// How an entity is rendered; selected by a numeric property value.
#[derive(Debug, Clone, Copy, PartialEq, Eq, Structural)]
pub enum RenderMode {
    Normal,
    Color,
    Texture,
    Glow,
    Solid,
    Additive,
    Unknown,
    AdditiveFractional,
    AlphaAdd,
    WorldSpaceGlow,
    SkipRender,
}

/// The `RenderMode` variant a numeric property value selects, if any.
pub open spec fn render_mode_of(v: u8) -> Option<RenderMode> {
    if v == 0 {
        Option::Some(RenderMode::Normal)
    } else if v == 1 {
        Option::Some(RenderMode::Color)
    } else if v == 2 {
        Option::Some(RenderMode::Texture)
    } else if v == 3 {
        Option::Some(RenderMode::Glow)
    } else if v == 4 {
        Option::Some(RenderMode::Solid)
    } else if v == 5 {
        Option::Some(RenderMode::Additive)
    } else if v == 6 {
        Option::Some(RenderMode::Unknown)
    } else if v == 7 {
        Option::Some(RenderMode::AdditiveFractional)
    } else if v == 8 {
        Option::Some(RenderMode::AlphaAdd)
    } else if v == 9 {
        Option::Some(RenderMode::WorldSpaceGlow)
    } else if v == 10 {
        Option::Some(RenderMode::SkipRender)
    } else {
        Option::None
    }
}

impl RenderMode {
    /// Converts a numeric property value into a `RenderMode`: a value
    /// outside the closed enumeration is rejected by name.
    pub fn parse(raw: &[u8]) -> (r: Result<RenderMode, EntityParseError>)
        ensures
            match parse_u8_spec(raw@) {
                Some(v) => match render_mode_of(v) {
                    Some(m) => r == Ok::<RenderMode, EntityParseError>(m),
                    None => r matches Err(e) && (e matches
                        EntityParseError::InvalidEnumValue(n) && n@ == ("RenderMode")@),
                },
                None => r == Err::<RenderMode, EntityParseError>(EntityParseError::ParseInt),
            },
    {
        let val = match parse_u8(raw) {
            Ok(v) => v,
            Err(e) => { return Err(e); },
        };
        if val == 0 {
            Ok(RenderMode::Normal)
        } else if val == 1 {
            Ok(RenderMode::Color)
        } else if val == 2 {
            Ok(RenderMode::Texture)
        } else if val == 3 {
            Ok(RenderMode::Glow)
        } else if val == 4 {
            Ok(RenderMode::Solid)
        } else if val == 5 {
            Ok(RenderMode::Additive)
        } else if val == 6 {
            Ok(RenderMode::Unknown)
        } else if val == 7 {
            Ok(RenderMode::AdditiveFractional)
        } else if val == 8 {
            Ok(RenderMode::AlphaAdd)
        } else if val == 9 {
            Ok(RenderMode::WorldSpaceGlow)
        } else if val == 10 {
            Ok(RenderMode::SkipRender)
        } else {
            Err(EntityParseError::InvalidEnumValue("RenderMode"))
        }
    }
}

/// The flicker pattern of a spot light; selected by a numeric property value.
#[derive(Debug, Clone, Copy, PartialEq, Eq, Structural)]
pub enum LightSpotStyle {
    Normal,
    FlourescentFlicker,
    SlowStrongPulse,
    SlowPulseNoBlack,
    GentlePulse,
    FlickerA,
    FlickerB,
    CandleA,
    CandleB,
    CandleC,
    FastStrobe,
    SlowStrobe,
    UnderwaterLightMutation,
}

/// The `LightSpotStyle` variant a numeric property value selects, if any.
pub open spec fn light_spot_style_of(v: u8) -> Option<LightSpotStyle> {
    if v == 0 {
        Option::Some(LightSpotStyle::Normal)
    } else if v == 10 {
        Option::Some(LightSpotStyle::FlourescentFlicker)
    } else if v == 2 {
        Option::Some(LightSpotStyle::SlowStrongPulse)
    } else if v == 11 {
        Option::Some(LightSpotStyle::SlowPulseNoBlack)
    } else if v == 5 {
        Option::Some(LightSpotStyle::GentlePulse)
    } else if v == 1 {
        Option::Some(LightSpotStyle::FlickerA)
    } else if v == 6 {
        Option::Some(LightSpotStyle::FlickerB)
    } else if v == 3 {
        Option::Some(LightSpotStyle::CandleA)
    } else if v == 7 {
        Option::Some(LightSpotStyle::CandleB)
    } else if v == 8 {
        Option::Some(LightSpotStyle::CandleC)
    } else if v == 4 {
        Option::Some(LightSpotStyle::FastStrobe)
    } else if v == 9 {
        Option::Some(LightSpotStyle::SlowStrobe)
    } else if v == 12 {
        Option::Some(LightSpotStyle::UnderwaterLightMutation)
    } else {
        Option::None
    }
}

impl Default for LightSpotStyle {
    /// The solid pattern.
    fn default() -> (r: Self)
        ensures
            r == LightSpotStyle::Normal,
    {
        LightSpotStyle::Normal
    }
}

impl LightSpotStyle {
    /// Converts a numeric property value into a `LightSpotStyle`: a value
    /// outside the closed enumeration is rejected by name.
    pub fn parse(raw: &[u8]) -> (r: Result<LightSpotStyle, EntityParseError>)
        ensures
            match parse_u8_spec(raw@) {
                Some(v) => match light_spot_style_of(v) {
                    Some(m) => r == Ok::<LightSpotStyle, EntityParseError>(m),
                    None => r matches Err(e) && (e matches
                        EntityParseError::InvalidEnumValue(n) && n@ == ("LightSpotStyle")@),
                },
                None => r == Err::<LightSpotStyle, EntityParseError>(EntityParseError::ParseInt),
            },
    {
        let val = match parse_u8(raw) {
            Ok(v) => v,
            Err(e) => { return Err(e); },
        };
        if val == 0 {
            Ok(LightSpotStyle::Normal)
        } else if val == 10 {
            Ok(LightSpotStyle::FlourescentFlicker)
        } else if val == 2 {
            Ok(LightSpotStyle::SlowStrongPulse)
        } else if val == 11 {
            Ok(LightSpotStyle::SlowPulseNoBlack)
        } else if val == 5 {
            Ok(LightSpotStyle::GentlePulse)
        } else if val == 1 {
            Ok(LightSpotStyle::FlickerA)
        } else if val == 6 {
            Ok(LightSpotStyle::FlickerB)
        } else if val == 3 {
            Ok(LightSpotStyle::CandleA)
        } else if val == 7 {
            Ok(LightSpotStyle::CandleB)
        } else if val == 8 {
            Ok(LightSpotStyle::CandleC)
        } else if val == 4 {
            Ok(LightSpotStyle::FastStrobe)
        } else if val == 9 {
            Ok(LightSpotStyle::SlowStrobe)
        } else if val == 12 {
            Ok(LightSpotStyle::UnderwaterLightMutation)
        } else {
            Err(EntityParseError::InvalidEnumValue("LightSpotStyle"))
        }
    }
}

/// A typed entity: one variant per recognised class name, with a
/// catch-all that keeps the raw block for unrecognised classes.
#[derive(Debug, Clone)]
pub enum Entity<'a> {
    Light(Light),
    RespawnRoom(RespawnRoom<'a>),
    Regenerate(Regenerate<'a>),
    WorldSpawn(WorldSpawn<'a>),
    AmmoPackSmall(AmmoPack),
    AmmoPackMedium(AmmoPack),
    HealthPackFull(HealthPack),
    HealthPackSmall(HealthPack),
    HealthPackMedium(HealthPack),
    AmmoPackFull(AmmoPack),
    TriggerMultiple(TriggerMultiple<'a>),
    LogicRelay(LogicRelay<'a>),
    FilterActivatorTeam(FilterActivatorTeam<'a>),
    LogicAuto(LogicAuto<'a>),
    GameRules(GameRules<'a>),
    KothLogic(KothLogic),
    AreaPortal(AreaPortal),
    Unknown(RawEntity<'a>),
}

impl<'a> RawEntity<'a> {
    /// Resolves the block's class name against the static name table
    /// and extracts the matching typed record; an unrecognised class
    /// keeps the raw block unparsed.
    pub fn parse(&self) -> (r: Result<Entity<'a>, EntityParseError>)
        ensures
            ({
                let props = props_of(self@, 0);
                match lookup(props, key_classname()) {
                    Option::None => r matches Err(e) && (e matches
                        EntityParseError::NoSuchProperty(k) && k@ == key_classname()),
                    Option::Some(cn) => {
                        if cn == name_light() {
                            match light_err(props) {
                                Option::Some(pe) => r matches Err(e) && err_corresponds(e, pe),
                                Option::None => r matches Ok(ent) && (ent matches
                                    Entity::Light(v) && light_fields_ok(v, props)),
                            }
                        } else if cn == name_func_respawnroom() {
                            match respawn_room_err(props) {
                                Option::Some(pe) => r matches Err(e) && err_corresponds(e, pe),
                                Option::None => r matches Ok(ent) && (ent matches
                                    Entity::RespawnRoom(v) && respawn_room_fields_ok(v, props)),
                            }
                        } else if cn == name_func_regenerate() {
                            match regenerate_err(props) {
                                Option::Some(pe) => r matches Err(e) && err_corresponds(e, pe),
                                Option::None => r matches Ok(ent) && (ent matches
                                    Entity::Regenerate(v) && regenerate_fields_ok(v, props)),
                            }
                        } else if cn == name_worldspawn() {
                            match world_spawn_err(props) {
                                Option::Some(pe) => r matches Err(e) && err_corresponds(e, pe),
                                Option::None => r matches Ok(ent) && (ent matches
                                    Entity::WorldSpawn(v) && world_spawn_fields_ok(v, props)),
                            }
                        } else if cn == name_item_ammopack_small() {
                            match ammo_pack_err(props) {
                                Option::Some(pe) => r matches Err(e) && err_corresponds(e, pe),
                                Option::None => r matches Ok(ent) && (ent matches
                                    Entity::AmmoPackSmall(v) && ammo_pack_fields_ok(v, props)),
                            }
                        } else if cn == name_item_ammopack_medium() {
                            match ammo_pack_err(props) {
                                Option::Some(pe) => r matches Err(e) && err_corresponds(e, pe),
                                Option::None => r matches Ok(ent) && (ent matches
                                    Entity::AmmoPackMedium(v) && ammo_pack_fields_ok(v, props)),
                            }
                        } else if cn == name_item_ammopack_full() {
                            match health_pack_err(props) {
                                Option::Some(pe) => r matches Err(e) && err_corresponds(e, pe),
                                Option::None => r matches Ok(ent) && (ent matches
                                    Entity::HealthPackFull(v) && health_pack_fields_ok(v, props)),
                            }
                        } else if cn == name_item_healthkit_small() {
                            match health_pack_err(props) {
                                Option::Some(pe) => r matches Err(e) && err_corresponds(e, pe),
                                Option::None => r matches Ok(ent) && (ent matches
                                    Entity::HealthPackSmall(v) && health_pack_fields_ok(v, props)),
                            }
                        } else if cn == name_item_healthkit_medium() {
                            match health_pack_err(props) {
                                Option::Some(pe) => r matches Err(e) && err_corresponds(e, pe),
                                Option::None => r matches Ok(ent) && (ent matches
                                    Entity::HealthPackMedium(v) && health_pack_fields_ok(v, props)),
                            }
                        } else if cn == name_item_healthkit_full() {
                            match ammo_pack_err(props) {
                                Option::Some(pe) => r matches Err(e) && err_corresponds(e, pe),
                                Option::None => r matches Ok(ent) && (ent matches
                                    Entity::AmmoPackFull(v) && ammo_pack_fields_ok(v, props)),
                            }
                        } else if cn == name_trigger_multiple() {
                            match trigger_multiple_err(props) {
                                Option::Some(pe) => r matches Err(e) && err_corresponds(e, pe),
                                Option::None => r matches Ok(ent) && (ent matches
                                    Entity::TriggerMultiple(v) && trigger_multiple_fields_ok(v, props)),
                            }
                        } else if cn == name_logic_relay() {
                            match logic_relay_err(props) {
                                Option::Some(pe) => r matches Err(e) && err_corresponds(e, pe),
                                Option::None => r matches Ok(ent) && (ent matches
                                    Entity::LogicRelay(v) && logic_relay_fields_ok(v, props)),
                            }
                        } else if cn == name_filter_activator_tfteam() {
                            match filter_activator_team_err(props) {
                                Option::Some(pe) => r matches Err(e) && err_corresponds(e, pe),
                                Option::None => r matches Ok(ent) && (ent matches
                                    Entity::FilterActivatorTeam(v) && filter_activator_team_fields_ok(v, props)),
                            }
                        } else if cn == name_logic_auto() {
                            match logic_auto_err(props) {
                                Option::Some(pe) => r matches Err(e) && err_corresponds(e, pe),
                                Option::None => r matches Ok(ent) && (ent matches
                                    Entity::LogicAuto(v) && logic_auto_fields_ok(v, props)),
                            }
                        } else if cn == name_tf_gamerules() {
                            match game_rules_err(props) {
                                Option::Some(pe) => r matches Err(e) && err_corresponds(e, pe),
                                Option::None => r matches Ok(ent) && (ent matches
                                    Entity::GameRules(v) && game_rules_fields_ok(v, props)),
                            }
                        } else if cn == name_tf_logic_koth() {
                            match koth_logic_err(props) {
                                Option::Some(pe) => r matches Err(e) && err_corresponds(e, pe),
                                Option::None => r matches Ok(ent) && (ent matches
                                    Entity::KothLogic(v) && koth_logic_fields_ok(v, props)),
                            }
                        } else if cn == name_func_areaportal() {
                            match area_portal_err(props) {
                                Option::Some(pe) => r matches Err(e) && err_corresponds(e, pe),
                                Option::None => r matches Ok(ent) && (ent matches
                                    Entity::AreaPortal(v) && area_portal_fields_ok(v, props)),
                            }
                        } else {
                            r matches Ok(ent) && (ent matches Entity::Unknown(re)
                                && re@ == self@)
                        }
                    },
                }
            }),
    {
        let kcn = kb_classname();
        let cn = match self.prop(kcn.as_slice()) {
            Ok(v) => v,
            Err(e) => { return Err(e); },
        };
        if bytes_eq(cn, nb_light().as_slice()) {
            match Light::parse(self) {
                Ok(v) => Ok(Entity::Light(v)),
                Err(e) => Err(e),
            }
        } else if bytes_eq(cn, nb_func_respawnroom().as_slice()) {
            match RespawnRoom::parse(self) {
                Ok(v) => Ok(Entity::RespawnRoom(v)),
                Err(e) => Err(e),
            }
        } else if bytes_eq(cn, nb_func_regenerate().as_slice()) {
            match Regenerate::parse(self) {
                Ok(v) => Ok(Entity::Regenerate(v)),
                Err(e) => Err(e),
            }
        } else if bytes_eq(cn, nb_worldspawn().as_slice()) {
            match WorldSpawn::parse(self) {
                Ok(v) => Ok(Entity::WorldSpawn(v)),
                Err(e) => Err(e),
            }
        } else if bytes_eq(cn, nb_item_ammopack_small().as_slice()) {
            match AmmoPack::parse(self) {
                Ok(v) => Ok(Entity::AmmoPackSmall(v)),
                Err(e) => Err(e),
            }
        } else if bytes_eq(cn, nb_item_ammopack_medium().as_slice()) {
            match AmmoPack::parse(self) {
                Ok(v) => Ok(Entity::AmmoPackMedium(v)),
                Err(e) => Err(e),
            }
        } else if bytes_eq(cn, nb_item_ammopack_full().as_slice()) {
            match HealthPack::parse(self) {
                Ok(v) => Ok(Entity::HealthPackFull(v)),
                Err(e) => Err(e),
            }
        } else if bytes_eq(cn, nb_item_healthkit_small().as_slice()) {
            match HealthPack::parse(self) {
                Ok(v) => Ok(Entity::HealthPackSmall(v)),
                Err(e) => Err(e),
            }
        } else if bytes_eq(cn, nb_item_healthkit_medium().as_slice()) {
            match HealthPack::parse(self) {
                Ok(v) => Ok(Entity::HealthPackMedium(v)),
                Err(e) => Err(e),
            }
        } else if bytes_eq(cn, nb_item_healthkit_full().as_slice()) {
            match AmmoPack::parse(self) {
                Ok(v) => Ok(Entity::AmmoPackFull(v)),
                Err(e) => Err(e),
            }
        } else if bytes_eq(cn, nb_trigger_multiple().as_slice()) {
            match TriggerMultiple::parse(self) {
                Ok(v) => Ok(Entity::TriggerMultiple(v)),
                Err(e) => Err(e),
            }
        } else if bytes_eq(cn, nb_logic_relay().as_slice()) {
            match LogicRelay::parse(self) {
                Ok(v) => Ok(Entity::LogicRelay(v)),
                Err(e) => Err(e),
            }
        } else if bytes_eq(cn, nb_filter_activator_tfteam().as_slice()) {
            match FilterActivatorTeam::parse(self) {
                Ok(v) => Ok(Entity::FilterActivatorTeam(v)),
                Err(e) => Err(e),
            }
        } else if bytes_eq(cn, nb_logic_auto().as_slice()) {
            match LogicAuto::parse(self) {
                Ok(v) => Ok(Entity::LogicAuto(v)),
                Err(e) => Err(e),
            }
        } else if bytes_eq(cn, nb_tf_gamerules().as_slice()) {
            match GameRules::parse(self) {
                Ok(v) => Ok(Entity::GameRules(v)),
                Err(e) => Err(e),
            }
        } else if bytes_eq(cn, nb_tf_logic_koth().as_slice()) {
            match KothLogic::parse(self) {
                Ok(v) => Ok(Entity::KothLogic(v)),
                Err(e) => Err(e),
            }
        } else if bytes_eq(cn, nb_func_areaportal().as_slice()) {
            match AreaPortal::parse(self) {
                Ok(v) => Ok(Entity::AreaPortal(v)),
                Err(e) => Err(e),
            }
        } else {
            Ok(Entity::Unknown(RawEntity { buf: self.buf }))
        }
    }
}

} // verus!
