//! Binary composite-type wire format: a big-endian 32-bit field count, then
//! for each field its 32-bit type identifier, a 32-bit length (all ones for
//! null) and the payload.

use vstd::prelude::*;

verus! {

/// A field of a composite type as the runtime reports it.
#[derive(Clone, Debug)]
pub struct RuntimeField {
    pub name: String,
    /// Wire type identifier of the field's type.
    pub oid: u32,
    /// Name of the field's type.
    pub ty_name: String,
}

/// A composite type as the runtime reports it.
#[derive(Clone, Debug)]
pub struct RuntimeType {
    pub name: String,
    pub schema: String,
    pub fields: Vec<RuntimeField>,
}

/// A statically known field of a composite type: its name and the name of
/// the type its own codec accepts.
#[derive(Clone, Debug)]
pub struct StaticField {
    pub name: String,
    pub ty_name: String,
}

/// A statically known field together with its value, already encoded by the
/// field type's own codec (`None` for null).
#[derive(Clone, Debug)]
pub struct FieldValue {
    pub name: String,
    pub payload: Option<Vec<u8>>,
}

#[derive(Clone, Copy, Debug, PartialEq, Eq, Structural)]
pub enum EncodeError {
    /// The runtime reports a field that the static type does not have.
    UnknownField,
    /// A field's encoded length exceeds the 31-bit signed maximum.
    ValueTooLarge,
}

#[derive(Clone, Copy, Debug, PartialEq, Eq, Structural)]
pub enum DecodeError {
    /// The buffer ends inside a count, a header or a payload.
    Truncated,
    /// The encoded field count differs from the statically known one.
    FieldCount,
}

/// Largest encodable payload length.
pub const MAX_LEN: u32 = 0x7fff_ffff;

/// Length marker of a null field (`-1` as a signed 32-bit integer).
pub const NULL_LEN: u32 = 0xffff_ffff;

/// Big-endian bytes of a 32-bit value.
pub open spec fn be32(x: u32) -> Seq<u8> {
    seq![(x >> 24u32) as u8, (x >> 16u32) as u8, (x >> 8u32) as u8, x as u8]
}

/// Value of four big-endian bytes.
pub open spec fn be32_val(b0: u8, b1: u8, b2: u8, b3: u8) -> u32 {
    ((b0 as u32) << 24u32) | ((b1 as u32) << 16u32) | ((b2 as u32) << 8u32) | (b3 as u32)
}

/// Value of the four bytes of `b` that start at `i`.
pub open spec fn be32_at(b: Seq<u8>, i: int) -> u32 {
    be32_val(b[i], b[i + 1], b[i + 2], b[i + 3])
}

/// Reading back the big-endian bytes of `x` gives `x`.
pub proof fn lemma_be32_val(x: u32)
    ensures
        be32_at(be32(x), 0) == x,
{
    assert(be32_val((x >> 24u32) as u8, (x >> 16u32) as u8, (x >> 8u32) as u8, x as u8) == x)
        by (bit_vector);
}

pub open spec fn payload_view(p: Option<Vec<u8>>) -> Option<Seq<u8>> {
    match p {
        Some(v) => Some(v@),
        None => None,
    }
}

/// Bytes of one field: type identifier, length or null marker, payload.
pub open spec fn field_bytes(oid: u32, payload: Option<Seq<u8>>) -> Seq<u8> {
    match payload {
        None => be32(oid) + be32(NULL_LEN),
        Some(p) => be32(oid) + be32(p.len() as u32) + p,
    }
}

/// Index of the first value named `name`.
pub open spec fn find_value(values: Seq<FieldValue>, name: Seq<char>) -> Option<int>
    decreases values.len(),
{
    if values.len() == 0 {
        None
    } else {
        match find_value(values.drop_last(), name) {
            Some(i) => Some(i),
            None => if values.last().name@ == name {
                Some(values.len() - 1)
            } else {
                None
            },
        }
    }
}

/// Encoding of the field that the runtime reports as `f`.
pub open spec fn encode_field(f: RuntimeField, values: Seq<FieldValue>) -> Result<Seq<u8>, EncodeError> {
    match find_value(values, f.name@) {
        None => Err(EncodeError::UnknownField),
        Some(i) => match payload_view(values[i].payload) {
            None => Ok(field_bytes(f.oid, None)),
            Some(p) => if p.len() > MAX_LEN {
                Err(EncodeError::ValueTooLarge)
            } else {
                Ok(field_bytes(f.oid, Some(p)))
            },
        },
    }
}

/// Encoding of the fields, in the order the runtime reports them; the first
/// field that fails decides the error.
pub open spec fn encode_body(rt: Seq<RuntimeField>, values: Seq<FieldValue>) -> Result<Seq<u8>, EncodeError>
    decreases rt.len(),
{
    if rt.len() == 0 {
        Ok(Seq::empty())
    } else {
        match encode_body(rt.drop_last(), values) {
            Err(e) => Err(e),
            Ok(b) => match encode_field(rt.last(), values) {
                Err(e) => Err(e),
                Ok(c) => Ok(b + c),
            },
        }
    }
}

/// Encoding of a composite value: field count, then the fields.
pub open spec fn encode_spec(rt: Seq<RuntimeField>, values: Seq<FieldValue>) -> Result<Seq<u8>, EncodeError> {
    match encode_body(rt, values) {
        Err(e) => Err(e),
        Ok(b) => Ok(be32(rt.len() as u32) + b),
    }
}

pub open spec fn result_view(r: Result<Vec<u8>, EncodeError>) -> Result<Seq<u8>, EncodeError> {
    match r {
        Ok(v) => Ok(v@),
        Err(e) => Err(e),
    }
}

/// Appends the big-endian bytes of `x`.
pub fn push_be32(out: &mut Vec<u8>, x: u32)
    ensures
        final(out)@ == old(out)@ + be32(x),
{
    out.push((x >> 24u32) as u8);
    out.push((x >> 16u32) as u8);
    out.push((x >> 8u32) as u8);
    out.push(x as u8);
    assert(out@ =~= old(out)@ + be32(x));
}

/// Reads four big-endian bytes at `pos`.
pub fn read_be32(b: &[u8], pos: usize) -> (r: u32)
    requires
        pos + 4 <= b@.len(),
    ensures
        r == be32_at(b@, pos as int),
{
    ((b[pos] as u32) << 24u32) | ((b[pos + 1] as u32) << 16u32) | ((b[pos + 2] as u32) << 8u32)
        | (b[pos + 3] as u32)
}

fn find_value_exec(values: &Vec<FieldValue>, name: &String) -> (r: Option<usize>)
    ensures
        match r {
            Some(i) => i < values@.len() && find_value(values@, name@) == Some(i as int),
            None => find_value(values@, name@) == None::<int>,
        },
{
    let mut i: usize = 0;
    while i < values.len()
        invariant
            i <= values@.len(),
            find_value(values@.take(i as int), name@) == None::<int>,
        decreases values@.len() - i,
    {
        assert(values@.take(i as int + 1).drop_last() =~= values@.take(i as int));
        if values[i].name == *name {
            proof { lemma_find_value_prefix(values@, name@, i as int + 1); }
            return Some(i);
        }
        i = i + 1;
    }
    assert(values@.take(i as int) =~= values@);
    None
}

/// A match found in a prefix is the match of the whole sequence.
proof fn lemma_find_value_prefix(values: Seq<FieldValue>, name: Seq<char>, k: int)
    requires
        0 <= k <= values.len(),
        find_value(values.take(k), name) is Some,
    ensures
        find_value(values, name) == find_value(values.take(k), name),
    decreases values.len() - k,
{
    if k < values.len() {
        assert(values.take(k + 1).drop_last() =~= values.take(k));
        lemma_find_value_prefix(values, name, k + 1);
    } else {
        assert(values.take(k) =~= values);
    }
}

/// Encodes a composite value for a destination whose fields the runtime
/// reports as `rt`, in that order; each is looked up among `values` by name.
pub fn encode_composite(rt: &Vec<RuntimeField>, values: &Vec<FieldValue>) -> (r: Result<Vec<u8>, EncodeError>)
    requires
        rt@.len() <= MAX_LEN,
    ensures
        result_view(r) == encode_spec(rt@, values@),
{
    let mut out: Vec<u8> = Vec::new();
    push_be32(&mut out, rt.len() as u32);
    let mut i: usize = 0;
    while i < rt.len()
        invariant
            i <= rt@.len(),
            encode_body(rt@.take(i as int), values@) is Ok,
            out@ == be32(rt@.len() as u32) + encode_body(rt@.take(i as int), values@)->Ok_0,
        decreases rt@.len() - i,
    {
        let f = &rt[i];
        assert(rt@.take(i as int + 1).drop_last() =~= rt@.take(i as int));
        assert(rt@.take(i as int + 1).last() == rt@[i as int]);
        let found = find_value_exec(values, &f.name);
        match found {
            None => {
                proof { lemma_encode_body_err(rt@, values@, i as int + 1); }
                return Err(EncodeError::UnknownField);
            },
            Some(j) => {
                let ghost before = out@;
                push_be32(&mut out, f.oid);
                match &values[j].payload {
                    None => {
                        push_be32(&mut out, NULL_LEN);
                    },
                    Some(p) => {
                        if p.len() > MAX_LEN as usize {
                            proof { lemma_encode_body_err(rt@, values@, i as int + 1); }
                            return Err(EncodeError::ValueTooLarge);
                        }
                        push_be32(&mut out, p.len() as u32);
                        let mut k: usize = 0;
                        let ghost mid = out@;
                        while k < p.len()
                            invariant
                                k <= p@.len(),
                                out@ == mid + p@.take(k as int),
                            decreases p@.len() - k,
                        {
                            out.push(p[k]);
                            assert(p@.take(k as int + 1) =~= p@.take(k as int).push(p@[k as int]));
                            assert(out@ =~= mid + p@.take(k as int + 1));
                            k = k + 1;
                        }
                        assert(p@.take(k as int) =~= p@);
                    },
                }
                assert(out@ =~= before + encode_field(rt@[i as int], values@)->Ok_0);
            },
        }
        i = i + 1;
    }
    assert(rt@.take(i as int) =~= rt@);
    Ok(out)
}

/// Once a prefix fails, every longer prefix fails the same way.
proof fn lemma_encode_body_err(rt: Seq<RuntimeField>, values: Seq<FieldValue>, k: int)
    requires
        0 <= k <= rt.len(),
        encode_body(rt.take(k), values) is Err,
    ensures
        encode_body(rt, values) == encode_body(rt.take(k), values),
    decreases rt.len() - k,
{
    if k < rt.len() {
        assert(rt.take(k + 1).drop_last() =~= rt.take(k));
        lemma_encode_body_err(rt, values, k + 1);
    } else {
        assert(rt.take(k) =~= rt);
    }
}

/// Decoding of one field at the start of `b`: its payload (`None` for a
/// negative length) and what follows it. The type identifier is skipped.
pub open spec fn decode_field(b: Seq<u8>) -> Result<(Option<Seq<u8>>, Seq<u8>), DecodeError> {
    if b.len() < 8 {
        Err(DecodeError::Truncated)
    } else {
        let len = be32_at(b, 4);
        if len > MAX_LEN {
            Ok((None, b.skip(8)))
        } else if b.len() - 8 < len {
            Err(DecodeError::Truncated)
        } else {
            Ok((Some(b.subrange(8, 8 + len)), b.skip(8 + len)))
        }
    }
}

/// Decoding of `k` consecutive fields at the start of `b`, and what follows.
pub open spec fn decode_fields(b: Seq<u8>, k: nat) -> Result<(Seq<Option<Seq<u8>>>, Seq<u8>), DecodeError>
    decreases k,
{
    if k == 0 {
        Ok((Seq::empty(), b))
    } else {
        match decode_fields(b, (k - 1) as nat) {
            Err(e) => Err(e),
            Ok((vals, rest)) => match decode_field(rest) {
                Err(e) => Err(e),
                Ok((v, rest2)) => Ok((vals.push(v), rest2)),
            },
        }
    }
}

/// Decoding of a composite value with `n` statically known fields: their
/// payloads, in declared order.
pub open spec fn decode_spec(b: Seq<u8>, n: nat) -> Result<Seq<Option<Seq<u8>>>, DecodeError> {
    if b.len() < 4 {
        Err(DecodeError::Truncated)
    } else if be32_at(b, 0) > MAX_LEN || be32_at(b, 0) != n {
        Err(DecodeError::FieldCount)
    } else {
        match decode_fields(b.skip(4), n) {
            Err(e) => Err(e),
            Ok((vals, _)) => Ok(vals),
        }
    }
}

pub open spec fn payloads_view(v: Seq<Option<Vec<u8>>>) -> Seq<Option<Seq<u8>>> {
    v.map_values(|p: Option<Vec<u8>>| payload_view(p))
}

pub open spec fn decoded_view(r: Result<Vec<Option<Vec<u8>>>, DecodeError>) -> Result<Seq<Option<Seq<u8>>>, DecodeError> {
    match r {
        Ok(v) => Ok(payloads_view(v@)),
        Err(e) => Err(e),
    }
}

/// Decodes a composite value with `n` statically known fields into their
/// payloads, in declared order; each payload is then handed to the field
/// type's own decoder.
pub fn decode_composite(b: &[u8], n: usize) -> (r: Result<Vec<Option<Vec<u8>>>, DecodeError>)
    ensures
        decoded_view(r) == decode_spec(b@, n as nat),
{
    if b.len() < 4 {
        return Err(DecodeError::Truncated);
    }
    let count = read_be32(b, 0);
    if count > MAX_LEN || count as usize != n {
        return Err(DecodeError::FieldCount);
    }
    let mut out: Vec<Option<Vec<u8>>> = Vec::new();
    let mut pos: usize = 4;
    let mut i: usize = 0;
    assert(payloads_view(out@) =~= Seq::<Option<Seq<u8>>>::empty());
    while i < n
        invariant
            i <= n,
            4 <= pos <= b@.len(),
            count == be32_at(b@, 0),
            count <= MAX_LEN,
            count as nat == n as nat,
            decode_fields(b@.skip(4), i as nat) == Ok::<_, DecodeError>((payloads_view(out@), b@.skip(pos as int))),
        decreases n - i,
    {
        let ghost rest = b@.skip(pos as int);
        if b.len() - pos < 8 {
            assert(decode_field(rest) is Err);
            proof { lemma_decode_fields_err(b@.skip(4), i as nat + 1, n as nat); }
            return Err(DecodeError::Truncated);
        }
        assert(be32_at(rest, 4) == be32_at(b@, pos + 4));
        let len = read_be32(b, pos + 4);
        if len > MAX_LEN {
            out.push(None);
            pos = pos + 8;
            assert(rest.skip(8) =~= b@.skip(pos as int));
        } else {
            if b.len() - pos - 8 < len as usize {
                assert(decode_field(rest) is Err);
                proof { lemma_decode_fields_err(b@.skip(4), i as nat + 1, n as nat); }
                return Err(DecodeError::Truncated);
            }
            let start = pos + 8;
            let end = start + len as usize;
            let mut v: Vec<u8> = Vec::new();
            let mut k: usize = start;
            while k < end
                invariant
                    start <= k <= end <= b@.len(),
                    v@ == b@.subrange(start as int, k as int),
                decreases end - k,
            {
                v.push(b[k]);
                assert(v@ =~= b@.subrange(start as int, k as int + 1));
                k = k + 1;
            }
            assert(v@ =~= rest.subrange(8, 8 + len as int));
            out.push(Some(v));
            pos = end;
            assert(rest.skip(8 + len as int) =~= b@.skip(pos as int));
        }
        assert(payloads_view(out@) =~= decode_fields(b@.skip(4), i as nat)->Ok_0.0.push(
            decode_field(rest)->Ok_0.0));
        i = i + 1;
    }
    Ok(out)
}

/// Once `k` fields fail to decode, so do `m >= k`.
proof fn lemma_decode_fields_err(b: Seq<u8>, k: nat, m: nat)
    requires
        k <= m,
        decode_fields(b, k) is Err,
    ensures
        decode_fields(b, m) == decode_fields(b, k),
    decreases m - k,
{
    if k < m {
        lemma_decode_fields_err(b, k, (m - 1) as nat);
    }
}

/// Payloads that encoding writes, in the order the runtime reports the fields.
pub open spec fn written_payloads(rt: Seq<RuntimeField>, values: Seq<FieldValue>) -> Seq<Option<Seq<u8>>> {
    rt.map_values(|f: RuntimeField| payload_view(values[find_value(values, f.name@)->Some_0].payload))
}

/// Decoding one encoded field gives back its payload and what follows it.
pub proof fn lemma_field_round_trip(oid: u32, payload: Option<Seq<u8>>, tail: Seq<u8>)
    requires
        payload matches Some(p) ==> p.len() <= MAX_LEN,
    ensures
        decode_field(field_bytes(oid, payload) + tail) == Ok::<_, DecodeError>((payload, tail)),
{
    let b = field_bytes(oid, payload) + tail;
    match payload {
        None => {
            lemma_be32_val(NULL_LEN);
            assert(be32_at(b, 4) == be32_at(be32(NULL_LEN), 0));
            assert(b.skip(8) =~= tail);
        },
        Some(p) => {
            let len = p.len() as u32;
            lemma_be32_val(len);
            assert(be32_at(b, 4) == be32_at(be32(len), 0));
            assert(b.subrange(8, 8 + len) =~= p);
            assert(b.skip(8 + len) =~= tail);
        },
    }
}

proof fn lemma_body_round_trip(rt: Seq<RuntimeField>, values: Seq<FieldValue>, tail: Seq<u8>)
    requires
        encode_body(rt, values) is Ok,
    ensures
        decode_fields(encode_body(rt, values)->Ok_0 + tail, rt.len())
            == Ok::<_, DecodeError>((written_payloads(rt, values), tail)),
    decreases rt.len(),
{
    if rt.len() > 0 {
        let init = rt.drop_last();
        let f = rt.last();
        let body = encode_body(init, values)->Ok_0;
        let c = encode_field(f, values)->Ok_0;
        let i = find_value(values, f.name@)->Some_0;
        lemma_field_round_trip(f.oid, payload_view(values[i].payload), tail);
        lemma_body_round_trip(init, values, c + tail);
        assert(body + c + tail =~= body + (c + tail));
        assert(written_payloads(rt, values) =~= written_payloads(init, values).push(
            payload_view(values[i].payload)));
    } else {
        assert(written_payloads(rt, values) =~= Seq::empty());
    }
}

/// Round trip: when encoding succeeds, decoding its bytes with as many
/// statically known fields gives, at each place, the payload of the field
/// the runtime reported there; when the runtime reports the statically
/// known fields in declared order, that is each field's own payload.
pub proof fn lemma_round_trip(rt: Seq<RuntimeField>, values: Seq<FieldValue>)
    requires
        rt.len() <= MAX_LEN,
        encode_spec(rt, values) is Ok,
    ensures
        decode_spec(encode_spec(rt, values)->Ok_0, rt.len()) == Ok::<_, DecodeError>(written_payloads(rt, values)),
        rt.len() == values.len() && (forall|i: int| 0 <= i < rt.len() ==> rt[i].name@ == values[i].name@)
            && (forall|i: int, j: int| 0 <= i < j < values.len() ==> values[i].name@ != values[j].name@)
            ==> decode_spec(encode_spec(rt, values)->Ok_0, rt.len())
                == Ok::<_, DecodeError>(values.map_values(|v: FieldValue| payload_view(v.payload))),
{
    let body = encode_body(rt, values)->Ok_0;
    let b = be32(rt.len() as u32) + body;
    lemma_be32_val(rt.len() as u32);
    assert(be32_at(b, 0) == be32_at(be32(rt.len() as u32), 0));
    assert(b.skip(4) =~= body + Seq::<u8>::empty());
    lemma_body_round_trip(rt, values, Seq::empty());
    if rt.len() == values.len() && (forall|i: int| 0 <= i < rt.len() ==> rt[i].name@ == values[i].name@)
        && (forall|i: int, j: int| 0 <= i < j < values.len() ==> values[i].name@ != values[j].name@) {
        assert forall|i: int| 0 <= i < rt.len() implies find_value(values, rt[i].name@) == Some(i) by {
            lemma_find_distinct(values, i);
        }
        assert(written_payloads(rt, values) =~= values.map_values(|v: FieldValue| payload_view(v.payload)));
    }
}

/// With distinct names, the value named like the `i`-th is the `i`-th.
proof fn lemma_find_distinct(values: Seq<FieldValue>, i: int)
    requires
        0 <= i < values.len(),
        forall|a: int, c: int| 0 <= a < c < values.len() ==> values[a].name@ != values[c].name@,
    ensures
        find_value(values, values[i].name@) == Some(i),
    decreases values.len(),
{
    let init = values.drop_last();
    if i < values.len() - 1 {
        lemma_find_distinct(init, i);
    } else {
        lemma_find_absent(init, values[i].name@);
    }
}

proof fn lemma_find_absent(values: Seq<FieldValue>, name: Seq<char>)
    requires
        forall|a: int| 0 <= a < values.len() ==> values[a].name@ != name,
    ensures
        find_value(values, name) == None::<int>,
    decreases values.len(),
{
    if values.len() > 0 {
        lemma_find_absent(values.drop_last(), name);
    }
}

/// Null encoding: a null field is written as its type identifier and the
/// length marker `-1`, with no payload bytes, and decodes as null.
pub proof fn lemma_null_field(oid: u32, tail: Seq<u8>)
    ensures
        field_bytes(oid, None) == be32(oid) + seq![0xffu8, 0xffu8, 0xffu8, 0xffu8],
        field_bytes(oid, None).len() == 8,
        decode_field(field_bytes(oid, None) + tail) == Ok::<_, DecodeError>((None::<Seq<u8>>, tail)),
{
    assert(((NULL_LEN >> 24u32) as u8) == 0xffu8 && ((NULL_LEN >> 16u32) as u8) == 0xffu8
        && ((NULL_LEN >> 8u32) as u8) == 0xffu8 && (NULL_LEN as u8) == 0xffu8) by (bit_vector);
    assert(be32(NULL_LEN) =~= seq![0xffu8, 0xffu8, 0xffu8, 0xffu8]);
    lemma_field_round_trip(oid, None, tail);
}

/// A composite type as the library knows it statically.
#[derive(Clone, Debug)]
pub struct StaticComposite {
    pub name: String,
    pub schema: String,
    pub fields: Vec<StaticField>,
}

/// `f` matches a statically known field by name and type.
pub open spec fn field_known(st: Seq<StaticField>, f: RuntimeField) -> bool {
    exists|j: int| 0 <= j < st.len() && st[j].name@ == f.name@ && st[j].ty_name@ == f.ty_name@
}

pub open spec fn static_pairs(st: Seq<StaticField>) -> Seq<(Seq<char>, Seq<char>)> {
    st.map_values(|f: StaticField| (f.name@, f.ty_name@))
}

pub open spec fn runtime_pairs(rt: Seq<RuntimeField>) -> Seq<(Seq<char>, Seq<char>)> {
    rt.map_values(|f: RuntimeField| (f.name@, f.ty_name@))
}

pub open spec fn static_names_distinct(st: Seq<StaticField>) -> bool {
    forall|i: int, j: int| 0 <= i < j < st.len() ==> st[i].name@ != st[j].name@
}

pub open spec fn runtime_names_distinct(rt: Seq<RuntimeField>) -> bool {
    forall|i: int, j: int| 0 <= i < j < rt.len() ==> rt[i].name@ != rt[j].name@
}

impl StaticComposite {
    /// A value of this type can be encoded for the destination `rt`.
    pub open spec fn accepts_to_spec(&self, rt: RuntimeType) -> bool {
        &&& rt.name@ == self.name@
        &&& rt.fields@.len() == self.fields@.len()
        &&& forall|i: int| 0 <= i < rt.fields@.len() ==> #[trigger] field_known(self.fields@, rt.fields@[i])
    }

    /// A value of the runtime type `rt` can be decoded into this type.
    pub open spec fn accepts_from_spec(&self, rt: RuntimeType) -> bool {
        rt.name@ == self.name@ && rt.schema@ == self.schema@
    }

    fn knows_field(&self, f: &RuntimeField) -> (r: bool)
        ensures
            r == field_known(self.fields@, *f),
    {
        let mut j: usize = 0;
        while j < self.fields.len()
            invariant
                j <= self.fields@.len(),
                forall|a: int| 0 <= a < j ==> !(self.fields@[a].name@ == f.name@
                    && self.fields@[a].ty_name@ == f.ty_name@),
            decreases self.fields@.len() - j,
        {
            if self.fields[j].name == f.name && self.fields[j].ty_name == f.ty_name {
                return true;
            }
            j = j + 1;
        }
        false
    }

    /// Whether a value of this type can be encoded for the destination `rt`:
    /// same type name, same number of fields, and each reported field known
    /// by name with an accepted type.
    pub fn accepts_to(&self, rt: &RuntimeType) -> (r: bool)
        ensures
            r == self.accepts_to_spec(*rt),
    {
        if rt.name != self.name || rt.fields.len() != self.fields.len() {
            return false;
        }
        let mut i: usize = 0;
        while i < rt.fields.len()
            invariant
                i <= rt.fields@.len(),
                forall|a: int| 0 <= a < i ==> #[trigger] field_known(self.fields@, rt.fields@[a]),
            decreases rt.fields@.len() - i,
        {
            if !self.knows_field(&rt.fields[i]) {
                return false;
            }
            i = i + 1;
        }
        true
    }

    /// Whether a value of the runtime type `rt` can be decoded into this type.
    pub fn accepts_from(&self, rt: &RuntimeType) -> (r: bool)
        ensures
            r == self.accepts_from_spec(*rt),
    {
        rt.name == self.name && rt.schema == self.schema
    }
}

/// Accepts predicate: with field names distinct on both sides, a destination
/// is accepted exactly when it has the type's name and the same set of
/// (field name, field type) pairs, in any order; so one that lacks, adds or
/// retypes a field is rejected.
pub proof fn lemma_accepts_iff_same_fields(c: StaticComposite, rt: RuntimeType)
    requires
        static_names_distinct(c.fields@),
        runtime_names_distinct(rt.fields@),
    ensures
        c.accepts_to_spec(rt) <==> (rt.name@ == c.name@
            && runtime_pairs(rt.fields@).to_set() == static_pairs(c.fields@).to_set()),
{
    broadcast use vstd::seq_lib::seq_to_set_is_finite;

    let sp = static_pairs(c.fields@);
    let rp = runtime_pairs(rt.fields@);
    assert(sp.no_duplicates()) by {
        assert forall|i: int, j: int| 0 <= i < sp.len() && 0 <= j < sp.len() && i != j implies sp[i] != sp[j] by {
            if i < j {
                assert(c.fields@[i].name@ != c.fields@[j].name@);
            } else {
                assert(c.fields@[j].name@ != c.fields@[i].name@);
            }
        }
    }
    assert(rp.no_duplicates()) by {
        assert forall|i: int, j: int| 0 <= i < rp.len() && 0 <= j < rp.len() && i != j implies rp[i] != rp[j] by {
            if i < j {
                assert(rt.fields@[i].name@ != rt.fields@[j].name@);
            } else {
                assert(rt.fields@[j].name@ != rt.fields@[i].name@);
            }
        }
    }
    sp.unique_seq_to_set();
    rp.unique_seq_to_set();
    if c.accepts_to_spec(rt) {
        assert forall|x| rp.to_set().contains(x) implies sp.to_set().contains(x) by {
            let i = choose|i: int| 0 <= i < rp.len() && rp[i] == x;
            assert(field_known(c.fields@, rt.fields@[i]));
            let j = choose|j: int| 0 <= j < c.fields@.len() && c.fields@[j].name@ == rt.fields@[i].name@
                && c.fields@[j].ty_name@ == rt.fields@[i].ty_name@;
            assert(sp[j] == x);
        }
        vstd::set_lib::lemma_subset_equality(rp.to_set(), sp.to_set());
    }
    if rt.name@ == c.name@ && rp.to_set() == sp.to_set() {
        assert forall|i: int| 0 <= i < rt.fields@.len() implies #[trigger] field_known(c.fields@, rt.fields@[i]) by {
            assert(rp.to_set().contains(rp[i]));
            let j = choose|j: int| 0 <= j < sp.len() && sp[j] == rp[i];
            assert(c.fields@[j].name@ == rt.fields@[i].name@);
        }
    }
}

/// A name that some value has is found.
proof fn lemma_find_present(values: Seq<FieldValue>, name: Seq<char>, j: int)
    requires
        0 <= j < values.len(),
        values[j].name@ == name,
    ensures
        find_value(values, name) matches Some(i) && 0 <= i < values.len() && values[i].name@ == name,
    decreases values.len(),
{
    let init = values.drop_last();
    if j < values.len() - 1 {
        lemma_find_present(init, name, j);
    } else {
        match find_value(init, name) {
            Some(i) => {
                lemma_find_bounds(init, name);
            },
            None => {},
        }
    }
}

proof fn lemma_find_bounds(values: Seq<FieldValue>, name: Seq<char>)
    ensures
        find_value(values, name) matches Some(i) ==> 0 <= i < values.len() && values[i].name@ == name,
    decreases values.len(),
{
    if values.len() > 0 {
        lemma_find_bounds(values.drop_last(), name);
    }
}

/// Encoding succeeds for an accepted destination: when the type accepts
/// `rt`, and `values` hold a value for each statically known field, in
/// declared order, with lengths within the limit, no reported field is
/// unknown and no length is refused.
pub proof fn lemma_accepted_encodes(c: StaticComposite, rt: RuntimeType, values: Seq<FieldValue>)
    requires
        c.accepts_to_spec(rt),
        values.len() == c.fields@.len(),
        forall|i: int| 0 <= i < values.len() ==> values[i].name@ == c.fields@[i].name@,
        forall|i: int| 0 <= i < values.len() ==> (#[trigger] payload_view(values[i].payload) matches Some(p) ==> p.len() <= MAX_LEN),
    ensures
        encode_spec(rt.fields@, values) is Ok,
{
    lemma_prefix_encodes(c, rt, values, rt.fields@.len() as nat);
    assert(rt.fields@.take(rt.fields@.len() as int) =~= rt.fields@);
}

proof fn lemma_prefix_encodes(c: StaticComposite, rt: RuntimeType, values: Seq<FieldValue>, k: nat)
    requires
        c.accepts_to_spec(rt),
        k <= rt.fields@.len(),
        values.len() == c.fields@.len(),
        forall|i: int| 0 <= i < values.len() ==> values[i].name@ == c.fields@[i].name@,
        forall|i: int| 0 <= i < values.len() ==> (#[trigger] payload_view(values[i].payload) matches Some(p) ==> p.len() <= MAX_LEN),
    ensures
        encode_body(rt.fields@.take(k as int), values) is Ok,
    decreases k,
{
    let pre = rt.fields@.take(k as int);
    if k > 0 {
        lemma_prefix_encodes(c, rt, values, (k - 1) as nat);
        assert(pre.drop_last() =~= rt.fields@.take(k - 1));
        let f = rt.fields@[k - 1];
        assert(pre.last() == f);
        assert(field_known(c.fields@, f));
        let j = choose|j: int| 0 <= j < c.fields@.len() && c.fields@[j].name@ == f.name@
            && c.fields@[j].ty_name@ == f.ty_name@;
        lemma_find_present(values, f.name@, j);
    }
}

} // verus!
