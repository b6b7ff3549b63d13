//! CBOR values and the bytes they are written as (RFC 8949).
//!
//! A value is described by its data items in the order in which they are written: an array or a
//! map contributes its own head, followed by the items of what it holds. The encoding of a value
//! is the concatenation of the encodings of its data items.

use ciborium::ser::Error as WriteError;
use ciborium::value::{Integer, Value};
use std::io::Error as IoError;
use vstd::prelude::*;
use vstd::utf8::encode_utf8;

use crate::error::{CborError, Error};

verus! {

/// The dynamic CBOR value of `ciborium`, with its variants in view.
#[verifier::external_type_specification]
pub struct ExValue(Value);

/// The integer that a `ciborium` value holds.
#[verifier::external_type_specification]
#[verifier::external_body]
pub struct ExInteger(Integer);

/// What `ciborium` reports when it cannot write a value.
#[verifier::external_type_specification]
#[verifier::external_body]
#[verifier::reject_recursive_types(T)]
pub struct ExWriteError<T>(WriteError<T>);

/// The error of `std`'s writers.
#[verifier::external_type_specification]
#[verifier::external_body]
pub struct ExIoError(IoError);

/// The number that an `Integer` of `ciborium` holds.
pub uninterp spec fn integer_value(i: Integer) -> int;

/// `Integer::from(i64)` holds the number that it was made from.
pub assume_specification[ <Integer as From<i64>>::from ](value: i64) -> (r: Integer)
    ensures
        integer_value(r) == value,
;

/// `Integer::from(u64)` holds the number that it was made from.
pub assume_specification[ <Integer as From<u64>>::from ](value: u64) -> (r: Integer)
    ensures
        integer_value(r) == value,
;

/// One CBOR data item: a complete scalar, or the head of an array or a map.
pub enum DataItem {
    /// An integer.
    Int(int),
    /// A byte string.
    Bytes(Seq<u8>),
    /// A text string.
    Text(Seq<char>),
    /// The head of an array of that many elements.
    Elements(nat),
    /// The head of a map of that many pairs.
    Pairs(nat),
    /// Any other item.
    Other,
}

/// The data items of `v`, in the order in which they are written.
pub open spec fn items(v: Value) -> Seq<DataItem>
    decreases v, 0nat,
{
    match v {
        Value::Integer(i) => seq![DataItem::Int(integer_value(i))],
        Value::Bytes(b) => seq![DataItem::Bytes(b@)],
        Value::Text(t) => seq![DataItem::Text(t@)],
        Value::Array(a) => seq![DataItem::Elements(a@.len())] + element_items(a@),
        Value::Map(m) => seq![DataItem::Pairs(m@.len())] + pair_items(m@),
        _ => seq![DataItem::Other],
    }
}

/// The data items of the elements `s`, one after the other.
pub open spec fn element_items(s: Seq<Value>) -> Seq<DataItem>
    decreases s, s.len(),
{
    if s.len() == 0 {
        seq![]
    } else {
        element_items(s.drop_last()) + items(s.last())
    }
}

/// The data items of the pairs `s`, each key followed by its value.
pub open spec fn pair_items(s: Seq<(Value, Value)>) -> Seq<DataItem>
    decreases s, s.len(),
{
    if s.len() == 0 {
        seq![]
    } else {
        pair_items(s.drop_last()) + items(s.last().0) + items(s.last().1)
    }
}

/// `v` is made of 64-bit integers, byte strings, text strings, arrays and maps alone.
pub open spec fn is_plain(v: Value) -> bool
    decreases v,
{
    match v {
        Value::Integer(i) => -0x1_0000_0000_0000_0000 <= integer_value(i) < 0x1_0000_0000_0000_0000,
        Value::Bytes(_) => true,
        Value::Text(_) => true,
        Value::Array(a) => forall|i: int| 0 <= i < a@.len() ==> is_plain(#[trigger] a@[i]),
        Value::Map(m) => forall|i: int|
            0 <= i < m@.len() ==> is_plain((#[trigger] m@[i]).0) && is_plain(m@[i].1),
        _ => false,
    }
}

/// `n` in `len` bytes, most significant first.
pub open spec fn big_endian(n: nat, len: nat) -> Seq<u8>
    decreases len,
{
    if len == 0 {
        seq![]
    } else {
        big_endian(n / 256, (len - 1) as nat).push((n % 256) as u8)
    }
}

/// The head of a data item: its major type and its argument, in the shortest form.
pub open spec fn head(major: nat, n: nat) -> Seq<u8> {
    if n < 24 {
        seq![(32 * major + n) as u8]
    } else if n < 0x100 {
        seq![(32 * major + 24) as u8] + big_endian(n, 1)
    } else if n < 0x1_0000 {
        seq![(32 * major + 25) as u8] + big_endian(n, 2)
    } else if n < 0x1_0000_0000 {
        seq![(32 * major + 26) as u8] + big_endian(n, 4)
    } else {
        seq![(32 * major + 27) as u8] + big_endian(n, 8)
    }
}

/// The encoding of one data item.
pub open spec fn item_bytes(item: DataItem) -> Seq<u8> {
    match item {
        DataItem::Int(n) => if n >= 0 {
            head(0, n as nat)
        } else {
            head(1, (-1 - n) as nat)
        },
        DataItem::Bytes(b) => head(2, b.len()) + b,
        DataItem::Text(t) => head(3, encode_utf8(t).len()) + encode_utf8(t),
        DataItem::Elements(n) => head(4, n),
        DataItem::Pairs(n) => head(5, n),
        DataItem::Other => seq![],
    }
}

/// The encoding of a sequence of data items.
pub open spec fn encode(s: Seq<DataItem>) -> Seq<u8>
    decreases s.len(),
{
    if s.len() == 0 {
        seq![]
    } else {
        item_bytes(s.first()) + encode(s.drop_first())
    }
}

/// `ciborium::ser::into_writer`, writing into a fresh `Vec<u8>`: a value made of 64-bit integers,
/// byte strings, text strings, arrays and maps is always written, and as the encodings of its
/// data items, each with a head in the shortest form. Nothing is claimed of other values.
#[verifier::external_body]
fn into_vec(value: &Value) -> (r: Result<Vec<u8>, WriteError<IoError>>)
    ensures
        is_plain(*value) ==> r is Ok,
        is_plain(*value) ==> r->Ok_0@ == encode(items(*value)),
{
    let mut buf: Vec<u8> = Vec::new();
    ciborium::ser::into_writer(value, &mut buf)?;
    Ok(buf)
}

/// Write `value` as CBOR.
pub fn serialize_cbor(value: &Value) -> (r: Result<Vec<u8>, Error>)
    ensures
        is_plain(*value) ==> r is Ok && r->Ok_0@ == encode(items(*value)),
        r matches Err(e) ==> e == Error::Cbor(CborError::EncodeFailed),
{
    match into_vec(value) {
        Ok(buf) => Ok(buf),
        Err(_) => Err(Error::Cbor(CborError::EncodeFailed)),
    }
}

/// The data items of labelled scalars, each label followed by its value.
pub open spec fn field_items(fields: Seq<(int, DataItem)>) -> Seq<DataItem>
    decreases fields.len(),
{
    if fields.len() == 0 {
        seq![]
    } else {
        field_items(fields.drop_last()) + seq![
            DataItem::Int(fields.last().0),
            fields.last().1,
        ]
    }
}

/// The data items of the map that holds the labelled scalars `fields`.
pub open spec fn map_items(fields: Seq<(int, DataItem)>) -> Seq<DataItem> {
    seq![DataItem::Pairs(fields.len())] + field_items(fields)
}

/// A map from numeric labels to scalars, in the order in which they were added.
pub struct FieldMap {
    pairs: Vec<(Value, Value)>,
    fields: Ghost<Seq<(int, DataItem)>>,
}

impl View for FieldMap {
    type V = Seq<(int, DataItem)>;

    closed spec fn view(&self) -> Seq<(int, DataItem)> {
        self.fields@
    }
}

impl FieldMap {
    /// The pairs are those that were added.
    #[verifier::type_invariant]
    spec fn wf(self) -> bool {
        &&& self.pairs@.len() == self.fields@.len()
        &&& pair_items(self.pairs@) == field_items(self.fields@)
        &&& forall|i: int|
            0 <= i < self.pairs@.len() ==> is_plain((#[trigger] self.pairs@[i]).0) && is_plain(
                self.pairs@[i].1,
            )
    }

    /// A map without fields.
    pub fn new() -> (r: Self)
        ensures
            r@ == Seq::<(int, DataItem)>::empty(),
    {
        FieldMap { pairs: Vec::new(), fields: Ghost(Seq::empty()) }
    }

    fn push(self, label: i64, value: Value, Ghost(item): Ghost<DataItem>) -> (r: Self)
        requires
            is_plain(value),
            items(value) == seq![item],
        ensures
            r@ == self@.push((label as int, item)),
    {
        proof {
            use_type_invariant(&self);
        }
        let ghost before = self.pairs@;
        let ghost fields = self.fields@;
        let mut pairs = self.pairs;
        let key = Value::Integer(label.into());
        assert(items(key) =~= seq![DataItem::Int(label as int)]);
        pairs.push((key, value));
        proof {
            let field = (label as int, item);
            assert(pairs@.drop_last() =~= before);
            assert(fields.push(field).drop_last() =~= fields);
            assert(pair_items(pairs@) =~= field_items(fields.push(field)));
        }
        FieldMap { pairs, fields: Ghost(fields.push((label as int, item))) }
    }

    /// Add a number.
    pub fn uint(self, label: i64, value: u64) -> (r: Self)
        ensures
            r@ == self@.push((label as int, DataItem::Int(value as int))),
    {
        self.push(label, Value::Integer(value.into()), Ghost(DataItem::Int(value as int)))
    }

    /// Add a text string.
    pub fn text(self, label: i64, value: &str) -> (r: Self)
        ensures
            r@ == self@.push((label as int, DataItem::Text(value@))),
    {
        self.push(label, Value::Text(value.to_owned()), Ghost(DataItem::Text(value@)))
    }

    /// Add a byte string.
    pub fn bytes(self, label: i64, value: Vec<u8>) -> (r: Self)
        ensures
            r@ == self@.push((label as int, DataItem::Bytes(value@))),
    {
        let ghost item = DataItem::Bytes(value@);
        self.push(label, Value::Bytes(value), Ghost(item))
    }

    /// Write the map as CBOR.
    pub fn serialize(self) -> (r: Result<Vec<u8>, Error>)
        ensures
            r is Ok,
            r->Ok_0@ == encode(map_items(self@)),
    {
        proof {
            use_type_invariant(&self);
        }
        serialize_cbor(&Value::Map(self.pairs))
    }
}

/// `item` has an encoding of its own: its number or its length fits in 64 bits.
pub open spec fn is_encodable(item: DataItem) -> bool {
    match item {
        DataItem::Int(n) => -0x1_0000_0000_0000_0000 <= n < 0x1_0000_0000_0000_0000,
        DataItem::Bytes(b) => b.len() < 0x1_0000_0000_0000_0000,
        DataItem::Text(t) => encode_utf8(t).len() < 0x1_0000_0000_0000_0000,
        DataItem::Elements(n) => n < 0x1_0000_0000_0000_0000,
        DataItem::Pairs(n) => n < 0x1_0000_0000_0000_0000,
        DataItem::Other => false,
    }
}

proof fn lemma_big_endian_len(n: nat, len: nat)
    ensures
        big_endian(n, len).len() == len,
    decreases len,
{
    if len > 0 {
        lemma_big_endian_len(n / 256, (len - 1) as nat);
    }
}

/// How many numbers fit in `len` bytes.
spec fn span(len: nat) -> nat
    decreases len,
{
    if len == 0 {
        1
    } else {
        256 * span((len - 1) as nat)
    }
}

proof fn lemma_big_endian_injective(m: nat, n: nat, len: nat)
    requires
        m < span(len),
        n < span(len),
        big_endian(m, len) == big_endian(n, len),
    ensures
        m == n,
    decreases len,
{
    if len > 0 {
        let k = (len - 1) as nat;
        let a = big_endian(m / 256, k);
        let b = big_endian(n / 256, k);
        assert(a.push((m % 256) as u8).drop_last() =~= a);
        assert(b.push((n % 256) as u8).drop_last() =~= b);
        assert(a.push((m % 256) as u8).last() == (m % 256) as u8);
        assert(b.push((n % 256) as u8).last() == (n % 256) as u8);
        lemma_big_endian_injective(m / 256, n / 256, k);
    }
}

/// How many bytes of argument follow the first byte of a head.
spec fn argument_len(n: nat) -> nat {
    if n < 24 {
        0
    } else if n < 0x100 {
        1
    } else if n < 0x1_0000 {
        2
    } else if n < 0x1_0000_0000 {
        4
    } else {
        8
    }
}

proof fn lemma_head_split(m1: nat, n1: nat, r1: Seq<u8>, m2: nat, n2: nat, r2: Seq<u8>)
    requires
        m1 < 8,
        m2 < 8,
        n1 < 0x1_0000_0000_0000_0000,
        n2 < 0x1_0000_0000_0000_0000,
        head(m1, n1) + r1 == head(m2, n2) + r2,
    ensures
        m1 == m2,
        n1 == n2,
        r1 == r2,
{
    let h1 = head(m1, n1);
    let h2 = head(m2, n2);
    let len1 = argument_len(n1);
    let len2 = argument_len(n2);
    lemma_big_endian_len(n1, len1);
    lemma_big_endian_len(n2, len2);
    assert(h1.len() == 1 + len1);
    assert(h2.len() == 1 + len2);
    assert((h1 + r1)[0] == h1[0]);
    assert((h2 + r2)[0] == h2[0]);
    assert(m1 == m2 && len1 == len2);
    assert(h1 =~= (h1 + r1).subrange(0, h1.len() as int));
    assert(h2 =~= (h2 + r2).subrange(0, h2.len() as int));
    assert(r1 =~= (h1 + r1).subrange(h1.len() as int, (h1 + r1).len() as int));
    assert(r2 =~= (h2 + r2).subrange(h2.len() as int, (h2 + r2).len() as int));
    if len1 > 0 {
        assert(big_endian(n1, len1) =~= h1.subrange(1, h1.len() as int));
        assert(big_endian(n2, len2) =~= h2.subrange(1, h2.len() as int));
        assert(span(1) == 0x100 && span(2) == 0x1_0000 && span(4) == 0x1_0000_0000 && span(8)
            == 0x1_0000_0000_0000_0000) by {
            reveal_with_fuel(span, 9);
        }
        lemma_big_endian_injective(n1, n2, len1);
    }
}

/// Major type and argument of the head of `item`.
spec fn head_parts(item: DataItem) -> (nat, nat) {
    match item {
        DataItem::Int(n) => if n >= 0 {
            (0, n as nat)
        } else {
            (1, (-1 - n) as nat)
        },
        DataItem::Bytes(b) => (2, b.len()),
        DataItem::Text(t) => (3, encode_utf8(t).len()),
        DataItem::Elements(n) => (4, n),
        DataItem::Pairs(n) => (5, n),
        DataItem::Other => (7, 0),
    }
}

/// What follows the head of `item`.
spec fn body(item: DataItem) -> Seq<u8> {
    match item {
        DataItem::Bytes(b) => b,
        DataItem::Text(t) => encode_utf8(t),
        _ => seq![],
    }
}

proof fn lemma_item_split(a: DataItem, r1: Seq<u8>, b: DataItem, r2: Seq<u8>)
    requires
        is_encodable(a),
        is_encodable(b),
        item_bytes(a) + r1 == item_bytes(b) + r2,
    ensures
        a == b,
        r1 == r2,
{
    let (m1, n1) = head_parts(a);
    let (m2, n2) = head_parts(b);
    assert(item_bytes(a) =~= head(m1, n1) + body(a));
    assert(item_bytes(b) =~= head(m2, n2) + body(b));
    assert(item_bytes(a) + r1 =~= head(m1, n1) + (body(a) + r1));
    assert(item_bytes(b) + r2 =~= head(m2, n2) + (body(b) + r2));
    lemma_head_split(m1, n1, body(a) + r1, m2, n2, body(b) + r2);
    assert(body(a).len() == body(b).len());
    assert(body(a) =~= (body(a) + r1).subrange(0, body(a).len() as int));
    assert(body(b) =~= (body(b) + r2).subrange(0, body(b).len() as int));
    assert(r1 =~= (body(a) + r1).subrange(body(a).len() as int, (body(a) + r1).len() as int));
    assert(r2 =~= (body(b) + r2).subrange(body(b).len() as int, (body(b) + r2).len() as int));
    if let DataItem::Text(t) = a {
        vstd::utf8::encode_utf8_decode_utf8(t);
        vstd::utf8::encode_utf8_decode_utf8(b->Text_0);
    }
}

/// An encoding can be read in one way only: two sequences of data items that are written as the
/// same bytes are the same sequence.
pub proof fn law_encoding_determines_items(a: Seq<DataItem>, b: Seq<DataItem>)
    requires
        forall|i: int| 0 <= i < a.len() ==> is_encodable(#[trigger] a[i]),
        forall|i: int| 0 <= i < b.len() ==> is_encodable(#[trigger] b[i]),
        encode(a) == encode(b),
    ensures
        a == b,
    decreases a.len(),
{
    lemma_encoding_nonempty(a);
    lemma_encoding_nonempty(b);
    if a.len() > 0 && b.len() > 0 {
        assert(is_encodable(a[0]));
        assert(is_encodable(b[0]));
        lemma_item_split(a[0], encode(a.drop_first()), b[0], encode(b.drop_first()));
        assert forall|i: int| 0 <= i < a.drop_first().len() implies is_encodable(
            #[trigger] a.drop_first()[i],
        ) by {
            assert(is_encodable(a[i + 1]));
        }
        assert forall|i: int| 0 <= i < b.drop_first().len() implies is_encodable(
            #[trigger] b.drop_first()[i],
        ) by {
            assert(is_encodable(b[i + 1]));
        }
        law_encoding_determines_items(a.drop_first(), b.drop_first());
        assert(a =~= seq![a[0]] + a.drop_first());
        assert(b =~= seq![b[0]] + b.drop_first());
    }
}

proof fn lemma_encoding_nonempty(s: Seq<DataItem>)
    requires
        forall|i: int| 0 <= i < s.len() ==> is_encodable(#[trigger] s[i]),
    ensures
        s.len() > 0 <==> encode(s).len() > 0,
{
    if s.len() > 0 {
        assert(is_encodable(s[0]));
        assert(item_bytes(s[0]).len() > 0);
    }
}

proof fn lemma_field_items(fields: Seq<(int, DataItem)>)
    ensures
        field_items(fields).len() == 2 * fields.len(),
        forall|i: int|
            0 <= i < fields.len() ==> field_items(fields)[2 * i] == DataItem::Int(
                (#[trigger] fields[i]).0,
            ) && field_items(fields)[2 * i + 1] == fields[i].1,
    decreases fields.len(),
{
    if fields.len() > 0 {
        let rest = fields.drop_last();
        lemma_field_items(rest);
        assert forall|i: int| 0 <= i < fields.len() implies field_items(fields)[2 * i]
            == DataItem::Int((#[trigger] fields[i]).0) && field_items(fields)[2 * i + 1]
            == fields[i].1 by {
            if i < rest.len() {
                assert(rest[i] == fields[i]);
            }
        }
    }
}

/// `fields` can be written: every label and every value has an encoding of its own.
pub open spec fn has_encodable_fields(fields: Seq<(int, DataItem)>) -> bool {
    &&& fields.len() < 0x1_0000_0000_0000_0000
    &&& forall|i: int|
        0 <= i < fields.len() ==> is_encodable(DataItem::Int((#[trigger] fields[i]).0))
            && is_encodable(fields[i].1)
}

/// A map of scalars can be read back: two maps that are written as the same bytes have the same
/// fields, in the same order.
pub proof fn law_map_encoding_determines_fields(
    a: Seq<(int, DataItem)>,
    b: Seq<(int, DataItem)>,
)
    requires
        has_encodable_fields(a),
        has_encodable_fields(b),
        encode(map_items(a)) == encode(map_items(b)),
    ensures
        a == b,
{
    lemma_map_items_encodable(a);
    lemma_map_items_encodable(b);
    law_encoding_determines_items(map_items(a), map_items(b));
    lemma_field_items(a);
    lemma_field_items(b);
    let x = map_items(a);
    let y = map_items(b);
    assert(x.drop_first() =~= field_items(a));
    assert(y.drop_first() =~= field_items(b));
    assert(a.len() == b.len());
    assert forall|i: int| 0 <= i < a.len() implies a[i] == b[i] by {
        assert(field_items(a)[2 * i] == DataItem::Int(a[i].0));
        assert(field_items(b)[2 * i] == DataItem::Int(b[i].0));
    }
    assert(a =~= b);
}

proof fn lemma_map_items_encodable(fields: Seq<(int, DataItem)>)
    requires
        has_encodable_fields(fields),
    ensures
        forall|i: int|
            0 <= i < map_items(fields).len() ==> is_encodable(#[trigger] map_items(fields)[i]),
{
    lemma_field_items(fields);
    assert forall|i: int| 0 <= i < map_items(fields).len() implies is_encodable(
        #[trigger] map_items(fields)[i],
    ) by {
        if i > 0 {
            let k = (i - 1) / 2;
            let field = fields[k];
            assert(map_items(fields)[i] == field_items(fields)[i - 1]);
            assert(i - 1 == 2 * k || i - 1 == 2 * k + 1);
        }
    }
}

/// A map of scalars is written with its number of fields, and then every field in the order in which
/// it was added, its label before its value.
pub proof fn law_map_items_hold_every_field(fields: Seq<(int, DataItem)>)
    ensures
        map_items(fields).len() == 1 + 2 * fields.len(),
        map_items(fields)[0] == DataItem::Pairs(fields.len()),
        forall|i: int|
            0 <= i < fields.len() ==> map_items(fields)[2 * i + 1] == DataItem::Int(
                (#[trigger] fields[i]).0,
            ) && map_items(fields)[2 * i + 2] == fields[i].1,
{
    lemma_field_items(fields);
    assert forall|i: int| 0 <= i < fields.len() implies map_items(fields)[2 * i + 1]
        == DataItem::Int((#[trigger] fields[i]).0) && map_items(fields)[2 * i + 2]
        == fields[i].1 by {
        assert(map_items(fields)[2 * i + 1] == field_items(fields)[2 * i]);
        assert(map_items(fields)[2 * i + 2] == field_items(fields)[2 * i + 1]);
    }
}

/// Data items are written one after the other, whatever comes before or after.
pub proof fn law_items_are_written_one_after_the_other(a: Seq<DataItem>, b: Seq<DataItem>)
    ensures
        encode(a + b) == encode(a) + encode(b),
    decreases a.len(),
{
    if a.len() == 0 {
        assert(a + b =~= b);
        assert(encode(a) + encode(b) =~= encode(b));
    } else {
        law_items_are_written_one_after_the_other(a.drop_first(), b);
        assert((a + b).drop_first() =~= a.drop_first() + b);
        assert(encode(a + b) =~= encode(a) + encode(b));
    }
}

/// A single data item is written as the bytes of RFC 8949 section 3: three bits of major type, then
/// the argument in the shortest form, most significant byte first, and then the content of a
/// string.
pub proof fn law_items_are_written_in_the_shortest_form(major: nat, n: nat)
    requires
        major < 8,
    ensures
        n < 24 ==> head(major, n) == seq![(32 * major + n) as u8],
        24 <= n < 0x100 ==> head(major, n) == seq![(32 * major + 24) as u8, n as u8],
        0x100 <= n < 0x1_0000 ==> head(major, n) == seq![
            (32 * major + 25) as u8,
            (n / 0x100) as u8,
            (n % 0x100) as u8,
        ],
        0x1_0000 <= n < 0x1_0000_0000 ==> head(major, n) == seq![
            (32 * major + 26) as u8,
            (n / 0x100_0000) as u8,
            (n / 0x1_0000 % 0x100) as u8,
            (n / 0x100 % 0x100) as u8,
            (n % 0x100) as u8,
        ],
        0x1_0000_0000 <= n < 0x1_0000_0000_0000_0000 ==> head(major, n) == seq![
            (32 * major + 27) as u8,
            (n / 0x100_0000_0000_0000) as u8,
            (n / 0x1_0000_0000_0000 % 0x100) as u8,
            (n / 0x100_0000_0000 % 0x100) as u8,
            (n / 0x1_0000_0000 % 0x100) as u8,
            (n / 0x100_0000 % 0x100) as u8,
            (n / 0x1_0000 % 0x100) as u8,
            (n / 0x100 % 0x100) as u8,
            (n % 0x100) as u8,
        ],
        encode(seq![DataItem::Int(n as int)]) == head(0, n),
        encode(seq![DataItem::Int(-1 - n)]) == head(1, n),
        encode(seq![DataItem::Elements(n)]) == head(4, n),
        encode(seq![DataItem::Pairs(n)]) == head(5, n),
{
    reveal_with_fuel(big_endian, 9);
    lemma_encode_one(DataItem::Int(n as int));
    lemma_encode_one(DataItem::Int(-1 - n));
    lemma_encode_one(DataItem::Elements(n));
    lemma_encode_one(DataItem::Pairs(n));
}

/// A string is written with the length of its bytes, and then all of its bytes. A text string is in
/// UTF-8.
pub proof fn law_strings_are_written_whole(bytes: Seq<u8>, text: Seq<char>)
    ensures
        encode(seq![DataItem::Bytes(bytes)]) == head(2, bytes.len()) + bytes,
        encode(seq![DataItem::Text(text)]) == head(3, encode_utf8(text).len()) + encode_utf8(text),
{
    lemma_encode_one(DataItem::Bytes(bytes));
    lemma_encode_one(DataItem::Text(text));
}

/// One data item by itself is written as the bytes of that item.
pub proof fn lemma_encode_one(item: DataItem)
    ensures
        encode(seq![item]) == item_bytes(item),
{
    reveal_with_fuel(encode, 2);
    assert(seq![item].drop_first() =~= seq![]);
    assert(encode(seq![item]) =~= item_bytes(item));
}

/// Every value that is made of 64-bit integers, byte strings, text strings, arrays and maps is one
/// that can be written, and its data items are its own and those of what it holds, in order.
pub proof fn law_values_are_written_with_what_they_hold(
    n: Integer,
    bytes: Vec<u8>,
    text: String,
    elements: Vec<Value>,
    pairs: Vec<(Value, Value)>,
)
    ensures
        items(Value::Integer(n)) == seq![DataItem::Int(integer_value(n))],
        items(Value::Bytes(bytes)) == seq![DataItem::Bytes(bytes@)],
        items(Value::Text(text)) == seq![DataItem::Text(text@)],
        items(Value::Array(elements)) == seq![DataItem::Elements(elements@.len())] + element_items(
            elements@,
        ),
        items(Value::Map(pairs)) == seq![DataItem::Pairs(pairs@.len())] + pair_items(pairs@),
        is_plain(Value::Integer(n)) <==> -0x1_0000_0000_0000_0000 <= integer_value(n)
            < 0x1_0000_0000_0000_0000,
        is_plain(Value::Bytes(bytes)),
        is_plain(Value::Text(text)),
        (forall|i: int| 0 <= i < elements@.len() ==> is_plain(#[trigger] elements@[i])) ==> is_plain(
            Value::Array(elements),
        ),
        (forall|i: int|
            0 <= i < pairs@.len() ==> is_plain((#[trigger] pairs@[i]).0) && is_plain(pairs@[i].1))
            ==> is_plain(Value::Map(pairs)),
{
}

/// What an array or a map holds is written element by element.
pub proof fn law_elements_are_written_in_order(
    elements: Seq<Value>,
    element: Value,
    pairs: Seq<(Value, Value)>,
    pair: (Value, Value),
)
    ensures
        element_items(seq![]) == Seq::<DataItem>::empty(),
        element_items(elements.push(element)) == element_items(elements) + items(element),
        pair_items(seq![]) == Seq::<DataItem>::empty(),
        pair_items(pairs.push(pair)) == pair_items(pairs) + items(pair.0) + items(pair.1),
{
    assert(elements.push(element).drop_last() =~= elements);
    assert(pairs.push(pair).drop_last() =~= pairs);
}

/// A head has at most nine bytes.
pub proof fn lemma_head_len(major: nat, n: nat)
    ensures
        1 <= head(major, n).len() <= 9,
{
    lemma_big_endian_len(n, 1);
    lemma_big_endian_len(n, 2);
    lemma_big_endian_len(n, 4);
    lemma_big_endian_len(n, 8);
}

} // verus!
