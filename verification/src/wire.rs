//! How a change of members is written into the data of an entry: as a Protocol
//! Buffers message, field by field, by the `prost` crate. The buffers that it
//! writes to are vectors, and grow as vectors do when something is pushed.

use vstd::prelude::*;

use crate::eraftpb::{ConfChange, ConfChangeType, ConfChangeView, ConfState, ConfStateView};

verus! {

/// The highest number that a field of a message can have.
pub const MAX_TAG: u32 = 0x1fff_ffff;

/// The bytes of an integer of variable length: seven bits each, the lowest first, with the top
/// bit set in all but the last.
pub open spec fn varint(v: nat) -> Seq<u8>
    decreases v,
{
    if v < 0x80 {
        seq![v as u8]
    } else {
        seq![(v % 0x80 + 0x80) as u8] + varint(v / 0x80)
    }
}

/// The bytes of several such integers, one after the other.
pub open spec fn varints(vs: Seq<u64>) -> Seq<u8>
    decreases vs.len(),
{
    if vs.len() == 0 {
        Seq::empty()
    } else {
        varints(vs.drop_last()) + varint(vs.last() as nat)
    }
}

/// A field that holds one integer.
pub open spec fn varint_field(tag: u32, v: nat) -> Seq<u8> {
    varint(tag as nat * 8) + varint(v)
}

/// A field that holds bytes, or a message.
pub open spec fn bytes_field(tag: u32, bytes: Seq<u8>) -> Seq<u8> {
    varint(tag as nat * 8 + 2) + varint(bytes.len()) + bytes
}

/// A field that holds a list of integers: nothing for the empty list.
pub open spec fn packed_field(tag: u32, vs: Seq<u64>) -> Seq<u8> {
    if vs.len() == 0 {
        Seq::empty()
    } else {
        bytes_field(tag, varints(vs))
    }
}

/// Calls `prost::encoding::uint64::encode`, which appends a field with one integer to a buffer:
/// the key of the field, then the integer, both with variable length.
#[verifier::external_body]
fn encode_uint64(tag: u32, value: u64, buf: &mut Vec<u8>)
    requires
        1 <= tag <= MAX_TAG,
    ensures
        final(buf)@ == old(buf)@ + varint_field(tag, value as nat),
{
    prost::encoding::uint64::encode(tag, &value, buf)
}

/// Calls `prost::encoding::int32::encode`, which appends a field with one integer to a buffer, as
/// the encoding of 64-bit integers does, with the sign extended.
#[verifier::external_body]
fn encode_int32(tag: u32, value: i32, buf: &mut Vec<u8>)
    requires
        1 <= tag <= MAX_TAG,
    ensures
        final(buf)@ == old(buf)@ + varint_field(
            tag,
            (if value < 0 {
                value + 0x1_0000_0000_0000_0000
            } else {
                value as int
            }) as nat,
        ),
{
    prost::encoding::int32::encode(tag, &value, buf)
}

/// Calls `prost::encoding::uint64::encode_packed`, which appends a field with a list of integers
/// to a buffer: the key of the field, the number of bytes, then the integers with variable length.
/// For the empty list it appends nothing.
#[verifier::external_body]
fn encode_packed(tag: u32, values: &Vec<u64>, buf: &mut Vec<u8>)
    requires
        1 <= tag <= MAX_TAG,
    ensures
        final(buf)@ == old(buf)@ + packed_field(tag, values@),
{
    prost::encoding::uint64::encode_packed(tag, values, buf)
}

/// Calls `prost::encoding::bytes::encode`, which appends a field with bytes to a buffer: the key
/// of the field, the number of bytes, then the bytes.
#[verifier::external_body]
fn encode_bytes(tag: u32, value: &Vec<u8>, buf: &mut Vec<u8>)
    requires
        1 <= tag <= MAX_TAG,
    ensures
        final(buf)@ == old(buf)@ + bytes_field(tag, value@),
{
    prost::encoding::bytes::encode(tag, value, buf)
}

/// The number of a kind of change.
pub open spec fn change_type_number(t: ConfChangeType) -> i32 {
    match t {
        ConfChangeType::AddNode => 0,
        ConfChangeType::RemoveNode => 1,
        ConfChangeType::AddLearnerNode => 2,
        ConfChangeType::BeginMembershipChange => 3,
        ConfChangeType::FinalizeMembershipChange => 4,
    }
}

/// An integer field as a message holds it: nothing for 0.
pub open spec fn optional_varint(tag: u32, v: nat) -> Seq<u8> {
    if v == 0 {
        Seq::empty()
    } else {
        varint_field(tag, v)
    }
}

/// A bytes field as a message holds it: nothing for no bytes.
pub open spec fn optional_bytes(tag: u32, bytes: Seq<u8>) -> Seq<u8> {
    if bytes.len() == 0 {
        Seq::empty()
    } else {
        bytes_field(tag, bytes)
    }
}

/// The message for a group configuration.
pub open spec fn conf_state_bytes(c: ConfStateView) -> Seq<u8> {
    packed_field(1, c.nodes) + packed_field(2, c.learners)
}

/// The field for an optional group configuration: nothing if there is none.
pub open spec fn optional_conf_state(tag: u32, c: Option<ConfStateView>) -> Seq<u8> {
    match c {
        Some(c) => bytes_field(tag, conf_state_bytes(c)),
        None => Seq::empty(),
    }
}

/// The message for a change of members.
pub open spec fn conf_change_bytes(cc: ConfChangeView) -> Seq<u8> {
    optional_varint(1, cc.id as nat) + optional_varint(2, change_type_number(cc.change_type) as nat)
        + optional_varint(3, cc.node_id as nat) + optional_bytes(4, cc.context)
        + optional_conf_state(5, cc.configuration) + optional_varint(6, cc.start_index as nat)
}

/// Writes a group configuration as a message.
fn encode_conf_state(c: &ConfState) -> (data: Vec<u8>)
    ensures
        data@ == conf_state_bytes(c@),
{
    let mut data: Vec<u8> = Vec::new();
    encode_packed(1, &c.nodes, &mut data);
    encode_packed(2, &c.learners, &mut data);
    assert(data@ =~= conf_state_bytes(c@));
    data
}

/// The number of a kind of change.
fn change_type_to_i32(t: ConfChangeType) -> (n: i32)
    ensures
        n == change_type_number(t),
{
    match t {
        ConfChangeType::AddNode => 0,
        ConfChangeType::RemoveNode => 1,
        ConfChangeType::AddLearnerNode => 2,
        ConfChangeType::BeginMembershipChange => 3,
        ConfChangeType::FinalizeMembershipChange => 4,
    }
}

/// Writes a change of members as a message.
pub fn encode_conf_change(cc: &ConfChange) -> (data: Vec<u8>)
    ensures
        data@ == conf_change_bytes(cc@),
{
    let mut data: Vec<u8> = Vec::new();
    if cc.id != 0 {
        encode_uint64(1, cc.id, &mut data);
    }
    let change_type: i32 = change_type_to_i32(cc.change_type);
    if change_type != 0 {
        encode_int32(2, change_type, &mut data);
    }
    if cc.node_id != 0 {
        encode_uint64(3, cc.node_id, &mut data);
    }
    if !cc.context.is_empty() {
        encode_bytes(4, &cc.context, &mut data);
    }
    match &cc.configuration {
        Some(c) => {
            let bytes = encode_conf_state(c);
            encode_bytes(5, &bytes, &mut data);
        },
        None => {},
    }
    if cc.start_index != 0 {
        encode_uint64(6, cc.start_index, &mut data);
    }
    assert(data@ =~= conf_change_bytes(cc@));
    data
}

/// An integer is told from what follows it.
proof fn lemma_varint_prefix(a: nat, b: nat, x: Seq<u8>, y: Seq<u8>)
    requires
        varint(a) + x == varint(b) + y,
    ensures
        a == b,
        x == y,
    decreases a,
{
    let left = varint(a) + x;
    let right = varint(b) + y;
    assert(left[0] == varint(a)[0]);
    assert(right[0] == varint(b)[0]);
    if a < 0x80 {
        assert(b < 0x80);
        assert(x =~= left.skip(1));
        assert(y =~= right.skip(1));
    } else {
        assert(b >= 0x80);
        assert(varint(a / 0x80) + x =~= left.skip(1));
        assert(varint(b / 0x80) + y =~= right.skip(1));
        lemma_varint_prefix(a / 0x80, b / 0x80, x, y);
    }
}

/// Whether bytes are the fields of a message above a field, as far as the first key tells.
spec fn starts_above(tag: u32, rest: Seq<u8>) -> bool {
    rest.len() > 0 ==> rest[0] >= (tag + 1) * 8
}

/// An integer field is told from what follows it.
proof fn lemma_optional_varint_prefix(tag: u32, a: nat, b: nat, x: Seq<u8>, y: Seq<u8>)
    requires
        1 <= tag < 16,
        optional_varint(tag, a) + x == optional_varint(tag, b) + y,
        starts_above(tag, x),
        starts_above(tag, y),
    ensures
        a == b,
        x == y,
{
    let key = varint(tag as nat * 8);
    let left = optional_varint(tag, a) + x;
    let right = optional_varint(tag, b) + y;
    assert(a == 0 ==> left =~= x);
    assert(b == 0 ==> right =~= y);
    assert(a != 0 ==> left[0] == key[0]);
    assert(b != 0 ==> right[0] == key[0]);
    if a != 0 && b != 0 {
        assert(left =~= key + (varint(a) + x));
        assert(right =~= key + (varint(b) + y));
        lemma_varint_prefix(tag as nat * 8, tag as nat * 8, varint(a) + x, varint(b) + y);
        lemma_varint_prefix(a, b, x, y);
    }
}

/// A field that holds bytes is told from what follows it.
proof fn lemma_bytes_prefix(tag: u32, a: Seq<u8>, b: Seq<u8>, x: Seq<u8>, y: Seq<u8>)
    requires
        bytes_field(tag, a) + x == bytes_field(tag, b) + y,
    ensures
        a == b,
        x == y,
{
    let key = tag as nat * 8 + 2;
    let left = a + x;
    let right = b + y;
    assert(bytes_field(tag, a) + x =~= varint(key) + (varint(a.len()) + left));
    assert(bytes_field(tag, b) + y =~= varint(key) + (varint(b.len()) + right));
    lemma_varint_prefix(key, key, varint(a.len()) + left, varint(b.len()) + right);
    lemma_varint_prefix(a.len(), b.len(), left, right);
    assert(a =~= left.take(a.len() as int));
    assert(b =~= right.take(b.len() as int));
    assert(x =~= left.skip(a.len() as int));
    assert(y =~= right.skip(b.len() as int));
}

/// The first byte of a field that holds bytes.
proof fn lemma_bytes_first(tag: u32, a: Seq<u8>, x: Seq<u8>)
    requires
        1 <= tag < 15,
    ensures
        (bytes_field(tag, a) + x).len() > 0,
        (bytes_field(tag, a) + x)[0] == tag * 8 + 2,
{
    let key = varint(tag as nat * 8 + 2);
    assert(key =~= seq![(tag as nat * 8 + 2) as u8]);
    assert((bytes_field(tag, a) + x)[0] == key[0]);
}

/// A bytes field that may be missing is told from what follows it.
proof fn lemma_optional_bytes_prefix(tag: u32, a: Seq<u8>, b: Seq<u8>, x: Seq<u8>, y: Seq<u8>)
    requires
        1 <= tag < 15,
        optional_bytes(tag, a) + x == optional_bytes(tag, b) + y,
        starts_above(tag, x),
        starts_above(tag, y),
    ensures
        a == b,
        x == y,
{
    lemma_bytes_first(tag, a, x);
    lemma_bytes_first(tag, b, y);
    assert(a.len() == 0 ==> optional_bytes(tag, a) + x =~= x);
    assert(b.len() == 0 ==> optional_bytes(tag, b) + y =~= y);
    if a.len() > 0 && b.len() > 0 {
        lemma_bytes_prefix(tag, a, b, x, y);
    } else {
        assert(a =~= b);
    }
}

/// The first integer of a list comes first.
proof fn lemma_varints_first(vs: Seq<u64>)
    requires
        vs.len() > 0,
    ensures
        varints(vs) == varint(vs[0] as nat) + varints(vs.skip(1)),
    decreases vs.len(),
{
    let rest = vs.skip(1);
    if vs.len() == 1 {
        assert(varints(vs.drop_last()) == Seq::<u8>::empty());
        assert(varints(rest) == Seq::<u8>::empty());
        assert(varints(vs) =~= varint(vs[0] as nat) + varints(rest));
    } else {
        lemma_varints_first(vs.drop_last());
        assert(vs.drop_last().skip(1) =~= rest.drop_last());
        assert(varints(rest) == varints(rest.drop_last()) + varint(vs.last() as nat));
        assert(varints(vs) =~= varint(vs[0] as nat) + varints(rest));
    }
}

/// A list of integers is told from every other one.
proof fn lemma_varints_injective(a: Seq<u64>, b: Seq<u64>)
    requires
        varints(a) == varints(b),
    ensures
        a == b,
    decreases a.len(),
{
    if a.len() > 0 {
        lemma_varints_first(a);
    }
    if b.len() > 0 {
        lemma_varints_first(b);
    }
    if a.len() == 0 || b.len() == 0 {
        assert(a.len() == 0 && b.len() == 0);
        assert(a =~= b);
    } else {
        lemma_varint_prefix(a[0] as nat, b[0] as nat, varints(a.skip(1)), varints(b.skip(1)));
        lemma_varints_injective(a.skip(1), b.skip(1));
        assert(a =~= seq![a[0]] + a.skip(1));
        assert(b =~= seq![b[0]] + b.skip(1));
    }
}

/// The field for a list is a bytes field that is missing for the empty list.
proof fn lemma_packed_is_optional(tag: u32, vs: Seq<u64>)
    ensures
        packed_field(tag, vs) == optional_bytes(tag, varints(vs)),
{
    if vs.len() > 0 {
        lemma_varints_first(vs);
    }
}

/// A group configuration is told from every other one.
proof fn lemma_conf_state_injective(a: ConfStateView, b: ConfStateView)
    requires
        conf_state_bytes(a) == conf_state_bytes(b),
    ensures
        a == b,
{
    lemma_packed_is_optional(1, a.nodes);
    lemma_packed_is_optional(1, b.nodes);
    lemma_packed_is_optional(2, a.learners);
    lemma_packed_is_optional(2, b.learners);
    let none = Seq::<u8>::empty();
    let x = packed_field(2, a.learners);
    let y = packed_field(2, b.learners);
    lemma_bytes_first(2, varints(a.learners), none);
    lemma_bytes_first(2, varints(b.learners), none);
    assert(bytes_field(2, varints(a.learners)) + none =~= bytes_field(2, varints(a.learners)));
    assert(bytes_field(2, varints(b.learners)) + none =~= bytes_field(2, varints(b.learners)));
    lemma_optional_bytes_prefix(1, varints(a.nodes), varints(b.nodes), x, y);
    assert(x + none =~= x);
    assert(y + none =~= y);
    lemma_optional_bytes_prefix(2, varints(a.learners), varints(b.learners), none, none);
    lemma_varints_injective(a.nodes, b.nodes);
    lemma_varints_injective(a.learners, b.learners);
    assert(a =~= b);
}

/// The first key of a field and what follows it, if the field may be missing.
proof fn lemma_optional_varint_starts(tag: u32, v: nat, rest: Seq<u8>)
    requires
        1 <= tag < 15,
        starts_above(tag, rest),
    ensures
        starts_above((tag - 1) as u32, optional_varint(tag, v) + rest),
{
    let key = varint(tag as nat * 8);
    if v == 0 {
        assert(optional_varint(tag, v) + rest =~= rest);
    } else {
        assert(key =~= seq![(tag as nat * 8) as u8]);
        assert((optional_varint(tag, v) + rest)[0] == key[0]);
    }
}

/// The fields of a change of members from the configuration on.
spec fn tail5(cc: ConfChangeView) -> Seq<u8> {
    optional_conf_state(5, cc.configuration) + (optional_varint(6, cc.start_index as nat)
        + Seq::empty())
}

/// The fields of a change of members from the context on.
spec fn tail4(cc: ConfChangeView) -> Seq<u8> {
    optional_bytes(4, cc.context) + tail5(cc)
}

/// The fields of a change of members from the kind of change on.
spec fn tail2(cc: ConfChangeView) -> Seq<u8> {
    optional_varint(2, change_type_number(cc.change_type) as nat) + (optional_varint(
        3,
        cc.node_id as nat,
    ) + tail4(cc))
}

/// Six pieces in a row, grouped from the left and from the right.
proof fn lemma_regroup(
    a: Seq<u8>,
    b: Seq<u8>,
    c: Seq<u8>,
    d: Seq<u8>,
    e: Seq<u8>,
    f: Seq<u8>,
)
    ensures
        a + b + c + d + e + f == a + (b + (c + (d + (e + (f + Seq::empty()))))),
{
    assert(f + Seq::empty() =~= f);
    let ef = e + f;
    assert(a + b + c + d + e + f =~= a + b + c + d + ef);
    let def = d + ef;
    assert(a + b + c + d + ef =~= a + b + c + def);
    let cdef = c + def;
    assert(a + b + c + def =~= a + b + cdef);
    assert(a + b + cdef =~= a + (b + cdef));
}

/// Where the fields of a change of members start.
proof fn lemma_tails(cc: ConfChangeView)
    ensures
        starts_above(5, optional_varint(6, cc.start_index as nat) + Seq::empty()),
        starts_above(4, tail5(cc)),
        starts_above(3, tail4(cc)),
        starts_above(2, optional_varint(3, cc.node_id as nat) + tail4(cc)),
        starts_above(1, tail2(cc)),
        conf_change_bytes(cc) == optional_varint(1, cc.id as nat) + tail2(cc),
{
    let tail6 = optional_varint(6, cc.start_index as nat) + Seq::<u8>::empty();
    lemma_optional_varint_starts(6, cc.start_index as nat, Seq::empty());
    match cc.configuration {
        Some(c) => {
            lemma_bytes_first(5, conf_state_bytes(c), tail6);
        },
        None => {
            assert(tail5(cc) =~= tail6);
        },
    }
    lemma_bytes_first(4, cc.context, tail5(cc));
    if cc.context.len() == 0 {
        assert(tail4(cc) =~= tail5(cc));
    }
    lemma_optional_varint_starts(3, cc.node_id as nat, tail4(cc));
    lemma_optional_varint_starts(
        2,
        change_type_number(cc.change_type) as nat,
        optional_varint(3, cc.node_id as nat) + tail4(cc),
    );
    lemma_regroup(
        optional_varint(1, cc.id as nat),
        optional_varint(2, change_type_number(cc.change_type) as nat),
        optional_varint(3, cc.node_id as nat),
        optional_bytes(4, cc.context),
        optional_conf_state(5, cc.configuration),
        optional_varint(6, cc.start_index as nat),
    );
}

/// A change of members is told from every other one by the data that is proposed for it.
pub proof fn conf_change_bytes_are_unique(a: ConfChangeView, b: ConfChangeView)
    requires
        conf_change_bytes(a) == conf_change_bytes(b),
    ensures
        a == b,
{
    lemma_tails(a);
    lemma_tails(b);
    lemma_optional_varint_prefix(1, a.id as nat, b.id as nat, tail2(a), tail2(b));
    lemma_optional_varint_prefix(
        2,
        change_type_number(a.change_type) as nat,
        change_type_number(b.change_type) as nat,
        optional_varint(3, a.node_id as nat) + tail4(a),
        optional_varint(3, b.node_id as nat) + tail4(b),
    );
    lemma_optional_varint_prefix(3, a.node_id as nat, b.node_id as nat, tail4(a), tail4(b));
    lemma_optional_bytes_prefix(4, a.context, b.context, tail5(a), tail5(b));
    let none = Seq::<u8>::empty();
    let x = optional_varint(6, a.start_index as nat) + none;
    let y = optional_varint(6, b.start_index as nat) + none;
    match (a.configuration, b.configuration) {
        (Some(c), Some(d)) => {
            lemma_bytes_prefix(5, conf_state_bytes(c), conf_state_bytes(d), x, y);
            lemma_conf_state_injective(c, d);
        },
        (Some(c), None) => {
            lemma_bytes_first(5, conf_state_bytes(c), x);
            assert(tail5(b) =~= y);
        },
        (None, Some(d)) => {
            lemma_bytes_first(5, conf_state_bytes(d), y);
            assert(tail5(a) =~= x);
        },
        (None, None) => {
            assert(tail5(a) =~= x);
            assert(tail5(b) =~= y);
        },
    }
    lemma_optional_varint_prefix(6, a.start_index as nat, b.start_index as nat, none, none);
    assert(a =~= b);
}

/// The integer that bytes of variable length stand for: the low seven bits of each byte, the
/// lowest first.
pub open spec fn varint_value(bytes: Seq<u8>) -> nat
    decreases bytes.len(),
{
    if bytes.len() == 0 {
        0
    } else {
        bytes[0] as nat % 0x80 + 0x80 * varint_value(bytes.skip(1))
    }
}

/// An integer of variable length is read back as what was written. All its bytes but the last
/// have the top bit set, and the last is not 0 unless it is the only one: it is as short as can be.
pub proof fn varint_reads_back(v: nat)
    ensures
        varint(v).len() > 0,
        varint_value(varint(v)) == v,
        forall|i: int| 0 <= i < varint(v).len() - 1 ==> #[trigger] varint(v)[i] >= 0x80,
        varint(v).last() < 0x80,
        varint(v).len() > 1 ==> varint(v).last() != 0,
    decreases v,
{
    let bytes = varint(v);
    if v < 0x80 {
        assert(bytes.skip(1) =~= Seq::empty());
        assert(varint_value(bytes.skip(1)) == 0);
    } else {
        let rest = varint(v / 0x80);
        varint_reads_back(v / 0x80);
        assert(bytes.skip(1) =~= rest);
        assert(bytes.last() == rest.last());
        assert forall|i: int| 0 <= i < bytes.len() - 1 implies #[trigger] bytes[i] >= 0x80 by {
            if i > 0 {
                assert(bytes[i] == rest[i - 1]);
            }
        }
    }
}

/// A list of integers is written one after the other, in order: nothing for the empty list, and
/// one more integer after what is written for the others.
pub proof fn varints_follow_each_other(vs: Seq<u64>, v: u64)
    ensures
        varints(Seq::empty()).len() == 0,
        varints(vs.push(v)) == varints(vs) + varint(v as nat),
{
    assert(vs.push(v).drop_last() =~= vs);
}

/// A field starts with its key: its number, then three bits that say how it goes on. An integer
/// follows at once; bytes follow after how many there are.
pub proof fn fields_start_with_their_keys(tag: u32, v: nat, bytes: Seq<u8>, vs: Seq<u64>)
    requires
        1 <= tag < 16,
    ensures
        varint_field(tag, v) == seq![(tag * 8) as u8] + varint(v),
        bytes_field(tag, bytes) == seq![(tag * 8 + 2) as u8] + varint(bytes.len()) + bytes,
        vs.len() == 0 ==> packed_field(tag, vs).len() == 0,
        vs.len() > 0 ==> packed_field(tag, vs) == seq![(tag * 8 + 2) as u8] + varint(
            varints(vs).len(),
        ) + varints(vs),
{
    assert(varint(tag as nat * 8) =~= seq![(tag * 8) as u8]);
    assert(varint(tag as nat * 8 + 2) =~= seq![(tag * 8 + 2) as u8]);
}

/// A group configuration is written as its nodes, then its learners, each after a key and how many
/// bytes there are; an empty list is left out.
pub proof fn conf_state_is_written_field_by_field(c: ConfStateView)
    ensures
        ({
            let nodes = varints(c.nodes);
            let learners = varints(c.learners);
            conf_state_bytes(c) == (if c.nodes.len() == 0 {
                Seq::<u8>::empty()
            } else {
                seq![0x0au8] + varint(nodes.len()) + nodes
            }) + (if c.learners.len() == 0 {
                Seq::<u8>::empty()
            } else {
                seq![0x12u8] + varint(learners.len()) + learners
            })
        }),
{
    fields_start_with_their_keys(1, 0, Seq::empty(), c.nodes);
    fields_start_with_their_keys(2, 0, Seq::empty(), c.learners);
    assert(packed_field(1, c.nodes) =~= if c.nodes.len() == 0 {
        Seq::<u8>::empty()
    } else {
        seq![0x0au8] + varint(varints(c.nodes).len()) + varints(c.nodes)
    });
    assert(packed_field(2, c.learners) =~= if c.learners.len() == 0 {
        Seq::<u8>::empty()
    } else {
        seq![0x12u8] + varint(varints(c.learners).len()) + varints(c.learners)
    });
}

/// A change of members is written as six fields in this order: its id, its kind, its node, its
/// context, its configuration and its start index. Each is written after its key, whatever the
/// others are, and left out if it is 0, the first kind or empty, or if there is no configuration;
/// a configuration that holds no member is written.
pub proof fn conf_change_is_written_field_by_field(cc: ConfChangeView)
    ensures
        ({
            let none = Seq::<u8>::empty();
            let id = if cc.id == 0 {
                none
            } else {
                seq![0x08u8] + varint(cc.id as nat)
            };
            let kind = match cc.change_type {
                ConfChangeType::AddNode => none,
                ConfChangeType::RemoveNode => seq![0x10u8, 1u8],
                ConfChangeType::AddLearnerNode => seq![0x10u8, 2u8],
                ConfChangeType::BeginMembershipChange => seq![0x10u8, 3u8],
                ConfChangeType::FinalizeMembershipChange => seq![0x10u8, 4u8],
            };
            let node_id = if cc.node_id == 0 {
                none
            } else {
                seq![0x18u8] + varint(cc.node_id as nat)
            };
            let context = if cc.context.len() == 0 {
                none
            } else {
                seq![0x22u8] + varint(cc.context.len()) + cc.context
            };
            let configuration = match cc.configuration {
                Some(c) => seq![0x2au8] + varint(conf_state_bytes(c).len()) + conf_state_bytes(c),
                None => none,
            };
            let start_index = if cc.start_index == 0 {
                none
            } else {
                seq![0x30u8] + varint(cc.start_index as nat)
            };
            conf_change_bytes(cc) == id + kind + node_id + context + configuration + start_index
        }),
{
    let n = change_type_number(cc.change_type) as nat;
    let none = Seq::<u8>::empty();
    let c = match cc.configuration {
        Some(c) => conf_state_bytes(c),
        None => none,
    };
    fields_start_with_their_keys(1, cc.id as nat, none, Seq::empty());
    fields_start_with_their_keys(2, n, none, Seq::empty());
    fields_start_with_their_keys(3, cc.node_id as nat, none, Seq::empty());
    fields_start_with_their_keys(4, 0, cc.context, Seq::empty());
    fields_start_with_their_keys(5, 0, c, Seq::empty());
    fields_start_with_their_keys(6, cc.start_index as nat, none, Seq::empty());
    assert(varint(n) =~= seq![n as u8]);
    assert(n != 0 ==> optional_varint(2, n) =~= seq![0x10u8, n as u8]);
}

} // verus!
