//! Putting an instruction word together field by field.

use super::format::Format;
use super::instruction::Instruction;
use super::operation::{decode_operation, lemma_decode_code, Operation};
use super::part::{pack, Part};
use vstd::prelude::*;

verus! {

/// An instruction word under construction. The builder does not check that
/// the fields packed into it belong to one format.
pub struct Builder {
    raw: u32,
}

impl View for Builder {
    type V = u32;

    /// The word built so far.
    closed spec fn view(&self) -> u32 {
        self.raw
    }
}

/// `raw` with `data` packed into the field `part`.
pub open spec fn pack_into(raw: u32, part: Part, data: u32) -> u32 {
    raw | pack(data, part.mask_spec(), part.shift_spec())
}

/// The word that a builder holds after the opcode of `op` and then each of
/// `fields`, a field and its value, were packed into it in turn.
pub open spec fn assemble(op: Operation, fields: Seq<(Part, u32)>) -> u32
    decreases fields.len(),
{
    if fields.len() == 0 {
        op.code_spec()
    } else {
        pack_into(assemble(op, fields.drop_last()), fields.last().0, fields.last().1)
    }
}

/// Whether `fields` names fields of the format of `op`, none of them twice
/// and none the opcode, each with a value that fits its field.
pub open spec fn valid_fields(op: Operation, fields: Seq<(Part, u32)>) -> bool {
    &&& forall|i: int|
        0 <= i < fields.len() ==> (#[trigger] fields[i]).0 != Part::Opcode
            && op.format_spec().has(fields[i].0) && fields[i].1 <= fields[i].0.max_value()
    &&& forall|i: int, j: int|
        0 <= i < j < fields.len() ==> (#[trigger] fields[i]).0 != (#[trigger] fields[j]).0
}

/// The masks of two fields of one format share no bit, an opcode fits the
/// opcode field, and each mask brought down by its shift is the field's
/// largest value.
proof fn lemma_mask_table()
    by (bit_vector)
    ensures
        0x7fu32 & 0x80u32 == 0,
        0x7fu32 & 0xf00u32 == 0,
        0x7fu32 & 0xf80u32 == 0,
        0x7fu32 & 0x7000u32 == 0,
        0x7fu32 & 0xf8000u32 == 0,
        0x7fu32 & 0xff000u32 == 0,
        0x7fu32 & 0x100000u32 == 0,
        0x7fu32 & 0x1f00000u32 == 0,
        0x7fu32 & 0x7e000000u32 == 0,
        0x7fu32 & 0x7fe00000u32 == 0,
        0x7fu32 & 0x80000000u32 == 0,
        0x7fu32 & 0xfe000000u32 == 0,
        0x7fu32 & 0xfff00000u32 == 0,
        0x7fu32 & 0xfffff000u32 == 0,
        0x80u32 & 0x7fu32 == 0,
        0x80u32 & 0xf00u32 == 0,
        0x80u32 & 0x7000u32 == 0,
        0x80u32 & 0xf8000u32 == 0,
        0x80u32 & 0x1f00000u32 == 0,
        0x80u32 & 0x7e000000u32 == 0,
        0x80u32 & 0x80000000u32 == 0,
        0xf00u32 & 0x7fu32 == 0,
        0xf00u32 & 0x80u32 == 0,
        0xf00u32 & 0x7000u32 == 0,
        0xf00u32 & 0xf8000u32 == 0,
        0xf00u32 & 0x1f00000u32 == 0,
        0xf00u32 & 0x7e000000u32 == 0,
        0xf00u32 & 0x80000000u32 == 0,
        0xf80u32 & 0x7fu32 == 0,
        0xf80u32 & 0x7000u32 == 0,
        0xf80u32 & 0xf8000u32 == 0,
        0xf80u32 & 0xff000u32 == 0,
        0xf80u32 & 0x100000u32 == 0,
        0xf80u32 & 0x1f00000u32 == 0,
        0xf80u32 & 0x7fe00000u32 == 0,
        0xf80u32 & 0x80000000u32 == 0,
        0xf80u32 & 0xfe000000u32 == 0,
        0xf80u32 & 0xfff00000u32 == 0,
        0xf80u32 & 0xfffff000u32 == 0,
        0x7000u32 & 0x7fu32 == 0,
        0x7000u32 & 0x80u32 == 0,
        0x7000u32 & 0xf00u32 == 0,
        0x7000u32 & 0xf80u32 == 0,
        0x7000u32 & 0xf8000u32 == 0,
        0x7000u32 & 0x1f00000u32 == 0,
        0x7000u32 & 0x7e000000u32 == 0,
        0x7000u32 & 0x80000000u32 == 0,
        0x7000u32 & 0xfe000000u32 == 0,
        0x7000u32 & 0xfff00000u32 == 0,
        0xf8000u32 & 0x7fu32 == 0,
        0xf8000u32 & 0x80u32 == 0,
        0xf8000u32 & 0xf00u32 == 0,
        0xf8000u32 & 0xf80u32 == 0,
        0xf8000u32 & 0x7000u32 == 0,
        0xf8000u32 & 0x1f00000u32 == 0,
        0xf8000u32 & 0x7e000000u32 == 0,
        0xf8000u32 & 0x80000000u32 == 0,
        0xf8000u32 & 0xfe000000u32 == 0,
        0xf8000u32 & 0xfff00000u32 == 0,
        0xff000u32 & 0x7fu32 == 0,
        0xff000u32 & 0xf80u32 == 0,
        0xff000u32 & 0x100000u32 == 0,
        0xff000u32 & 0x7fe00000u32 == 0,
        0xff000u32 & 0x80000000u32 == 0,
        0x100000u32 & 0x7fu32 == 0,
        0x100000u32 & 0xf80u32 == 0,
        0x100000u32 & 0xff000u32 == 0,
        0x100000u32 & 0x7fe00000u32 == 0,
        0x100000u32 & 0x80000000u32 == 0,
        0x1f00000u32 & 0x7fu32 == 0,
        0x1f00000u32 & 0x80u32 == 0,
        0x1f00000u32 & 0xf00u32 == 0,
        0x1f00000u32 & 0xf80u32 == 0,
        0x1f00000u32 & 0x7000u32 == 0,
        0x1f00000u32 & 0xf8000u32 == 0,
        0x1f00000u32 & 0x7e000000u32 == 0,
        0x1f00000u32 & 0x80000000u32 == 0,
        0x1f00000u32 & 0xfe000000u32 == 0,
        0x7e000000u32 & 0x7fu32 == 0,
        0x7e000000u32 & 0x80u32 == 0,
        0x7e000000u32 & 0xf00u32 == 0,
        0x7e000000u32 & 0x7000u32 == 0,
        0x7e000000u32 & 0xf8000u32 == 0,
        0x7e000000u32 & 0x1f00000u32 == 0,
        0x7e000000u32 & 0x80000000u32 == 0,
        0x7fe00000u32 & 0x7fu32 == 0,
        0x7fe00000u32 & 0xf80u32 == 0,
        0x7fe00000u32 & 0xff000u32 == 0,
        0x7fe00000u32 & 0x100000u32 == 0,
        0x7fe00000u32 & 0x80000000u32 == 0,
        0x80000000u32 & 0x7fu32 == 0,
        0x80000000u32 & 0x80u32 == 0,
        0x80000000u32 & 0xf00u32 == 0,
        0x80000000u32 & 0xf80u32 == 0,
        0x80000000u32 & 0x7000u32 == 0,
        0x80000000u32 & 0xf8000u32 == 0,
        0x80000000u32 & 0xff000u32 == 0,
        0x80000000u32 & 0x100000u32 == 0,
        0x80000000u32 & 0x1f00000u32 == 0,
        0x80000000u32 & 0x7e000000u32 == 0,
        0x80000000u32 & 0x7fe00000u32 == 0,
        0xfe000000u32 & 0x7fu32 == 0,
        0xfe000000u32 & 0xf80u32 == 0,
        0xfe000000u32 & 0x7000u32 == 0,
        0xfe000000u32 & 0xf8000u32 == 0,
        0xfe000000u32 & 0x1f00000u32 == 0,
        0xfff00000u32 & 0x7fu32 == 0,
        0xfff00000u32 & 0xf80u32 == 0,
        0xfff00000u32 & 0x7000u32 == 0,
        0xfff00000u32 & 0xf8000u32 == 0,
        0xfffff000u32 & 0x7fu32 == 0,
        0xfffff000u32 & 0xf80u32 == 0,
        0x37u32 & 0x7fu32 == 0x37,
        0x17u32 & 0x7fu32 == 0x17,
        0x6fu32 & 0x7fu32 == 0x6f,
        0x67u32 & 0x7fu32 == 0x67,
        0xfu32 & 0x7fu32 == 0xf,
        0x63u32 & 0x7fu32 == 0x63,
        0x3u32 & 0x7fu32 == 0x3,
        0x23u32 & 0x7fu32 == 0x23,
        0x13u32 & 0x7fu32 == 0x13,
        0x33u32 & 0x7fu32 == 0x33,
        0x73u32 & 0x7fu32 == 0x73,
        0x0u32 >> 0u32 == 0x0,
        0x7fu32 >> 0u32 == 0x7f,
        0x80u32 >> 7u32 == 0x1,
        0xf00u32 >> 8u32 == 0xf,
        0xf80u32 >> 7u32 == 0x1f,
        0x7000u32 >> 12u32 == 0x7,
        0xf8000u32 >> 15u32 == 0x1f,
        0xff000u32 >> 12u32 == 0xff,
        0x100000u32 >> 20u32 == 0x1,
        0x1f00000u32 >> 20u32 == 0x1f,
        0x7e000000u32 >> 25u32 == 0x3f,
        0x7fe00000u32 >> 21u32 == 0x3ff,
        0x80000000u32 >> 31u32 == 0x1,
        0xfe000000u32 >> 25u32 == 0x7f,
        0xfff00000u32 >> 20u32 == 0xfff,
        0xfffff000u32 >> 12u32 == 0xfffff,
{
}

/// A value that fits a field is read back from a word whose field was empty
/// before the value was packed.
proof fn lemma_pack_then_extract(r: u32, v: u32)
    by (bit_vector)
    ensures
        (r & 0x0 == 0 && v <= 0x0) ==> ((r | ((v << 0u32) & 0x0)) & 0x0) >> 0u32 == v,
        (r & 0x7f == 0 && v <= 0x7f) ==> ((r | ((v << 0u32) & 0x7f)) & 0x7f) >> 0u32 == v,
        (r & 0x80 == 0 && v <= 0x1) ==> ((r | ((v << 7u32) & 0x80)) & 0x80) >> 7u32 == v,
        (r & 0xf00 == 0 && v <= 0xf) ==> ((r | ((v << 8u32) & 0xf00)) & 0xf00) >> 8u32 == v,
        (r & 0xf80 == 0 && v <= 0x1f) ==> ((r | ((v << 7u32) & 0xf80)) & 0xf80) >> 7u32 == v,
        (r & 0x7000 == 0 && v <= 0x7) ==> ((r | ((v << 12u32) & 0x7000)) & 0x7000) >> 12u32 == v,
        (r & 0xf8000 == 0 && v <= 0x1f) ==> ((r | ((v << 15u32) & 0xf8000)) & 0xf8000) >> 15u32 == v,
        (r & 0xff000 == 0 && v <= 0xff) ==> ((r | ((v << 12u32) & 0xff000)) & 0xff000) >> 12u32 == v,
        (r & 0x100000 == 0 && v <= 0x1) ==> ((r | ((v << 20u32) & 0x100000)) & 0x100000) >> 20u32 == v,
        (r & 0x1f00000 == 0 && v <= 0x1f) ==> ((r | ((v << 20u32) & 0x1f00000)) & 0x1f00000) >> 20u32 == v,
        (r & 0x7e000000 == 0 && v <= 0x3f) ==> ((r | ((v << 25u32) & 0x7e000000)) & 0x7e000000) >> 25u32 == v,
        (r & 0x7fe00000 == 0 && v <= 0x3ff) ==> ((r | ((v << 21u32) & 0x7fe00000)) & 0x7fe00000) >> 21u32 == v,
        (r & 0x80000000 == 0 && v <= 0x1) ==> ((r | ((v << 31u32) & 0x80000000)) & 0x80000000) >> 31u32 == v,
        (r & 0xfe000000 == 0 && v <= 0x7f) ==> ((r | ((v << 25u32) & 0xfe000000)) & 0xfe000000) >> 25u32 == v,
        (r & 0xfff00000 == 0 && v <= 0xfff) ==> ((r | ((v << 20u32) & 0xfff00000)) & 0xfff00000) >> 20u32 == v,
        (r & 0xfffff000 == 0 && v <= 0xfffff) ==> ((r | ((v << 12u32) & 0xfffff000)) & 0xfffff000) >> 12u32 == v,
{
}

/// Packing under one mask leaves the bits under a disjoint mask alone.
proof fn lemma_pack_keeps_others(r: u32, x: u32, m: u32, m2: u32)
    by (bit_vector)
    requires
        m & m2 == 0,
    ensures
        (r | (x & m)) & m2 == r & m2,
{
}

/// A word that fits the opcode field has no bit under a mask that is
/// disjoint from that field.
proof fn lemma_opcode_leaves_empty(c: u32, m: u32)
    by (bit_vector)
    requires
        c & 0x7f == c,
        m & 0x7f == 0,
    ensures
        c & m == 0,
{
}

/// Two different fields of one format share no bit.
pub proof fn lemma_parts_disjoint(f: Format, p: Part, q: Part)
    requires
        f.has(p),
        f.has(q),
        p != q,
    ensures
        p.mask_spec() & q.mask_spec() == 0,
{
    lemma_mask_table();
}

/// The largest value of a field is its mask brought down by its shift.
pub proof fn lemma_max_value(p: Part)
    ensures
        p.max_value() == p.mask_spec() >> p.shift_spec(),
{
    lemma_mask_table();
}

/// What `assemble` has built: the opcode is in place, the fields that were
/// not packed are empty, and each packed field holds its value.
proof fn lemma_assemble(op: Operation, fields: Seq<(Part, u32)>)
    requires
        valid_fields(op, fields),
    ensures
        assemble(op, fields) & 0x7f == op.code_spec(),
        forall|q: Part|
            op.format_spec().has(q) && q != Part::Opcode && (forall|i: int|
                0 <= i < fields.len() ==> (#[trigger] fields[i]).0 != q) ==> assemble(op, fields)
                & #[trigger] q.mask_spec() == 0,
        forall|i: int|
            0 <= i < fields.len() ==> (#[trigger] fields[i]).0.value_spec(assemble(op, fields))
                == fields[i].1,
    decreases fields.len(),
{
    let f = op.format_spec();
    let word = assemble(op, fields);
    lemma_mask_table();
    assert(f.has(Part::Opcode));
    if fields.len() == 0 {
        assert forall|q: Part| f.has(q) && q != Part::Opcode implies word & #[trigger] q.mask_spec()
            == 0 by {
            lemma_parts_disjoint(f, q, Part::Opcode);
            lemma_opcode_leaves_empty(word, q.mask_spec());
        }
    } else {
        let before = fields.drop_last();
        let p = fields.last().0;
        let v = fields.last().1;
        let prev = assemble(op, before);
        let x = v << p.shift_spec();
        assert(word == prev | (x & p.mask_spec()));
        assert(valid_fields(op, before)) by {
            assert forall|i: int| 0 <= i < before.len() implies (#[trigger] before[i]).0
                != Part::Opcode && f.has(before[i].0) && before[i].1 <= before[i].0.max_value() by {
                assert(before[i] == fields[i]);
            }
            assert forall|i: int, j: int| 0 <= i < j < before.len() implies (#[trigger] before[i]).0
                != (#[trigger] before[j]).0 by {
                assert(before[i] == fields[i]);
                assert(before[j] == fields[j]);
            }
        }
        lemma_assemble(op, before);
        // the opcode stays
        lemma_parts_disjoint(f, p, Part::Opcode);
        lemma_pack_keeps_others(prev, x, p.mask_spec(), 0x7f);
        // fields that are still unpacked stay empty
        assert forall|q: Part|
            f.has(q) && q != Part::Opcode && (forall|i: int|
                0 <= i < fields.len() ==> (#[trigger] fields[i]).0 != q) implies word
            & #[trigger] q.mask_spec() == 0 by {
            assert(fields[fields.len() - 1].0 != q);
            assert forall|i: int| 0 <= i < before.len() implies (#[trigger] before[i]).0 != q by {
                assert(before[i] == fields[i]);
            }
            lemma_parts_disjoint(f, p, q);
            lemma_pack_keeps_others(prev, x, p.mask_spec(), q.mask_spec());
        }
        // each packed field holds its value
        assert forall|i: int| 0 <= i < fields.len() implies (#[trigger] fields[i]).0.value_spec(
            word,
        ) == fields[i].1 by {
            if i < before.len() {
                let q = fields[i].0;
                assert(before[i] == fields[i]);
                assert(fields[fields.len() - 1].0 != q);
                lemma_parts_disjoint(f, p, q);
                lemma_pack_keeps_others(prev, x, p.mask_spec(), q.mask_spec());
                assert(q.value_spec(prev) == fields[i].1);
            } else {
                assert forall|k: int| 0 <= k < before.len() implies (#[trigger] before[k]).0
                    != p by {
                    assert(before[k] == fields[k]);
                }
                assert(prev & p.mask_spec() == 0);
                lemma_pack_then_extract(prev, v);
            }
        }
    }
}

/// Encoding round trip: an instruction put together from the opcode of `op`
/// and from fields of its format, each with a value that fits the field,
/// decodes to `op`, and each of those fields reads back its value.
pub proof fn lemma_encoding_round_trip(op: Operation, fields: Seq<(Part, u32)>, k: int)
    requires
        valid_fields(op, fields),
        0 <= k < fields.len(),
    ensures
        decode_operation(assemble(op, fields)) == Some(op),
        (Instruction { opcode: op, raw: assemble(op, fields) }).field(fields[k].0) == Some(
            fields[k].1,
        ),
        (Instruction { opcode: op, raw: assemble(op, fields) }).field(Part::Opcode) == Some(
            op.code_spec(),
        ),
{
    lemma_assemble(op, fields);
    lemma_mask_table();
    lemma_decode_code(op, assemble(op, fields));
    assert(op.format_spec().has(Part::Opcode));
    let low = assemble(op, fields) & 0x7f;
    assert(low >> 0u32 == low) by (bit_vector);
}

impl Builder {
    /// A builder that starts from the word `raw`.
    pub fn new(raw: u32) -> (b: Self)
        ensures
            b@ == raw,
    {
        Builder { raw }
    }

    /// A builder that starts from the opcode bits of `code`.
    pub fn opcode(code: Operation) -> (b: Self)
        ensures
            b@ == code.code_spec(),
    {
        Builder::new(code.code())
    }

    /// A builder with `data` packed into the field `part`, over what the
    /// word already holds.
    pub fn pack(&self, part: Part, data: u32) -> (b: Self)
        ensures
            b@ == pack_into(self@, part, data),
    {
        let packed: u32 = data << part.shift();
        let masked: u32 = packed & part.mask();
        Builder::new(self.raw | masked)
    }

    /// The word built so far.
    pub fn build(&self) -> (raw: u32)
        ensures
            raw == self@,
    {
        self.raw
    }
}

} // verus!
