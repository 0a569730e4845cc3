//! The parameter record and its packed layout.
//!
//! One record carries every per-draw-call input. It is serialized into a byte
//! buffer so that each field starts at a multiple of its required alignment:
//! booleans and enum tags as 4-byte-aligned 32-bit words, two-component
//! vectors 8-byte aligned, matrices 16-byte aligned with 3x3 matrices emitted
//! as three 16-byte columns. Scalar fields that denote single-precision
//! values hold their IEEE 754 bit pattern and are written out verbatim, so
//! the packed bytes match what the shader reads.
//!
//! The writer tracks a running alignment watermark across the fields; the
//! padded total it returns is the fixed distance between consecutive records
//! in the shared buffer, once rounded up to the device's minimum uniform
//! offset alignment by [`stride`].

use vstd::prelude::*;
use crate::field::Field;
use crate::matrix::{Mat3, Mat4};
use crate::shared::pad;

verus! {

/// Byte offset of each field within a packed record.
pub const OFF_BACK_READ: usize = 0;
pub const OFF_COLOR: usize = 16;
pub const OFF_COORDINATES: usize = 80;
pub const OFF_FIELD: usize = 84;
pub const OFF_FILTERS: usize = 88;
pub const OFF_FIT: usize = 92;
pub const OFF_FREQUENCY_RANGE: usize = 96;
pub const OFF_FRONT_OFFSET: usize = 104;
pub const OFF_FRONT_READ: usize = 112;
pub const OFF_GAIN: usize = 116;
pub const OFF_INDEX: usize = 120;
pub const OFF_OFFSET: usize = 128;
pub const OFF_POSITION: usize = 144;
pub const OFF_REPEAT: usize = 192;
pub const OFF_RESOLUTION: usize = 200;
pub const OFF_RMS: usize = 208;
pub const OFF_SAMPLE_RANGE: usize = 212;
pub const OFF_TILING: usize = 216;
pub const OFF_WRAP: usize = 220;

/// Total padded size of one packed record.
pub const RECORD_SIZE: usize = 224;

/// The little-endian bytes of a 32-bit word.
pub open spec fn le_bytes(v: u32) -> Seq<u8> {
    seq![
        (v & 0xff) as u8,
        ((v >> 8) & 0xff) as u8,
        ((v >> 16) & 0xff) as u8,
        ((v >> 24) & 0xff) as u8,
    ]
}

/// The 32-bit word denoted by four little-endian bytes.
pub open spec fn u32_of_le(b0: u8, b1: u8, b2: u8, b3: u8) -> u32 {
    (b0 as u32) | ((b1 as u32) << 8) | ((b2 as u32) << 16) | ((b3 as u32) << 24)
}

/// The word read back from buffer `b` at byte offset `at`.
pub open spec fn spec_read_u32(b: Seq<u8>, at: int) -> u32 {
    u32_of_le(b[at], b[at + 1], b[at + 2], b[at + 3])
}

/// Buffer `b` holds the little-endian bytes of `v` at offset `at`.
pub open spec fn word_at(b: Seq<u8>, at: int, v: u32) -> bool {
    forall|i: int| 0 <= i < 4 ==> b[at + i] == le_bytes(v)[i]
}

/// The 32-bit word a boolean is serialized as.
pub open spec fn bool_bits(b: bool) -> u32 {
    if b {
        1
    } else {
        0
    }
}

/// Reassembling the little-endian bytes of a word yields the word: the
/// round-trip law for one serialized cell.
pub proof fn lemma_le_roundtrip(v: u32)
    ensures
        u32_of_le(le_bytes(v)[0], le_bytes(v)[1], le_bytes(v)[2], le_bytes(v)[3]) == v,
{
    assert(((v & 0xff) as u8 as u32) | (((v >> 8) & 0xff) as u8 as u32) << 8 | (((v >> 16)
        & 0xff) as u8 as u32) << 16 | (((v >> 24) & 0xff) as u8 as u32) << 24 == v)
        by (bit_vector);
}

/// A word held at `at` reads back as itself.
pub proof fn lemma_word_read(b: Seq<u8>, at: int, v: u32)
    requires
        word_at(b, at, v),
    ensures
        spec_read_u32(b, at) == v,
{
    assert(b[at] == le_bytes(v)[0]);
    assert(b[at + 1] == le_bytes(v)[1]);
    assert(b[at + 2] == le_bytes(v)[2]);
    assert(b[at + 3] == le_bytes(v)[3]);
    lemma_le_roundtrip(v);
}

/// Write `v` at byte offset `at` in little-endian order.
pub fn write_u32_le(dst: &mut Vec<u8>, at: usize, v: u32)
    requires
        at + 4 <= old(dst).len(),
    ensures
        final(dst).len() == old(dst).len(),
        word_at(final(dst)@, at as int, v),
        forall|j: int|
            0 <= j < old(dst).len() && !(at <= j < at + 4) ==> final(dst)@[j] == old(dst)@[j],
{
    proof {
        assert(v & 0xff < 256 && (v >> 8) & 0xff < 256 && (v >> 16) & 0xff < 256 && (v >> 24)
            & 0xff < 256) by (bit_vector);
    }
    dst.set(at, (v & 0xff) as u8);
    dst.set(at + 1, ((v >> 8) & 0xff) as u8);
    dst.set(at + 2, ((v >> 16) & 0xff) as u8);
    dst.set(at + 3, ((v >> 24) & 0xff) as u8);
}

/// Read the word at byte offset `at`.
pub fn read_u32_le(src: &Vec<u8>, at: usize) -> (r: u32)
    requires
        at + 4 <= src.len(),
    ensures
        r == spec_read_u32(src@, at as int),
{
    let b0 = src[at] as u32;
    let b1 = src[at + 1] as u32;
    let b2 = src[at + 2] as u32;
    let b3 = src[at + 3] as u32;
    proof {
        let v0 = src@[at as int] as u32;
        let v1 = src@[at as int + 1] as u32;
        let v2 = src@[at as int + 2] as u32;
        let v3 = src@[at as int + 3] as u32;
        assert(v1 << 8 <= u32::MAX && v2 << 16 <= u32::MAX && v3 << 24 <= u32::MAX)
            by (bit_vector)
            requires
                v1 < 256,
                v2 < 256,
                v3 < 256,
        ;
    }
    b0 | (b1 << 8) | (b2 << 16) | (b3 << 24)
}

fn write_bool_le(dst: &mut Vec<u8>, at: usize, b: bool)
    requires
        at + 4 <= old(dst).len(),
    ensures
        final(dst).len() == old(dst).len(),
        word_at(final(dst)@, at as int, bool_bits(b)),
        forall|j: int|
            0 <= j < old(dst).len() && !(at <= j < at + 4) ==> final(dst)@[j] == old(dst)@[j],
{
    write_u32_le(dst, at, if b { 1 } else { 0 });
}

/// The byte position of matrix entry `e` (column-major) within a packed 3x3
/// matrix, whose columns each occupy one 16-byte slot.
pub open spec fn mat3_entry_off(e: int) -> int {
    16 * (e / 3) + 4 * (e % 3)
}

fn write_mat3_le(dst: &mut Vec<u8>, at: usize, m: &Mat3)
    requires
        at + 48 <= old(dst).len(),
    ensures
        final(dst).len() == old(dst).len(),
        forall|e: int| 0 <= e < 9 ==> word_at(final(dst)@, at + mat3_entry_off(e), m.entries@[e]),
        forall|j: int|
            0 <= j < old(dst).len() && !(at <= j < at + 48) ==> final(dst)@[j] == old(dst)@[j],
{
    let mut c: usize = 0;
    while c < 3
        invariant
            at + 48 <= old(dst).len(),
            dst.len() == old(dst).len(),
            c <= 3,
            forall|e: int|
                0 <= e < 3 * c ==> word_at(dst@, at + mat3_entry_off(e), m.entries@[e]),
            forall|j: int|
                0 <= j < old(dst).len() && !(at <= j < at + 16 * c) ==> dst@[j] == old(dst)@[j],
        decreases 3 - c,
    {
        let column = at + 16 * c;
        write_u32_le(dst, column, m.entries[3 * c]);
        write_u32_le(dst, column + 4, m.entries[3 * c + 1]);
        write_u32_le(dst, column + 8, m.entries[3 * c + 2]);
        proof {
            assert forall|e: int| 0 <= e < 3 * (c + 1) implies word_at(
                dst@,
                at + mat3_entry_off(e),
                m.entries@[e],
            ) by {
                assert(mat3_entry_off(e) == 16 * (e / 3) + 4 * (e % 3));
            }
        }
        c += 1;
    }
}

fn write_mat4_le(dst: &mut Vec<u8>, at: usize, m: &Mat4)
    requires
        at + 64 <= old(dst).len(),
    ensures
        final(dst).len() == old(dst).len(),
        forall|e: int| 0 <= e < 16 ==> word_at(final(dst)@, at + 4 * e, m.entries@[e]),
        forall|j: int|
            0 <= j < old(dst).len() && !(at <= j < at + 64) ==> final(dst)@[j] == old(dst)@[j],
{
    let mut e: usize = 0;
    while e < 16
        invariant
            at + 64 <= old(dst).len(),
            dst.len() == old(dst).len(),
            e <= 16,
            forall|k: int| 0 <= k < e ==> word_at(dst@, at + 4 * k, m.entries@[k]),
            forall|j: int|
                0 <= j < old(dst).len() && !(at <= j < at + 4 * e) ==> dst@[j] == old(dst)@[j],
        decreases 16 - e,
    {
        write_u32_le(dst, at + 4 * e, m.entries[e]);
        e += 1;
    }
}

/// One draw call's parameters. Fields documented as bit patterns hold the
/// IEEE 754 single-precision encoding of the value they denote; the packer
/// copies them into the record unchanged.
#[derive(Clone, Copy, Debug)]
pub struct Uniforms {
    /// Whether the back ping-pong target holds valid pixels.
    pub back_read: bool,
    /// Color transform (bit patterns).
    pub color: Mat4,
    /// Show the coordinate grid instead of a pattern.
    pub coordinates: bool,
    /// Which pattern branch the shader evaluates.
    pub field: Field,
    /// Length of the filter chain this frame.
    pub filters: u32,
    /// Letterbox rather than crop when compositing to the surface.
    pub fit: bool,
    /// Fraction of the spectrum texture holding fresh data (bit pattern).
    pub frequency_range: u32,
    /// Grid cell written by the previous filter, as column and row counts.
    pub front_offset: (u32, u32),
    /// Whether the front ping-pong target holds valid pixels.
    pub front_read: bool,
    /// Linear gain applied to the signal textures (bit pattern).
    pub gain: u32,
    /// Index of this record's draw call within the frame.
    pub index: u32,
    /// Top-left pixel of this pass's grid cell.
    pub offset: (u32, u32),
    /// Position transform (bit patterns).
    pub position: Mat3,
    /// Sample with wrap rather than clamp addressing in the final composite.
    pub repeat: bool,
    /// Pixel size of the viewport this pass renders at.
    pub resolution: (u32, u32),
    /// Smoothed loudness estimate (bit pattern).
    pub rms: u32,
    /// Fraction of the sample texture holding fresh data (bit pattern).
    pub sample_range: u32,
    /// Cells per grid edge this frame (1 when tiling is disabled).
    pub tiling: u32,
    /// Wrap rather than clamp when this pass samples its source.
    pub wrap: bool,
}

impl Uniforms {
    /// Buffer `b` holds this record's packed bytes at offset `base`.
    pub open spec fn spec_record_ok(self, b: Seq<u8>, base: int) -> bool {
        &&& word_at(b, base + OFF_BACK_READ, bool_bits(self.back_read))
        &&& forall|e: int|
            0 <= e < 16 ==> word_at(b, base + OFF_COLOR + 4 * e, self.color.entries@[e])
        &&& word_at(b, base + OFF_COORDINATES, bool_bits(self.coordinates))
        &&& word_at(b, base + OFF_FIELD, self.field.spec_tag())
        &&& word_at(b, base + OFF_FILTERS, self.filters)
        &&& word_at(b, base + OFF_FIT, bool_bits(self.fit))
        &&& word_at(b, base + OFF_FREQUENCY_RANGE, self.frequency_range)
        &&& word_at(b, base + OFF_FRONT_OFFSET, self.front_offset.0)
        &&& word_at(b, base + OFF_FRONT_OFFSET + 4, self.front_offset.1)
        &&& word_at(b, base + OFF_FRONT_READ, bool_bits(self.front_read))
        &&& word_at(b, base + OFF_GAIN, self.gain)
        &&& word_at(b, base + OFF_INDEX, self.index)
        &&& word_at(b, base + OFF_OFFSET, self.offset.0)
        &&& word_at(b, base + OFF_OFFSET + 4, self.offset.1)
        &&& forall|e: int|
            0 <= e < 9 ==> word_at(
                b,
                base + OFF_POSITION + mat3_entry_off(e),
                self.position.entries@[e],
            )
        &&& word_at(b, base + OFF_REPEAT, bool_bits(self.repeat))
        &&& word_at(b, base + OFF_RESOLUTION, self.resolution.0)
        &&& word_at(b, base + OFF_RESOLUTION + 4, self.resolution.1)
        &&& word_at(b, base + OFF_RMS, self.rms)
        &&& word_at(b, base + OFF_SAMPLE_RANGE, self.sample_range)
        &&& word_at(b, base + OFF_TILING, self.tiling)
        &&& word_at(b, base + OFF_WRAP, bool_bits(self.wrap))
    }

    /// Serialize this record into `dst` at offset `base`, each field at a
    /// multiple of its alignment, and return the padded record size. The
    /// running watermark `a` tracks the largest alignment seen so far.
    #[verifier::rlimit(100)]
    pub fn write(&self, dst: &mut Vec<u8>, base: usize) -> (size: usize)
        requires
            base + RECORD_SIZE <= old(dst).len(),
        ensures
            final(dst).len() == old(dst).len(),
            self.spec_record_ok(final(dst)@, base as int),
            forall|j: int|
                0 <= j < old(dst).len() && !(base <= j < base + RECORD_SIZE) ==> final(dst)@[j]
                    == old(dst)@[j],
            size == RECORD_SIZE,
    {
        let mut i: usize = 0;
        let mut a: usize = 4;

        let start = pad(i, 4);
        write_bool_le(dst, base + start, self.back_read);
        i = start + 4;

        a = if a < 16 { 16 } else { a };
        let start = pad(i, 16);
        assert(start == OFF_COLOR);
        write_mat4_le(dst, base + start, &self.color);
        i = start + 64;

        let start = pad(i, 4);
        assert(start == OFF_COORDINATES);
        write_bool_le(dst, base + start, self.coordinates);
        i = start + 4;

        let start = pad(i, 4);
        assert(start == OFF_FIELD);
        write_u32_le(dst, base + start, self.field.tag());
        i = start + 4;

        let start = pad(i, 4);
        assert(start == OFF_FILTERS);
        write_u32_le(dst, base + start, self.filters);
        i = start + 4;

        let start = pad(i, 4);
        assert(start == OFF_FIT);
        write_bool_le(dst, base + start, self.fit);
        i = start + 4;

        let start = pad(i, 4);
        assert(start == OFF_FREQUENCY_RANGE);
        write_u32_le(dst, base + start, self.frequency_range);
        i = start + 4;

        a = if a < 8 { 8 } else { a };
        let start = pad(i, 8);
        assert(start == OFF_FRONT_OFFSET);
        write_u32_le(dst, base + start, self.front_offset.0);
        write_u32_le(dst, base + start + 4, self.front_offset.1);
        i = start + 8;

        let start = pad(i, 4);
        assert(start == OFF_FRONT_READ);
        write_bool_le(dst, base + start, self.front_read);
        i = start + 4;

        let start = pad(i, 4);
        assert(start == OFF_GAIN);
        write_u32_le(dst, base + start, self.gain);
        i = start + 4;

        let start = pad(i, 4);
        assert(start == OFF_INDEX);
        write_u32_le(dst, base + start, self.index);
        i = start + 4;

        let start = pad(i, 8);
        assert(start == OFF_OFFSET);
        write_u32_le(dst, base + start, self.offset.0);
        write_u32_le(dst, base + start + 4, self.offset.1);
        i = start + 8;

        let start = pad(i, 16);
        assert(start == OFF_POSITION);
        write_mat3_le(dst, base + start, &self.position);
        i = start + 48;

        let start = pad(i, 4);
        assert(start == OFF_REPEAT);
        write_bool_le(dst, base + start, self.repeat);
        i = start + 4;

        let start = pad(i, 8);
        assert(start == OFF_RESOLUTION);
        write_u32_le(dst, base + start, self.resolution.0);
        write_u32_le(dst, base + start + 4, self.resolution.1);
        i = start + 8;

        let start = pad(i, 4);
        assert(start == OFF_RMS);
        write_u32_le(dst, base + start, self.rms);
        i = start + 4;

        let start = pad(i, 4);
        assert(start == OFF_SAMPLE_RANGE);
        write_u32_le(dst, base + start, self.sample_range);
        i = start + 4;

        let start = pad(i, 4);
        assert(start == OFF_TILING);
        write_u32_le(dst, base + start, self.tiling);
        i = start + 4;

        let start = pad(i, 4);
        assert(start == OFF_WRAP);
        write_bool_le(dst, base + start, self.wrap);
        i = start + 4;

        pad(i, a)
    }
}

/// Packing a record and reading each word back at its computed offset yields
/// the original field values, for every field of every record: the
/// round-trip law of the packed layout.
pub proof fn lemma_record_roundtrip(u: Uniforms, b: Seq<u8>, base: int)
    requires
        u.spec_record_ok(b, base),
    ensures
        spec_read_u32(b, base + OFF_BACK_READ) == bool_bits(u.back_read),
        forall|e: int|
            0 <= e < 16 ==> spec_read_u32(b, base + OFF_COLOR + 4 * e) == u.color.entries@[e],
        spec_read_u32(b, base + OFF_COORDINATES) == bool_bits(u.coordinates),
        spec_read_u32(b, base + OFF_FIELD) == u.field.spec_tag(),
        spec_read_u32(b, base + OFF_FILTERS) == u.filters,
        spec_read_u32(b, base + OFF_FIT) == bool_bits(u.fit),
        spec_read_u32(b, base + OFF_FREQUENCY_RANGE) == u.frequency_range,
        spec_read_u32(b, base + OFF_FRONT_OFFSET) == u.front_offset.0,
        spec_read_u32(b, base + OFF_FRONT_OFFSET + 4) == u.front_offset.1,
        spec_read_u32(b, base + OFF_FRONT_READ) == bool_bits(u.front_read),
        spec_read_u32(b, base + OFF_GAIN) == u.gain,
        spec_read_u32(b, base + OFF_INDEX) == u.index,
        spec_read_u32(b, base + OFF_OFFSET) == u.offset.0,
        spec_read_u32(b, base + OFF_OFFSET + 4) == u.offset.1,
        forall|e: int|
            0 <= e < 9 ==> spec_read_u32(b, base + OFF_POSITION + mat3_entry_off(e))
                == u.position.entries@[e],
        spec_read_u32(b, base + OFF_REPEAT) == bool_bits(u.repeat),
        spec_read_u32(b, base + OFF_RESOLUTION) == u.resolution.0,
        spec_read_u32(b, base + OFF_RESOLUTION + 4) == u.resolution.1,
        spec_read_u32(b, base + OFF_RMS) == u.rms,
        spec_read_u32(b, base + OFF_SAMPLE_RANGE) == u.sample_range,
        spec_read_u32(b, base + OFF_TILING) == u.tiling,
        spec_read_u32(b, base + OFF_WRAP) == bool_bits(u.wrap),
{
    lemma_word_read(b, base + OFF_BACK_READ, bool_bits(u.back_read));
    assert forall|e: int| 0 <= e < 16 implies spec_read_u32(b, base + OFF_COLOR + 4 * e)
        == u.color.entries@[e] by {
        lemma_word_read(b, base + OFF_COLOR + 4 * e, u.color.entries@[e]);
    }
    lemma_word_read(b, base + OFF_COORDINATES, bool_bits(u.coordinates));
    lemma_word_read(b, base + OFF_FIELD, u.field.spec_tag());
    lemma_word_read(b, base + OFF_FILTERS, u.filters);
    lemma_word_read(b, base + OFF_FIT, bool_bits(u.fit));
    lemma_word_read(b, base + OFF_FREQUENCY_RANGE, u.frequency_range);
    lemma_word_read(b, base + OFF_FRONT_OFFSET, u.front_offset.0);
    lemma_word_read(b, base + OFF_FRONT_OFFSET + 4, u.front_offset.1);
    lemma_word_read(b, base + OFF_FRONT_READ, bool_bits(u.front_read));
    lemma_word_read(b, base + OFF_GAIN, u.gain);
    lemma_word_read(b, base + OFF_INDEX, u.index);
    lemma_word_read(b, base + OFF_OFFSET, u.offset.0);
    lemma_word_read(b, base + OFF_OFFSET + 4, u.offset.1);
    assert forall|e: int| 0 <= e < 9 implies spec_read_u32(b, base + OFF_POSITION
        + mat3_entry_off(e)) == u.position.entries@[e] by {
        lemma_word_read(b, base + OFF_POSITION + mat3_entry_off(e), u.position.entries@[e]);
    }
    lemma_word_read(b, base + OFF_REPEAT, bool_bits(u.repeat));
    lemma_word_read(b, base + OFF_RESOLUTION, u.resolution.0);
    lemma_word_read(b, base + OFF_RESOLUTION + 4, u.resolution.1);
    lemma_word_read(b, base + OFF_RMS, u.rms);
    lemma_word_read(b, base + OFF_SAMPLE_RANGE, u.sample_range);
    lemma_word_read(b, base + OFF_TILING, u.tiling);
    lemma_word_read(b, base + OFF_WRAP, bool_bits(u.wrap));
}

/// A packed record is untouched by writes elsewhere in the buffer.
pub proof fn lemma_record_ok_frame(u: Uniforms, b1: Seq<u8>, b2: Seq<u8>, base: int)
    requires
        u.spec_record_ok(b1, base),
        forall|j: int| base <= j < base + RECORD_SIZE ==> b2[j] == b1[j],
    ensures
        u.spec_record_ok(b2, base),
{
    assert forall|at: int, v: u32|
        base <= at && at + 4 <= base + RECORD_SIZE && word_at(b1, at, v) implies word_at(
        b2,
        at,
        v,
    ) by {
        assert forall|i: int| 0 <= i < 4 implies b2[at + i] == le_bytes(v)[i] by {
            assert(b2[at + i] == b1[at + i]);
        }
    }
    assert forall|e: int| 0 <= e < 16 implies word_at(
        b2,
        base + OFF_COLOR + 4 * e,
        u.color.entries@[e],
    ) by {
        assert(word_at(b1, base + OFF_COLOR + 4 * e, u.color.entries@[e]));
    }
    assert forall|e: int| 0 <= e < 9 implies word_at(
        b2,
        base + OFF_POSITION + mat3_entry_off(e),
        u.position.entries@[e],
    ) by {
        assert(0 <= e / 3 < 3 && 0 <= e % 3 < 3);
        assert(word_at(b1, base + OFF_POSITION + mat3_entry_off(e), u.position.entries@[e]));
    }
}

/// Round the padded record size up to the next multiple of the device's
/// minimum uniform-buffer offset alignment: the distance between records
/// used for indexed dynamic offsets.
pub fn stride(size: u32, alignment: u32) -> (r: u32)
    requires
        alignment > 0,
        size + alignment - 1 <= u32::MAX,
    ensures
        r % alignment == 0,
        size <= r < size + alignment,
{
    let padding = (alignment - size % alignment) % alignment;
    proof {
        let s = size as int;
        let al = alignment as int;
        assert((s + (al - s % al) % al) % al == 0) by (nonlinear_arith)
            requires
                al > 0,
        ;
    }
    size + padding
}

/// Serialize every record contiguously, record `r` at offset `r * stride`.
pub fn pack_records(records: &Vec<Uniforms>, stride: usize) -> (out: Vec<u8>)
    requires
        stride >= RECORD_SIZE,
        records.len() * stride <= usize::MAX,
    ensures
        out.len() == records.len() * stride,
        forall|r: int|
            0 <= r < records.len() ==> records@[r].spec_record_ok(out@, r * stride),
{
    let total = records.len() * stride;
    let mut out: Vec<u8> = Vec::new();
    while out.len() < total
        invariant
            out.len() <= total,
            total == records.len() * stride,
        decreases total - out.len(),
    {
        out.push(0);
    }

    let mut r: usize = 0;
    while r < records.len()
        invariant
            out.len() == records.len() * stride,
            stride >= RECORD_SIZE,
            r <= records.len(),
            forall|k: int| 0 <= k < r ==> records@[k].spec_record_ok(out@, k * stride),
        decreases records.len() - r,
    {
        proof {
            assert(r * stride + stride <= records.len() * stride && (r + 1) * stride == r * stride
                + stride) by (nonlinear_arith)
                requires
                    r < records.len(),
                    stride >= RECORD_SIZE,
            ;
        }
        let base = r * stride;
        let ghost before = out@;
        records[r].write(&mut out, base);
        proof {
            assert forall|k: int| 0 <= k < r + 1 implies records@[k].spec_record_ok(
                out@,
                k * stride,
            ) by {
                if k < r {
                    assert(k * stride >= 0 && k * stride + RECORD_SIZE <= (k + 1) * stride && (k
                        + 1) * stride <= r * stride) by (nonlinear_arith)
                        requires
                            0 <= k < r,
                            stride >= RECORD_SIZE,
                    ;
                    lemma_record_ok_frame(records@[k], before, out@, k * stride);
                }
            }
        }
        r += 1;
    }
    out
}

} // verus!
