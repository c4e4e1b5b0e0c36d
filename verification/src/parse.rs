//! Parsers for the two IDX block shapes used by MNIST: a 2-D image block and
//! a 1-D label block. Both work on a byte slice holding the whole file and
//! fail on truncation rather than returning a partial result.

use vstd::prelude::*;

verus! {

/// The value of the big-endian 32-bit field starting at byte `i` of `data`.
pub open spec fn be_u32_at(data: Seq<u8>, i: int) -> int {
    data[i] * 0x100_0000 + data[i + 1] * 0x1_0000 + data[i + 2] * 0x100 + data[i + 3]
}

/// Reads the big-endian 32-bit field starting at byte `i` of `data`.
fn read_be_u32(data: &[u8], i: usize) -> (r: u32)
    requires
        i + 4 <= data@.len(),
    ensures
        r == be_u32_at(data@, i as int),
{
    // Pins the slice's length to a usize, so the index sums below cannot wrap.
    let _n = data.len();
    let b0 = *vstd::slice::slice_index_get(data, i);
    let b1 = *vstd::slice::slice_index_get(data, i + 1);
    let b2 = *vstd::slice::slice_index_get(data, i + 2);
    let b3 = *vstd::slice::slice_index_get(data, i + 3);
    (b0 as u32) * 0x100_0000 + (b1 as u32) * 0x1_0000 + (b2 as u32) * 0x100 + (b3 as u32)
}

/// Why a block could not be parsed: the bytes ran out inside the header, or
/// inside the payload that the header's item count declares. A short file is
/// corruption; no partial result is ever returned.
#[derive(Clone, Copy, Debug, PartialEq, Eq, Structural)]
pub enum ParseError {
    TruncatedHeader,
    TruncatedPayload,
}

/// The magic number a label block declares.
pub open spec fn labels_magic(data: Seq<u8>) -> int {
    be_u32_at(data, 0)
}

/// The item count a label block declares.
pub open spec fn labels_count(data: Seq<u8>) -> int {
    be_u32_at(data, 4)
}

/// Whether `data` holds a whole label block: the 8-byte header and one byte
/// per declared item. Trailing bytes beyond the payload are tolerated.
pub open spec fn labels_complete(data: Seq<u8>) -> bool {
    &&& data.len() >= 8
    &&& data.len() >= 8 + labels_count(data)
}

/// The payload of a label block: the `labels_count` bytes after the header.
pub open spec fn labels_payload(data: Seq<u8>) -> Seq<u8> {
    data.subrange(8, 8 + labels_count(data))
}

/// Parses a label block: an 8-byte header of two big-endian 32-bit fields
/// (magic number, item count), then one class byte per item. Returns the two
/// header fields and the labels in file order; fails, returning no labels at
/// all, when the bytes run out before the declared payload ends.
pub fn parse_labels(data: &[u8]) -> (r: Result<(usize, usize, Vec<u8>), ParseError>)
    ensures
        match r {
            Ok(parsed) => {
                &&& labels_complete(data@)
                &&& parsed.0 == labels_magic(data@)
                &&& parsed.1 == labels_count(data@)
                &&& parsed.2@ == labels_payload(data@)
            },
            Err(ParseError::TruncatedHeader) => data@.len() < 8,
            Err(ParseError::TruncatedPayload) => data@.len() >= 8 && !labels_complete(data@),
        },
{
    let n = data.len();
    if n < 8 {
        return Err(ParseError::TruncatedHeader);
    }
    let magic_number = read_be_u32(data, 0) as usize;
    let num_labels = read_be_u32(data, 4) as usize;
    if n - 8 < num_labels {
        return Err(ParseError::TruncatedPayload);
    }
    let labels = vstd::slice::slice_to_vec(vstd::slice::slice_subrange(data, 8, 8 + num_labels));
    Ok((magic_number, num_labels, labels))
}

/// Law: the parser invents no label values. The labels it returns are
/// exactly the payload bytes of the file, so when every payload byte is a
/// digit class in [0, 9] — as in a genuine MNIST file — every parsed label
/// is in [0, 9] too.
pub proof fn lemma_labels_in_class_range(data: Seq<u8>, labels: Seq<u8>)
    requires
        labels_complete(data),
        labels == labels_payload(data),
        forall|i: int| 8 <= i < data.len() ==> data[i] <= 9,
    ensures
        forall|i: int| 0 <= i < labels.len() ==> labels[i] <= 9,
{
    assert forall|i: int| 0 <= i < labels.len() implies labels[i] <= 9 by {
        assert(labels[i] == data[8 + i]);
    }
}

/// A parsed image block: the four header fields as the file declared them,
/// plus the images in file order, each `num_rows * num_cols` pixel bytes.
/// Whether the fields match the MNIST constants is the loader's business,
/// not the parser's.
pub struct MnistImages {
    pub magic_number: usize,
    pub num_images: usize,
    pub num_rows: usize,
    pub num_cols: usize,
    pub images: Vec<Vec<u8>>,
}

/// The magic number an image block declares.
pub open spec fn images_magic(data: Seq<u8>) -> int {
    be_u32_at(data, 0)
}

/// The item count an image block declares.
pub open spec fn images_count(data: Seq<u8>) -> int {
    be_u32_at(data, 4)
}

/// The row count an image block declares.
pub open spec fn images_rows(data: Seq<u8>) -> int {
    be_u32_at(data, 8)
}

/// The column count an image block declares.
pub open spec fn images_cols(data: Seq<u8>) -> int {
    be_u32_at(data, 12)
}

/// Bytes per image in an image block: declared rows times declared columns.
pub open spec fn image_size(data: Seq<u8>) -> int {
    images_rows(data) * images_cols(data)
}

/// Whether `data` holds a whole image block: the 16-byte header and one
/// `image_size` payload block per declared item. Trailing bytes beyond the
/// payload are tolerated.
pub open spec fn images_complete(data: Seq<u8>) -> bool {
    &&& data.len() >= 16
    &&& data.len() >= 16 + images_count(data) * image_size(data)
}

/// The pixel bytes of image `i` of an image block.
pub open spec fn image_at(data: Seq<u8>, i: int) -> Seq<u8> {
    data.subrange(16 + i * image_size(data), 16 + (i + 1) * image_size(data))
}

/// Parses an image block: a 16-byte header of four big-endian 32-bit fields
/// (magic number, item count, rows, columns), then `item count` consecutive
/// blocks of `rows * columns` pixel bytes, each block one image. Returns the
/// header fields and the images in file order; fails, returning no images at
/// all, when the bytes run out before the declared payload ends.
pub fn parse_images(data: &[u8]) -> (r: Result<MnistImages, ParseError>)
    ensures
        match r {
            Ok(block) => {
                &&& images_complete(data@)
                &&& block.magic_number == images_magic(data@)
                &&& block.num_images == images_count(data@)
                &&& block.num_rows == images_rows(data@)
                &&& block.num_cols == images_cols(data@)
                &&& block.images@.len() == images_count(data@)
                &&& forall|i: int|
                    0 <= i < block.images@.len() ==> (#[trigger] block.images@[i])@
                        == image_at(data@, i)
                &&& forall|i: int|
                    0 <= i < block.images@.len() ==> (#[trigger] block.images@[i])@.len()
                        == image_size(data@)
            },
            Err(ParseError::TruncatedHeader) => data@.len() < 16,
            Err(ParseError::TruncatedPayload) => data@.len() >= 16 && !images_complete(data@),
        },
{
    let n = data.len();
    if n < 16 {
        return Err(ParseError::TruncatedHeader);
    }
    let magic_number = read_be_u32(data, 0) as usize;
    let count_field = read_be_u32(data, 4);
    let rows_field = read_be_u32(data, 8);
    let cols_field = read_be_u32(data, 12);
    let num_images = count_field as usize;
    let num_rows = rows_field as usize;
    let num_cols = cols_field as usize;

    // The declared payload size, computed wide enough that it cannot wrap:
    // rows * cols < 2^64 and count * rows * cols < 2^96.
    proof {
        vstd::arithmetic::mul::lemma_mul_upper_bound(
            rows_field as int,
            u32::MAX as int,
            cols_field as int,
            u32::MAX as int,
        );
    }
    let block_size: u64 = (rows_field as u64) * (cols_field as u64);
    assert(block_size == image_size(data@)) by (nonlinear_arith)
        requires
            block_size == (rows_field as u64) * (cols_field as u64),
            rows_field == images_rows(data@),
            cols_field == images_cols(data@),
            rows_field <= u32::MAX,
            cols_field <= u32::MAX,
    ;
    proof {
        vstd::arithmetic::mul::lemma_mul_upper_bound(
            count_field as int,
            u32::MAX as int,
            block_size as int,
            u64::MAX as int,
        );
    }
    let payload: u128 = (count_field as u128) * (block_size as u128);
    assert(payload == images_count(data@) * image_size(data@)) by (nonlinear_arith)
        requires
            payload == (count_field as u128) * (block_size as u128),
            count_field == images_count(data@),
            block_size == image_size(data@),
            count_field <= u32::MAX,
            block_size <= u64::MAX,
    ;
    if ((n - 16) as u128) < payload {
        return Err(ParseError::TruncatedPayload);
    }

    let mut images: Vec<Vec<u8>> = Vec::new();
    if num_images == 0 {
        return Ok(
            MnistImages { magic_number, num_images, num_rows, num_cols, images },
        );
    }

    // One image fits in the payload, so its size fits in usize.
    proof {
        vstd::arithmetic::mul::lemma_mul_inequality(1, num_images as int, block_size as int);
    }
    let img_size = block_size as usize;
    let mut offset: usize = 16;
    for i in 0..num_images
        invariant
            n == data@.len(),
            16 + num_images * img_size <= n,
            img_size == image_size(data@),
            offset == 16 + i * img_size,
            images@.len() == i,
            forall|j: int| 0 <= j < i ==> (#[trigger] images@[j])@ == image_at(data@, j),
            forall|j: int| 0 <= j < i ==> (#[trigger] images@[j])@.len() == img_size,
    {
        proof {
            vstd::arithmetic::mul::lemma_mul_inequality(
                i + 1,
                num_images as int,
                img_size as int,
            );
            vstd::arithmetic::mul::lemma_mul_is_distributive_add_other_way(
                img_size as int,
                i as int,
                1,
            );
        }
        let img = vstd::slice::slice_to_vec(
            vstd::slice::slice_subrange(data, offset, offset + img_size),
        );
        images.push(img);
        offset = offset + img_size;
    }
    Ok(MnistImages { magic_number, num_images, num_rows, num_cols, images })
}

} // verus!
