//! The MNIST dataset: four parsed files cross-checked against the MNIST
//! constants and assembled into an immutable structure of paired images and
//! labels.

use vstd::prelude::*;

use crate::parse::image_at;
use crate::parse::images_cols;
use crate::parse::images_complete;
use crate::parse::images_count;
use crate::parse::images_magic;
use crate::parse::images_rows;
use crate::parse::labels_complete;
use crate::parse::labels_count;
use crate::parse::labels_magic;
use crate::parse::labels_payload;
use crate::parse::parse_images;
use crate::parse::parse_labels;
use crate::IMAGES_MAGIC_NUMBER;
use crate::IMAGE_COLUMNS;
use crate::IMAGE_ROWS;
use crate::LABELS_MAGIC_NUMBER;
use crate::NUM_TEST_IMAGES;
use crate::NUM_TRAIN_IMAGES;

verus! {

/// Which of the four dataset files an error is about.
#[derive(Clone, Copy, Debug, PartialEq, Eq, Structural)]
pub enum SourceFile {
    TrainImages,
    TrainLabels,
    TestImages,
    TestLabels,
}

/// Which header field failed validation.
#[derive(Clone, Copy, Debug, PartialEq, Eq, Structural)]
pub enum HeaderField {
    MagicNumber,
    ItemCount,
    RowCount,
    ColumnCount,
}

/// Why a load failed. Either a file's bytes ran out before the payload its
/// header declares (corruption), or a header field did not match the MNIST
/// constant expected of it. The mismatch names the file, the field, the
/// expected value and the actual value.
#[derive(Clone, Copy, Debug, PartialEq, Eq, Structural)]
pub enum MnistError {
    Truncated { file: SourceFile },
    HeaderMismatch { file: SourceFile, field: HeaderField, expected: usize, actual: usize },
}

/// Whether an image file's header carries the MNIST constants: the images
/// magic number, the expected item count for its partition, and 28 rows by
/// 28 columns.
pub open spec fn image_header_ok(data: Seq<u8>, expected_count: int) -> bool {
    &&& images_magic(data) == IMAGES_MAGIC_NUMBER
    &&& images_count(data) == expected_count
    &&& images_rows(data) == IMAGE_ROWS
    &&& images_cols(data) == IMAGE_COLUMNS
}

/// Whether a label file's header carries the MNIST constants: the labels
/// magic number and the expected item count for its partition.
pub open spec fn label_header_ok(data: Seq<u8>, expected_count: int) -> bool {
    &&& labels_magic(data) == LABELS_MAGIC_NUMBER
    &&& labels_count(data) == expected_count
}

/// Whether four files form a valid MNIST distribution: every file complete,
/// every header field equal to its MNIST constant. Exactly on such inputs
/// does the loader succeed.
pub open spec fn dataset_ok(ti: Seq<u8>, tl: Seq<u8>, si: Seq<u8>, sl: Seq<u8>) -> bool {
    &&& images_complete(ti) && image_header_ok(ti, NUM_TRAIN_IMAGES as int)
    &&& labels_complete(tl) && label_header_ok(tl, NUM_TRAIN_IMAGES as int)
    &&& images_complete(si) && image_header_ok(si, NUM_TEST_IMAGES as int)
    &&& labels_complete(sl) && label_header_ok(sl, NUM_TEST_IMAGES as int)
}

/// Whether a load error reports a failure the four inputs really have: a
/// `Truncated` error names a file that is in fact incomplete, and a
/// `HeaderMismatch` carries the named field's real value from the named file
/// beside the MNIST constant it was expected to equal.
pub open spec fn error_accurate(
    e: MnistError,
    ti: Seq<u8>,
    tl: Seq<u8>,
    si: Seq<u8>,
    sl: Seq<u8>,
) -> bool {
    match e {
        MnistError::Truncated { file } => match file {
            SourceFile::TrainImages => !images_complete(ti),
            SourceFile::TrainLabels => !labels_complete(tl),
            SourceFile::TestImages => !images_complete(si),
            SourceFile::TestLabels => !labels_complete(sl),
        },
        MnistError::HeaderMismatch { file, field, expected, actual } => {
            &&& expected != actual
            &&& match file {
                SourceFile::TrainImages => {
                    &&& images_complete(ti)
                    &&& match field {
                        HeaderField::MagicNumber => {
                            expected == IMAGES_MAGIC_NUMBER && actual == images_magic(ti)
                        },
                        HeaderField::ItemCount => {
                            expected == NUM_TRAIN_IMAGES && actual == images_count(ti)
                        },
                        HeaderField::RowCount => {
                            expected == IMAGE_ROWS && actual == images_rows(ti)
                        },
                        HeaderField::ColumnCount => {
                            expected == IMAGE_COLUMNS && actual == images_cols(ti)
                        },
                    }
                },
                SourceFile::TestImages => {
                    &&& images_complete(si)
                    &&& match field {
                        HeaderField::MagicNumber => {
                            expected == IMAGES_MAGIC_NUMBER && actual == images_magic(si)
                        },
                        HeaderField::ItemCount => {
                            expected == NUM_TEST_IMAGES && actual == images_count(si)
                        },
                        HeaderField::RowCount => {
                            expected == IMAGE_ROWS && actual == images_rows(si)
                        },
                        HeaderField::ColumnCount => {
                            expected == IMAGE_COLUMNS && actual == images_cols(si)
                        },
                    }
                },
                SourceFile::TrainLabels => {
                    &&& labels_complete(tl)
                    &&& match field {
                        HeaderField::MagicNumber => {
                            expected == LABELS_MAGIC_NUMBER && actual == labels_magic(tl)
                        },
                        HeaderField::ItemCount => {
                            expected == NUM_TRAIN_IMAGES && actual == labels_count(tl)
                        },
                        _ => false,
                    }
                },
                SourceFile::TestLabels => {
                    &&& labels_complete(sl)
                    &&& match field {
                        HeaderField::MagicNumber => {
                            expected == LABELS_MAGIC_NUMBER && actual == labels_magic(sl)
                        },
                        HeaderField::ItemCount => {
                            expected == NUM_TEST_IMAGES && actual == labels_count(sl)
                        },
                        _ => false,
                    }
                },
            }
        },
    }
}

/// Out-of-range index on an accessor: a caller bug, reported as its own type
/// so that it can never be confused with a load-time error. Carries the
/// index asked for and the partition's length.
#[derive(Clone, Copy, Debug, PartialEq, Eq, Structural)]
pub struct IndexOutOfRange {
    pub index: usize,
    pub len: usize,
}

/// The paired view of a partition: the sequence of (pixel bytes, label)
/// tuples at matching indices, in file order.
pub open spec fn pairs_view(images: Seq<Vec<u8>>, labels: Seq<u8>) -> Seq<(Seq<u8>, u8)> {
    Seq::new(images.len(), |i: int| (images[i]@, labels[i]))
}

/// The MNIST dataset in memory: two partitions, each a sequence of images
/// paired index-for-index with a sequence of labels. Built once by
/// [`Mnist::new`] and never mutated afterwards.
#[derive(Debug)]
pub struct Mnist {
    pub train_data: Vec<Vec<u8>>,
    pub test_data: Vec<Vec<u8>>,
    pub train_labels: Vec<u8>,
    pub test_labels: Vec<u8>,
}

impl Mnist {
    /// The dataset's invariant: each partition's images and labels have the
    /// same length, and every image is exactly 28 * 28 pixel bytes.
    pub open spec fn wf(self) -> bool {
        &&& self.train_data@.len() == self.train_labels@.len()
        &&& self.test_data@.len() == self.test_labels@.len()
        &&& forall|i: int|
            0 <= i < self.train_data@.len() ==> (#[trigger] self.train_data@[i])@.len()
                == IMAGE_ROWS * IMAGE_COLUMNS
        &&& forall|i: int|
            0 <= i < self.test_data@.len() ==> (#[trigger] self.test_data@[i])@.len()
                == IMAGE_ROWS * IMAGE_COLUMNS
    }

    /// Builds the dataset from the raw bytes of the four MNIST files. Each
    /// image file is parsed as an IDX image block and each label file as an
    /// IDX label block; every header field is then checked against its MNIST
    /// constant. Succeeds exactly when all four files are complete and every
    /// check passes; any failure is fatal and names what went wrong, and no
    /// partial dataset is ever returned.
    pub fn new(
        train_images: &[u8],
        train_labels: &[u8],
        test_images: &[u8],
        test_labels: &[u8],
    ) -> (r: Result<Mnist, MnistError>)
        ensures
            r is Ok <==> dataset_ok(train_images@, train_labels@, test_images@, test_labels@),
            match r {
                Ok(m) => {
                    &&& m.wf()
                    &&& m.train_data@.len() == NUM_TRAIN_IMAGES
                    &&& m.test_data@.len() == NUM_TEST_IMAGES
                    &&& forall|i: int|
                        0 <= i < m.train_data@.len() ==> (#[trigger] m.train_data@[i])@
                            == image_at(train_images@, i)
                    &&& forall|i: int|
                        0 <= i < m.test_data@.len() ==> (#[trigger] m.test_data@[i])@
                            == image_at(test_images@, i)
                    &&& m.train_labels@ == labels_payload(train_labels@)
                    &&& m.test_labels@ == labels_payload(test_labels@)
                },
                Err(e) => error_accurate(
                    e,
                    train_images@,
                    train_labels@,
                    test_images@,
                    test_labels@,
                ),
            },
    {
        // Training images.
        let train_block = match parse_images(train_images) {
            Ok(block) => block,
            Err(_) => {
                return Err(MnistError::Truncated { file: SourceFile::TrainImages });
            },
        };
        if train_block.magic_number != IMAGES_MAGIC_NUMBER {
            return Err(MnistError::HeaderMismatch {
                file: SourceFile::TrainImages,
                field: HeaderField::MagicNumber,
                expected: IMAGES_MAGIC_NUMBER,
                actual: train_block.magic_number,
            });
        }
        if train_block.num_images != NUM_TRAIN_IMAGES {
            return Err(MnistError::HeaderMismatch {
                file: SourceFile::TrainImages,
                field: HeaderField::ItemCount,
                expected: NUM_TRAIN_IMAGES,
                actual: train_block.num_images,
            });
        }
        if train_block.num_rows != IMAGE_ROWS {
            return Err(MnistError::HeaderMismatch {
                file: SourceFile::TrainImages,
                field: HeaderField::RowCount,
                expected: IMAGE_ROWS,
                actual: train_block.num_rows,
            });
        }
        if train_block.num_cols != IMAGE_COLUMNS {
            return Err(MnistError::HeaderMismatch {
                file: SourceFile::TrainImages,
                field: HeaderField::ColumnCount,
                expected: IMAGE_COLUMNS,
                actual: train_block.num_cols,
            });
        }

        // Test images.
        let test_block = match parse_images(test_images) {
            Ok(block) => block,
            Err(_) => {
                return Err(MnistError::Truncated { file: SourceFile::TestImages });
            },
        };
        if test_block.magic_number != IMAGES_MAGIC_NUMBER {
            return Err(MnistError::HeaderMismatch {
                file: SourceFile::TestImages,
                field: HeaderField::MagicNumber,
                expected: IMAGES_MAGIC_NUMBER,
                actual: test_block.magic_number,
            });
        }
        if test_block.num_images != NUM_TEST_IMAGES {
            return Err(MnistError::HeaderMismatch {
                file: SourceFile::TestImages,
                field: HeaderField::ItemCount,
                expected: NUM_TEST_IMAGES,
                actual: test_block.num_images,
            });
        }
        if test_block.num_rows != IMAGE_ROWS {
            return Err(MnistError::HeaderMismatch {
                file: SourceFile::TestImages,
                field: HeaderField::RowCount,
                expected: IMAGE_ROWS,
                actual: test_block.num_rows,
            });
        }
        if test_block.num_cols != IMAGE_COLUMNS {
            return Err(MnistError::HeaderMismatch {
                file: SourceFile::TestImages,
                field: HeaderField::ColumnCount,
                expected: IMAGE_COLUMNS,
                actual: test_block.num_cols,
            });
        }

        // Training labels.
        let (train_magic, train_count, train_label_vec) = match parse_labels(train_labels) {
            Ok(parsed) => parsed,
            Err(_) => {
                return Err(MnistError::Truncated { file: SourceFile::TrainLabels });
            },
        };
        if train_magic != LABELS_MAGIC_NUMBER {
            return Err(MnistError::HeaderMismatch {
                file: SourceFile::TrainLabels,
                field: HeaderField::MagicNumber,
                expected: LABELS_MAGIC_NUMBER,
                actual: train_magic,
            });
        }
        if train_count != NUM_TRAIN_IMAGES {
            return Err(MnistError::HeaderMismatch {
                file: SourceFile::TrainLabels,
                field: HeaderField::ItemCount,
                expected: NUM_TRAIN_IMAGES,
                actual: train_count,
            });
        }

        // Test labels.
        let (test_magic, test_count, test_label_vec) = match parse_labels(test_labels) {
            Ok(parsed) => parsed,
            Err(_) => {
                return Err(MnistError::Truncated { file: SourceFile::TestLabels });
            },
        };
        if test_magic != LABELS_MAGIC_NUMBER {
            return Err(MnistError::HeaderMismatch {
                file: SourceFile::TestLabels,
                field: HeaderField::MagicNumber,
                expected: LABELS_MAGIC_NUMBER,
                actual: test_magic,
            });
        }
        if test_count != NUM_TEST_IMAGES {
            return Err(MnistError::HeaderMismatch {
                file: SourceFile::TestLabels,
                field: HeaderField::ItemCount,
                expected: NUM_TEST_IMAGES,
                actual: test_count,
            });
        }

        Ok(
            Mnist {
                train_data: train_block.images,
                test_data: test_block.images,
                train_labels: train_label_vec,
                test_labels: test_label_vec,
            },
        )
    }

    /// The paired view of the training partition.
    pub open spec fn train_pairs_view(self) -> Seq<(Seq<u8>, u8)> {
        pairs_view(self.train_data@, self.train_labels@)
    }

    /// The paired view of the test partition.
    pub open spec fn test_pairs_view(self) -> Seq<(Seq<u8>, u8)> {
        pairs_view(self.test_data@, self.test_labels@)
    }

    /// Number of samples in the training partition.
    pub fn train_len(&self) -> (n: usize)
        ensures
            n == self.train_data@.len(),
    {
        self.train_data.len()
    }

    /// Number of samples in the test partition.
    pub fn test_len(&self) -> (n: usize)
        ensures
            n == self.test_data@.len(),
    {
        self.test_data.len()
    }

    /// The training image at `index`, or an out-of-range error naming the
    /// index and the partition length. Never a silent default.
    pub fn train_image(&self, index: usize) -> (r: Result<&Vec<u8>, IndexOutOfRange>)
        ensures
            match r {
                Ok(img) => index < self.train_data@.len() && *img == self.train_data@[
                    index as int
                ],
                Err(e) => {
                    &&& index >= self.train_data@.len()
                    &&& e.index == index
                    &&& e.len == self.train_data@.len()
                },
            },
    {
        if index < self.train_data.len() {
            Ok(&self.train_data[index])
        } else {
            Err(IndexOutOfRange { index, len: self.train_data.len() })
        }
    }

    /// The test image at `index`, or an out-of-range error.
    pub fn test_image(&self, index: usize) -> (r: Result<&Vec<u8>, IndexOutOfRange>)
        ensures
            match r {
                Ok(img) => index < self.test_data@.len() && *img == self.test_data@[index as int],
                Err(e) => {
                    &&& index >= self.test_data@.len()
                    &&& e.index == index
                    &&& e.len == self.test_data@.len()
                },
            },
    {
        if index < self.test_data.len() {
            Ok(&self.test_data[index])
        } else {
            Err(IndexOutOfRange { index, len: self.test_data.len() })
        }
    }

    /// The training label at `index`, or an out-of-range error.
    pub fn train_label(&self, index: usize) -> (r: Result<u8, IndexOutOfRange>)
        ensures
            match r {
                Ok(label) => index < self.train_labels@.len() && label == self.train_labels@[
                    index as int
                ],
                Err(e) => {
                    &&& index >= self.train_labels@.len()
                    &&& e.index == index
                    &&& e.len == self.train_labels@.len()
                },
            },
    {
        if index < self.train_labels.len() {
            Ok(self.train_labels[index])
        } else {
            Err(IndexOutOfRange { index, len: self.train_labels.len() })
        }
    }

    /// The test label at `index`, or an out-of-range error.
    pub fn test_label(&self, index: usize) -> (r: Result<u8, IndexOutOfRange>)
        ensures
            match r {
                Ok(label) => index < self.test_labels@.len() && label == self.test_labels@[
                    index as int
                ],
                Err(e) => {
                    &&& index >= self.test_labels@.len()
                    &&& e.index == index
                    &&& e.len == self.test_labels@.len()
                },
            },
    {
        if index < self.test_labels.len() {
            Ok(self.test_labels[index])
        } else {
            Err(IndexOutOfRange { index, len: self.test_labels.len() })
        }
    }

    /// The (image, label) pair at `index` of the training partition, or an
    /// out-of-range error.
    pub fn train_pair(&self, index: usize) -> (r: Result<(&Vec<u8>, u8), IndexOutOfRange>)
        requires
            self.wf(),
        ensures
            match r {
                Ok(pair) => {
                    &&& index < self.train_pairs_view().len()
                    &&& (pair.0@, pair.1) == self.train_pairs_view()[index as int]
                },
                Err(e) => {
                    &&& index >= self.train_pairs_view().len()
                    &&& e.index == index
                    &&& e.len == self.train_pairs_view().len()
                },
            },
    {
        if index < self.train_data.len() {
            Ok((&self.train_data[index], self.train_labels[index]))
        } else {
            Err(IndexOutOfRange { index, len: self.train_data.len() })
        }
    }

    /// The (image, label) pair at `index` of the test partition, or an
    /// out-of-range error.
    pub fn test_pair(&self, index: usize) -> (r: Result<(&Vec<u8>, u8), IndexOutOfRange>)
        requires
            self.wf(),
        ensures
            match r {
                Ok(pair) => {
                    &&& index < self.test_pairs_view().len()
                    &&& (pair.0@, pair.1) == self.test_pairs_view()[index as int]
                },
                Err(e) => {
                    &&& index >= self.test_pairs_view().len()
                    &&& e.index == index
                    &&& e.len == self.test_pairs_view().len()
                },
            },
    {
        if index < self.test_data.len() {
            Ok((&self.test_data[index], self.test_labels[index]))
        } else {
            Err(IndexOutOfRange { index, len: self.test_data.len() })
        }
    }

    /// All (image, label) pairs of the training partition, in file order.
    /// Each call walks the partition afresh from index 0 and returns exactly
    /// the paired view, so traversals cannot differ.
    pub fn train_pairs(&self) -> (r: Vec<(Vec<u8>, u8)>)
        requires
            self.wf(),
        ensures
            r@.len() == self.train_pairs_view().len(),
            forall|i: int|
                0 <= i < r@.len() ==> ((#[trigger] r@[i]).0@, r@[i].1)
                    == self.train_pairs_view()[i],
    {
        collect_pairs(&self.train_data, &self.train_labels)
    }

    /// All (image, label) pairs of the test partition, in file order.
    pub fn test_pairs(&self) -> (r: Vec<(Vec<u8>, u8)>)
        requires
            self.wf(),
        ensures
            r@.len() == self.test_pairs_view().len(),
            forall|i: int|
                0 <= i < r@.len() ==> ((#[trigger] r@[i]).0@, r@[i].1) == self.test_pairs_view()[i],
    {
        collect_pairs(&self.test_data, &self.test_labels)
    }
}

/// Copies a partition's images and labels into one vector of pairs, index by
/// index, in order.
fn collect_pairs(images: &Vec<Vec<u8>>, labels: &Vec<u8>) -> (r: Vec<(Vec<u8>, u8)>)
    requires
        images@.len() == labels@.len(),
    ensures
        r@.len() == pairs_view(images@, labels@).len(),
        forall|i: int|
            0 <= i < r@.len() ==> ((#[trigger] r@[i]).0@, r@[i].1) == pairs_view(
                images@,
                labels@,
            )[i],
{
    let n = images.len();
    let mut pairs: Vec<(Vec<u8>, u8)> = Vec::new();
    for i in 0..n
        invariant
            n == images@.len(),
            n == labels@.len(),
            pairs@.len() == i,
            forall|j: int|
                0 <= j < i ==> ((#[trigger] pairs@[j]).0@, pairs@[j].1) == pairs_view(
                    images@,
                    labels@,
                )[j],
    {
        let image = vstd::slice::slice_to_vec(images[i].as_slice());
        pairs.push((image, labels[i]));
    }
    pairs
}

/// Law: traversing a partition's paired sequence is restartable. The pairs
/// are a function of the dataset alone — no traversal mutates it — so any
/// two traversals of the same dataset read identical pair sequences. Stated
/// for the training partition; [`Mnist::test_pairs`] is pinned to
/// [`Mnist::test_pairs_view`] the same way.
pub proof fn lemma_pairs_restartable(
    m: Mnist,
    first: Seq<(Seq<u8>, u8)>,
    second: Seq<(Seq<u8>, u8)>,
)
    requires
        first == m.train_pairs_view(),
        second == m.train_pairs_view(),
    ensures
        first == second,
{
}

} // verus!
