use mnist::parse::{parse_images, parse_labels, ParseError};

fn images_file(magic: u32, count: u32, rows: u32, cols: u32, payload: &[u8]) -> Vec<u8> {
    let mut data = Vec::new();
    data.extend_from_slice(&magic.to_be_bytes());
    data.extend_from_slice(&count.to_be_bytes());
    data.extend_from_slice(&rows.to_be_bytes());
    data.extend_from_slice(&cols.to_be_bytes());
    data.extend_from_slice(payload);
    data
}

fn labels_file(magic: u32, count: u32, payload: &[u8]) -> Vec<u8> {
    let mut data = Vec::new();
    data.extend_from_slice(&magic.to_be_bytes());
    data.extend_from_slice(&count.to_be_bytes());
    data.extend_from_slice(payload);
    data
}

#[test]
fn two_images_parsed() {
    let data = images_file(2051, 2, 2, 2, &[1, 2, 3, 4, 5, 6, 7, 8]);
    let block = parse_images(&data).unwrap();
    assert_eq!(block.magic_number, 2051);
    assert_eq!(block.num_images, 2);
    assert_eq!(block.num_rows, 2);
    assert_eq!(block.num_cols, 2);
    assert_eq!(block.images.len(), 2);
    assert_eq!(block.images[0], vec![1, 2, 3, 4]);
    assert_eq!(block.images[1], vec![5, 6, 7, 8]);
}

#[test]
fn three_labels_parsed() {
    let data = labels_file(2049, 3, &[7, 0, 9]);
    let (magic, count, labels) = parse_labels(&data).unwrap();
    assert_eq!(magic, 2049);
    assert_eq!(count, 3);
    assert_eq!(labels, vec![7, 0, 9]);
}

#[test]
fn labels_truncated_mid_payload() {
    // Header declares three labels but only two payload bytes follow: the
    // parse fails outright, no short label sequence is returned.
    let data = labels_file(2049, 3, &[7, 0]);
    assert_eq!(parse_labels(&data), Err(ParseError::TruncatedPayload));
}

#[test]
fn labels_truncated_header() {
    let data = vec![0u8; 7];
    assert_eq!(parse_labels(&data), Err(ParseError::TruncatedHeader));
}

#[test]
fn images_truncated_header() {
    let data = vec![0u8; 15];
    assert!(matches!(parse_images(&data), Err(ParseError::TruncatedHeader)));
}

#[test]
fn images_truncated_mid_payload() {
    // Two 2x2 images declared, but the second is one byte short.
    let data = images_file(2051, 2, 2, 2, &[1, 2, 3, 4, 5, 6, 7]);
    assert!(matches!(parse_images(&data), Err(ParseError::TruncatedPayload)));
}

#[test]
fn zero_images_parse_to_empty() {
    let data = images_file(2051, 0, 28, 28, &[]);
    let block = parse_images(&data).unwrap();
    assert_eq!(block.num_images, 0);
    assert!(block.images.is_empty());
}

#[test]
fn trailing_bytes_are_ignored() {
    let mut data = labels_file(2049, 2, &[4, 2]);
    data.push(99);
    let (_, count, labels) = parse_labels(&data).unwrap();
    assert_eq!(count, 2);
    assert_eq!(labels, vec![4, 2]);

    let mut data = images_file(2051, 1, 1, 2, &[10, 20]);
    data.push(99);
    let block = parse_images(&data).unwrap();
    assert_eq!(block.images.len(), 1);
    assert_eq!(block.images[0], vec![10, 20]);
}

#[test]
fn parser_reports_header_fields_verbatim() {
    // Validating the magic number against the MNIST constant is the
    // loader's business; the parser hands the declared fields through.
    let data = images_file(7, 1, 1, 1, &[0]);
    let block = parse_images(&data).unwrap();
    assert_eq!(block.magic_number, 7);

    let data = labels_file(123, 1, &[5]);
    let (magic, _, _) = parse_labels(&data).unwrap();
    assert_eq!(magic, 123);
}
