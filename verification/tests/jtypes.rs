use tringlib::error::BridgeError;
use tringlib::jtypes::{
    device_at, AudioDevice, IceCandidate, JArrayByte, JByteArray, JByteArray2D, JPString, RString,
    TringDevice, BATCH_CAPACITY, DEVICE_NOT_FOUND,
};

fn candidates(n: usize) -> Vec<IceCandidate> {
    (0..n).map(|i| IceCandidate::new(vec![i as u8; i + 1])).collect()
}

fn device(name: &str) -> AudioDevice {
    AudioDevice {
        name: name.to_string(),
        unique_id: format!("{}-id", name),
        i18n_key: format!("{}-key", name),
    }
}

#[test]
fn jpstring_decodes_its_bytes() {
    assert_eq!(JPString::new(b"peer".to_vec()).to_string(), Ok("peer".to_string()));
    assert_eq!(JPString::new(vec![0xc3, 0xa9]).to_string(), Ok("é".to_string()));
    assert_eq!(JPString::new(Vec::new()).to_string(), Ok(String::new()));
}

#[test]
fn jpstring_refuses_bytes_that_are_not_text() {
    assert_eq!(JPString::new(vec![b'a', 0xff]).to_string(), Err(BridgeError::InvalidText));
    assert_eq!(JPString::new(vec![0xc3]).to_string(), Err(BridgeError::InvalidText));
}

#[test]
fn rstring_reports_the_byte_length() {
    let s = RString::from_string("é!".to_string());
    assert_eq!(s.len(), 3);
    assert_eq!(s.as_bytes(), &[0xc3, 0xa9, b'!']);
    assert_eq!(s.text, "é!");
}

#[test]
fn jarraybyte_keeps_the_bytes() {
    let b = JArrayByte::new(vec![1, 2, 3]);
    assert_eq!(b.len(), 3);
    assert_eq!(b.data, vec![1, 2, 3]);
}

#[test]
fn jbytearray_round_trips() {
    let b = JByteArray::new(vec![4, 5, 6]);
    assert_eq!(b.len(), 3);
    assert_eq!(b.to_vec_u8(), vec![4, 5, 6]);
}

#[test]
fn jbytearray_empty_has_no_bytes() {
    assert_eq!(JByteArray::empty().len(), 0);
    assert_eq!(JByteArray::empty().to_vec_u8(), Vec::<u8>::new());
}

#[test]
fn jbytearray_from_data_copies_the_first_bytes() {
    let region = [1u8, 2, 3, 4, 5];
    assert_eq!(JByteArray::from_data(&region, 3).to_vec_u8(), vec![1, 2, 3]);
    assert_eq!(JByteArray::from_data(&region, 0).to_vec_u8(), Vec::<u8>::new());
    assert_eq!(JByteArray::from_data(&region, 5).to_vec_u8(), region.to_vec());
}

#[test]
fn batch_of_three_candidates() {
    let batch = JByteArray2D::new(candidates(3)).unwrap();
    assert_eq!(batch.len(), 3);
    assert_eq!(batch.row(0).to_vec_u8(), vec![0]);
    assert_eq!(batch.row(1).to_vec_u8(), vec![1, 1]);
    assert_eq!(batch.row(2).to_vec_u8(), vec![2, 2, 2]);
    for i in 3..BATCH_CAPACITY {
        assert_eq!(batch.row(i).len(), 0);
    }
    assert_eq!(batch.candidates(), candidates(3));
}

#[test]
fn batch_rows_past_the_twenty_fifth_are_filled() {
    let batch = JByteArray2D::new(candidates(32)).unwrap();
    assert_eq!(batch.len(), 32);
    assert_eq!(batch.row(25).to_vec_u8(), vec![25; 26]);
    assert_eq!(batch.row(31).to_vec_u8(), vec![31; 32]);
    assert_eq!(batch.candidates(), candidates(32));
}

#[test]
fn empty_batch_has_only_placeholders() {
    let batch = JByteArray2D::new(Vec::new()).unwrap();
    assert_eq!(batch.len(), 0);
    for i in 0..BATCH_CAPACITY {
        assert_eq!(batch.row(i).len(), 0);
    }
    assert_eq!(batch.candidates(), Vec::new());
}

#[test]
fn batch_refuses_more_than_its_capacity() {
    assert_eq!(JByteArray2D::new(candidates(33)), Err(BridgeError::CapacityExceeded));
    assert_eq!(BATCH_CAPACITY, 32);
}

#[test]
fn announced_row_count_is_checked() {
    assert_eq!(JByteArray2D::row_count(0), Ok(0));
    assert_eq!(JByteArray2D::row_count(32), Ok(32));
    assert_eq!(JByteArray2D::row_count(33), Err(BridgeError::CapacityExceeded));
}

#[test]
fn batch_rows_as_texts() {
    let rows = vec![IceCandidate::new(b"stun:a".to_vec()), IceCandidate::new(b"turn:b".to_vec())];
    let batch = JByteArray2D::new(rows).unwrap();
    assert_eq!(batch.texts(), Ok(vec!["stun:a".to_string(), "turn:b".to_string()]));
}

#[test]
fn batch_rows_that_are_not_text() {
    let rows = vec![IceCandidate::new(b"ok".to_vec()), IceCandidate::new(vec![0x80])];
    let batch = JByteArray2D::new(rows).unwrap();
    assert_eq!(batch.texts(), Err(BridgeError::InvalidText));
}

#[test]
fn sentinel_descriptor() {
    let d = TringDevice::empty();
    assert_eq!(d.index, 99);
    assert_eq!(d.index, DEVICE_NOT_FOUND);
    assert_eq!(d.name.text, "empty");
    assert_eq!(d.unique_id.text, "empty");
    assert_eq!(d.int_key.text, "empty");
    assert!(d.is_not_found());
    assert_eq!(d.name.len(), 5);
}

#[test]
fn descriptor_from_fields() {
    let d = TringDevice::from_fields(2, "Mic".to_string(), "u-1".to_string(), "key".to_string());
    assert_eq!(d.index, 2);
    assert_eq!(d.name.text, "Mic");
    assert_eq!(d.unique_id.text, "u-1");
    assert_eq!(d.int_key.text, "key");
    assert!(!d.is_not_found());
}

#[test]
fn descriptor_from_audio_device() {
    let d = TringDevice::from_audio_device(7, device("Speaker"));
    assert_eq!(d.index, 7);
    assert_eq!(d.name.text, "Speaker");
    assert_eq!(d.unique_id.text, "Speaker-id");
    assert_eq!(d.int_key.text, "Speaker-key");
}

#[test]
fn lookup_of_a_listed_device() {
    let devices = vec![device("a"), device("b"), device("c")];
    assert_eq!(device_at(&devices, 1), TringDevice::from_audio_device(1, device("b")));
    assert_eq!(device_at(&devices, 0), TringDevice::from_audio_device(0, device("a")));
    assert_eq!(device_at(&devices, 2), TringDevice::from_audio_device(2, device("c")));
}

#[test]
fn lookup_of_a_missing_device_gives_the_sentinel() {
    let devices = vec![device("a"), device("b")];
    assert_eq!(device_at(&devices, 2), TringDevice::empty());
    assert_eq!(device_at(&devices, u32::MAX), TringDevice::empty());
    assert_eq!(device_at(&Vec::new(), 0), TringDevice::empty());
}
