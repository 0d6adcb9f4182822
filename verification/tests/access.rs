use lda_buffer::{Buffer, BufferError};

#[test]
fn set_z_writes_one_slot() {
    let mut buffer = Buffer::new(5);
    assert_eq!(buffer.set_z(3, 42), Ok(()));
    assert_eq!(buffer.z(), &[0, 0, 0, 42, 0]);
    assert_eq!(buffer.set_z(0, 7), Ok(()));
    assert_eq!(buffer.set_z(4, 8), Ok(()));
    assert_eq!(buffer.z(), &[7, 0, 0, 42, 8]);
    assert_eq!(buffer.set_z(3, 1), Ok(()));
    assert_eq!(buffer.z(), &[7, 0, 0, 1, 8]);
    assert_eq!(buffer.w(), &[0, 0, 0, 0, 0]);
    assert_eq!(buffer.n_docs(), 0);
}

#[test]
fn set_z_outside_the_buffer_is_rejected() {
    let mut buffer = Buffer::new(5);
    buffer.set_z(4, 9).unwrap();
    assert_eq!(buffer.set_z(5, 1), Err(BufferError::CapacityExceeded));
    assert_eq!(buffer.set_z(usize::MAX, 1), Err(BufferError::CapacityExceeded));
    assert_eq!(buffer.z(), &[0, 0, 0, 0, 9]);
}

#[test]
fn z_mut_rewrites_topics_in_place() {
    let mut buffer = Buffer::new(6);
    buffer.append_document(&[10, 11]).unwrap();
    buffer.append_document(&[20, 21, 22]).unwrap();
    {
        let z = buffer.z_mut();
        assert_eq!(z.len(), 6);
        for (slot, topic) in z.iter_mut().enumerate() {
            *topic = slot as u32 + 1;
        }
    }
    assert_eq!(buffer.z(), &[1, 2, 3, 4, 5, 6]);
    assert_eq!(buffer.document_topics(0), Some(&[1, 2][..]));
    assert_eq!(buffer.document_topics(1), Some(&[3, 4, 5][..]));
    assert_eq!(buffer.document_topics(2), None);
    // The documents are where they were.
    assert_eq!(buffer.n_docs(), 2);
    assert_eq!(buffer.d_idx(), &[0, 2]);
    assert_eq!(buffer.d_len(), &[2, 3]);
    assert_eq!(buffer.w(), &[10, 11, 20, 21, 22, 0]);
    assert_eq!(buffer.capacity(), 6);
}

#[test]
fn w_mut_rewrites_words_in_place() {
    let mut buffer = Buffer::new(4);
    buffer.append_document(&[1, 2, 3]).unwrap();
    buffer.w_mut()[1] = 50;
    assert_eq!(buffer.w(), &[1, 50, 3, 0]);
    assert_eq!(buffer.document(0), Some(&[1, 50, 3][..]));
    assert_eq!(buffer.z(), &[0, 0, 0, 0]);
    assert_eq!(buffer.used(), 3);
    assert_eq!(buffer.append_document(&[4]), Ok(()));
    assert_eq!(buffer.w(), &[1, 50, 3, 4]);
}

#[test]
fn topics_and_words_are_aligned() {
    let mut buffer = Buffer::new(8);
    buffer.append_document(&[5, 6, 7]).unwrap();
    buffer.append_document(&[8, 9]).unwrap();
    for slot in 0..buffer.used() {
        let word = buffer.w()[slot];
        buffer.set_z(slot, word * 10).unwrap();
    }
    for i in 0..buffer.n_docs() as usize {
        let words = buffer.document(i).unwrap();
        let topics = buffer.document_topics(i).unwrap();
        assert_eq!(words.len(), topics.len());
        for (word, topic) in words.iter().zip(topics) {
            assert_eq!(*topic, *word * 10);
        }
    }
    assert_eq!(buffer.document_topics(1), Some(&[80, 90][..]));
}

#[test]
fn documents_are_read_back() {
    let mut buffer = Buffer::new(10);
    assert_eq!(buffer.document(0), None);
    buffer.append_document(&[1, 2, 3]).unwrap();
    buffer.append_document(&[4, 5, 6, 7, 8]).unwrap();
    assert_eq!(buffer.document(0), Some(&[1, 2, 3][..]));
    assert_eq!(buffer.document(1), Some(&[4, 5, 6, 7, 8][..]));
    assert_eq!(buffer.document(2), None);
    assert_eq!(buffer.document(usize::MAX), None);
    assert_eq!(buffer.document_topics(0), Some(&[0, 0, 0][..]));
    assert_eq!(buffer.document_topics(usize::MAX), None);
}

#[test]
fn record_views_show_loaded_documents_only() {
    let mut buffer = Buffer::new(10);
    assert_eq!(buffer.d_len().len(), 0);
    buffer.append_document(&[1]).unwrap();
    assert_eq!(buffer.d_len(), &[1]);
    assert_eq!(buffer.d_idx(), &[0]);
    buffer.append_document(&[2, 3]).unwrap();
    assert_eq!(buffer.d_len(), &[1, 2]);
    assert_eq!(buffer.d_idx(), &[0, 1]);
    assert_eq!(buffer.d_len().len(), buffer.n_docs() as usize);
    assert_eq!(buffer.d_idx().len(), buffer.n_docs() as usize);
}

#[test]
fn errors_compare_and_copy() {
    let e = BufferError::CapacityExceeded;
    let copy = e;
    assert_eq!(e, copy);
    assert_ne!(BufferError::CapacityExceeded, BufferError::AllocationFailure);
    assert_eq!(format!("{:?}", BufferError::AllocationFailure), "AllocationFailure");
    assert_eq!(format!("{:?}", e.clone()), "CapacityExceeded");
}
