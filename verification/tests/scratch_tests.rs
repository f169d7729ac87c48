use snappy::scratch::ScratchBuffer;

#[test]
fn acquire_of_zero_capacity_fails() {
    assert!(ScratchBuffer::acquire(0).is_none());
}

#[test]
fn acquire_fixes_the_capacity() {
    let buf = ScratchBuffer::acquire(8).unwrap();
    assert_eq!(buf.capacity(), 8);
}

#[test]
fn trim_to_views_the_requested_prefix() {
    let buf = ScratchBuffer::acquire(8).unwrap();
    assert_eq!(buf.trim_to(3).len(), 3);
    assert_eq!(buf.trim_to(0).len(), 0);
    assert_eq!(buf.trim_to(8).len(), 8);
}

#[test]
fn copy_out_owns_the_requested_prefix() {
    let buf = ScratchBuffer::acquire(4).unwrap();
    let out = buf.copy_out(2);
    drop(buf);
    assert_eq!(out.len(), 2);
}
