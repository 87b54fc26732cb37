use pixel_buffer::buffer::errno;
use pixel_buffer::buffer::util::{
    create_flags, create_temp_file, ftrunc_error, map_file, map_flags, map_offset, map_protection,
    memfd_error, mmap_error, temp_file_name, truncate_file, FTruncError, MMapError, MemFdError,
};

fn leaked_region(size: usize, fill: u8) -> &'static mut [u8] {
    Box::leak(vec![fill; size].into_boxed_slice())
}

#[test]
fn error_codes_are_those_of_libc() {
    assert_eq!(errno::EPERM, libc::EPERM);
    assert_eq!(errno::EINTR, libc::EINTR);
    assert_eq!(errno::EIO, libc::EIO);
    assert_eq!(errno::EBADF, libc::EBADF);
    assert_eq!(errno::EAGAIN, libc::EAGAIN);
    assert_eq!(errno::ENOMEM, libc::ENOMEM);
    assert_eq!(errno::EACCES, libc::EACCES);
    assert_eq!(errno::EFAULT, libc::EFAULT);
    assert_eq!(errno::EEXIST, libc::EEXIST);
    assert_eq!(errno::ENODEV, libc::ENODEV);
    assert_eq!(errno::EINVAL, libc::EINVAL);
    assert_eq!(errno::ENFILE, libc::ENFILE);
    assert_eq!(errno::EMFILE, libc::EMFILE);
    assert_eq!(errno::ETXTBSY, libc::ETXTBSY);
    assert_eq!(errno::EFBIG, libc::EFBIG);
    assert_eq!(errno::EOVERFLOW, libc::EOVERFLOW);
}

#[test]
fn mapping_flags_are_those_of_libc() {
    assert_eq!(errno::PROT_READ, libc::PROT_READ);
    assert_eq!(errno::PROT_WRITE, libc::PROT_WRITE);
    assert_eq!(errno::MAP_SHARED, libc::MAP_SHARED);
    assert_eq!(map_protection(), libc::PROT_READ | libc::PROT_WRITE);
    assert_eq!(map_protection(), 3);
    assert_eq!(map_flags(), libc::MAP_SHARED);
    assert_eq!(map_flags(), 1);
}

#[test]
fn memfd_error_names_every_code_of_the_call() {
    assert_eq!(memfd_error(libc::EPERM), MemFdError::PermError);
    assert_eq!(memfd_error(libc::ENOMEM), MemFdError::OutOfMem);
    assert_eq!(memfd_error(libc::EFAULT), MemFdError::NameError);
    assert_eq!(memfd_error(libc::EINVAL), MemFdError::ArgumentError);
    assert_eq!(memfd_error(libc::ENFILE), MemFdError::FdLimitReached);
    assert_eq!(memfd_error(libc::EMFILE), MemFdError::FdLimitReached);
}

#[test]
fn memfd_error_by_number() {
    assert_eq!(memfd_error(1), MemFdError::PermError);
    assert_eq!(memfd_error(12), MemFdError::OutOfMem);
    assert_eq!(memfd_error(14), MemFdError::NameError);
    assert_eq!(memfd_error(22), MemFdError::ArgumentError);
    assert_eq!(memfd_error(23), MemFdError::FdLimitReached);
    assert_eq!(memfd_error(24), MemFdError::FdLimitReached);
}

#[test]
fn memfd_error_counts_every_other_code_as_refused_arguments() {
    assert_eq!(memfd_error(0), MemFdError::ArgumentError);
    assert_eq!(memfd_error(-1), MemFdError::ArgumentError);
    assert_eq!(memfd_error(libc::EINTR), MemFdError::ArgumentError);
    assert_eq!(memfd_error(libc::EBADF), MemFdError::ArgumentError);
    assert_eq!(memfd_error(libc::ENOENT), MemFdError::ArgumentError);
    assert_eq!(memfd_error(libc::EACCES), MemFdError::ArgumentError);
    assert_eq!(memfd_error(i32::MAX), MemFdError::ArgumentError);
    assert_eq!(memfd_error(i32::MIN), MemFdError::ArgumentError);
}

#[test]
fn ftrunc_error_names_every_code_of_the_call() {
    assert_eq!(ftrunc_error(libc::EINTR), FTruncError::Interrupted);
    assert_eq!(ftrunc_error(libc::EIO), FTruncError::IoError);
    assert_eq!(ftrunc_error(libc::EBADF), FTruncError::BadFd);
    assert_eq!(ftrunc_error(libc::EINVAL), FTruncError::BadLengthOrBadFd);
    assert_eq!(ftrunc_error(libc::EFBIG), FTruncError::LengthError);
}

#[test]
fn ftrunc_error_by_number() {
    assert_eq!(ftrunc_error(4), FTruncError::Interrupted);
    assert_eq!(ftrunc_error(5), FTruncError::IoError);
    assert_eq!(ftrunc_error(9), FTruncError::BadFd);
    assert_eq!(ftrunc_error(22), FTruncError::BadLengthOrBadFd);
    assert_eq!(ftrunc_error(27), FTruncError::LengthError);
}

#[test]
fn ftrunc_error_counts_every_other_code_as_a_failure_of_the_device() {
    assert_eq!(ftrunc_error(0), FTruncError::IoError);
    assert_eq!(ftrunc_error(libc::EPERM), FTruncError::IoError);
    assert_eq!(ftrunc_error(libc::EACCES), FTruncError::IoError);
    assert_eq!(ftrunc_error(libc::EROFS), FTruncError::IoError);
    assert_eq!(ftrunc_error(libc::ENOENT), FTruncError::IoError);
    assert_eq!(ftrunc_error(libc::ENOMEM), FTruncError::IoError);
    assert_eq!(ftrunc_error(i32::MAX), FTruncError::IoError);
    assert_eq!(ftrunc_error(-1), FTruncError::IoError);
}

#[test]
fn mmap_error_names_every_code_of_the_call() {
    assert_eq!(mmap_error(libc::EACCES), MMapError::ProtectionError);
    assert_eq!(mmap_error(libc::EAGAIN), MMapError::LimitError);
    assert_eq!(mmap_error(libc::EBADF), MMapError::BadFd);
    assert_eq!(mmap_error(libc::EEXIST), MMapError::MappingConflict);
    assert_eq!(mmap_error(libc::EINVAL), MMapError::ArgumentError);
    assert_eq!(mmap_error(libc::ENFILE), MMapError::LimitError);
    assert_eq!(mmap_error(libc::ENODEV), MMapError::FsError);
    assert_eq!(mmap_error(libc::ENOMEM), MMapError::LimitError);
    assert_eq!(mmap_error(libc::EOVERFLOW), MMapError::LimitError);
    assert_eq!(mmap_error(libc::EPERM), MMapError::PermError);
    assert_eq!(mmap_error(libc::ETXTBSY), MMapError::BadFd);
}

#[test]
fn mmap_error_by_number() {
    assert_eq!(mmap_error(13), MMapError::ProtectionError);
    assert_eq!(mmap_error(11), MMapError::LimitError);
    assert_eq!(mmap_error(9), MMapError::BadFd);
    assert_eq!(mmap_error(17), MMapError::MappingConflict);
    assert_eq!(mmap_error(22), MMapError::ArgumentError);
    assert_eq!(mmap_error(23), MMapError::LimitError);
    assert_eq!(mmap_error(19), MMapError::FsError);
    assert_eq!(mmap_error(12), MMapError::LimitError);
    assert_eq!(mmap_error(75), MMapError::LimitError);
    assert_eq!(mmap_error(1), MMapError::PermError);
    assert_eq!(mmap_error(26), MMapError::BadFd);
}

#[test]
fn mmap_error_counts_every_other_code_as_refused_arguments() {
    assert_eq!(mmap_error(0), MMapError::ArgumentError);
    assert_eq!(mmap_error(libc::EINTR), MMapError::ArgumentError);
    assert_eq!(mmap_error(libc::EIO), MMapError::ArgumentError);
    assert_eq!(mmap_error(libc::EMFILE), MMapError::ArgumentError);
    assert_eq!(mmap_error(libc::EFBIG), MMapError::ArgumentError);
    assert_eq!(mmap_error(libc::EROFS), MMapError::ArgumentError);
    assert_eq!(mmap_error(i32::MAX), MMapError::ArgumentError);
    assert_eq!(mmap_error(-1), MMapError::ArgumentError);
}

#[test]
fn a_file_is_created_without_flags_and_mapped_from_its_first_byte() {
    assert_eq!(create_flags(), 0);
    assert_eq!(map_offset(), 0);
}

#[test]
fn a_failure_with_a_code_that_the_call_is_not_known_for_is_still_an_error() {
    assert_eq!(create_temp_file(-1, libc::ENOENT).unwrap_err(), MemFdError::ArgumentError);
    assert_eq!(create_temp_file(-1, 0).unwrap_err(), MemFdError::ArgumentError);

    let mut file = create_temp_file(5, 0).unwrap();
    assert_eq!(truncate_file(&mut file, 64, 0, 0), Ok(()));
    for errno in [libc::EPERM, libc::EACCES, libc::EROFS, 0, -7, i32::MAX] {
        assert_eq!(truncate_file(&mut file, 4096, -1, errno), Err(FTruncError::IoError));
        assert_eq!(file.fd(), 5);
        assert_eq!(file.length(), 64);
    }
    for errno in [libc::EINTR, libc::EROFS, libc::ENOENT, 0, -7, i32::MAX] {
        assert_eq!(map_file(&mut file, 64, Err(errno)).unwrap_err(), MMapError::ArgumentError);
        assert_eq!(file.fd(), 5);
        assert_eq!(file.length(), 64);
    }
}

#[test]
fn a_missing_name_becomes_the_placeholder() {
    assert_eq!(temp_file_name(None), Ok("placeholder"));
}

#[test]
fn a_name_without_a_zero_byte_is_kept() {
    assert_eq!(temp_file_name(Some("frame buffer")), Ok("frame buffer"));
    assert_eq!(temp_file_name(Some("")), Ok(""));
    assert_eq!(temp_file_name(Some("p\u{ef}xel")), Ok("p\u{ef}xel"));
}

#[test]
fn a_name_with_a_zero_byte_is_refused() {
    assert_eq!(temp_file_name(Some("frame\0buffer")), Err(MemFdError::NameError));
    assert_eq!(temp_file_name(Some("\0")), Err(MemFdError::NameError));
    assert_eq!(temp_file_name(Some("tail\0")), Err(MemFdError::NameError));
}

#[test]
fn a_created_file_has_its_descriptor_and_no_length() {
    let file = create_temp_file(7, 0).unwrap();
    assert_eq!(file.fd(), 7);
    assert_eq!(file.length(), 0);
    let first = create_temp_file(0, libc::EPERM).unwrap();
    assert_eq!(first.fd(), 0);
}

#[test]
fn a_failed_creation_gives_the_kind_of_its_code() {
    assert_eq!(create_temp_file(-1, libc::EPERM).unwrap_err(), MemFdError::PermError);
    assert_eq!(create_temp_file(-1, libc::ENOMEM).unwrap_err(), MemFdError::OutOfMem);
    assert_eq!(create_temp_file(-1, libc::EFAULT).unwrap_err(), MemFdError::NameError);
    assert_eq!(create_temp_file(-1, libc::EINVAL).unwrap_err(), MemFdError::ArgumentError);
    assert_eq!(create_temp_file(-1, libc::ENFILE).unwrap_err(), MemFdError::FdLimitReached);
    assert_eq!(create_temp_file(-1, libc::EMFILE).unwrap_err(), MemFdError::FdLimitReached);
}

#[test]
fn a_truncated_file_has_the_new_length() {
    let mut file = create_temp_file(5, 0).unwrap();
    assert_eq!(truncate_file(&mut file, 1024, 0, 0), Ok(()));
    assert_eq!(file.fd(), 5);
    assert_eq!(file.length(), 1024);
    assert_eq!(truncate_file(&mut file, 16, 0, libc::EIO), Ok(()));
    assert_eq!(file.length(), 16);
}

#[test]
fn a_failed_truncation_leaves_the_file_as_it_was() {
    let mut file = create_temp_file(5, 0).unwrap();
    assert_eq!(truncate_file(&mut file, 1024, 0, 0), Ok(()));
    assert_eq!(truncate_file(&mut file, 4096, -1, libc::EINTR), Err(FTruncError::Interrupted));
    assert_eq!(file.length(), 1024);
    assert_eq!(truncate_file(&mut file, 4096, -1, libc::EIO), Err(FTruncError::IoError));
    assert_eq!(truncate_file(&mut file, 4096, -1, libc::EBADF), Err(FTruncError::BadFd));
    assert_eq!(
        truncate_file(&mut file, -1, -1, libc::EINVAL),
        Err(FTruncError::BadLengthOrBadFd)
    );
    assert_eq!(truncate_file(&mut file, i64::MAX, -1, libc::EFBIG), Err(FTruncError::LengthError));
    assert_eq!(file.fd(), 5);
    assert_eq!(file.length(), 1024);
}

#[test]
fn a_mapped_file_gives_a_segment_of_the_region() {
    let mut file = create_temp_file(3, 0).unwrap();
    assert_eq!(truncate_file(&mut file, 8, 0, 0), Ok(()));
    let region = leaked_region(8, 0x5a);
    region[2] = 9;
    let segment = map_file(&mut file, 8, Ok(region)).unwrap();
    assert_eq!(segment.len(), 8);
    assert_eq!(segment.as_slice(), &[0x5a, 0x5a, 9, 0x5a, 0x5a, 0x5a, 0x5a, 0x5a]);
    assert_eq!(file.fd(), 3);
    assert_eq!(file.length(), 8);
}

#[test]
fn a_failed_mapping_gives_the_kind_of_its_code() {
    let mut file = create_temp_file(3, 0).unwrap();
    assert_eq!(map_file(&mut file, 8, Err(libc::EACCES)).unwrap_err(), MMapError::ProtectionError);
    assert_eq!(map_file(&mut file, 8, Err(libc::ENOMEM)).unwrap_err(), MMapError::LimitError);
    assert_eq!(map_file(&mut file, 8, Err(libc::EBADF)).unwrap_err(), MMapError::BadFd);
    assert_eq!(map_file(&mut file, 8, Err(libc::EEXIST)).unwrap_err(), MMapError::MappingConflict);
    assert_eq!(map_file(&mut file, 0, Err(libc::EINVAL)).unwrap_err(), MMapError::ArgumentError);
    assert_eq!(map_file(&mut file, 8, Err(libc::ENODEV)).unwrap_err(), MMapError::FsError);
    assert_eq!(map_file(&mut file, 8, Err(libc::EPERM)).unwrap_err(), MMapError::PermError);
    assert_eq!(file.fd(), 3);
    assert_eq!(file.length(), 0);
}

#[test]
fn a_segment_reads_and_writes_its_region() {
    let mut file = create_temp_file(3, 0).unwrap();
    assert_eq!(truncate_file(&mut file, 4, 0, 0), Ok(()));
    let mut segment = map_file(&mut file, 4, Ok(leaked_region(4, 1))).unwrap();
    assert_eq!(segment.len(), 4);
    segment.set(1, 0x72);
    assert_eq!(segment.get(1), 0x72);
    assert_eq!(segment.get(0), 1);
    segment.as_mut_slice()[3] = 0xfd;
    assert_eq!(segment.as_slice(), &[1, 0x72, 1, 0xfd]);
    segment.clear();
    assert_eq!(segment.as_slice(), &[0, 0, 0, 0]);
    assert_eq!(segment.len(), 4);
}
