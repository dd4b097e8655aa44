use tifflin_modules::usb_core::device::MatchLevel;
use tifflin_modules::usb_msc::{
    csw_problem, io_result, Cbw, Csw, CswError, Driver, MscIoError, ScsiInterfaceInner, CBW_SIG, CSW_SIG,
};

#[test]
fn msc_driver_matches_bulk_only_scsi() {
    let d = Driver;
    assert_eq!(d.name(), "msc");
    assert_eq!(d.matches(0, 0, 0x080650), MatchLevel::Generic);
    assert_eq!(d.matches(0, 0, 0x080651), MatchLevel::Unmatched);
    assert_eq!(d.matches(0, 0, 0x030101), MatchLevel::Unmatched);
}

#[test]
fn cbw_wire_form_is_little_endian() {
    let mut inner = ScsiInterfaceInner::new();
    let cmd = [0x28u8, 0, 0, 0, 0, 8, 0, 0, 1, 0];
    let cbw = inner.begin(2, &cmd, 512, true);
    assert_eq!(cbw.sig, CBW_SIG);
    assert_eq!(cbw.tag, 0);
    assert_eq!(inner.next_tag, 1);
    let b = cbw.to_bytes();
    assert_eq!(&b[0..4], &[0x55, 0x53, 0x42, 0x43]);
    assert_eq!(&b[4..8], &[0, 0, 0, 0]);
    assert_eq!(&b[8..12], &[0x00, 0x02, 0, 0]);
    assert_eq!(b[12], 0x80);
    assert_eq!(b[13], 2);
    assert_eq!(b[14], 10);
    assert_eq!(&b[15..25], &cmd);
    assert_eq!(&b[25..31], &[0u8; 6]);
    let second = inner.begin(0, &cmd[..6], 0, false);
    assert_eq!(second.tag, 1);
    assert_eq!(second.flags, 0);
}

#[test]
fn cbw_slice_to_array_pads_with_zeros() {
    let r = Cbw::slice_to_array(&[1, 2, 3]);
    assert_eq!(r, [1, 2, 3, 0, 0, 0, 0, 0, 0, 0, 0, 0, 0, 0, 0, 0]);
}

#[test]
fn csw_decodes_and_is_checked() {
    let bytes = [0x55u8, 0x53, 0x42, 0x53, 7, 0, 0, 0, 0x10, 0, 0, 0, 0];
    let csw = Csw::from_bytes(bytes);
    assert_eq!(csw.sig, CSW_SIG);
    assert_eq!(csw.tag, 7);
    assert_eq!(csw.data_residue, 16);
    assert_eq!(csw.status, 0);
    assert_eq!(csw_problem(&csw, 7, 512), None);
    assert_eq!(csw_problem(&csw, 8, 512), Some(CswError::TagMismatch));
    assert_eq!(csw_problem(&csw, 7, 8), Some(CswError::ResidueTooLarge));
    let bad = Csw { sig: 0x12345678, ..csw };
    assert_eq!(csw_problem(&bad, 7, 512), Some(CswError::BadSignature));
    let inner = ScsiInterfaceInner::new();
    assert_eq!(inner.finish(&csw, 7, 512), Ok(496));
    let failed = Csw { status: 1, ..csw };
    assert_eq!(inner.finish(&failed, 7, 512), Err(()));
}

#[test]
fn io_result_maps_each_outcome() {
    assert_eq!(io_result(Ok(512), 512), Ok(()));
    assert_eq!(io_result(Ok(500), 512), Err(MscIoError::Undersized));
    assert_eq!(io_result(Err(()), 512), Err(MscIoError::Usb));
}
