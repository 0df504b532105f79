use vpx::Error;
use vpx::encoder::check_code;

#[test]
fn known_codes_map_to_their_member() {
    assert_eq!(Error::from(2), Error::Mem);
    assert_eq!(Error::from(3), Error::AbiMismatch);
    assert_eq!(Error::from(4), Error::Incapable);
    assert_eq!(Error::from(5), Error::UnsupportedBitstream);
    assert_eq!(Error::from(6), Error::UnsupportedFrame);
    assert_eq!(Error::from(7), Error::CorruptFrame);
    assert_eq!(Error::from(8), Error::InvalidParam);
    assert_eq!(Error::from(9), Error::ListEnd);
}

#[test]
fn each_known_code_maps_to_a_distinct_member() {
    let known: Vec<u32> = vec![2, 3, 4, 5, 6, 7, 8, 9];
    for (i, a) in known.iter().enumerate() {
        for (j, b) in known.iter().enumerate() {
            if i != j {
                assert_ne!(Error::from(*a), Error::from(*b));
            }
        }
    }
}

#[test]
fn unknown_codes_keep_their_value() {
    assert_eq!(Error::from(0), Error::Generic(0));
    assert_eq!(Error::from(1), Error::Generic(1));
    assert_eq!(Error::from(10), Error::Generic(10));
    assert_eq!(Error::from(4096), Error::Generic(4096));
    assert_eq!(Error::from(u32::MAX), Error::Generic(u32::MAX));
}

#[test]
fn descriptions_match() {
    assert_eq!(Error::Generic(42).description(), "Unspecified error");
    assert_eq!(Error::Mem.description(), "Memory operation failed");
    assert_eq!(Error::AbiMismatch.description(), "ABI version mismatch");
    assert_eq!(
        Error::Incapable.description(),
        "Algorithm does not have required capability"
    );
    assert_eq!(
        Error::UnsupportedBitstream.description(),
        "The given bitstream is not supported"
    );
    assert_eq!(
        Error::UnsupportedFrame.description(),
        "Encoded bitstream uses an unsupported feature"
    );
    assert_eq!(
        Error::CorruptFrame.description(),
        "The coded data for this stream is corrupt or incomplete"
    );
    assert_eq!(
        Error::InvalidParam.description(),
        "An application-supplied parameter is not valid"
    );
    assert_eq!(
        Error::ListEnd.description(),
        "An iterator reached the end of list"
    );
}

#[test]
fn check_code_accepts_only_success() {
    assert_eq!(check_code(0), Ok(()));
    assert_eq!(check_code(1), Err(Error::Generic(1)));
    assert_eq!(check_code(2), Err(Error::Mem));
    assert_eq!(check_code(8), Err(Error::InvalidParam));
    assert_eq!(check_code(500), Err(Error::Generic(500)));
}
