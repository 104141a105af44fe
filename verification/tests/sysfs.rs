use otter_pi::linux::sysfs::AttributeError;
use otter_pi::linux::sysfs::Sysfs;
use otter_pi::unix::temporary_directory::TemporaryDirectory;

const NPWM: &str = "1";

fn mock_sysfs_dir() -> TemporaryDirectory {
    let sysfs_dir = TemporaryDirectory::new().expect("should succeed");
    let pwm_controller_path = format!("{}/class/pwm/pwmchip0", sysfs_dir.path());
    fs_err::create_dir_all(&pwm_controller_path).expect("parent directory should be writable");
    let export_path = format!("{}/export", pwm_controller_path);
    fs_err::write(export_path, "").expect("parent directory should exist and be writable");
    let npwm_path = format!("{}/npwm", pwm_controller_path);
    fs_err::write(npwm_path, NPWM).expect("parent directory should exist and be writable");
    sysfs_dir
}

#[test]
fn it_should_create_a_default_sysfs_interface() {
    assert_eq!(Sysfs::new(), Sysfs::default());
}

#[test]
fn it_should_read_from_an_attribute() {
    let sysfs_dir = mock_sysfs_dir();
    let mut sysfs = Sysfs::with_root_dir(sysfs_dir.path());
    assert!(sysfs
        .read("class/pwm/pwmchip0/npwm")
        .is_ok_and(|contents| contents == NPWM.as_bytes()));
}

#[test]
fn it_should_return_an_error_when_reading_from_a_device_that_does_not_exist() {
    let sysfs_dir = mock_sysfs_dir();
    let mut sysfs = Sysfs::with_root_dir(sysfs_dir.path());
    assert!(sysfs.read("class/pwm/pwmchip1/npwm").is_err());
}

#[test]
fn it_should_read_from_an_attribute_to_a_string() {
    let sysfs_dir = mock_sysfs_dir();
    let mut sysfs = Sysfs::with_root_dir(sysfs_dir.path());
    assert!(sysfs
        .read_to_string("class/pwm/pwmchip0/npwm")
        .is_ok_and(|contents| contents == NPWM));
}

#[test]
fn it_should_return_an_error_when_reading_to_a_string_from_a_device_that_does_not_exist() {
    let sysfs_dir = mock_sysfs_dir();
    let mut sysfs = Sysfs::with_root_dir(sysfs_dir.path());
    assert!(sysfs.read_to_string("class/pwm/pwmchip1/npwm").is_err());
}

#[test]
fn it_should_write_to_an_attribute() {
    let sysfs_dir = mock_sysfs_dir();
    let mut sysfs = Sysfs::with_root_dir(sysfs_dir.path());
    let channel = "0";
    sysfs
        .write("class/pwm/pwmchip0/export", channel.as_bytes())
        .expect("attribute should exist and be writable");
    let path = format!("{}/class/pwm/pwmchip0/export", sysfs_dir.path());
    assert!(fs_err::read_to_string(path).is_ok_and(|contents| contents == channel));
}

#[test]
fn it_should_return_an_error_when_writing_to_an_attribute_for_a_device_that_does_not_exist() {
    let sysfs_dir = mock_sysfs_dir();
    let mut sysfs = Sysfs::with_root_dir(sysfs_dir.path());
    assert!(sysfs.write("class/pwm/pwmchip1/export", b"0").is_err());
}

#[test]
fn it_should_report_not_found_for_a_missing_attribute() {
    let sysfs_dir = mock_sysfs_dir();
    let mut sysfs = Sysfs::with_root_dir(sysfs_dir.path());
    assert_eq!(
        sysfs.read("class/pwm/pwmchip1/npwm"),
        Err(AttributeError::NotFound)
    );
    assert_eq!(
        sysfs.write("class/pwm/pwmchip1/export", b"0"),
        Err(AttributeError::NotFound)
    );
}

#[test]
fn it_should_report_invalid_encoding_for_non_utf8_contents() {
    let sysfs_dir = mock_sysfs_dir();
    let raw_path = format!("{}/class/pwm/pwmchip0/raw", sysfs_dir.path());
    fs_err::write(raw_path, [0xffu8, 0xfe, 0x01]).expect("parent directory should be writable");
    let mut sysfs = Sysfs::with_root_dir(sysfs_dir.path());
    assert_eq!(
        sysfs.read_to_string("class/pwm/pwmchip0/raw"),
        Err(AttributeError::InvalidEncoding)
    );
    assert!(sysfs.read("class/pwm/pwmchip0/raw").is_ok());
}

#[test]
fn it_should_report_a_generic_io_error_when_reading_a_directory() {
    let sysfs_dir = mock_sysfs_dir();
    let mut sysfs = Sysfs::with_root_dir(sysfs_dir.path());
    assert_eq!(
        sysfs.read("class/pwm/pwmchip0"),
        Err(AttributeError::IoError)
    );
}

#[test]
fn it_should_read_back_what_was_written() {
    let sysfs_dir = mock_sysfs_dir();
    let mut sysfs = Sysfs::with_root_dir(sysfs_dir.path());
    sysfs
        .write("class/pwm/pwmchip0/export", b"42")
        .expect("attribute should exist and be writable");
    assert!(sysfs
        .read("class/pwm/pwmchip0/export")
        .is_ok_and(|contents| contents == b"42"));
}

#[test]
fn it_should_resolve_attributes_under_a_root_with_a_trailing_separator() {
    let sysfs_dir = mock_sysfs_dir();
    let root = format!("{}/", sysfs_dir.path());
    let mut sysfs = Sysfs::with_root_dir(&root);
    assert!(sysfs
        .read_to_string("class/pwm/pwmchip0/npwm")
        .is_ok_and(|contents| contents == NPWM));
}

#[test]
fn it_should_let_an_absolute_identifier_stand_alone() {
    let sysfs_dir = mock_sysfs_dir();
    let absolute = format!("{}/class/pwm/pwmchip0/npwm", sysfs_dir.path());
    let mut sysfs = Sysfs::with_root_dir("/nonexistent-root");
    assert!(sysfs
        .read_to_string(&absolute)
        .is_ok_and(|contents| contents == NPWM));
}

#[test]
fn it_should_read_identical_bytes_on_repeated_reads() {
    let sysfs_dir = mock_sysfs_dir();
    let mut sysfs = Sysfs::with_root_dir(sysfs_dir.path());
    let first = sysfs.read("class/pwm/pwmchip0/npwm");
    let second = sysfs.read("class/pwm/pwmchip0/npwm");
    assert!(first.is_ok());
    assert_eq!(first, second);
}
