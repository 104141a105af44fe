use otter_pi::temporary_directory::TemporaryDirectory;

#[test]
fn temporary_directory_it_should_return_a_path_that_begins_with_the_system_temporary_directory() {
    let temp_dir = TemporaryDirectory::new().unwrap();
    assert!(std::path::Path::new(temp_dir.get_path()).starts_with(tempfile::env::temp_dir()));
}

#[test]
fn temporary_directory_it_should_return_a_path_to_an_accessible_directory() {
    let temp_dir = TemporaryDirectory::new().unwrap();
    assert!(std::path::Path::new(temp_dir.get_path()).is_dir());
}

#[test]
fn it_should_return_a_path_that_does_not_exist_after_it_goes_out_of_scope() {
    let path = TemporaryDirectory::new().unwrap().get_path().to_owned();
    assert!(std::path::Path::new(&path)
        .try_exists()
        .is_ok_and(|exists| !exists));
}
