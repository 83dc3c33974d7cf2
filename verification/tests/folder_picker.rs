#[test]
fn folder_picker_folder_picker_returns_paths() {
    println!("Skipping FolderPicker test on non-Windows platform.");
}
