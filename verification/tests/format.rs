use mirmir_tui::format::human_bytes;

#[test]
fn formats_binary_download_sizes() {
    assert_eq!(human_bytes(512 * 1_024 * 1_024), "512.00 MiB");
    assert_eq!(human_bytes(1_024 * 1_024 * 1_024), "1.00 GiB");
}
