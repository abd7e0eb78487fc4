use bingscape::resolver::extract_filename;
use bingscape::resolver::resolve;
use bingscape::resolver::rewrite_resolution;
use bingscape::resolver::str_eq;

#[test]
fn resolution_rewrite_uhd() {
    let (url, filename) = resolve("/th?id=OHR.LlamaDay_EN-US123_1920x1080.jpg&rf=x", "UHD");
    assert_eq!(url, "https://www.bing.com/th?id=OHR.LlamaDay_EN-US123_UHD.jpg&rf=x");
    assert_eq!(filename, "LlamaDay_EN-US123_UHD.jpg");
}

#[test]
fn resolution_rewrite_fhd() {
    let (url, _) = resolve("/th?id=OHR.Pic_1366x768.jpg&rf=y", "1920x1080");
    assert_eq!(url, "https://www.bing.com/th?id=OHR.Pic_1920x1080.jpg&rf=y");
}

#[test]
fn resolution_native_unchanged() {
    let raw = "/th?id=OHR.Pic_1920x1080.jpg&rf=y";
    let (url, _) = resolve(raw, "Native");
    assert_eq!(url, format!("https://www.bing.com{raw}"));
}

#[test]
fn unknown_resolution_token_leaves_path() {
    let raw = "/th?id=OHR.Pic_1920x1080.jpg";
    let (url, _) = resolve(raw, "800x600");
    assert_eq!(url, format!("https://www.bing.com{raw}"));
}

#[test]
fn rewrite_replaces_leftmost_suffix_only() {
    let out = rewrite_resolution("a_12x34.jpg_56x78.jpg", "_UHD.jpg");
    assert_eq!(out, "a_UHD.jpg_56x78.jpg");
}

#[test]
fn rewrite_without_suffix_is_identity() {
    let out = rewrite_resolution("/th?id=OHR.Pic_UHD.jpg", "_UHD.jpg");
    assert_eq!(out, "/th?id=OHR.Pic_UHD.jpg");
}

#[test]
fn rewrite_needs_digits_on_both_sides() {
    assert_eq!(rewrite_resolution("a_x12.jpg", "_UHD.jpg"), "a_x12.jpg");
    assert_eq!(rewrite_resolution("a_12x.jpg", "_UHD.jpg"), "a_12x.jpg");
    assert_eq!(rewrite_resolution("a_12x34.png", "_UHD.jpg"), "a_12x34.png");
}

#[test]
fn filename_from_id_parameter() {
    assert_eq!(
        extract_filename("/th?id=OHR.LlamaDay_EN-US123_UHD.jpg&rf=x"),
        "LlamaDay_EN-US123_UHD.jpg"
    );
}

#[test]
fn filename_without_ohr_prefix_keeps_name() {
    assert_eq!(extract_filename("/th?id=Pic_UHD.jpg&rf=x"), "Pic_UHD.jpg");
}

#[test]
fn filename_without_ampersand_runs_to_end() {
    assert_eq!(extract_filename("/th?id=OHR.Pic_UHD.jpg"), "Pic_UHD.jpg");
}

#[test]
fn filename_without_id_takes_last_segment() {
    assert_eq!(extract_filename("/images/foo.jpg"), "foo.jpg");
}

#[test]
fn filename_without_id_or_segment_takes_default() {
    assert_eq!(extract_filename("/images/"), "bing_wallpaper.jpg");
    assert_eq!(extract_filename(""), "bing_wallpaper.jpg");
}

#[test]
fn resolver_is_idempotent_on_identical_inputs() {
    let a = resolve("/th?id=OHR.LlamaDay_EN-US123_1920x1080.jpg&rf=x", "UHD");
    let b = resolve("/th?id=OHR.LlamaDay_EN-US123_1920x1080.jpg&rf=x", "UHD");
    assert_eq!(a, b);
}

#[test]
fn str_eq_compares_contents() {
    assert!(str_eq("UHD", "UHD"));
    assert!(!str_eq("UHD", "Native"));
}
