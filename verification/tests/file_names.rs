use plume::file::metadata::{
    format_file_size, get_file_extension, get_mime_type, is_supported_image_file, FileMetadata,
};
use plume::file::operations::{generate_temp_file_name, temp_file_name_at};
use plume::file::path::{generate_output_path, numbered_candidate, PathUtils};

#[test]
fn test_format_file_size() {
    assert_eq!(format_file_size(0), "0 B");
    assert_eq!(format_file_size(512), "512 B");
    assert_eq!(format_file_size(1024), "1.0 KB");
    assert_eq!(format_file_size(1536), "1.5 KB");
    assert_eq!(format_file_size(1048576), "1.0 MB");
    assert_eq!(format_file_size(1073741824), "1.0 GB");
}

#[test]
fn test_get_file_extension() {
    assert_eq!(get_file_extension("test.jpg"), Some("jpg".to_string()));
    assert_eq!(get_file_extension("test.PNG"), Some("png".to_string()));
    assert_eq!(get_file_extension("test"), None);
    assert_eq!(get_file_extension("test.tar.gz"), Some("gz".to_string()));
}

#[test]
fn test_is_supported_image_file() {
    assert!(is_supported_image_file("test.jpg"));
    assert!(is_supported_image_file("test.PNG"));
    assert!(is_supported_image_file("test.webp"));
    assert!(!is_supported_image_file("test.gif"));
    assert!(!is_supported_image_file("test.txt"));
    assert!(!is_supported_image_file("test"));
}

#[test]
fn test_get_mime_type() {
    assert_eq!(get_mime_type("jpg"), "image/jpeg");
    assert_eq!(get_mime_type("png"), "image/png");
    assert_eq!(get_mime_type("webp"), "image/webp");
    assert_eq!(get_mime_type("unknown"), "application/octet-stream");
}

#[test]
fn test_change_extension() {
    assert_eq!(PathUtils::change_extension("test.jpg", "webp"), "test.webp");
    assert_eq!(
        PathUtils::change_extension("path/test.png", ".jpg"),
        "path/test.jpg"
    );
}

#[test]
fn test_get_file_stem() {
    assert_eq!(PathUtils::get_file_stem("test.jpg").unwrap(), "test");
    assert_eq!(PathUtils::get_file_stem("path/test.png").unwrap(), "test");
    assert_eq!(
        PathUtils::get_file_stem("no_extension").unwrap(),
        "no_extension"
    );
}

#[test]
fn test_generate_output_path() {
    let input = "input/test.png";
    let result = generate_output_path(input, "webp", None).unwrap();
    assert_eq!(result, "input/test.webp");

    let result_with_dot = generate_output_path(input, ".jpg", None).unwrap();
    assert_eq!(result_with_dot, "input/test.jpg");
}

#[test]
fn file_sizes_round_to_the_nearest_tenth_ties_to_even() {
    assert_eq!(format_file_size(1023), "1023 B");
    assert_eq!(format_file_size(1280), "1.2 KB");
    assert_eq!(format_file_size(1408), "1.4 KB");
    assert_eq!(format_file_size(1048575), "1024.0 KB");
    assert_eq!(format_file_size(1099511627776), "1.0 TB");
    assert_eq!(format_file_size(1125899906842624), "1024.0 TB");
}

#[test]
fn output_path_in_a_given_directory() {
    let result = generate_output_path("input/test.png", "webp", Some("out")).unwrap();
    assert_eq!(result, "out/test.webp");
    assert!(generate_output_path("", "webp", None).is_err());
}

#[test]
fn parent_directory_and_extension_edge_cases() {
    assert_eq!(PathUtils::get_parent_dir("a/b.png").unwrap(), "a");
    assert!(PathUtils::get_parent_dir("").is_err());
    assert_eq!(PathUtils::change_extension("a/b.png", ""), "a/b");
    assert!(PathUtils::get_file_stem("").is_err());
}

#[test]
fn safe_paths_within_allowed_roots() {
    let roots = vec!["/tmp".to_string(), "/home/user".to_string()];
    assert!(PathUtils::validate_safe_path("safe/path.jpg", &roots).is_ok());
    assert!(PathUtils::validate_safe_path("../unsafe/path.jpg", &roots).is_err());
    assert!(PathUtils::validate_safe_path("/absolute/path.jpg", &roots).is_err());
    assert!(PathUtils::validate_safe_path("/tmp/path.jpg", &roots).is_ok());
    assert!(PathUtils::validate_safe_path("/tmpx/path.jpg", &roots).is_err());
    assert_eq!(PathUtils::safe_join("base", "dir/file.png", &roots).unwrap(), "base/dir/file.png");
    assert!(PathUtils::safe_join("base", "../file.png", &roots).is_err());
}

#[test]
fn numbered_candidates() {
    assert_eq!(numbered_candidate("dir/test.txt", 1), "dir/test (1).txt");
    assert_eq!(numbered_candidate("test", 12), "test (12)");
}

#[test]
fn metadata_from_parts() {
    let metadata = FileMetadata::from_parts("dir/photo.JPG", 2048, None, None).unwrap();
    assert_eq!(metadata.name, "photo.JPG");
    assert_eq!(metadata.extension, Some("jpg".to_string()));
    assert!(metadata.is_image);
    assert!(metadata.is_supported_image());
    assert_eq!(metadata.mime_type, Some("image/jpeg".to_string()));
    assert_eq!(metadata.human_readable_size(), "2.0 KB");
    let gif = FileMetadata::from_parts("a.gif", 1, None, None).unwrap();
    assert!(gif.is_image);
    assert!(!gif.is_supported_image());
    assert!(FileMetadata::from_parts("", 1, None, None).is_err());
}

#[test]
fn temporary_names_keep_prefix_and_extension_as_given() {
    assert_eq!(temp_file_name_at("plume", "20240102_030405_678", "png"), "plume_20240102_030405_678.png");
    assert_eq!(temp_file_name_at("a b", "s", ".JPG"), "a b_s..JPG");
    assert_eq!(temp_file_name_at("", "", ""), "_.");
    let name = generate_temp_file_name("plume", "webp");
    assert!(name.starts_with("plume_"));
    assert!(name.ends_with(".webp"));
    assert_eq!(name.len(), "plume_".len() + "20240102_030405_678".len() + ".webp".len());
}
