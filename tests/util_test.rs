use std::path::PathBuf;
use webserver::config::Config;
use webserver::response::file_extension;
use webserver::util::{format_file_size, HtmlBuilder};

#[test]
fn test_file_size() {
    let a = 9926;
    let b = 51800;
    assert_eq!(format_file_size(a), "9.7 KB".to_string());
    assert_eq!(format_file_size(b), "50.6 KB".to_string());
}

#[test]
fn test_file_size_bytes() {
    assert_eq!(format_file_size(0), "0.0 B");
    assert_eq!(format_file_size(512), "512.0 B");
    assert_eq!(format_file_size(1023), "1023.0 B");
}

#[test]
fn test_file_size_kb() {
    assert_eq!(format_file_size(1024), "1.0 KB");
    assert_eq!(format_file_size(2048), "2.0 KB");
    assert_eq!(format_file_size(1536), "1.5 KB");
}

#[test]
fn test_file_size_mb() {
    assert_eq!(format_file_size(1048576), "1.0 MB");
    assert_eq!(format_file_size(5242880), "5.0 MB");
}

#[test]
fn test_file_size_gb() {
    assert_eq!(format_file_size(1073741824), "1.0 GB");
    assert_eq!(format_file_size(3221225472), "3.0 GB");
}

#[test]
fn test_file_size_tb() {
    assert_eq!(format_file_size(1099511627776), "1.0 TB");
}

#[test]
fn test_html_builder_from_status_code() {
    let html = HtmlBuilder::from_status_code(404, Some("测试404")).build();
    assert!(html.contains("404"));
    assert!(html.contains("测试404"));
    assert!(html.contains("<!DOCTYPE html>"));
    assert!(html.contains("</html>"));
}

#[test]
fn test_html_builder_from_status_code_no_note() {
    let html = HtmlBuilder::from_status_code(200, None).build();
    assert!(html.contains("200"));
    assert!(html.contains("OK"));
}

#[test]
fn test_html_builder_various_codes() {
    for code in [200, 201, 204, 400, 401, 403, 404, 500, 502, 503] {
        let html = HtmlBuilder::from_status_code(code, None).build();
        assert!(html.contains(&code.to_string()));
        assert!(html.contains("<!DOCTYPE html>"));
    }
}

#[test]
fn test_html_builder_structure() {
    let html = HtmlBuilder::from_status_code(404, Some("测试")).build();

    assert!(html.contains("<!DOCTYPE html>"));
    assert!(html.contains("<html>"));
    assert!(html.contains("</html>"));
    assert!(html.contains("<head>"));
    assert!(html.contains("</head>"));
    assert!(html.contains("<body>"));
    assert!(html.contains("</body>"));
    assert!(html.contains("<title>"));
    assert!(html.contains("</title>"));
    assert!(html.contains("<style>"));
    assert!(html.contains("</style>"));
    assert!(html.contains("charset=\"utf-8\""));
}

#[test]
fn test_format_file_size_edge_cases() {
    assert_eq!(format_file_size(1024 - 1), "1023.0 B");
    assert_eq!(format_file_size(1024), "1.0 KB");
    assert_eq!(format_file_size(1024 * 1024 - 1), "1024.0 KB");
    assert_eq!(format_file_size(1024 * 1024), "1.0 MB");
}

#[test]
fn file_size_matches_float_formatting() {
    let samples: [u64; 12] = [
        1280,
        1331,
        2560,
        123456789,
        (1u64 << 53) + 1,
        (1u64 << 53) + 3,
        u64::MAX,
        u64::MAX - 2047,
        1099511627776 * 1024,
        1125899906842623,
        5 * 1024 + 51,
        1023 * 1024 * 1024 + 1,
    ];
    let units = ["B", "KB", "MB", "GB", "TB"];
    for s in samples {
        let mut v = s as f64;
        let mut k = 0;
        while v >= 1024.0 && k < units.len() - 1 {
            v /= 1024.0;
            k += 1;
        }
        assert_eq!(format_file_size(s), format!("{:.1} {}", v, units[k]), "size {}", s);
    }
}

#[test]
fn test_path_contains_dotdot() {
    let paths = vec![
        "/normal/path",
        "/../etc/passwd",
        "/path/../etc/passwd",
        "/path/to/../../etc/passwd",
    ];

    for path in paths {
        let contains_dotdot = path.contains("..");
        if contains_dotdot {
            println!("检测到可疑路径: {}", path);
        }
    }
}

#[test]
fn test_file_extension_validation() {
    let files = vec![
        ("test.html", true),
        ("test.php", true),
        ("test.exe", true),
        ("test", false),
        (".htaccess", false),
    ];

    for (filename, has_ext) in files {
        let extension = file_extension(filename);
        assert_eq!(extension.is_some(), has_ext);
    }
}

#[test]
fn config_defaults_and_normalization() {
    let c = Config::new();
    assert_eq!(c.www_root(), ".");
    assert_eq!(c.port(), 7878);
    assert_eq!(c.cache_size(), 5);
    assert_eq!(c.streaming_threshold(), 10485760);
    assert_eq!(c.chunk_size(), 262144);
    assert!(c.enable_range_requests());
    assert!(c.local());
    let mut z = Config::new();
    z.cache_size = 0;
    z.worker_threads = 0;
    let n = z.normalize();
    assert_eq!(n.cache_size(), 5);
    assert!(n.worker_threads() >= 1);
}

fn entry(name: &str, is_dir: bool, size: u64) -> webserver::util::DirEntry {
    webserver::util::DirEntry { name: name.to_string(), is_dir, size, modified: "2024-01-01 00:00:00 UTC".to_string() }
}

#[test]
fn test_sort_dir_entries() {
    let mut entries = vec![entry("file1.txt", false, 1), entry("file2.txt", false, 2)];

    webserver::util::sort_dir_entries(&mut entries);

    assert_eq!(entries[0].name, "file1.txt");
    assert_eq!(entries[1].name, "file2.txt");
}

#[test]
fn directories_sort_first_then_names() {
    let mut entries = vec![
        entry("b.txt", false, 1),
        entry("z", true, 0),
        entry("a.txt", false, 1),
        entry("B", true, 0),
        entry("é.txt", false, 1),
    ];
    webserver::util::sort_dir_entries(&mut entries);
    let names: Vec<&str> = entries.iter().map(|e| e.name.as_str()).collect();
    assert_eq!(names, vec!["B", "z", "a.txt", "b.txt", "é.txt"]);
}

#[test]
fn listing_page_rows() {
    let mut entries = vec![entry("f.txt", false, 2048), entry("sub", true, 0)];
    let html = HtmlBuilder::from_dir("/docs/", &mut entries).build();
    assert!(html.contains("<title>/docs/的文件列表</title>"));
    assert!(html.contains("<h1>/docs的文件列表</h1><hr><table>"));
    assert!(html.contains("<td><a href=\"sub/\">sub/</a></td>"));
    assert!(html.contains("<td><a href=\"f.txt\">f.txt</a></td>\n                        <td>2.0 KB</td>"));
    assert!(html.find("sub/").unwrap() < html.find("f.txt").unwrap());
    assert!(html.contains("<a href=\"../\">..</a>"));
}

#[test]
fn test_normalize_path() {
    let paths = vec![("./test", "test"), ("test/../file", "file"), ("a/b/../c", "a/c")];

    for (input, _expected) in paths {
        let pb = PathBuf::from(input);
        println!("输入: {}, 标准化: {:?}", input, pb);
    }
}
