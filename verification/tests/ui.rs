use martini::ui::{format_size, truncate_str};

#[test]
fn test_format_size() {
    assert_eq!(format_size(1024), "1 KB");
    assert_eq!(format_size(0), "0 B");
}

#[test]
fn format_size_rounds_to_two_decimals() {
    assert_eq!(format_size(1), "1 B");
    assert_eq!(format_size(1023), "1023 B");
    assert_eq!(format_size(1536), "1.5 KB");
    assert_eq!(format_size(1152), "1.13 KB");
    assert_eq!(format_size(1048575), "1024 KB");
    assert_eq!(format_size(1048576), "1 MB");
    assert_eq!(format_size(5 * 1073741824 + 107374182), "5.1 GB");
    assert_eq!(format_size(1099511627776), "1 TB");
}

#[test]
fn format_size_beyond_a_thousand_terabytes() {
    assert_eq!(format_size(1125899906842624), "1024 TB");
    assert_eq!(format_size(1125899906842624 + 549755813888), "1024.5 TB");
    assert_eq!(format_size(u64::MAX), "16777216 TB");
    assert_eq!(format_size(1125899906842624 + 1), "1024.000000000001 TB");
    assert_eq!(format_size(1125899906842624 + 109951162778), "1024.1000000000004 TB");
    assert_eq!(format_size(1125899906842624 + 274877906944), "1024.25 TB");
}

#[test]
fn format_size_beyond_a_thousand_terabytes_agrees_with_floating_point() {
    let mut x: u64 = 0x2545_F491_4F6C_DD1D;
    for _ in 0..200_000 {
        x ^= x << 13;
        x ^= x >> 7;
        x ^= x << 17;
        let n = x | (1u64 << 50);
        assert_eq!(format_size(n), float_format_size(n), "size {}", n);
        let shift = (x % 14) as u32;
        let m = (1u64 << 50) + (x >> (14 + shift));
        assert_eq!(format_size(m), float_format_size(m), "size {}", m);
    }
    let mut k: u32 = 50;
    while k < 64 {
        let p = 1u64 << k;
        for d in [0u64, 1, 2, 3, 1023, 1024, 1025] {
            assert_eq!(format_size(p + d), float_format_size(p + d), "size {}", p + d);
            if k > 50 {
                assert_eq!(format_size(p - d), float_format_size(p - d), "size {}", p - d);
            }
        }
        k += 1;
    }
}

fn float_format_size(n: u64) -> String {
    if n == 0 {
        return "0 B".to_string();
    }
    let names = ["B", "KB", "MB", "GB", "TB"];
    let i = (n as f64).log(1024.0).floor() as usize;
    if i >= names.len() {
        return format!("{} TB", n as f64 / 1024.0f64.powi(4));
    }
    let p = 1024.0f64.powi(i as i32);
    let s = (n as f64 / p * 100.0).round() / 100.0;
    format!("{} {}", s, names[i])
}

#[test]
fn format_size_agrees_with_floating_point_rounding() {
    let mut n: u64 = 0;
    while n < 300_000 {
        assert_eq!(format_size(n), float_format_size(n), "size {}", n);
        n += 1;
    }
    let mut x: u64 = 0x9E37_79B9_7F4A_7C15;
    for _ in 0..200_000 {
        x ^= x << 13;
        x ^= x >> 7;
        x ^= x << 17;
        let n = x % (1u64 << 49);
        assert_eq!(format_size(n), float_format_size(n), "size {}", n);
    }
}

#[test]
fn truncate_str_keeps_short_labels() {
    assert_eq!(truncate_str("images/logo.svg", 35), "images/logo.svg");
    assert_eq!(truncate_str("abcdef", 6), "abcdef");
}

#[test]
fn truncate_str_keeps_the_end_of_long_labels() {
    assert_eq!(truncate_str("abcdefghij", 6), "...hij");
    assert_eq!(truncate_str("/very/long/path/to/some/directory/of/images", 20), "...rectory/of/images");
}
