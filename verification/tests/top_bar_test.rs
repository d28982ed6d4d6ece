use yad_tui::{
    components::main_screen::top_bar::TopBar,
    disk_client::{DiskMetaResponse, User},
    models::disk_meta::DiskMeta,
};

#[test]
fn test_top_bar_data_view() {
    let dmr = DiskMetaResponse {
        used_space: 89212034421,
        total_space: 1073741824000,
        user: User {
            display_name: "testuser".to_string(),
        },
    };

    let dm = DiskMeta::from(dmr);

    assert_eq!("83.09 GB".to_string(), dm.used_space_verbose());
    assert_eq!("1000.00 GB".to_string(), dm.total_space_verbose());
    assert_eq!("testuser".to_string(), dm.username);
}

fn float_text(bytes: u64) -> String {
    format!("{:.2} GB", bytes as f64 / 8.0_f64.powf(10.0))
}

#[test]
fn space_text_matches_float_formatting() {
    let mut samples: Vec<u64> = vec![
        0,
        1,
        5_368_709,
        5_368_710,
        1 << 27,
        3 << 27,
        5 << 27,
        (1 << 30) - 1,
        1 << 30,
        89212034421,
        1073741824000,
        (1 << 53) - 1,
        1 << 53,
        (1 << 53) + 1,
        (1 << 53) + 3,
        (1 << 54) + 2,
        (1 << 54) + 6,
        u64::MAX,
        u64::MAX - 1024,
        u64::MAX / 3,
    ];
    let mut x: u64 = 0x9E37_79B9_7F4A_7C15;
    for _ in 0..2000 {
        x ^= x << 13;
        x ^= x >> 7;
        x ^= x << 17;
        samples.push(x);
        samples.push(x >> 20);
        samples.push(x >> 40);
        samples.push((x >> 36) << 27);
    }
    for b in samples {
        assert_eq!(DiskMeta::space_verbose(b), float_text(b), "bytes {}", b);
    }
}

#[test]
fn free_space_saturates() {
    let dm = DiskMeta::new(10, 4, "u".to_string());
    assert_eq!(dm.free_space(), 0);
    assert_eq!(dm.free_space_verbose(), "0.00 GB");
    let dm = DiskMeta::new(1 << 30, 3 << 30, "u".to_string());
    assert_eq!(dm.free_space(), 2 << 30);
    assert_eq!(dm.free_space_verbose(), "2.00 GB");
    assert_eq!(dm.used_space(), 1 << 30);
    assert_eq!(dm.total_space(), 3 << 30);
}

#[test]
fn whole_gigabytes_end_in_two_zeros() {
    for k in [0u64, 1, 7, 12345, (1 << 23) - 1] {
        assert_eq!(DiskMeta::space_verbose(k << 30), format!("{}.00 GB", k));
    }
}

#[test]
fn top_bar_labels() {
    let bar = TopBar { disk_meta: DiskMeta::new(89212034421, 1073741824000, "testuser".to_string()) };
    assert_eq!(bar.greeting(), "Hello, testuser");
    assert_eq!(bar.total_space_label(), "Total space 1000.00 GB");
    assert_eq!(bar.used_space_label(), "Used space 83.09 GB");
}
