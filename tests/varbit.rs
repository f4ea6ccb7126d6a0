use lidar_protocol::varbit::varbitscale_decode;

#[test]
fn test_varbitscale_decode() {
    let (value, scale_level) = varbitscale_decode(1000);
    assert_eq!(value, 1488);
    assert_eq!(scale_level, 1);
    let (value, scale_level) = varbitscale_decode(2000);
    assert_eq!(value, 5760);
    assert_eq!(scale_level, 3);
    let (value, scale_level) = varbitscale_decode(1500);
    assert_eq!(value, 2928);
    assert_eq!(scale_level, 2);
    let (value, scale_level) = varbitscale_decode(15000);
    assert_eq!(value, 203136);
    assert_eq!(scale_level, 4);
    let (value, scale_level) = varbitscale_decode(0);
    assert_eq!(value, 0);
    assert_eq!(scale_level, 0);
}

#[test]
fn varbit_band_edges() {
    assert_eq!(varbitscale_decode(511), (511, 0));
    assert_eq!(varbitscale_decode(512), (512, 1));
    assert_eq!(varbitscale_decode(1279), (2046, 1));
    assert_eq!(varbitscale_decode(1280), (2048, 2));
    assert_eq!(varbitscale_decode(1791), (4092, 2));
    assert_eq!(varbitscale_decode(1792), (4096, 3));
    assert_eq!(varbitscale_decode(3327), (16376, 3));
    assert_eq!(varbitscale_decode(3328), (16384, 4));
    assert_eq!(varbitscale_decode(4095), (28656, 4));
}

#[test]
fn varbit_monotonic_over_twelve_bits() {
    let mut last = varbitscale_decode(0);
    for s in 1..4096u32 {
        let here = varbitscale_decode(s);
        assert!(here.0 >= last.0, "value drops at {}", s);
        assert!(here.1 >= last.1, "scale level drops at {}", s);
        last = here;
    }
}
