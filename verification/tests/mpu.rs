use synthphone::mpu::{dma_region, sdram_region, DmaPlaybackConfig, DmaRecordConfig, MpuRegion};

#[test]
fn dma_region_of_one_kib() {
    let r = dma_region(0x2001_0005, 1024);
    assert_eq!(
        r,
        MpuRegion { number: 0, base: 0x2001_0000, size_field: 9, attributes: 0x030C_0013 }
    );
}

#[test]
fn dma_region_smallest_and_largest() {
    assert_eq!(dma_region(0, 32).size_field, 4);
    assert_eq!(dma_region(0, 0x8000_0000).size_field, 30);
}

#[test]
fn sdram_region_of_64_mib() {
    let r = sdram_region(0xC000_0000, 64 * 1024 * 1024);
    assert_eq!(
        r,
        MpuRegion { number: 1, base: 0xC000_0000, size_field: 25, attributes: 0x0300_0033 }
    );
}

#[test]
fn playback_config_region() {
    let c = DmaPlaybackConfig { location: 0x3000_001F, size: 256 };
    let r = c.region();
    assert_eq!(r.number, 0);
    assert_eq!(r.base, 0x3000_0000);
    assert_eq!(r.size_field, 7);
    assert_eq!(r.attributes, 0x030C_000F);
}

#[test]
fn record_config_holds_its_buffer() {
    let c = DmaRecordConfig { location: 0x3000_0000, size: 512 };
    assert_eq!(c.size, 512);
    assert_eq!(c.location, 0x3000_0000);
}
