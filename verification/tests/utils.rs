use rustnes::mos::cpu_state::Context as CpuContext;
use rustnes::mos::Pinout;
use rustnes::nes::palette::{bound, wave, RgbColor};
use rustnes::nes::ppu::{Context as PpuContext, Pinout as PpuPinout};
use rustnes::nes::utils::average_duration::AverageDuration;
use rustnes::nes::utils::frame_limiter::FrameLimiter;
use rustnes::nes::utils::ppu_trace_logger::{self, NtscScanline, PpuDevice, PpuTraceLogger};
use rustnes::nes::utils::trace_logger::{self, CpuDevice, TraceLogger};
use rustnes::nes::utils::{AvgDuration, FrameLimit};

#[test]
fn avg_duration_averages_the_last_hundred_samples() {
    let mut avg = AvgDuration::new();
    for _ in 0..100 {
        avg.record(50);
    }
    assert_eq!(avg.average_micros(), 50);
    avg.record(150);
    assert_eq!(avg.current_micros(), 150);
    assert_eq!(avg.average_micros(), 51);
    avg.reset();
    assert_eq!(avg.average_micros(), 0);
    avg.begin();
    avg.end();
    let _ = avg.get_average_duration();
    let _ = avg.get_current_duration();
}

#[test]
fn average_duration_uses_sixty_slots() {
    let mut avg = AverageDuration::new();
    for _ in 0..60 {
        avg.update(1_000);
    }
    assert_eq!(avg.get_average_duration(), 1_000);
    avg.update(61_000);
    assert_eq!(avg.get_average_duration(), 2_000);
}

#[test]
fn average_duration_reset_keeps_the_sum() {
    let mut avg = AverageDuration::new();
    avg.update(600);
    avg.reset();
    assert_eq!(avg.get_average_duration(), 10);
}

#[test]
fn frame_limits() {
    let limit = FrameLimit::new(60);
    assert_eq!(limit.target_frame_us, 16_666);
    assert_eq!(limit.remaining_micros(10_000), 6_666);
    assert_eq!(limit.remaining_micros(20_000), 0);
    let mut limiter = FrameLimiter::new(50);
    assert_eq!(limiter.frame_nanos(), 20_000_000);
    limiter.set_rate(100);
    assert_eq!(limiter.frame_nanos(), 10_000_000);
    limiter.start();
    let _ = limiter.elapsed();
}

#[test]
fn cpu_trace_devices() {
    assert_eq!(trace_logger::address_to_device(0x07FF, true), CpuDevice::Ram);
    assert_eq!(trace_logger::address_to_device(0x2007, true), CpuDevice::Ppu);
    assert_eq!(trace_logger::address_to_device(0x4014, false), CpuDevice::PpuDma);
    assert_eq!(trace_logger::address_to_device(0x4017, true), CpuDevice::Ctrl2);
    assert_eq!(trace_logger::address_to_device(0x4017, false), CpuDevice::Apu);
    assert_eq!(trace_logger::address_to_device(0x401F, true), CpuDevice::Disabled);
    assert_eq!(trace_logger::address_to_device(0x8000, true).label(), "CART     ");
}

#[test]
fn cpu_trace_logs_until_full() {
    let mut log = TraceLogger::new();
    let mut p = Pinout::new();
    p.address = 0x1234;
    log.log(CpuContext::new(), p);
    assert_eq!(log.size(), 1);
    assert_eq!(log.entry(0).1.address, 0x1234);
    for _ in 0..trace_logger::LOG_SIZE + 5 {
        log.log(CpuContext::new(), p);
    }
    assert_eq!(log.size(), trace_logger::LOG_SIZE);
    log.clear();
    assert_eq!(log.size(), 0);
}

#[test]
fn ppu_trace_names() {
    assert_eq!(ppu_trace_logger::vpos_to_ntsc_scanline(0), NtscScanline::Render);
    assert_eq!(ppu_trace_logger::vpos_to_ntsc_scanline(240), NtscScanline::Postrender);
    assert_eq!(ppu_trace_logger::vpos_to_ntsc_scanline(250), NtscScanline::Vblank);
    assert_eq!(ppu_trace_logger::vpos_to_ntsc_scanline(261).label(), "Prerender ");
    assert_eq!(ppu_trace_logger::address_to_device(0x1FFF), PpuDevice::Chr);
    assert_eq!(ppu_trace_logger::address_to_device(0x2000).label(), "NT ");
}

#[test]
fn ppu_trace_logs() {
    let mut log = PpuTraceLogger::new();
    let mut p = PpuPinout::new();
    p.address = 0x2345;
    log.log(PpuContext::new(), p);
    log.log(PpuContext::new(), p);
    assert_eq!(log.size(), 2);
    assert_eq!(log.entry(1).1.address, 0x2345);
    log.clear();
    assert_eq!(log.size(), 0);
}

#[test]
fn palette_helpers() {
    let c = RgbColor { r: 0x12, g: 0x34, b: 0x56 };
    assert_eq!(c.merge(), 0x1234_0056);
    assert!(!wave(0, 0));
    assert!(wave(4, 0));
    assert_eq!(bound(0, 300, 255), 255);
    assert_eq!(bound(0, -3, 255), 0);
    assert_eq!(bound(0, 17, 255), 17);
}
