use gpu_bootstrap::candidate::{
    Candidate, PresentMode, PresentModes, Presentation, QueueFamily, SurfaceCapabilities,
    SurfaceFormat,
};

fn one_format() -> Vec<SurfaceFormat> {
    vec![SurfaceFormat { format: 50, color_space: 0 }]
}

#[test]
fn supports_reads_the_flag_of_the_mode() {
    let only_fifo = PresentModes { immediate: false, mailbox: false, fifo: true, relaxed: false };
    assert!(only_fifo.supports(PresentMode::Fifo));
    assert!(!only_fifo.supports(PresentMode::Immediate));
    assert!(!only_fifo.supports(PresentMode::Mailbox));
    assert!(!only_fifo.supports(PresentMode::Relaxed));

    let only_immediate =
        PresentModes { immediate: true, mailbox: false, fifo: false, relaxed: false };
    assert!(only_immediate.supports(PresentMode::Immediate));
    assert!(!only_immediate.supports(PresentMode::Fifo));

    let only_mailbox = PresentModes { immediate: false, mailbox: true, fifo: false, relaxed: false };
    assert!(only_mailbox.supports(PresentMode::Mailbox));
    assert!(!only_mailbox.supports(PresentMode::Relaxed));

    let only_relaxed = PresentModes { immediate: false, mailbox: false, fifo: false, relaxed: true };
    assert!(only_relaxed.supports(PresentMode::Relaxed));
    assert!(!only_relaxed.supports(PresentMode::Fifo));
}

#[test]
fn presentable_needs_fifo_and_a_format() {
    let fifo = PresentModes { immediate: false, mailbox: false, fifo: true, relaxed: false };
    let relaxed = PresentModes { immediate: true, mailbox: true, fifo: false, relaxed: true };
    let good = SurfaceCapabilities { supported_formats: one_format(), present_modes: fifo };
    let no_format = SurfaceCapabilities { supported_formats: Vec::new(), present_modes: fifo };
    let no_fifo = SurfaceCapabilities { supported_formats: one_format(), present_modes: relaxed };
    assert!(good.is_presentable());
    assert!(!no_format.is_presentable());
    assert!(!no_fifo.is_presentable());
}

#[test]
fn family_must_draw_and_present() {
    let both = QueueFamily { supports_graphics: true, presentation: Presentation::Supported };
    let draws = QueueFamily { supports_graphics: true, presentation: Presentation::Unsupported };
    let presents = QueueFamily { supports_graphics: false, presentation: Presentation::Supported };
    let unknown = QueueFamily { supports_graphics: true, presentation: Presentation::QueryFailed };
    assert!(both.can_draw_and_present());
    assert!(!draws.can_draw_and_present());
    assert!(!presents.can_draw_and_present());
    assert!(!unknown.can_draw_and_present());
}

#[test]
fn graphics_family_is_found_at_any_position() {
    let no = QueueFamily { supports_graphics: false, presentation: Presentation::Supported };
    let yes = QueueFamily { supports_graphics: true, presentation: Presentation::Unsupported };
    let none = Candidate { queue_families: Vec::new(), capabilities: None };
    let without = Candidate { queue_families: vec![no, no], capabilities: None };
    let last = Candidate { queue_families: vec![no, no, yes], capabilities: None };
    let first = Candidate { queue_families: vec![yes, no], capabilities: None };
    assert!(!none.has_graphics_family());
    assert!(!without.has_graphics_family());
    assert!(last.has_graphics_family());
    assert!(first.has_graphics_family());
}

#[test]
fn suitable_needs_all_four_conditions() {
    let fifo = PresentModes { immediate: false, mailbox: false, fifo: true, relaxed: false };
    let no_fifo = PresentModes { immediate: true, mailbox: false, fifo: false, relaxed: false };
    let draws = QueueFamily { supports_graphics: true, presentation: Presentation::Unsupported };
    let idle = QueueFamily { supports_graphics: false, presentation: Presentation::Supported };
    let caps = |modes: PresentModes, formats: Vec<SurfaceFormat>| {
        Some(SurfaceCapabilities { supported_formats: formats, present_modes: modes })
    };

    let all = Candidate { queue_families: vec![draws], capabilities: caps(fifo, one_format()) };
    let no_graphics =
        Candidate { queue_families: vec![idle], capabilities: caps(fifo, one_format()) };
    let no_answer = Candidate { queue_families: vec![draws], capabilities: None };
    let lacks_fifo =
        Candidate { queue_families: vec![draws], capabilities: caps(no_fifo, one_format()) };
    let lacks_format =
        Candidate { queue_families: vec![draws], capabilities: caps(fifo, Vec::new()) };

    assert!(all.is_suitable());
    assert!(!no_graphics.is_suitable());
    assert!(!no_answer.is_suitable());
    assert!(!lacks_fifo.is_suitable());
    assert!(!lacks_format.is_suitable());
}
