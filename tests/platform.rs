use coop_kernel::platform::{
    interrupt, AtaInterrupts, BusKind, Color, ColorCode, DriveKind, DriveSelector,
    EmptyFrameAllocator, ExitCode, InterruptIndex, PIC1_OFFSET,
};

#[test]
fn interrupt_vectors_follow_the_controller_offset() {
    assert_eq!(InterruptIndex::Timer.as_u8(), PIC1_OFFSET);
    assert_eq!(InterruptIndex::Keyboard.as_u8(), 33);
    assert_eq!(InterruptIndex::Rtc.as_u8(), 40);
    assert_eq!(InterruptIndex::PrimaryAta.as_usize(), 46);
    assert_eq!(InterruptIndex::SecondaryAta.as_usize(), 47);
}

#[test]
fn color_codes_pack_background_high() {
    assert_eq!(Color::Yellow.value(), 14);
    assert_eq!(Color::White.value(), 15);
    assert_eq!(ColorCode::new(Color::Yellow, Color::Black), ColorCode(0x0E));
    assert_eq!(ColorCode::new(Color::Black, Color::Yellow), ColorCode(0xE0));
    assert_eq!(ColorCode::new(Color::White, Color::Blue), ColorCode(0x1F));
}

#[test]
fn drive_signatures() {
    assert_eq!(DriveKind::identify(0xEB14), Some(DriveKind::PataPi));
    assert_eq!(DriveKind::identify(0x9669), Some(DriveKind::SataPi));
    assert_eq!(DriveKind::identify(0x0000), Some(DriveKind::Pata));
    assert_eq!(DriveKind::identify(0xC33C), Some(DriveKind::Sata));
    assert_eq!(DriveKind::identify(0x1234), None);
    assert_eq!(DriveSelector::all(), vec![DriveSelector::First, DriveSelector::Second]);
}

#[test]
fn disk_interrupts_set_their_bus_flag_and_wake_the_driver() {
    let mut ata = AtaInterrupts::new();
    assert_eq!(interrupt(&mut ata, BusKind::Secondary), None);
    ata.register(BusKind::Primary, 4);
    assert_eq!(interrupt(&mut ata, BusKind::Primary), Some(4));
    assert_eq!(interrupt(&mut ata, BusKind::Primary), None);
    assert!(ata.take_flag(BusKind::Primary));
    assert!(!ata.take_flag(BusKind::Primary));
    assert!(ata.take_flag(BusKind::Secondary));
    assert_eq!(BusKind::Primary.name(), "primary");
    assert_eq!(BusKind::Secondary.name(), "secondary");
}

#[test]
fn exit_codes_and_empty_allocator() {
    assert_eq!(ExitCode::Success.code(), 0x10);
    assert_eq!(ExitCode::Failed.code(), 0x11);
    let mut a = EmptyFrameAllocator;
    assert_eq!(a.allocate_frame(), None);
}
