use kernel_with_bootloader::interrupt::{
    breakpoint_handler, double_fault_handler, general_protection_handler, init_idt,
    invalid_opcode_handler, keyboard_interrupt_handler, print_key, timer_interrupt_handler,
    Continuation, Handler, InterruptIndex, InterruptVectorTable, StackFrame, BREAKPOINT_VECTOR,
    DOUBLE_FAULT_VECTOR, GENERAL_PROTECTION_VECTOR, INVALID_OPCODE_VECTOR, VECTOR_COUNT,
};
use kernel_with_bootloader::setup::{InterruptSetup, OutOfOrder, SetupStage, SetupStep};
use kernel_with_bootloader::keyboard::{DecodedKey, KeyboardDecoder};
use kernel_with_bootloader::pic::{PicPair, PIC_1_OFFSET, PIC_2_OFFSET};
use kernel_with_bootloader::writer::{FrameBufferInfo, FrameBufferWriter};
use pc_keyboard::KeyCode;
use x86_64::structures::idt::InterruptStackFrameValue;
use x86_64::VirtAddr;

const WIDTH: usize = 480;
const HEIGHT: usize = 600;

fn layout() -> FrameBufferInfo {
    FrameBufferInfo { width: WIDTH, height: HEIGHT, stride: WIDTH, bytes_per_pixel: 4 }
}

fn frame() -> StackFrame {
    StackFrame {
        instruction_pointer: 0x8000_2013_6C,
        code_segment: 8,
        cpu_flags: 0x246,
        stack_pointer: 0x100_0003_FF80,
        stack_segment: 0,
    }
}

fn frame_text(frame: &StackFrame) -> String {
    let value = InterruptStackFrameValue {
        instruction_pointer: VirtAddr::new(frame.instruction_pointer),
        code_segment: frame.code_segment,
        cpu_flags: frame.cpu_flags,
        stack_pointer: VirtAddr::new(frame.stack_pointer),
        stack_segment: frame.stack_segment,
    };
    format!("{:#?}", value)
}

fn screen_after(text: &str) -> (Vec<u8>, usize, usize, usize) {
    let mut buffer = vec![0u8; WIDTH * HEIGHT * 4];
    let mut console = FrameBufferWriter::new(&mut buffer, layout());
    console.write_str(text);
    let state = (console.framebuffer.to_vec(), console.x_pos, console.y_pos, console.line_pos);
    state
}

fn state_of(console: &FrameBufferWriter) -> (Vec<u8>, usize, usize, usize) {
    (console.framebuffer.to_vec(), console.x_pos, console.y_pos, console.line_pos)
}

#[test]
fn pic_offsets_and_device_vectors() {
    assert_eq!(PIC_1_OFFSET, 32);
    assert_eq!(PIC_2_OFFSET, 40);
    let pics = PicPair::contiguous(32).unwrap();
    assert_eq!(pics.primary_offset, 32);
    assert_eq!(pics.secondary_offset, 40);
    assert_eq!(PicPair::remapped(), pics);
    assert_eq!(InterruptIndex::Timer.as_u8(), 32);
    assert_eq!(InterruptIndex::Keyboard.as_u8(), 33);
    assert_eq!(InterruptIndex::Timer.as_usize(), 32);
    assert_eq!(InterruptIndex::Keyboard.as_usize(), 33);
}

#[test]
fn pic_offsets_must_differ_by_eight_and_clear_the_exceptions() {
    assert_eq!(
        PicPair::new(32, 40),
        Some(PicPair { primary_offset: 32, secondary_offset: 40 })
    );
    assert_eq!(
        PicPair::new(239, 247),
        Some(PicPair { primary_offset: 239, secondary_offset: 247 })
    );
    assert_eq!(PicPair::new(31, 39), None);
    assert_eq!(PicPair::new(0, 8), None);
    assert_eq!(PicPair::new(32, 41), None);
    assert_eq!(PicPair::new(32, 39), None);
    assert_eq!(PicPair::new(40, 32), None);
    assert_eq!(PicPair::new(32, 32), None);
    assert_eq!(PicPair::new(240, 248), None);
    assert_eq!(PicPair::new(248, 0), None);
    assert_eq!(PicPair::new(255, 7), None);
    assert_eq!(PicPair::contiguous(31), None);
    assert_eq!(PicPair::contiguous(240), None);
    assert_eq!(PicPair::contiguous(255), None);
    assert_eq!(
        PicPair::contiguous(239),
        Some(PicPair { primary_offset: 239, secondary_offset: 247 })
    );
}

#[test]
fn pic_pair_handles_its_sixteen_vectors() {
    let pics = PicPair::remapped();
    for vector in 0u8..=255 {
        assert_eq!(pics.handles_interrupt(vector), (32..48).contains(&vector));
    }
    assert!(pics.handles_interrupt(InterruptIndex::Timer.as_u8()));
    assert!(pics.handles_interrupt(InterruptIndex::Keyboard.as_u8()));
}

#[test]
fn empty_table_binds_nothing() {
    let idt = InterruptVectorTable::new();
    for vector in 0u8..=255 {
        assert_eq!(idt.handler(vector), None);
    }
}

#[test]
fn set_handler_binds_one_vector() {
    let mut idt = InterruptVectorTable::new();
    idt.set_handler(255, Handler::Timer);
    idt.set_handler(0, Handler::Breakpoint);
    idt.set_handler(0, Handler::Keyboard);
    for vector in 0u8..=255 {
        let expected = match vector {
            0 => Some(Handler::Keyboard),
            255 => Some(Handler::Timer),
            _ => None,
        };
        assert_eq!(idt.handler(vector), expected);
    }
}

#[test]
fn init_idt_binds_the_six_handlers() {
    assert_eq!(VECTOR_COUNT, 256);
    assert_eq!(BREAKPOINT_VECTOR, 3);
    assert_eq!(INVALID_OPCODE_VECTOR, 6);
    assert_eq!(DOUBLE_FAULT_VECTOR, 8);
    assert_eq!(GENERAL_PROTECTION_VECTOR, 13);
    let idt = init_idt();
    for vector in 0u8..=255 {
        let expected = match vector {
            3 => Some(Handler::Breakpoint),
            6 => Some(Handler::InvalidOpcode),
            8 => Some(Handler::DoubleFault),
            13 => Some(Handler::GeneralProtectionFault),
            32 => Some(Handler::Timer),
            33 => Some(Handler::Keyboard),
            _ => None,
        };
        assert_eq!(idt.handler(vector), expected);
    }
}

#[test]
fn only_the_double_fault_handler_never_resumes() {
    assert!(Handler::Breakpoint.resumes());
    assert!(Handler::InvalidOpcode.resumes());
    assert!(Handler::GeneralProtectionFault.resumes());
    assert!(Handler::Timer.resumes());
    assert!(Handler::Keyboard.resumes());
    assert!(!Handler::DoubleFault.resumes());
    let idt = init_idt();
    for vector in 0u8..=255 {
        if let Some(handler) = idt.handler(vector) {
            assert_eq!(!handler.resumes(), vector == 8);
        }
    }
}

#[test]
fn setup_steps_come_in_one_order() {
    let stage = SetupStage::Start;
    assert_eq!(stage.next_step(), Some(SetupStep::LoadTable));
    let stage = stage.advance(SetupStep::LoadTable).unwrap();
    assert_eq!(stage, SetupStage::TableLoaded);
    assert_eq!(stage.next_step(), Some(SetupStep::RemapPics));
    let stage = stage.advance(SetupStep::RemapPics).unwrap();
    assert_eq!(stage, SetupStage::PicsRemapped);
    assert_eq!(stage.next_step(), Some(SetupStep::EnableInterrupts));
    let stage = stage.advance(SetupStep::EnableInterrupts).unwrap();
    assert_eq!(stage, SetupStage::InterruptsEnabled);
    assert_eq!(stage.next_step(), None);
}

#[test]
fn steps_out_of_order_are_refused() {
    let stages = [
        SetupStage::Start,
        SetupStage::TableLoaded,
        SetupStage::PicsRemapped,
        SetupStage::InterruptsEnabled,
    ];
    let steps = [SetupStep::LoadTable, SetupStep::RemapPics, SetupStep::EnableInterrupts];
    for (i, stage) in stages.iter().enumerate() {
        for (j, step) in steps.iter().enumerate() {
            let expected = if i == j {
                Ok(stages[i + 1])
            } else {
                Err(OutOfOrder { stage: *stage, step: *step })
            };
            assert_eq!(stage.advance(*step), expected);
        }
    }
}

#[test]
fn interrupts_cannot_be_enabled_before_the_table_is_loaded() {
    let mut setup = InterruptSetup::new();
    assert_eq!(setup.stage(), SetupStage::Start);
    assert!(!setup.interrupts_enabled());
    assert_eq!(
        setup.advance(SetupStep::EnableInterrupts),
        Err(OutOfOrder { stage: SetupStage::Start, step: SetupStep::EnableInterrupts })
    );
    assert_eq!(setup.stage(), SetupStage::Start);
    assert_eq!(
        setup.advance(SetupStep::RemapPics),
        Err(OutOfOrder { stage: SetupStage::Start, step: SetupStep::RemapPics })
    );
    assert_eq!(setup.advance(SetupStep::LoadTable), Ok(()));
    assert_eq!(
        setup.advance(SetupStep::EnableInterrupts),
        Err(OutOfOrder { stage: SetupStage::TableLoaded, step: SetupStep::EnableInterrupts })
    );
    assert_eq!(
        setup.advance(SetupStep::LoadTable),
        Err(OutOfOrder { stage: SetupStage::TableLoaded, step: SetupStep::LoadTable })
    );
    assert_eq!(setup.stage(), SetupStage::TableLoaded);
    assert!(!setup.interrupts_enabled());
    assert_eq!(setup.advance(SetupStep::RemapPics), Ok(()));
    assert!(!setup.interrupts_enabled());
    assert_eq!(setup.advance(SetupStep::EnableInterrupts), Ok(()));
    assert!(setup.interrupts_enabled());
    assert_eq!(setup.stage(), SetupStage::InterruptsEnabled);
    assert_eq!(
        setup.advance(SetupStep::LoadTable),
        Err(OutOfOrder { stage: SetupStage::InterruptsEnabled, step: SetupStep::LoadTable })
    );
    assert!(setup.interrupts_enabled());
}

#[test]
fn setup_holds_the_table_and_the_offsets_throughout() {
    let mut setup = InterruptSetup::new();
    let expected = init_idt();
    for step in [SetupStep::LoadTable, SetupStep::RemapPics, SetupStep::EnableInterrupts] {
        for vector in 0u8..=255 {
            assert_eq!(setup.idt().handler(vector), expected.handler(vector));
        }
        assert_eq!(setup.pics(), PicPair { primary_offset: 32, secondary_offset: 40 });
        assert_eq!(setup.advance(step), Ok(()));
    }
    assert_eq!(setup.idt().handler(8), Some(Handler::DoubleFault));
    assert_eq!(setup.pics(), PicPair::remapped());
}

#[test]
fn breakpoint_is_logged_and_resumes() {
    let mut buffer = vec![0u8; WIDTH * HEIGHT * 4];
    let mut console = FrameBufferWriter::new(&mut buffer, layout());
    let next = breakpoint_handler(&mut console, &frame());
    assert_eq!(next, Continuation::Resume);
    let text = format!("EXCEPTION: BREAKPOINT\n Stack Frame:\n {}\n", frame_text(&frame()));
    assert!(text.contains("instruction_pointer: VirtAddr(\n        0x800020136c,\n    )"));
    assert_eq!(state_of(&console), screen_after(&text));
    // the whole message is on the screen: nothing was cleared on the way
    assert_eq!(console.line_pos, text.matches('\n').count());
}

#[test]
fn double_fault_is_logged_and_halts() {
    let mut buffer = vec![0u8; WIDTH * HEIGHT * 4];
    let mut console = FrameBufferWriter::new(&mut buffer, layout());
    let next = double_fault_handler(&mut console, &frame(), 0);
    assert_eq!(next, Continuation::Halt);
    let text = format!("EXCEPTION: DOUBLE FAULT\n Stack Frame:\n{}\n", frame_text(&frame()));
    assert_eq!(state_of(&console), screen_after(&text));
}

#[test]
fn general_protection_fault_is_logged_with_its_error_code() {
    let mut buffer = vec![0u8; WIDTH * HEIGHT * 4];
    let mut console = FrameBufferWriter::new(&mut buffer, layout());
    let next = general_protection_handler(&mut console, &frame(), 4660);
    assert_eq!(next, Continuation::Resume);
    let text = format!(
        "EXCEPTION: GENERAL PROTECTION\n Error Code: {:#?}\n Stack Frame:\n{}\n",
        4660u64,
        frame_text(&frame())
    );
    assert!(text.starts_with("EXCEPTION: GENERAL PROTECTION\n Error Code: 4660\n"));
    assert_eq!(state_of(&console), screen_after(&text));
}

#[test]
fn invalid_opcode_is_logged_and_resumes() {
    let mut buffer = vec![0u8; WIDTH * HEIGHT * 4];
    let mut console = FrameBufferWriter::new(&mut buffer, layout());
    console.write_str("before\n");
    let next = invalid_opcode_handler(&mut console, &frame());
    assert_eq!(next, Continuation::Resume);
    let text =
        format!("before\nEXCEPTION: INVALID OPCODE\n Stack Frame:\n {}\n", frame_text(&frame()));
    assert_eq!(state_of(&console), screen_after(&text));
}

#[test]
fn stack_frames_that_differ_are_logged_differently() {
    let mut other = frame();
    other.cpu_flags = 0x202;
    let mut buffer = vec![0u8; WIDTH * HEIGHT * 4];
    let mut console = FrameBufferWriter::new(&mut buffer, layout());
    breakpoint_handler(&mut console, &other);
    let mut buffer2 = vec![0u8; WIDTH * HEIGHT * 4];
    let mut console2 = FrameBufferWriter::new(&mut buffer2, layout());
    breakpoint_handler(&mut console2, &frame());
    assert_ne!(console.framebuffer.to_vec(), console2.framebuffer.to_vec());
}

#[test]
fn timer_tick_is_acknowledged_only() {
    assert_eq!(timer_interrupt_handler(), InterruptIndex::Timer);
    assert_eq!(timer_interrupt_handler().as_u8(), 32);
}

#[test]
fn decoded_character_is_printed() {
    let mut buffer = vec![0u8; WIDTH * HEIGHT * 4];
    let mut console = FrameBufferWriter::new(&mut buffer, layout());
    print_key(&mut console, DecodedKey::Unicode('x'));
    print_key(&mut console, DecodedKey::Unicode('\n'));
    print_key(&mut console, DecodedKey::Unicode('y'));
    assert_eq!(state_of(&console), screen_after("x\ny"));
}

#[test]
fn raw_key_is_printed_by_name() {
    let mut buffer = vec![0u8; WIDTH * HEIGHT * 4];
    let mut console = FrameBufferWriter::new(&mut buffer, layout());
    print_key(&mut console, DecodedKey::RawKey(KeyCode::ArrowUp));
    assert_eq!(state_of(&console), screen_after("ArrowUp"));
    print_key(&mut console, DecodedKey::RawKey(KeyCode::F12));
    assert_eq!(state_of(&console), screen_after("ArrowUpF12"));
}

#[test]
fn keyboard_interrupt_prints_the_key_and_names_its_vector() {
    let mut buffer = vec![0u8; WIDTH * HEIGHT * 4];
    let mut console = FrameBufferWriter::new(&mut buffer, layout());
    let mut keyboard = KeyboardDecoder::new();
    // 'h' down and up, 'i' down and up
    for scancode in [0x23u8, 0xA3, 0x17, 0x97] {
        let acknowledge = keyboard_interrupt_handler(&mut console, &mut keyboard, scancode);
        assert_eq!(acknowledge, InterruptIndex::Keyboard);
        assert_eq!(acknowledge.as_u8(), 33);
    }
    assert_eq!(state_of(&console), screen_after("hi"));
}

#[test]
fn keyboard_interrupt_keeps_decoder_state_between_bytes() {
    let mut buffer = vec![0u8; WIDTH * HEIGHT * 4];
    let mut console = FrameBufferWriter::new(&mut buffer, layout());
    let mut keyboard = KeyboardDecoder::new();
    // left shift down, 'a' down, 'a' up, left shift up, 'a' down, extended arrow left
    for scancode in [0x2Au8, 0x1E, 0x9E, 0xAA, 0x1E, 0xE0, 0x4B] {
        keyboard_interrupt_handler(&mut console, &mut keyboard, scancode);
    }
    assert_eq!(state_of(&console), screen_after("AaArrowLeft"));
}

#[test]
fn keyboard_interrupt_without_a_key_draws_nothing() {
    let mut buffer = vec![0u8; WIDTH * HEIGHT * 4];
    let mut console = FrameBufferWriter::new(&mut buffer, layout());
    let mut keyboard = KeyboardDecoder::new();
    for scancode in [0x9Eu8, 0xE0, 0xFF, 0x00, 0x2A, 0x1D] {
        keyboard_interrupt_handler(&mut console, &mut keyboard, scancode);
    }
    assert_eq!(state_of(&console), screen_after(""));
}
