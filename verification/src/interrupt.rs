//! Interrupt dispatch: which vector is bound to which handler, and what
//! each handler does to the console and the keyboard decoder.
//!
//! The handlers here decide and draw; reading the keyboard data port,
//! signalling the interrupt controllers and halting the CPU are left to
//! the caller, which is told what to do by the values returned.

use crate::keyboard::{feed_outcome, key_code_name, key_code_text, DecodedKey, KeyboardDecoder};
use crate::pic::{PicPair, PIC_1_OFFSET, PIC_2_OFFSET, RESERVED_VECTORS};
use crate::writer::{decimal_text, lemma_write_chars_concat, ConsoleState, FrameBufferWriter};
use vstd::prelude::*;
use x86_64::structures::idt::InterruptStackFrameValue;
use x86_64::VirtAddr;

verus! {

/// Number of entries of the vector table.
pub const VECTOR_COUNT: usize = 256;

/// Vector of the breakpoint exception.
pub const BREAKPOINT_VECTOR: u8 = 3;

/// Vector of the invalid-opcode exception.
pub const INVALID_OPCODE_VECTOR: u8 = 6;

/// Vector of the double-fault exception.
pub const DOUBLE_FAULT_VECTOR: u8 = 8;

/// Vector of the general-protection-fault exception.
pub const GENERAL_PROTECTION_VECTOR: u8 = 13;

/// The device interrupts that this kernel handles.
#[derive(Clone, Copy, Debug, PartialEq, Eq)]
pub enum InterruptIndex {
    /// The programmable interval timer, line 0 of the primary controller.
    Timer,
    /// The keyboard, line 1 of the primary controller.
    Keyboard,
}

impl InterruptIndex {
    /// The vector on which the interrupt arrives.
    pub open spec fn vector(self) -> u8 {
        match self {
            InterruptIndex::Timer => PIC_1_OFFSET,
            InterruptIndex::Keyboard => (PIC_1_OFFSET + 1) as u8,
        }
    }

    /// The vector as a byte.
    pub fn as_u8(self) -> (v: u8)
        ensures
            v == self.vector(),
    {
        match self {
            InterruptIndex::Timer => PIC_1_OFFSET,
            InterruptIndex::Keyboard => PIC_1_OFFSET + 1,
        }
    }

    /// The vector as an index into the vector table.
    pub fn as_usize(self) -> (v: usize)
        ensures
            v == self.vector(),
    {
        let v: u8 = self.as_u8();
        v as usize
    }
}

/// The handlers that can be bound to a vector.
#[derive(Clone, Copy, Debug, PartialEq, Eq)]
pub enum Handler {
    /// Logs the stack frame; execution resumes after the trapping instruction.
    Breakpoint,
    /// Logs the stack frame and goes on.
    InvalidOpcode,
    /// Logs the stack frame and halts for good.
    DoubleFault,
    /// Logs the error code and the stack frame and goes on.
    GeneralProtectionFault,
    /// Acknowledges the timer tick.
    Timer,
    /// Decodes one scancode, prints the key and acknowledges.
    Keyboard,
}

impl Handler {
    /// Whether the handler hands control back to the interrupted code.
    pub open spec fn spec_resumes(self) -> bool {
        !(self is DoubleFault)
    }

    /// Whether the handler hands control back to the interrupted code.
    /// Only the double-fault handler does not.
    #[verifier::when_used_as_spec(spec_resumes)]
    pub fn resumes(self) -> (b: bool)
        ensures
            b == self.spec_resumes(),
            b <==> !(self is DoubleFault),
    {
        match self {
            Handler::DoubleFault => false,
            _ => true,
        }
    }
}

/// The handler that this kernel binds to a vector, if it binds one.
pub open spec fn installed_handler(vector: int) -> Option<Handler> {
    if vector == BREAKPOINT_VECTOR {
        Some(Handler::Breakpoint)
    } else if vector == INVALID_OPCODE_VECTOR {
        Some(Handler::InvalidOpcode)
    } else if vector == DOUBLE_FAULT_VECTOR {
        Some(Handler::DoubleFault)
    } else if vector == GENERAL_PROTECTION_VECTOR {
        Some(Handler::GeneralProtectionFault)
    } else if vector == InterruptIndex::Timer.vector() {
        Some(Handler::Timer)
    } else if vector == InterruptIndex::Keyboard.vector() {
        Some(Handler::Keyboard)
    } else {
        None
    }
}

/// The vector table: 256 entries, each absent or bound to a handler.
#[derive(Debug)]
pub struct InterruptVectorTable {
    entries: Vec<Option<Handler>>,
}

impl View for InterruptVectorTable {
    type V = Seq<Option<Handler>>;

    closed spec fn view(&self) -> Seq<Option<Handler>> {
        self.entries@
    }
}

impl InterruptVectorTable {
    /// The table always has its 256 entries.
    #[verifier::type_invariant]
    closed spec fn has_all_entries(self) -> bool {
        self.entries@.len() == VECTOR_COUNT
    }

    /// The table has its 256 entries.
    pub open spec fn wf(&self) -> bool {
        self@.len() == VECTOR_COUNT
    }

    /// A table with every entry absent.
    pub fn new() -> (idt: InterruptVectorTable)
        ensures
            idt.wf(),
            forall|v: int| 0 <= v < VECTOR_COUNT ==> (#[trigger] idt@[v]) is None,
    {
        let mut entries: Vec<Option<Handler>> = Vec::new();
        let mut i: usize = 0;
        while i < VECTOR_COUNT
            invariant
                i <= VECTOR_COUNT,
                entries@.len() == i,
                forall|v: int| 0 <= v < i ==> entries@[v] is None,
            decreases VECTOR_COUNT - i,
        {
            entries.push(None);
            i = i + 1;
        }
        InterruptVectorTable { entries }
    }

    /// Binds `handler` to `vector`; every other entry stays as it is.
    pub fn set_handler(&mut self, vector: u8, handler: Handler)
        ensures
            final(self).wf(),
            final(self)@ == old(self)@.update(vector as int, Some(handler)),
    {
        proof {
            use_type_invariant(&*self);
        }
        self.entries[vector as usize] = Some(handler);
    }

    /// The handler bound to `vector`, if there is one.
    pub fn handler(&self, vector: u8) -> (h: Option<Handler>)
        ensures
            self.wf(),
            h == self@[vector as int],
    {
        proof {
            use_type_invariant(self);
        }
        self.entries[vector as usize]
    }
}

/// Builds the vector table of this kernel: the breakpoint, invalid-opcode,
/// double-fault and general-protection exceptions and the timer and
/// keyboard interrupts are bound, every other vector is absent.
pub fn init_idt() -> (idt: InterruptVectorTable)
    ensures
        idt.wf(),
        forall|v: int| 0 <= v < VECTOR_COUNT ==> #[trigger] idt@[v] == installed_handler(v),
{
    let mut idt = InterruptVectorTable::new();
    idt.set_handler(BREAKPOINT_VECTOR, Handler::Breakpoint);
    idt.set_handler(DOUBLE_FAULT_VECTOR, Handler::DoubleFault);
    idt.set_handler(GENERAL_PROTECTION_VECTOR, Handler::GeneralProtectionFault);
    idt.set_handler(INVALID_OPCODE_VECTOR, Handler::InvalidOpcode);
    idt.set_handler(InterruptIndex::Timer.as_u8(), Handler::Timer);
    idt.set_handler(InterruptIndex::Keyboard.as_u8(), Handler::Keyboard);
    idt
}

/// Of the handlers that this kernel binds, the one for the double fault is
/// the only one that never hands control back.
pub proof fn lemma_only_double_fault_diverges(vector: int)
    ensures
        match installed_handler(vector) {
            Some(handler) => !handler.resumes() <==> vector == DOUBLE_FAULT_VECTOR,
            None => vector != DOUBLE_FAULT_VECTOR,
        },
{
}

/// The device interrupts arrive on vectors of the primary controller, past
/// every vector reserved for exceptions.
pub proof fn lemma_device_vectors(index: InterruptIndex)
    ensures
        index.vector() >= RESERVED_VECTORS,
        (PicPair { primary_offset: PIC_1_OFFSET, secondary_offset: PIC_2_OFFSET })
            .primary_handles(index.vector()),
        InterruptIndex::Timer.vector() == 32,
        InterruptIndex::Keyboard.vector() == 33,
        installed_handler(index.vector() as int) is Some,
{
}

/// What the CPU pushes on the stack when it enters a handler.
#[derive(Clone, Copy, Debug, PartialEq, Eq)]
pub struct StackFrame {
    /// Address of the instruction to go on with.
    pub instruction_pointer: u64,
    /// The code segment selector.
    pub code_segment: u64,
    /// The flags register before the handler was entered.
    pub cpu_flags: u64,
    /// The stack pointer at the time of the interrupt.
    pub stack_pointer: u64,
    /// The stack segment selector.
    pub stack_segment: u64,
}

/// The text that `Debug` formatting of an interrupt stack frame gives in
/// its pretty-printed form.
pub uninterp spec fn stack_frame_text(frame: StackFrame) -> Seq<char>;

/// Formats a stack frame with the `Debug` impl of
/// `x86_64::structures::idt::InterruptStackFrameValue`, pretty-printed.
/// Trusted: the text depends on the five values of the frame alone.
#[verifier::external_body]
fn format_stack_frame(frame: &StackFrame) -> (text: String)
    ensures
        text@ == stack_frame_text(*frame),
{
    let value = InterruptStackFrameValue {
        instruction_pointer: VirtAddr::new_truncate(frame.instruction_pointer),
        code_segment: frame.code_segment,
        cpu_flags: frame.cpu_flags,
        stack_pointer: VirtAddr::new_truncate(frame.stack_pointer),
        stack_segment: frame.stack_segment,
    };
    format!("{:#?}", value)
}

/// What the caller of a handler does once the handler is done.
#[derive(Clone, Copy, Debug, PartialEq, Eq)]
pub enum Continuation {
    /// Return from the interrupt; the interrupted code goes on.
    Resume,
    /// Park the CPU in an endless halt; nothing runs any more.
    Halt,
}

/// The message logged for a breakpoint.
pub open spec fn breakpoint_message(frame: StackFrame) -> Seq<char> {
    "EXCEPTION: BREAKPOINT\n Stack Frame:\n "@ + stack_frame_text(frame) + "\n"@
}

/// The message logged for a double fault.
pub open spec fn double_fault_message(frame: StackFrame) -> Seq<char> {
    "EXCEPTION: DOUBLE FAULT\n Stack Frame:\n"@ + stack_frame_text(frame) + "\n"@
}

/// The message logged for a general protection fault.
pub open spec fn general_protection_message(frame: StackFrame, error_code: u64) -> Seq<char> {
    "EXCEPTION: GENERAL PROTECTION\n Error Code: "@ + decimal_text(error_code as nat)
        + "\n Stack Frame:\n"@ + stack_frame_text(frame) + "\n"@
}

/// The message logged for an invalid opcode.
pub open spec fn invalid_opcode_message(frame: StackFrame) -> Seq<char> {
    "EXCEPTION: INVALID OPCODE\n Stack Frame:\n "@ + stack_frame_text(frame) + "\n"@
}

/// Writes a heading, the stack frame and a line feed.
fn log_frame(console: &mut FrameBufferWriter<'_>, heading: &str, frame: &StackFrame)
    ensures
        final(final(console).framebuffer)@ == final(old(console).framebuffer)@,
        final(console)@ == old(console)@.write_chars(heading@ + stack_frame_text(*frame) + "\n"@),
{
    let frame_text = format_stack_frame(frame);
    console.write_str(heading);
    console.write_str(frame_text.as_str());
    console.write_str("\n");
    proof {
        lemma_write_chars_concat(old(console)@, heading@, frame_text@);
        lemma_write_chars_concat(old(console)@, heading@ + frame_text@, "\n"@);
    }
}

/// Handles a breakpoint: logs the stack frame.  Execution resumes after
/// the trapping instruction.
pub fn breakpoint_handler(
    console: &mut FrameBufferWriter<'_>,
    stack_frame: &StackFrame,
) -> (next: Continuation)
    ensures
        final(final(console).framebuffer)@ == final(old(console).framebuffer)@,
        final(console)@ == old(console)@.write_chars(breakpoint_message(*stack_frame)),
        next is Resume,
{
    log_frame(console, "EXCEPTION: BREAKPOINT\n Stack Frame:\n ", stack_frame);
    Continuation::Resume
}

/// Handles a double fault: logs the stack frame.  A double fault is fatal;
/// the CPU is to be halted for good.
pub fn double_fault_handler(
    console: &mut FrameBufferWriter<'_>,
    stack_frame: &StackFrame,
    _error_code: u64,
) -> (next: Continuation)
    ensures
        final(final(console).framebuffer)@ == final(old(console).framebuffer)@,
        final(console)@ == old(console)@.write_chars(double_fault_message(*stack_frame)),
        next is Halt,
{
    log_frame(console, "EXCEPTION: DOUBLE FAULT\n Stack Frame:\n", stack_frame);
    Continuation::Halt
}

/// Handles a general protection fault: logs the error code and the stack
/// frame.  Execution goes on.
pub fn general_protection_handler(
    console: &mut FrameBufferWriter<'_>,
    stack_frame: &StackFrame,
    error_code: u64,
) -> (next: Continuation)
    ensures
        final(final(console).framebuffer)@ == final(old(console).framebuffer)@,
        final(console)@ == old(console)@.write_chars(
            general_protection_message(*stack_frame, error_code),
        ),
        next is Resume,
{
    let ghost start = "EXCEPTION: GENERAL PROTECTION\n Error Code: "@;
    let ghost code = decimal_text(error_code as nat);
    let ghost rest = "\n Stack Frame:\n"@ + stack_frame_text(*stack_frame) + "\n"@;
    console.write_str("EXCEPTION: GENERAL PROTECTION\n Error Code: ");
    console.write_decimal(error_code);
    log_frame(console, "\n Stack Frame:\n", stack_frame);
    proof {
        lemma_write_chars_concat(old(console)@, start, code);
        lemma_write_chars_concat(old(console)@, start + code, rest);
        assert(general_protection_message(*stack_frame, error_code) =~= start + code + rest);
    }
    Continuation::Resume
}

/// Handles an invalid opcode: logs the stack frame.  Execution goes on.
pub fn invalid_opcode_handler(
    console: &mut FrameBufferWriter<'_>,
    stack_frame: &StackFrame,
) -> (next: Continuation)
    ensures
        final(final(console).framebuffer)@ == final(old(console).framebuffer)@,
        final(console)@ == old(console)@.write_chars(invalid_opcode_message(*stack_frame)),
        next is Resume,
{
    log_frame(console, "EXCEPTION: INVALID OPCODE\n Stack Frame:\n ", stack_frame);
    Continuation::Resume
}

/// Handles a timer tick.  Nothing is done but to name the interrupt that
/// the caller acknowledges.
pub fn timer_interrupt_handler() -> (acknowledge: InterruptIndex)
    ensures
        acknowledge is Timer,
{
    InterruptIndex::Timer
}

/// The console after a decoded key is printed: a character is written as
/// it is, a key without a character by its name.
pub open spec fn key_printed(console: ConsoleState, key: DecodedKey) -> ConsoleState {
    match key {
        DecodedKey::Unicode(character) => console.write_char(character),
        DecodedKey::RawKey(code) => console.write_chars(key_code_text(code)),
    }
}

/// Prints a decoded key on the console.
pub fn print_key(console: &mut FrameBufferWriter<'_>, key: DecodedKey)
    ensures
        final(final(console).framebuffer)@ == final(old(console).framebuffer)@,
        final(console)@ == key_printed(old(console)@, key),
{
    match key {
        DecodedKey::Unicode(character) => console.write_char(character),
        DecodedKey::RawKey(code) => {
            let name = key_code_name(code);
            console.write_str(name.as_str());
        },
    }
}

/// Handles a keyboard interrupt, given the byte read from the keyboard
/// data port: the byte is fed to the decoder, and a key that it completes
/// is printed.  Returns the interrupt that the caller acknowledges.
pub fn keyboard_interrupt_handler(
    console: &mut FrameBufferWriter<'_>,
    keyboard: &mut KeyboardDecoder,
    scancode: u8,
) -> (acknowledge: InterruptIndex)
    ensures
        final(final(console).framebuffer)@ == final(old(console).framebuffer)@,
        *final(keyboard) == feed_outcome(*old(keyboard), scancode).1,
        final(console)@ == match feed_outcome(*old(keyboard), scancode).0 {
            Some(key) => key_printed(old(console)@, key),
            None => old(console)@,
        },
        acknowledge is Keyboard,
{
    match keyboard.feed(scancode) {
        Some(key) => print_key(console, key),
        None => {},
    }
    InterruptIndex::Keyboard
}

} // verus!
