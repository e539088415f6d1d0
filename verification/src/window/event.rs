//! The typed events that a handler receives, and the plain form in which the
//! platform's events reach the dispatcher.

use vstd::prelude::*;
use crate::keys::VirtualKeyCode;

verus! {

/// `PathBuf` of std: the path of a file, carried through as it came.
#[verifier::external_type_specification]
#[verifier::external_body]
pub struct ExPathBuf(std::path::PathBuf);

/// `PathBuf::clone` of std, which the derived `Clone` of the events calls.
/// Nothing is claimed of the copy.
pub assume_specification[ <std::path::PathBuf as Clone>::clone ](
    path: &std::path::PathBuf,
) -> std::path::PathBuf;

/// Which of shift, control, alt and super are held down.
#[derive(Debug, Clone, Copy, PartialEq, Eq, Structural)]
pub struct ModifierState {
    pub shift: bool,
    pub ctrl: bool,
    pub alt: bool,
    pub super_: bool,
}

/// A tick of the window's timer. `time` counts nanoseconds on the clock of
/// the event loop and is the last interval boundary that has passed;
/// `ticks_passed` counts the boundaries passed since the previous tick.
#[derive(Debug, Clone, Copy, PartialEq, Eq, Structural)]
pub struct TickEvent {
    pub ticks_passed: u32,
    pub time: u64,
}

/// A button of the mouse.
#[derive(Debug, Clone, Copy, PartialEq, Eq, Hash, Structural)]
pub enum MouseButton {
    Left,
    Right,
    Middle,
    Other(u16),
}

/// How far the wheel was turned, in lines or in pixels. Each component is
/// the bit pattern of an IEEE 754 single-precision number.
#[derive(Debug, Clone, Copy, PartialEq, Eq, Structural)]
pub enum MouseScrollDelta {
    LineDelta(u32, u32),
    PixelDelta(u32, u32),
}

/// An event as the handler sees it.
#[derive(Debug, Clone, PartialEq, Eq)]
pub enum Event {
    EventLoopStarted,
    CloseRequested,
    Suspended,
    Resumed,
    Tick(TickEvent),
    Moved(i32, i32),
    Resized(u32, u32),
    Focused(bool),
    RedrawRequested,
    ModifiersChanged(ModifierState),
    KeyPressed(VirtualKeyCode),
    KeyReleased(VirtualKeyCode),
    MouseButtonPressed(MouseButton),
    MouseButtonReleased(MouseButton),
    CursorEntered,
    CursorLeft,
    /// The cursor's position; each coordinate is the bit pattern of an
    /// IEEE 754 single-precision number.
    CursorMoved(u32, u32),
    MouseWheel(MouseScrollDelta),
    DroppedFile(std::path::PathBuf),
    HoveredFile(std::path::PathBuf),
    HoveredFileCancelled,
    ReceivedCharacter(char),
}

/// An event as the platform reports it, reduced to what the dispatcher reads.
#[derive(Debug, Clone, PartialEq, Eq)]
pub enum NativeEvent {
    /// The loop has started and no event was delivered before.
    Init,
    /// The deadline that the loop was waiting for has been reached.
    ResumeTimeReached,
    /// The loop is being torn down.
    LoopDestroyed,
    Resized(u32, u32),
    CloseRequested,
    /// A key changed state; `key` is absent where the platform knows no
    /// code for it.
    KeyboardInput { key: Option<VirtualKeyCode>, pressed: bool },
    MouseInput { button: MouseButton, pressed: bool },
    CursorEntered,
    CursorLeft,
    CursorMoved(u32, u32),
    ModifiersChanged(ModifierState),
    MouseWheel(MouseScrollDelta),
    Focused(bool),
    Moved(i32, i32),
    DroppedFile(std::path::PathBuf),
    HoveredFile(std::path::PathBuf),
    HoveredFileCancelled,
    ReceivedCharacter(char),
    RedrawRequested,
    Suspended,
    Resumed,
    /// Anything else; the dispatcher delivers nothing for it.
    Other,
}

} // verus!
