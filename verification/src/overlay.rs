//! The two overlay commands as step-by-step operations. The library decides
//! what to ask of the window system next; the host carries each request out
//! and hands back the reply.

use crate::style::{
    lemma_interaction_last_wins, lemma_interaction_round_trip, lemma_topmost_style,
    lemma_topmost_style_idempotent, WindowStyleFlags,
};
use crate::window::WindowHandle;
use vstd::prelude::*;

verus! {

/// Opacity given to the window when it is forced topmost: fully opaque.
pub const FULL_OPACITY: u8 = 255;

/// Milliseconds between the two restack requests of a force-topmost.
pub const RESTACK_DELAY_MS: u64 = 50;

/// Whether the platform can style windows at all.
#[derive(Clone, Copy, Debug, PartialEq, Eq, Structural)]
pub enum WindowSupport {
    /// Windows can be enumerated, styled and restacked.
    Native,
    /// No window styling here: every command is a successful no-op.
    Unsupported,
}

/// A command from the host.
#[derive(Clone, Copy, Debug, PartialEq, Eq, Structural)]
pub enum OverlayCommand {
    /// Keep the overlay visible above everything, exclusive fullscreen
    /// included.
    ForceTopmost,
    /// Let the overlay take input (`true`) or pass it to what lies beneath
    /// (`false`).
    SetInteractive { interactive: bool },
}

/// What the library asks the host to do with the window system.
#[derive(Clone, Copy, Debug, PartialEq, Eq, Structural)]
pub enum WindowRequest {
    /// Enumerate the top-level windows and report the first one that the
    /// current process owns.
    LocateSelfWindow,
    /// Read the window's extended style.
    ReadStyle { window: WindowHandle },
    /// Replace the window's extended style.
    WriteStyle { window: WindowHandle, style: WindowStyleFlags },
    /// Set the opacity of the (layered) window.
    SetOpacity { window: WindowHandle, alpha: u8 },
    /// Restack the window above all others, without moving or resizing it,
    /// and show it.
    RaiseTopmost { window: WindowHandle },
    /// Wait before the next request.
    Pause { millis: u64 },
}

/// What the host reports back after carrying out a request.
#[derive(Clone, Copy, Debug, PartialEq, Eq, Structural)]
pub enum WindowReply {
    /// Answer to `LocateSelfWindow`.
    Located { window: Option<WindowHandle> },
    /// Answer to `ReadStyle`.
    Style { style: WindowStyleFlags },
    /// A request without a result was carried out. Whether the OS honoured
    /// it is not reported: the commands have no failure path.
    Completed,
}

/// Where an operation stands: which reply it is waiting for.
#[derive(Clone, Copy, Debug, PartialEq, Eq, Structural)]
pub enum OverlayStage {
    /// The application's window is being looked for.
    Locating,
    /// The window's style is being read.
    ReadingStyle { window: WindowHandle },
    /// The edited style is being written.
    WritingStyle { window: WindowHandle },
    /// The window is being made opaque.
    SettingOpacity { window: WindowHandle },
    /// The window is being restacked for the first time.
    Raising { window: WindowHandle },
    /// The pause between the two restacks is running.
    Pausing { window: WindowHandle },
    /// The window is being restacked for the second time.
    RaisingAgain { window: WindowHandle },
    /// Nothing more is asked.
    Finished,
}

/// One command in progress.
#[derive(Clone, Copy, Debug, PartialEq, Eq, Structural)]
pub struct OverlayOperation {
    pub command: OverlayCommand,
    pub stage: OverlayStage,
}

/// An operation together with the request it makes next, if any.
#[derive(Clone, Copy, Debug, PartialEq, Eq, Structural)]
pub struct OverlayStep {
    pub operation: OverlayOperation,
    pub request: Option<WindowRequest>,
}

impl OverlayCommand {
    /// The style the command writes to a window whose style it has read as
    /// `read`.
    pub open spec fn written_style(self, read: WindowStyleFlags) -> WindowStyleFlags {
        match self {
            OverlayCommand::ForceTopmost => read.topmost_style(),
            OverlayCommand::SetInteractive { interactive } => read.interaction_style(interactive),
        }
    }
}

impl OverlayStage {
    /// An upper bound on the number of requests still to come.
    pub open spec fn rank(self) -> nat {
        match self {
            OverlayStage::Locating => 7,
            OverlayStage::ReadingStyle { .. } => 6,
            OverlayStage::WritingStyle { .. } => 5,
            OverlayStage::SettingOpacity { .. } => 4,
            OverlayStage::Raising { .. } => 3,
            OverlayStage::Pausing { .. } => 2,
            OverlayStage::RaisingAgain { .. } => 1,
            OverlayStage::Finished => 0,
        }
    }
}

impl OverlayOperation {
    /// The operation in its final stage, with nothing more to ask.
    pub open spec fn finished(self) -> OverlayStep {
        OverlayStep {
            operation: OverlayOperation { command: self.command, stage: OverlayStage::Finished },
            request: None,
        }
    }

    /// The operation moved to `stage`, asking `request`.
    pub open spec fn moved(self, stage: OverlayStage, request: WindowRequest) -> OverlayStep {
        OverlayStep {
            operation: OverlayOperation { command: self.command, stage },
            request: Some(request),
        }
    }

    /// How a command starts. Where windows can be styled the first request is
    /// to locate the application's window; elsewhere the command is over
    /// before it has asked for anything.
    pub open spec fn begun(command: OverlayCommand, support: WindowSupport) -> OverlayStep {
        let operation = OverlayOperation { command, stage: OverlayStage::Locating };
        match support {
            WindowSupport::Native => operation.moved(
                OverlayStage::Locating,
                WindowRequest::LocateSelfWindow,
            ),
            WindowSupport::Unsupported => operation.finished(),
        }
    }

    /// The transition rule: where the operation goes, and what it asks next,
    /// when `reply` comes in. A reply that does not answer the request the
    /// operation is waiting on ends the operation.
    ///
    /// With a window located, both commands read its style and write the
    /// edited style back. Force-topmost then makes the window opaque and has
    /// it restacked twice, with a pause in between, because a single restack
    /// request can be dropped. With no window located nothing more is asked.
    pub open spec fn advanced(self, reply: WindowReply) -> OverlayStep {
        match (self.stage, reply) {
            (OverlayStage::Locating, WindowReply::Located { window: Some(window) }) => self.moved(
                OverlayStage::ReadingStyle { window },
                WindowRequest::ReadStyle { window },
            ),
            (OverlayStage::ReadingStyle { window }, WindowReply::Style { style }) => self.moved(
                OverlayStage::WritingStyle { window },
                WindowRequest::WriteStyle { window, style: self.command.written_style(style) },
            ),
            (OverlayStage::WritingStyle { window }, WindowReply::Completed) => match self.command {
                OverlayCommand::ForceTopmost => self.moved(
                    OverlayStage::SettingOpacity { window },
                    WindowRequest::SetOpacity { window, alpha: FULL_OPACITY },
                ),
                OverlayCommand::SetInteractive { .. } => self.finished(),
            },
            (OverlayStage::SettingOpacity { window }, WindowReply::Completed) => self.moved(
                OverlayStage::Raising { window },
                WindowRequest::RaiseTopmost { window },
            ),
            (OverlayStage::Raising { window }, WindowReply::Completed) => self.moved(
                OverlayStage::Pausing { window },
                WindowRequest::Pause { millis: RESTACK_DELAY_MS },
            ),
            (OverlayStage::Pausing { window }, WindowReply::Completed) => self.moved(
                OverlayStage::RaisingAgain { window },
                WindowRequest::RaiseTopmost { window },
            ),
            _ => self.finished(),
        }
    }

    /// Starts `command` on a platform with the given window support.
    pub fn begin(command: OverlayCommand, support: WindowSupport) -> (step: OverlayStep)
        ensures
            step == Self::begun(command, support),
    {
        match support {
            WindowSupport::Native => OverlayStep {
                operation: OverlayOperation { command, stage: OverlayStage::Locating },
                request: Some(WindowRequest::LocateSelfWindow),
            },
            WindowSupport::Unsupported => OverlayStep {
                operation: OverlayOperation { command, stage: OverlayStage::Finished },
                request: None,
            },
        }
    }

    /// Takes the reply to the request made last and decides what comes next.
    /// The operation is over when the step carries no request.
    pub fn advance(self, reply: WindowReply) -> (step: OverlayStep)
        ensures
            step == self.advanced(reply),
            step.request is Some ==> step.operation.stage.rank() < self.stage.rank(),
            step.request is None <==> step.operation.stage is Finished,
            step.operation.command == self.command,
    {
        let command = self.command;
        let done = OverlayStep {
            operation: OverlayOperation { command, stage: OverlayStage::Finished },
            request: None,
        };
        match self.stage {
            OverlayStage::Locating => match reply {
                WindowReply::Located { window: Some(window) } => OverlayStep {
                    operation: OverlayOperation {
                        command,
                        stage: OverlayStage::ReadingStyle { window },
                    },
                    request: Some(WindowRequest::ReadStyle { window }),
                },
                _ => done,
            },
            OverlayStage::ReadingStyle { window } => match reply {
                WindowReply::Style { style } => {
                    let edited = match command {
                        OverlayCommand::ForceTopmost => style.for_topmost(),
                        OverlayCommand::SetInteractive { interactive } => style.for_interaction(
                            interactive,
                        ),
                    };
                    OverlayStep {
                        operation: OverlayOperation {
                            command,
                            stage: OverlayStage::WritingStyle { window },
                        },
                        request: Some(WindowRequest::WriteStyle { window, style: edited }),
                    }
                },
                _ => done,
            },
            OverlayStage::WritingStyle { window } => match (reply, command) {
                (WindowReply::Completed, OverlayCommand::ForceTopmost) => OverlayStep {
                    operation: OverlayOperation {
                        command,
                        stage: OverlayStage::SettingOpacity { window },
                    },
                    request: Some(WindowRequest::SetOpacity { window, alpha: FULL_OPACITY }),
                },
                _ => done,
            },
            OverlayStage::SettingOpacity { window } => match reply {
                WindowReply::Completed => OverlayStep {
                    operation: OverlayOperation { command, stage: OverlayStage::Raising { window } },
                    request: Some(WindowRequest::RaiseTopmost { window }),
                },
                _ => done,
            },
            OverlayStage::Raising { window } => match reply {
                WindowReply::Completed => OverlayStep {
                    operation: OverlayOperation { command, stage: OverlayStage::Pausing { window } },
                    request: Some(WindowRequest::Pause { millis: RESTACK_DELAY_MS }),
                },
                _ => done,
            },
            OverlayStage::Pausing { window } => match reply {
                WindowReply::Completed => OverlayStep {
                    operation: OverlayOperation {
                        command,
                        stage: OverlayStage::RaisingAgain { window },
                    },
                    request: Some(WindowRequest::RaiseTopmost { window }),
                },
                _ => done,
            },
            OverlayStage::RaisingAgain { .. } => done,
            OverlayStage::Finished => done,
        }
    }

    /// Whether the operation has nothing more to ask.
    pub fn is_finished(&self) -> (finished: bool)
        ensures
            finished == (self.stage is Finished),
    {
        match self.stage {
            OverlayStage::Finished => true,
            _ => false,
        }
    }
}

/// Starts the command that forces the overlay above every other surface.
pub fn force_topmost_over_fullscreen(support: WindowSupport) -> (step: OverlayStep)
    ensures
        step == OverlayOperation::begun(OverlayCommand::ForceTopmost, support),
{
    OverlayOperation::begin(OverlayCommand::ForceTopmost, support)
}

/// Starts the command that makes the overlay take input (`interactive`) or
/// pass it through (`!interactive`).
pub fn set_interactive(support: WindowSupport, interactive: bool) -> (step: OverlayStep)
    ensures
        step == OverlayOperation::begun(OverlayCommand::SetInteractive { interactive }, support),
{
    OverlayOperation::begin(OverlayCommand::SetInteractive { interactive }, support)
}

/// The window system as one operation meets it, for stating what a whole
/// operation amounts to: whether windows can be styled, the application's
/// window if it has one, and that window's style.
pub struct Desktop {
    pub support: WindowSupport,
    pub window: Option<WindowHandle>,
    pub style: WindowStyleFlags,
}

impl Desktop {
    /// The reply an obliging host gives to `request`.
    pub open spec fn reply_to(self, request: WindowRequest) -> WindowReply {
        match request {
            WindowRequest::LocateSelfWindow => WindowReply::Located { window: self.window },
            WindowRequest::ReadStyle { .. } => WindowReply::Style { style: self.style },
            _ => WindowReply::Completed,
        }
    }

    /// The desktop once `request` has been carried out. Only a style written
    /// to the application's window shows in it.
    pub open spec fn after(self, request: WindowRequest) -> Desktop {
        match request {
            WindowRequest::WriteStyle { window, style } => if self.window == Some(window) {
                Desktop { support: self.support, window: self.window, style }
            } else {
                self
            },
            _ => self,
        }
    }
}

/// A whole operation: the requests it made, in order, and the desktop it
/// left.
pub struct Performance {
    pub requests: Seq<WindowRequest>,
    pub desktop: Desktop,
}

/// Carries `step` through to the end on `desktop`: every request is answered
/// as the desktop stands and the reply is fed back until nothing more is
/// asked.
pub open spec fn carried_out(step: OverlayStep, desktop: Desktop) -> Performance
    decreases step.operation.stage.rank(),
{
    match step.request {
        None => Performance { requests: Seq::empty(), desktop },
        Some(request) => {
            let next = step.operation.advanced(desktop.reply_to(request));
            let changed = desktop.after(request);
            if next.operation.stage.rank() < step.operation.stage.rank() {
                let rest = carried_out(next, changed);
                Performance { requests: seq![request] + rest.requests, desktop: rest.desktop }
            } else {
                Performance { requests: seq![request], desktop: changed }
            }
        },
    }
}

/// `command` from start to end on `desktop`.
pub open spec fn performed(command: OverlayCommand, desktop: Desktop) -> Performance {
    carried_out(OverlayOperation::begun(command, desktop.support), desktop)
}

/// `command` performed `times` times in a row, each time on the desktop the
/// time before left.
pub open spec fn performed_times(command: OverlayCommand, desktop: Desktop, times: nat) -> Desktop
    decreases times,
{
    if times == 0 {
        desktop
    } else {
        performed(command, performed_times(command, desktop, (times - 1) as nat)).desktop
    }
}

/// Where windows cannot be styled a command asks for nothing and changes
/// nothing.
pub proof fn lemma_unsupported_is_noop(command: OverlayCommand, desktop: Desktop)
    requires
        desktop.support is Unsupported,
    ensures
        performed(command, desktop).requests == Seq::<WindowRequest>::empty(),
        performed(command, desktop).desktop == desktop,
{
}

/// With no window to be found a command only looks for it and changes
/// nothing.
pub proof fn lemma_no_window_is_noop(command: OverlayCommand, desktop: Desktop)
    requires
        desktop.support is Native,
        desktop.window is None,
    ensures
        performed(command, desktop).requests == seq![WindowRequest::LocateSelfWindow],
        performed(command, desktop).desktop == desktop,
{
    reveal_with_fuel(carried_out, 3);
    assert(performed(command, desktop).requests =~= seq![WindowRequest::LocateSelfWindow]);
}

/// Force-topmost on a located window: the style is read, written back
/// forced, the window is made opaque and restacked twice with the pause in
/// between. The window is left with the forced style.
pub proof fn lemma_force_topmost_performed(desktop: Desktop)
    requires
        desktop.support is Native,
        desktop.window is Some,
    ensures
        performed(OverlayCommand::ForceTopmost, desktop).requests == seq![
            WindowRequest::LocateSelfWindow,
            WindowRequest::ReadStyle { window: desktop.window->0 },
            WindowRequest::WriteStyle {
                window: desktop.window->0,
                style: desktop.style.topmost_style(),
            },
            WindowRequest::SetOpacity { window: desktop.window->0, alpha: FULL_OPACITY },
            WindowRequest::RaiseTopmost { window: desktop.window->0 },
            WindowRequest::Pause { millis: RESTACK_DELAY_MS },
            WindowRequest::RaiseTopmost { window: desktop.window->0 },
        ],
        performed(OverlayCommand::ForceTopmost, desktop).desktop == (Desktop {
            support: desktop.support,
            window: desktop.window,
            style: desktop.style.topmost_style(),
        }),
{
    reveal_with_fuel(carried_out, 9);
    let window = desktop.window->0;
    assert(performed(OverlayCommand::ForceTopmost, desktop).requests =~= seq![
        WindowRequest::LocateSelfWindow,
        WindowRequest::ReadStyle { window },
        WindowRequest::WriteStyle { window, style: desktop.style.topmost_style() },
        WindowRequest::SetOpacity { window, alpha: FULL_OPACITY },
        WindowRequest::RaiseTopmost { window },
        WindowRequest::Pause { millis: RESTACK_DELAY_MS },
        WindowRequest::RaiseTopmost { window },
    ]);
}

/// Set-interactive on a located window: the style is read and written back
/// with only input transparency edited. The window is left with that style.
pub proof fn lemma_set_interactive_performed(desktop: Desktop, interactive: bool)
    requires
        desktop.support is Native,
        desktop.window is Some,
    ensures
        performed(OverlayCommand::SetInteractive { interactive }, desktop).requests == seq![
            WindowRequest::LocateSelfWindow,
            WindowRequest::ReadStyle { window: desktop.window->0 },
            WindowRequest::WriteStyle {
                window: desktop.window->0,
                style: desktop.style.interaction_style(interactive),
            },
        ],
        performed(OverlayCommand::SetInteractive { interactive }, desktop).desktop == (Desktop {
            support: desktop.support,
            window: desktop.window,
            style: desktop.style.interaction_style(interactive),
        }),
{
    reveal_with_fuel(carried_out, 5);
    let window = desktop.window->0;
    assert(performed(OverlayCommand::SetInteractive { interactive }, desktop).requests =~= seq![
        WindowRequest::LocateSelfWindow,
        WindowRequest::ReadStyle { window },
        WindowRequest::WriteStyle { window, style: desktop.style.interaction_style(interactive) },
    ]);
}

/// What a command leaves behind, in one line: on a platform with window
/// support and with a window located, the window carries the style the
/// command writes; otherwise nothing has changed.
pub proof fn lemma_performed_desktop(command: OverlayCommand, desktop: Desktop)
    ensures
        performed(command, desktop).desktop == if desktop.support is Native
            && desktop.window is Some {
            Desktop {
                support: desktop.support,
                window: desktop.window,
                style: command.written_style(desktop.style),
            }
        } else {
            desktop
        },
{
    if desktop.support is Native {
        if desktop.window is Some {
            match command {
                OverlayCommand::ForceTopmost => lemma_force_topmost_performed(desktop),
                OverlayCommand::SetInteractive { interactive } => lemma_set_interactive_performed(
                    desktop,
                    interactive,
                ),
            }
        } else {
            lemma_no_window_is_noop(command, desktop);
        }
    } else {
        lemma_unsupported_is_noop(command, desktop);
    }
}

/// Force-topmost is idempotent: performed any number of times, at least
/// once, it leaves the desktop that performing it once leaves. Where a window
/// was located on a platform with window support, input transparency is clear
/// afterwards whatever it was before.
pub proof fn lemma_force_topmost_repeated(desktop: Desktop, times: nat)
    requires
        times >= 1,
    ensures
        performed_times(OverlayCommand::ForceTopmost, desktop, times) == performed(
            OverlayCommand::ForceTopmost,
            desktop,
        ).desktop,
        desktop.support is Native && desktop.window is Some ==> !performed_times(
            OverlayCommand::ForceTopmost,
            desktop,
            times,
        ).style.input_transparent(),
    decreases times,
{
    let command = OverlayCommand::ForceTopmost;
    lemma_performed_desktop(command, desktop);
    lemma_topmost_style(desktop.style);
    if times == 1 {
        assert(performed_times(command, desktop, 0) == desktop);
    } else {
        lemma_force_topmost_repeated(desktop, (times - 1) as nat);
        lemma_performed_desktop(command, performed(command, desktop).desktop);
        lemma_topmost_style_idempotent(desktop.style);
    }
}

/// Set-interactive with the same flag is idempotent, and of two in a row only
/// the second shows.
pub proof fn lemma_set_interactive_last_wins(desktop: Desktop, first: bool, second: bool)
    ensures
        performed(
            OverlayCommand::SetInteractive { interactive: second },
            performed(OverlayCommand::SetInteractive { interactive: first }, desktop).desktop,
        ).desktop == performed(
            OverlayCommand::SetInteractive { interactive: second },
            desktop,
        ).desktop,
{
    let one = OverlayCommand::SetInteractive { interactive: first };
    let two = OverlayCommand::SetInteractive { interactive: second };
    lemma_performed_desktop(one, desktop);
    lemma_performed_desktop(two, desktop);
    lemma_performed_desktop(two, performed(one, desktop).desktop);
    lemma_interaction_last_wins(desktop.style, first, second);
}

/// Making the overlay interactive and then non-interactive again leaves the
/// desktop as it was, provided input transparency was set at the start. (With
/// it clear at the start the second command sets it, which is the one bit
/// that then differs.)
pub proof fn lemma_set_interactive_round_trip(desktop: Desktop)
    requires
        desktop.style.input_transparent(),
    ensures
        performed(
            OverlayCommand::SetInteractive { interactive: false },
            performed(OverlayCommand::SetInteractive { interactive: true }, desktop).desktop,
        ).desktop == desktop,
{
    let on = OverlayCommand::SetInteractive { interactive: true };
    let off = OverlayCommand::SetInteractive { interactive: false };
    lemma_performed_desktop(on, desktop);
    lemma_performed_desktop(off, performed(on, desktop).desktop);
    lemma_interaction_round_trip(desktop.style);
}

/// Whatever the style was, making the overlay interactive and then
/// non-interactive again changes no bit but input transparency.
pub proof fn lemma_set_interactive_keeps_other_bits(desktop: Desktop, first: bool, second: bool)
    ensures
        performed(
            OverlayCommand::SetInteractive { interactive: second },
            performed(OverlayCommand::SetInteractive { interactive: first }, desktop).desktop,
        ).desktop.style.opaque_part() == desktop.style.opaque_part(),
{
    let one = OverlayCommand::SetInteractive { interactive: first };
    let two = OverlayCommand::SetInteractive { interactive: second };
    lemma_performed_desktop(one, desktop);
    lemma_performed_desktop(two, performed(one, desktop).desktop);
    lemma_interaction_last_wins(desktop.style, first, second);
}

} // verus!
