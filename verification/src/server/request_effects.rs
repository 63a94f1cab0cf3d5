//! What each request brings with it: the hooks that run before and after it, and what has to be
//! laid out, drawn and told anew.

use vstd::prelude::*;

verus! {

/// A request to the server.
#[derive(Clone, Copy, PartialEq, Eq, Structural, Debug)]
pub enum Request {
    NewWindow,
    NewWindowPrint,
    SplitWindow,
    SplitWindowPrint,
    KillPane,
    KillPaneById,
    FocusWindow,
    FocusWindowByName,
    FocusWindowById,
    FocusPane,
    FocusPaneByIndex,
    FocusPaneCmd,
    ClientAttach,
    ClientDetach,
    ForceDetachClient,
    ForceDetachClientByTty,
    DetachAllOtherClients,
    DetachAllClients,
    SendText,
    SendKey,
    SendPaste,
    SendKeys,
    ZoomPane,
    CopyEnter,
    CopyYank,
    CopyEnterPageUp,
    ClockMode,
    ClientSize,
    FocusWindowCmd,
    PaneForwardExtract,
    MouseDown,
    PaneMouse,
    PaneScroll,
    SplitSetSizes,
    MouseDownRight,
    MouseDownMiddle,
    MouseDrag,
    MouseUp,
    MouseUpRight,
    MouseUpMiddle,
    MouseMove,
    ScrollUp,
    ScrollDown,
    SplitResizeDone,
    SetOptionOnlyIfUnset,
    NextWindow,
    PrevWindow,
    SelectWindow,
    RenameWindow,
    SetPaneTitle,
    LastPane,
    SelectPane,
    KillWindow,
    RenameSession,
    ClaimSession,
    SwapPane,
    ResizePane,
    ResizePaneAbsolute,
    ResizePanePercent,
    DisplayMessage,
    SwitchClient,
    DisplayMenu,
    DisplayMenuDirect,
    OverlayClose,
    ConfirmRespond,
    MenuSelect,
    MenuNavigate,
    ShowPromptHistory,
    CustomizeNavigate,
    CustomizeEdit,
    CustomizeEditUpdate,
    CustomizeEditConfirm,
    CustomizeEditCancel,
    CustomizeResetDefault,
    CustomizeFilter,
    LastWindow,
    RotateWindow,
    PrefixBegin,
    PrefixEnd,
    DisplayPanes,
    SetSessionGroup,
    SwitchClientTable,
    LockClient,
    SuspendClient,
    DisplayPopup,
    ConfirmBefore,
    CommandPrompt,
    RespawnWindow,
    PopupInput,
    ShowTextPopup,
    StatusMessage,
    CustomizeMode,
    DisplayPaneSelect,
    BindKey,
    UnbindKey,
    UnbindAll,
    UnbindAllInTable,
    SetOption,
    SetOptionQuiet,
    RefreshClient,
    BreakPane,
    JoinPane,
    MovePane,
    PaneForwardInject,
    RespawnPane,
    SourceFile,
    LinkWindow,
    UnlinkWindow,
    SelectLayout,
    NextLayout,
    PrevLayout,
    FocusIn,
    FocusOut,
    ControlClientResize,
    CopyMove,
    CopyAnchor,
    CopyRectToggle,
    ToggleSync,
    SetPaneStyle,
    SendKeysX,
    SetBuffer,
    SetNamedBuffer,
    DeleteBuffer,
    DeleteBufferAt,
    DeleteNamedBuffer,
    PasteBufferAt,
    PaneForwardResize,
    PaneForwardKill,
    SetOptionUnset,
    SetOptionAppend,
    MoveWindow,
    SwapWindow,
    PipePane,
    CopyModePageUp,
    ClearHistory,
    SaveBuffer,
    LoadBuffer,
    SetEnvironment,
    UnsetEnvironment,
    ReplaceHook,
    AppendHook,
    RemoveHook,
    WaitFor,
    SendPrefix,
    ResizeWindow,
    ClearPromptHistory,
    ControlRegister,
    ControlSubscribe,
    ControlUnsubscribe,
    ControlSetPauseAfter,
    ControlContinuePane,
    ControlDeregister,
    RunCommand,
    FocusWindowTemp,
    FocusWindowByNameTemp,
    FocusWindowByIdTemp,
    FocusPaneTemp,
    FocusPaneByIndexTemp,
    CapturePane,
    CapturePaneStyled,
    CapturePaneRange,
    SessionInfo,
    SessionInfoFormat,
    DumpLayout,
    DumpState,
    ListWindows,
    ListWindowsTmux,
    ListWindowsFormat,
    ListTree,
    WindowLayout,
    WindowDump,
    ListPanes,
    ListPanesFormat,
    ListAllPanes,
    ListAllPanesFormat,
    HasSession,
    ListBuffers,
    ListBuffersFormat,
    ShowBuffer,
    ShowBufferAt,
    ShowNamedBuffer,
    PaneForwardStatus,
    ListKeys,
    ShowOptions,
    FindWindow,
    ListClients,
    ListClientsFormat,
    ListCommands,
    ShowEnvironment,
    ShowHooks,
    ShowOptionValue,
    ShowWindowOptionValue,
    ShowWindowOptions,
    ChooseBuffer,
    ServerInfo,
    ShowMessages,
    KillSession,
    KillServer,
}

/// An event that hooks run at.
#[derive(Clone, Copy, PartialEq, Eq, Structural, Debug)]
pub enum Event {
    BeforeNewWindow,
    AfterNewWindow,
    BeforeSplitWindow,
    AfterSplitWindow,
    BeforeKillPane,
    AfterKillPane,
    AfterSelectWindow,
    ClientAttached,
    ClientDetached,
    AfterResizePane,
    PaneModeChanged,
    ClientResized,
    BeforeSelectWindow,
    BeforeRenameWindow,
    AfterRenameWindow,
    BeforeSelectPane,
    AfterSelectPane,
    WindowClosed,
    BeforeRenameSession,
    AfterRenameSession,
    AfterSwapPane,
    AfterRotateWindow,
    AfterBreakPane,
    AfterJoinPane,
    AfterRespawnPane,
    WindowLinked,
    WindowUnlinked,
    PaneFocusIn,
    PaneFocusOut,
}

/// What a request brings with it.
#[derive(Clone, Copy, PartialEq, Eq, Structural, Debug)]
pub struct Effects {
    /// The hooks that run before it.
    pub before: Option<Event>,
    /// The hooks that run after it.
    pub after: Option<Event>,
    /// A pane that is shown alone is shown among the others again.
    pub unzoom: bool,
    /// The panes are laid out anew.
    pub resize: bool,
    /// The windows, the tree and the keys are described anew.
    pub meta_dirty: bool,
    /// What is shown has changed.
    pub state_dirty: bool,
    /// The echo of keys is awaited.
    pub awaits_echo: bool,
}

/// No effects.
pub open spec fn no_effects() -> Effects {
    Effects {
        before: None,
        after: None,
        unzoom: false,
        resize: false,
        meta_dirty: false,
        state_dirty: false,
        awaits_echo: false,
    }
}

/// The name of an event, under which its hooks are kept.
pub open spec fn event_text(e: Event) -> Seq<char> {
    match e {
        Event::BeforeNewWindow => "before-new-window"@,
        Event::AfterNewWindow => "after-new-window"@,
        Event::BeforeSplitWindow => "before-split-window"@,
        Event::AfterSplitWindow => "after-split-window"@,
        Event::BeforeKillPane => "before-kill-pane"@,
        Event::AfterKillPane => "after-kill-pane"@,
        Event::AfterSelectWindow => "after-select-window"@,
        Event::ClientAttached => "client-attached"@,
        Event::ClientDetached => "client-detached"@,
        Event::AfterResizePane => "after-resize-pane"@,
        Event::PaneModeChanged => "pane-mode-changed"@,
        Event::ClientResized => "client-resized"@,
        Event::BeforeSelectWindow => "before-select-window"@,
        Event::BeforeRenameWindow => "before-rename-window"@,
        Event::AfterRenameWindow => "after-rename-window"@,
        Event::BeforeSelectPane => "before-select-pane"@,
        Event::AfterSelectPane => "after-select-pane"@,
        Event::WindowClosed => "window-closed"@,
        Event::BeforeRenameSession => "before-rename-session"@,
        Event::AfterRenameSession => "after-rename-session"@,
        Event::AfterSwapPane => "after-swap-pane"@,
        Event::AfterRotateWindow => "after-rotate-window"@,
        Event::AfterBreakPane => "after-break-pane"@,
        Event::AfterJoinPane => "after-join-pane"@,
        Event::AfterRespawnPane => "after-respawn-pane"@,
        Event::WindowLinked => "window-linked"@,
        Event::WindowUnlinked => "window-unlinked"@,
        Event::PaneFocusIn => "pane-focus-in"@,
        Event::PaneFocusOut => "pane-focus-out"@,
    }
}

/// The name of an event, under which its hooks are kept.
pub fn event_name(e: Event) -> (r: &'static str)
    ensures
        r@ == event_text(e),
{
    match e {
        Event::BeforeNewWindow => "before-new-window",
        Event::AfterNewWindow => "after-new-window",
        Event::BeforeSplitWindow => "before-split-window",
        Event::AfterSplitWindow => "after-split-window",
        Event::BeforeKillPane => "before-kill-pane",
        Event::AfterKillPane => "after-kill-pane",
        Event::AfterSelectWindow => "after-select-window",
        Event::ClientAttached => "client-attached",
        Event::ClientDetached => "client-detached",
        Event::AfterResizePane => "after-resize-pane",
        Event::PaneModeChanged => "pane-mode-changed",
        Event::ClientResized => "client-resized",
        Event::BeforeSelectWindow => "before-select-window",
        Event::BeforeRenameWindow => "before-rename-window",
        Event::AfterRenameWindow => "after-rename-window",
        Event::BeforeSelectPane => "before-select-pane",
        Event::AfterSelectPane => "after-select-pane",
        Event::WindowClosed => "window-closed",
        Event::BeforeRenameSession => "before-rename-session",
        Event::AfterRenameSession => "after-rename-session",
        Event::AfterSwapPane => "after-swap-pane",
        Event::AfterRotateWindow => "after-rotate-window",
        Event::AfterBreakPane => "after-break-pane",
        Event::AfterJoinPane => "after-join-pane",
        Event::AfterRespawnPane => "after-respawn-pane",
        Event::WindowLinked => "window-linked",
        Event::WindowUnlinked => "window-unlinked",
        Event::PaneFocusIn => "pane-focus-in",
        Event::PaneFocusOut => "pane-focus-out",
    }
}

/// What a request brings with it. `took` tells whether it found what it is about: a window or a
/// client that is there, a pane to go to, a mouse that is heeded, an option that is not set yet,
/// something to close or to choose. Whether the panes are laid out anew once a client is gone is
/// told where it is taken away.
pub open spec fn effects_of(r: Request, took: bool) -> Effects {
    match r {
        Request::NewWindow | Request::NewWindowPrint => Effects { before: Some(Event::BeforeNewWindow), after: Some(Event::AfterNewWindow), resize: true, meta_dirty: true, ..no_effects() },
        Request::SplitWindow | Request::SplitWindowPrint => Effects { before: Some(Event::BeforeSplitWindow), after: Some(Event::AfterSplitWindow), unzoom: true, resize: true, meta_dirty: true, ..no_effects() },
        Request::KillPane | Request::KillPaneById => Effects { before: Some(Event::BeforeKillPane), after: Some(Event::AfterKillPane), unzoom: true, resize: true, meta_dirty: true, ..no_effects() },
        Request::FocusWindow | Request::FocusWindowByName | Request::FocusWindowById => Effects { after: Some(Event::AfterSelectWindow), resize: took, meta_dirty: true, ..no_effects() },
        Request::FocusPane | Request::FocusPaneByIndex | Request::FocusPaneCmd => Effects { unzoom: took, meta_dirty: true, ..no_effects() },
        Request::ClientAttach => Effects { after: Some(Event::ClientAttached), ..no_effects() },
        Request::ClientDetach | Request::ForceDetachClient => Effects { after: Some(Event::ClientDetached), ..no_effects() },
        Request::ForceDetachClientByTty | Request::DetachAllOtherClients | Request::DetachAllClients => Effects { after: if took { Some(Event::ClientDetached) } else { None }, ..no_effects() },
        Request::SendText | Request::SendKey | Request::SendPaste | Request::SendKeys => Effects { awaits_echo: true, ..no_effects() },
        Request::ZoomPane => Effects { after: Some(Event::AfterResizePane), meta_dirty: true, state_dirty: true, ..no_effects() },
        Request::CopyEnter | Request::CopyYank => Effects { after: Some(Event::PaneModeChanged), ..no_effects() },
        Request::CopyEnterPageUp => Effects { after: if took { Some(Event::PaneModeChanged) } else { None }, awaits_echo: !took, ..no_effects() },
        Request::ClockMode => Effects { after: Some(Event::PaneModeChanged), state_dirty: true, ..no_effects() },
        Request::ClientSize => Effects { after: Some(Event::ClientResized), resize: true, ..no_effects() },
        Request::FocusWindowCmd | Request::PaneForwardExtract => Effects { resize: true, meta_dirty: true, ..no_effects() },
        Request::MouseDown | Request::PaneMouse | Request::PaneScroll | Request::SplitSetSizes => Effects { meta_dirty: took, state_dirty: took, awaits_echo: took, ..no_effects() },
        Request::MouseDownRight | Request::MouseDownMiddle | Request::MouseDrag | Request::MouseUp | Request::MouseUpRight | Request::MouseUpMiddle | Request::MouseMove | Request::ScrollUp | Request::ScrollDown => Effects { state_dirty: took, awaits_echo: took, ..no_effects() },
        Request::SplitResizeDone | Request::SetOptionOnlyIfUnset => Effects { meta_dirty: took, state_dirty: took, ..no_effects() },
        Request::NextWindow | Request::PrevWindow | Request::SelectWindow => Effects { before: Some(Event::BeforeSelectWindow), after: Some(Event::AfterSelectWindow), resize: took, meta_dirty: true, ..no_effects() },
        Request::RenameWindow => Effects { before: Some(Event::BeforeRenameWindow), after: Some(Event::AfterRenameWindow), meta_dirty: true, ..no_effects() },
        Request::SetPaneTitle | Request::LastPane => Effects { meta_dirty: true, ..no_effects() },
        Request::SelectPane => Effects { before: Some(Event::BeforeSelectPane), after: Some(Event::AfterSelectPane), meta_dirty: true, ..no_effects() },
        Request::KillWindow => Effects { after: Some(Event::WindowClosed), ..no_effects() },
        Request::RenameSession => Effects { before: Some(Event::BeforeRenameSession), after: Some(Event::AfterRenameSession), ..no_effects() },
        Request::ClaimSession => Effects { after: Some(Event::AfterRenameSession), resize: true, meta_dirty: true, state_dirty: true, ..no_effects() },
        Request::SwapPane => Effects { after: Some(Event::AfterSwapPane), unzoom: true, ..no_effects() },
        Request::ResizePane => Effects { after: Some(Event::AfterResizePane), unzoom: true, resize: true, meta_dirty: true, ..no_effects() },
        Request::ResizePaneAbsolute | Request::ResizePanePercent => Effects { after: Some(Event::AfterResizePane), unzoom: true, resize: true, ..no_effects() },
        Request::DisplayMessage | Request::SwitchClient | Request::DisplayMenu | Request::DisplayMenuDirect | Request::OverlayClose | Request::ConfirmRespond | Request::MenuSelect | Request::MenuNavigate | Request::ShowPromptHistory | Request::CustomizeNavigate | Request::CustomizeEdit | Request::CustomizeEditUpdate | Request::CustomizeEditConfirm | Request::CustomizeEditCancel | Request::CustomizeResetDefault | Request::CustomizeFilter => Effects { state_dirty: took, ..no_effects() },
        Request::LastWindow => Effects { after: Some(Event::AfterSelectWindow), meta_dirty: true, ..no_effects() },
        Request::RotateWindow => Effects { after: Some(Event::AfterRotateWindow), ..no_effects() },
        Request::PrefixBegin | Request::PrefixEnd | Request::DisplayPanes | Request::SetSessionGroup | Request::SwitchClientTable | Request::LockClient | Request::SuspendClient | Request::DisplayPopup | Request::ConfirmBefore | Request::CommandPrompt | Request::RespawnWindow | Request::PopupInput | Request::ShowTextPopup | Request::StatusMessage | Request::CustomizeMode => Effects { state_dirty: true, ..no_effects() },
        Request::DisplayPaneSelect | Request::BindKey | Request::UnbindKey | Request::UnbindAll | Request::UnbindAllInTable | Request::SetOption | Request::SetOptionQuiet | Request::RefreshClient => Effects { meta_dirty: true, state_dirty: true, ..no_effects() },
        Request::BreakPane => Effects { after: Some(Event::AfterBreakPane), unzoom: true, meta_dirty: true, ..no_effects() },
        Request::JoinPane | Request::MovePane => Effects { after: if took { Some(Event::AfterJoinPane) } else { None }, unzoom: true, resize: took, meta_dirty: took, ..no_effects() },
        Request::PaneForwardInject => Effects { after: Some(Event::AfterJoinPane), resize: true, meta_dirty: true, ..no_effects() },
        Request::RespawnPane => Effects { after: Some(Event::AfterRespawnPane), ..no_effects() },
        Request::SourceFile => Effects { resize: true, meta_dirty: true, state_dirty: true, ..no_effects() },
        Request::LinkWindow => Effects { after: if took { Some(Event::WindowLinked) } else { None }, resize: took, meta_dirty: took, state_dirty: true, ..no_effects() },
        Request::UnlinkWindow => Effects { after: if took { Some(Event::WindowUnlinked) } else { None }, resize: took, meta_dirty: took, ..no_effects() },
        Request::SelectLayout | Request::NextLayout | Request::PrevLayout => Effects { unzoom: true, resize: true, meta_dirty: true, state_dirty: true, ..no_effects() },
        Request::FocusIn => Effects { after: Some(Event::PaneFocusIn), ..no_effects() },
        Request::FocusOut => Effects { after: Some(Event::PaneFocusOut), ..no_effects() },
        Request::ControlClientResize => Effects { resize: took, meta_dirty: took, state_dirty: took, ..no_effects() },
        _ => no_effects(),
    }
}

/// What a request brings with it. `took` tells whether it found what it is about.
pub fn effects(r: Request, took: bool) -> (e: Effects)
    ensures
        e == effects_of(r, took),
{
    let none = Effects {
        before: None,
        after: None,
        unzoom: false,
        resize: false,
        meta_dirty: false,
        state_dirty: false,
        awaits_echo: false,
    };
    match r {
        Request::NewWindow | Request::NewWindowPrint => Effects { before: Some(Event::BeforeNewWindow), after: Some(Event::AfterNewWindow), resize: true, meta_dirty: true, ..none },
        Request::SplitWindow | Request::SplitWindowPrint => Effects { before: Some(Event::BeforeSplitWindow), after: Some(Event::AfterSplitWindow), unzoom: true, resize: true, meta_dirty: true, ..none },
        Request::KillPane | Request::KillPaneById => Effects { before: Some(Event::BeforeKillPane), after: Some(Event::AfterKillPane), unzoom: true, resize: true, meta_dirty: true, ..none },
        Request::FocusWindow | Request::FocusWindowByName | Request::FocusWindowById => Effects { after: Some(Event::AfterSelectWindow), resize: took, meta_dirty: true, ..none },
        Request::FocusPane | Request::FocusPaneByIndex | Request::FocusPaneCmd => Effects { unzoom: took, meta_dirty: true, ..none },
        Request::ClientAttach => Effects { after: Some(Event::ClientAttached), ..none },
        Request::ClientDetach | Request::ForceDetachClient => Effects { after: Some(Event::ClientDetached), ..none },
        Request::ForceDetachClientByTty | Request::DetachAllOtherClients | Request::DetachAllClients => Effects { after: if took { Some(Event::ClientDetached) } else { None }, ..none },
        Request::SendText | Request::SendKey | Request::SendPaste | Request::SendKeys => Effects { awaits_echo: true, ..none },
        Request::ZoomPane => Effects { after: Some(Event::AfterResizePane), meta_dirty: true, state_dirty: true, ..none },
        Request::CopyEnter | Request::CopyYank => Effects { after: Some(Event::PaneModeChanged), ..none },
        Request::CopyEnterPageUp => Effects { after: if took { Some(Event::PaneModeChanged) } else { None }, awaits_echo: !took, ..none },
        Request::ClockMode => Effects { after: Some(Event::PaneModeChanged), state_dirty: true, ..none },
        Request::ClientSize => Effects { after: Some(Event::ClientResized), resize: true, ..none },
        Request::FocusWindowCmd | Request::PaneForwardExtract => Effects { resize: true, meta_dirty: true, ..none },
        Request::MouseDown | Request::PaneMouse | Request::PaneScroll | Request::SplitSetSizes => Effects { meta_dirty: took, state_dirty: took, awaits_echo: took, ..none },
        Request::MouseDownRight | Request::MouseDownMiddle | Request::MouseDrag | Request::MouseUp | Request::MouseUpRight | Request::MouseUpMiddle | Request::MouseMove | Request::ScrollUp | Request::ScrollDown => Effects { state_dirty: took, awaits_echo: took, ..none },
        Request::SplitResizeDone | Request::SetOptionOnlyIfUnset => Effects { meta_dirty: took, state_dirty: took, ..none },
        Request::NextWindow | Request::PrevWindow | Request::SelectWindow => Effects { before: Some(Event::BeforeSelectWindow), after: Some(Event::AfterSelectWindow), resize: took, meta_dirty: true, ..none },
        Request::RenameWindow => Effects { before: Some(Event::BeforeRenameWindow), after: Some(Event::AfterRenameWindow), meta_dirty: true, ..none },
        Request::SetPaneTitle | Request::LastPane => Effects { meta_dirty: true, ..none },
        Request::SelectPane => Effects { before: Some(Event::BeforeSelectPane), after: Some(Event::AfterSelectPane), meta_dirty: true, ..none },
        Request::KillWindow => Effects { after: Some(Event::WindowClosed), ..none },
        Request::RenameSession => Effects { before: Some(Event::BeforeRenameSession), after: Some(Event::AfterRenameSession), ..none },
        Request::ClaimSession => Effects { after: Some(Event::AfterRenameSession), resize: true, meta_dirty: true, state_dirty: true, ..none },
        Request::SwapPane => Effects { after: Some(Event::AfterSwapPane), unzoom: true, ..none },
        Request::ResizePane => Effects { after: Some(Event::AfterResizePane), unzoom: true, resize: true, meta_dirty: true, ..none },
        Request::ResizePaneAbsolute | Request::ResizePanePercent => Effects { after: Some(Event::AfterResizePane), unzoom: true, resize: true, ..none },
        Request::DisplayMessage | Request::SwitchClient | Request::DisplayMenu | Request::DisplayMenuDirect | Request::OverlayClose | Request::ConfirmRespond | Request::MenuSelect | Request::MenuNavigate | Request::ShowPromptHistory | Request::CustomizeNavigate | Request::CustomizeEdit | Request::CustomizeEditUpdate | Request::CustomizeEditConfirm | Request::CustomizeEditCancel | Request::CustomizeResetDefault | Request::CustomizeFilter => Effects { state_dirty: took, ..none },
        Request::LastWindow => Effects { after: Some(Event::AfterSelectWindow), meta_dirty: true, ..none },
        Request::RotateWindow => Effects { after: Some(Event::AfterRotateWindow), ..none },
        Request::PrefixBegin | Request::PrefixEnd | Request::DisplayPanes | Request::SetSessionGroup | Request::SwitchClientTable | Request::LockClient | Request::SuspendClient | Request::DisplayPopup | Request::ConfirmBefore | Request::CommandPrompt | Request::RespawnWindow | Request::PopupInput | Request::ShowTextPopup | Request::StatusMessage | Request::CustomizeMode => Effects { state_dirty: true, ..none },
        Request::DisplayPaneSelect | Request::BindKey | Request::UnbindKey | Request::UnbindAll | Request::UnbindAllInTable | Request::SetOption | Request::SetOptionQuiet | Request::RefreshClient => Effects { meta_dirty: true, state_dirty: true, ..none },
        Request::BreakPane => Effects { after: Some(Event::AfterBreakPane), unzoom: true, meta_dirty: true, ..none },
        Request::JoinPane | Request::MovePane => Effects { after: if took { Some(Event::AfterJoinPane) } else { None }, unzoom: true, resize: took, meta_dirty: took, ..none },
        Request::PaneForwardInject => Effects { after: Some(Event::AfterJoinPane), resize: true, meta_dirty: true, ..none },
        Request::RespawnPane => Effects { after: Some(Event::AfterRespawnPane), ..none },
        Request::SourceFile => Effects { resize: true, meta_dirty: true, state_dirty: true, ..none },
        Request::LinkWindow => Effects { after: if took { Some(Event::WindowLinked) } else { None }, resize: took, meta_dirty: took, state_dirty: true, ..none },
        Request::UnlinkWindow => Effects { after: if took { Some(Event::WindowUnlinked) } else { None }, resize: took, meta_dirty: took, ..none },
        Request::SelectLayout | Request::NextLayout | Request::PrevLayout => Effects { unzoom: true, resize: true, meta_dirty: true, state_dirty: true, ..none },
        Request::FocusIn => Effects { after: Some(Event::PaneFocusIn), ..none },
        Request::FocusOut => Effects { after: Some(Event::PaneFocusOut), ..none },
        Request::ControlClientResize => Effects { resize: took, meta_dirty: took, state_dirty: took, ..none },
        _ => none,
    }
}

/// Whether a request only asks for something.
pub open spec fn only_asks(r: Request) -> bool {
    match r {
        Request::CapturePane | Request::CapturePaneStyled | Request::CapturePaneRange | Request::SessionInfo | Request::SessionInfoFormat | Request::DumpLayout | Request::DumpState | Request::ListWindows | Request::ListWindowsTmux | Request::ListWindowsFormat | Request::ListTree | Request::WindowLayout | Request::WindowDump | Request::ListPanes | Request::ListPanesFormat | Request::ListAllPanes | Request::ListAllPanesFormat | Request::HasSession | Request::ListBuffers | Request::ListBuffersFormat | Request::ShowBuffer | Request::ShowBufferAt | Request::ShowNamedBuffer | Request::PaneForwardStatus | Request::ListKeys | Request::ShowOptions | Request::FindWindow | Request::ListClients | Request::ListClientsFormat | Request::ListCommands | Request::ShowEnvironment | Request::ShowHooks | Request::ShowOptionValue | Request::ShowWindowOptionValue | Request::ShowWindowOptions | Request::ChooseBuffer | Request::ServerInfo | Request::ShowMessages => true,
        _ => false,
    }
}

/// A request that only asks runs no hooks, and nothing has to be laid out or drawn for it.
pub proof fn asking_has_no_effects(r: Request, took: bool)
    requires
        only_asks(r),
    ensures
        effects_of(r, took) == no_effects(),
{
}

/// Hooks that run before a request are followed by those that run after it.
pub proof fn hooks_come_in_pairs(r: Request, took: bool)
    ensures
        effects_of(r, took).before is Some ==> effects_of(r, took).after is Some,
{
}

/// A request that changes how panes are laid out makes the windows be described anew, unless it
/// tells the size of a client, or gives a pane a size.
pub proof fn new_layout_is_described(r: Request, took: bool)
    requires
        effects_of(r, took).resize,
        r != Request::ClientSize,
        r != Request::ResizePaneAbsolute && r != Request::ResizePanePercent,
    ensures
        effects_of(r, took).meta_dirty,
{
}

} // verus!
